//! Core of a batch image-compression tool: output-path computation,
//! resize-parameter derivation, overwrite decisions, per-job planning and
//! result aggregation, all with verified contracts. Filesystem access,
//! argument parsing and rendering live outside this crate.

pub mod codec;
pub mod compressor;
pub mod options;
pub mod overwrite;
pub mod paths;
pub mod probes;
pub mod report;
pub mod resize;

pub use options::OverwritePolicy;
pub use options::OutputFormat;
pub use options::VerboseLevel;
pub use options::CommandLineArgs;
pub use options::Compression;
pub use options::Resize;
pub use options::OutputDestination;
