//! User-facing configuration: the command-line option types and the small
//! enumerations the rest of the pipeline decides on.

use vstd::prelude::*;

verus! {

/// What to do when the output file already exists.
#[derive(Copy, Clone, PartialEq, Eq, Structural, Debug)]
pub enum OverwritePolicy {
    /// Always overwrite.
    All,
    /// Never overwrite.
    Never,
    /// Overwrite only if the file to be overwritten is bigger.
    Bigger,
}

/// Output image format: convert to a fixed format or keep the input's.
#[derive(Copy, Clone, PartialEq, Eq, Structural, Debug)]
pub enum OutputFormat {
    Jpeg,
    Png,
    Webp,
    Tiff,
    Original,
}

/// How much output the run prints.
#[derive(Copy, Clone, PartialEq, Eq, Structural, Debug)]
pub enum VerboseLevel {
    /// Suppress all output.
    Quiet,
    /// Show only progress and final results.
    Progress,
    /// Show also skipped and error messages.
    WarningsAndErrors,
    /// Print all.
    All,
}

impl VerboseLevel {
    /// The numeric tier of this level; higher tiers include lower ones.
    pub open spec fn spec_level(self) -> u8 {
        match self {
            VerboseLevel::Quiet => 0,
            VerboseLevel::Progress => 1,
            VerboseLevel::WarningsAndErrors => 2,
            VerboseLevel::All => 3,
        }
    }

    pub fn level(&self) -> (r: u8)
        ensures
            r == self.spec_level(),
    {
        match self {
            VerboseLevel::Quiet => 0,
            VerboseLevel::Progress => 1,
            VerboseLevel::WarningsAndErrors => 2,
            VerboseLevel::All => 3,
        }
    }
}

/// JPEG chroma-subsampling choice as it arrives from the command line.
#[derive(Copy, Clone, PartialEq, Eq, Structural, Debug)]
pub enum JpegChromaSubsampling {
    ChromaSubsampling444,
    ChromaSubsampling422,
    ChromaSubsampling420,
    ChromaSubsampling411,
    Auto,
}

/// Chroma-subsampling mode as the codec understands it.
#[derive(Copy, Clone, PartialEq, Eq, Structural, Debug)]
pub enum ChromaSubsampling {
    CS444,
    CS422,
    CS420,
    CS411,
    Auto,
}

/// Quality-related command-line options.
#[derive(Clone, Debug)]
pub struct Compression {
    /// Output file quality in [0-100].
    pub quality: Option<u8>,
    /// Perform lossless compression.
    pub lossless: bool,
    /// Expected maximum output size in bytes.
    pub max_size: Option<u8>,
}

/// Resize request: at most one of the four fields may be set.
#[derive(Copy, Clone, Debug)]
pub struct Resize {
    /// Width of the output image; preserves aspect ratio if height is unset.
    pub width: Option<u32>,
    /// Height of the output image; preserves aspect ratio if width is unset.
    pub height: Option<u32>,
    /// Size of the longest edge of the image.
    pub long_edge: Option<u32>,
    /// Size of the shortest edge of the image.
    pub short_edge: Option<u32>,
}

impl Resize {
    /// How many of the four request fields are set.
    pub open spec fn spec_count_set(self) -> int {
        (if self.width is Some { 1int } else { 0int })
        + (if self.height is Some { 1int } else { 0int })
        + (if self.long_edge is Some { 1int } else { 0int })
        + (if self.short_edge is Some { 1int } else { 0int })
    }

    /// The request is well formed: the four modes are mutually exclusive.
    pub open spec fn well_formed(self) -> bool {
        self.spec_count_set() <= 1
    }

    /// Some resize was requested at all.
    pub open spec fn spec_is_requested(self) -> bool {
        self.spec_count_set() >= 1
    }

    pub fn is_requested(&self) -> (r: bool)
        ensures
            r == self.spec_is_requested(),
    {
        self.width.is_some() || self.height.is_some() || self.long_edge.is_some()
            || self.short_edge.is_some()
    }
}

/// Where output files go: an explicit folder, or next to each input.
#[derive(Clone, Debug)]
pub struct OutputDestination {
    /// Output folder.
    pub output: Option<String>,
    /// Write each output next to its input, overwriting original files.
    pub same_folder_as_input: bool,
}

/// Everything the command line supplies, already parsed and validated.
#[derive(Clone, Debug)]
pub struct CommandLineArgs {
    pub compression: Compression,
    pub resize: Resize,
    pub output_destination: OutputDestination,
    /// Convert to the selected output format, or keep the original.
    pub format: OutputFormat,
    /// Level for PNG optimization, in [0-6].
    pub png_opt_level: u8,
    /// Use zopfli when optimizing PNG files.
    pub zopfli: bool,
    /// Keep EXIF info during compression.
    pub exif: bool,
    /// Keep original file date information.
    pub keep_dates: bool,
    /// Suffix appended to the output file name's stem.
    pub suffix: Option<String>,
    /// If input is a folder, scan subfolders too.
    pub recursive: bool,
    /// Mirror the input folder structure under the output root.
    pub keep_structure: bool,
    /// Do not write output files.
    pub dry_run: bool,
    /// Number of parallel jobs; 0 asks for one per available processor.
    pub threads: u32,
    /// What to do when the output file already exists.
    pub overwrite: OverwritePolicy,
    /// Chroma subsampling used when writing JPEG output.
    pub jpeg_chroma_subsampling: JpegChromaSubsampling,
    /// Write baseline JPEG instead of progressive.
    pub jpeg_baseline: bool,
    /// Suppress all output.
    pub quiet: bool,
    /// How much output the run prints.
    pub verbose: VerboseLevel,
    /// Input files and folders.
    pub files: Vec<String>,
}

} // verus!
