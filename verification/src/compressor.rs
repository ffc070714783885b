//! JobExecutor core: the per-job decision pipeline. Each input file is
//! planned (output directory, output path, dry-run short cut), compressed,
//! gated against the overwrite policy, and folded into exactly one
//! `CompressionResult`. The filesystem work around these decisions is the
//! caller's; every decision itself is verified here.

use vstd::prelude::*;
use crate::options::{
    ChromaSubsampling, CommandLineArgs, JpegChromaSubsampling, OutputFormat, OverwritePolicy,
    Resize,
};
use crate::overwrite::{decide_overwrite, spec_should_skip, OverwriteDecision};
use crate::paths::{
    opt_str_view, parent_of, resolve_output_path, spec_format_extension, spec_parent,
    spec_resolve, spec_with_extension, with_extension,
};

verus! {

/// How one job ended.
#[derive(Copy, Clone, PartialEq, Eq, Structural, Debug)]
pub enum CompressionStatus {
    Success,
    Skipped,
    Error,
}

/// The one record each job produces.
#[derive(Clone, Debug)]
pub struct CompressionResult {
    pub original_path: String,
    pub output_path: String,
    pub original_size: u64,
    pub compressed_size: u64,
    pub status: CompressionStatus,
    pub message: String,
}

/// Process-wide, read-only configuration shared by every job.
#[derive(Clone, Debug)]
pub struct CompressionOptions {
    pub quality: Option<u8>,
    pub lossless: bool,
    pub output_folder: Option<String>,
    pub same_folder_as_input: bool,
    pub overwrite_policy: OverwritePolicy,
    pub format: OutputFormat,
    pub suffix: Option<String>,
    pub keep_structure: bool,
    pub width: Option<u32>,
    pub height: Option<u32>,
    pub long_edge: Option<u32>,
    pub short_edge: Option<u32>,
    pub max_size: Option<u8>,
    pub keep_dates: bool,
    pub exif: bool,
    pub png_opt_level: u8,
    pub jpeg_chroma_subsampling: ChromaSubsampling,
    pub jpeg_baseline: bool,
    pub zopfli: bool,
    pub base_path: String,
}

/// The job steps that can fail around the codec call, each with its own
/// report message.
#[derive(Copy, Clone, PartialEq, Eq, Structural, Debug)]
pub enum JobStage {
    Metadata,
    OutputDirectory,
    PathResolution,
    ResizeMetadata,
    FileWrite,
    Timestamp,
}

/// Size of the worker pool: the available parallelism when 0 workers are
/// requested, otherwise the requested count capped by the available one.
pub fn get_parallelism_count(requested_threads: u32, available_threads: usize) -> (r: usize)
    ensures
        requested_threads == 0 ==> r == available_threads,
        requested_threads > 0 ==> r == (if requested_threads as int <= available_threads as int {
            requested_threads as int
        } else {
            available_threads as int
        }),
{
    if requested_threads == 0 {
        available_threads
    } else if (requested_threads as u64) <= (available_threads as u64) {
        requested_threads as usize
    } else {
        available_threads
    }
}

/// The chroma-subsampling mode the codec is asked for, one for one from the
/// command-line choice.
pub fn parse_jpeg_chroma_subsampling(arg: JpegChromaSubsampling) -> (r: ChromaSubsampling)
    ensures
        arg is ChromaSubsampling444 ==> r is CS444,
        arg is ChromaSubsampling422 ==> r is CS422,
        arg is ChromaSubsampling420 ==> r is CS420,
        arg is ChromaSubsampling411 ==> r is CS411,
        arg is Auto ==> r is Auto,
{
    match arg {
        JpegChromaSubsampling::ChromaSubsampling444 => ChromaSubsampling::CS444,
        JpegChromaSubsampling::ChromaSubsampling422 => ChromaSubsampling::CS422,
        JpegChromaSubsampling::ChromaSubsampling420 => ChromaSubsampling::CS420,
        JpegChromaSubsampling::ChromaSubsampling411 => ChromaSubsampling::CS411,
        JpegChromaSubsampling::Auto => ChromaSubsampling::Auto,
    }
}

fn clone_opt_string(o: &Option<String>) -> (r: Option<String>)
    ensures
        r == *o,
{
    match o {
        Option::None => Option::None,
        Option::Some(s) => Option::Some(s.clone()),
    }
}

/// The shared job configuration, taken field by field from the parsed
/// command line and the discovered base directory.
pub fn build_compression_options(args: &CommandLineArgs, base_path: &str) -> (r: CompressionOptions)
    ensures
        r.quality == args.compression.quality,
        r.lossless == args.compression.lossless,
        r.output_folder == args.output_destination.output,
        r.same_folder_as_input == args.output_destination.same_folder_as_input,
        r.overwrite_policy == args.overwrite,
        r.format == args.format,
        r.suffix == args.suffix,
        r.keep_structure == args.keep_structure,
        r.width == args.resize.width,
        r.height == args.resize.height,
        r.long_edge == args.resize.long_edge,
        r.short_edge == args.resize.short_edge,
        r.max_size == args.compression.max_size,
        r.keep_dates == args.keep_dates,
        r.exif == args.exif,
        r.png_opt_level == args.png_opt_level,
        args.jpeg_chroma_subsampling is ChromaSubsampling444 ==> r.jpeg_chroma_subsampling is CS444,
        args.jpeg_chroma_subsampling is ChromaSubsampling422 ==> r.jpeg_chroma_subsampling is CS422,
        args.jpeg_chroma_subsampling is ChromaSubsampling420 ==> r.jpeg_chroma_subsampling is CS420,
        args.jpeg_chroma_subsampling is ChromaSubsampling411 ==> r.jpeg_chroma_subsampling is CS411,
        args.jpeg_chroma_subsampling is Auto ==> r.jpeg_chroma_subsampling is Auto,
        r.jpeg_baseline == args.jpeg_baseline,
        r.zopfli == args.zopfli,
        r.base_path@ == base_path@,
{
    CompressionOptions {
        quality: args.compression.quality,
        lossless: args.compression.lossless,
        output_folder: clone_opt_string(&args.output_destination.output),
        same_folder_as_input: args.output_destination.same_folder_as_input,
        overwrite_policy: args.overwrite,
        format: args.format,
        suffix: clone_opt_string(&args.suffix),
        keep_structure: args.keep_structure,
        width: args.resize.width,
        height: args.resize.height,
        long_edge: args.resize.long_edge,
        short_edge: args.resize.short_edge,
        max_size: args.compression.max_size,
        keep_dates: args.keep_dates,
        exif: args.exif,
        png_opt_level: args.png_opt_level,
        jpeg_chroma_subsampling: parse_jpeg_chroma_subsampling(args.jpeg_chroma_subsampling),
        jpeg_baseline: args.jpeg_baseline,
        zopfli: args.zopfli,
        base_path: String::from_str(base_path),
    }
}

/// The resize request held in the shared configuration.
pub fn resize_request(options: &CompressionOptions) -> (r: Resize)
    ensures
        r.width == options.width,
        r.height == options.height,
        r.long_edge == options.long_edge,
        r.short_edge == options.short_edge,
{
    Resize {
        width: options.width,
        height: options.height,
        long_edge: options.long_edge,
        short_edge: options.short_edge,
    }
}

/// The fixed report message for a failed job step.
pub fn stage_message(stage: JobStage) -> (r: &'static str)
    ensures
        stage is Metadata ==> r@ == ("Error reading file metadata")@,
        stage is OutputDirectory ==> r@ == ("Error determining output directory")@,
        stage is PathResolution ==> r@ == ("Error computing output path")@,
        stage is ResizeMetadata ==> r@ == ("Error reading image dimensions")@,
        stage is FileWrite ==> r@ == ("Error writing output file")@,
        stage is Timestamp ==> r@ == ("Error preserving file dates")@,
{
    match stage {
        JobStage::Metadata => "Error reading file metadata",
        JobStage::OutputDirectory => "Error determining output directory",
        JobStage::PathResolution => "Error computing output path",
        JobStage::ResizeMetadata => "Error reading image dimensions",
        JobStage::FileWrite => "Error writing output file",
        JobStage::Timestamp => "Error preserving file dates",
    }
}

/// A job that failed: the message says which step went wrong, and no bytes
/// are reported as written.
pub fn error_result(
    original_path: &str,
    output_path: &str,
    original_size: u64,
    message: String,
) -> (r: CompressionResult)
    ensures
        r.status is Error,
        r.original_path@ == original_path@,
        r.output_path@ == output_path@,
        r.original_size == original_size,
        r.compressed_size == 0,
        r.message == message,
{
    CompressionResult {
        original_path: String::from_str(original_path),
        output_path: String::from_str(output_path),
        original_size,
        compressed_size: 0,
        status: CompressionStatus::Error,
        message,
    }
}

/// A job skipped by the overwrite policy: reported as a no-op, with the
/// size field set to the original size rather than the candidate's.
pub fn skipped_result(original_path: &str, output_path: &str, original_size: u64) -> (r:
    CompressionResult)
    ensures
        r.status is Skipped,
        r.original_path@ == original_path@,
        r.output_path@ == output_path@,
        r.original_size == original_size,
        r.compressed_size == original_size,
        r.message@ == Seq::<char>::empty(),
{
    CompressionResult {
        original_path: String::from_str(original_path),
        output_path: String::from_str(output_path),
        original_size,
        compressed_size: original_size,
        status: CompressionStatus::Skipped,
        message: String::new(),
    }
}

/// A job that wrote its output: reports the written size.
pub fn success_result(
    original_path: &str,
    output_path: &str,
    original_size: u64,
    written_size: u64,
) -> (r: CompressionResult)
    ensures
        r.status is Success,
        r.original_path@ == original_path@,
        r.output_path@ == output_path@,
        r.original_size == original_size,
        r.compressed_size == written_size,
        r.message@ == Seq::<char>::empty(),
{
    CompressionResult {
        original_path: String::from_str(original_path),
        output_path: String::from_str(output_path),
        original_size,
        compressed_size: written_size,
        status: CompressionStatus::Success,
        message: String::new(),
    }
}

/// A dry-run job: all planning succeeded, nothing was compressed or
/// written, and the compressed size stays at its default.
pub fn dry_run_result(original_path: &str, output_path: &str, original_size: u64) -> (r:
    CompressionResult)
    ensures
        r.status is Success,
        r.original_path@ == original_path@,
        r.output_path@ == output_path@,
        r.original_size == original_size,
        r.compressed_size == 0,
        r.message@ == Seq::<char>::empty(),
{
    CompressionResult {
        original_path: String::from_str(original_path),
        output_path: String::from_str(output_path),
        original_size,
        compressed_size: 0,
        status: CompressionStatus::Success,
        message: String::new(),
    }
}

/// The suffix characters appended to each output stem; none configured
/// means none appended.
pub open spec fn spec_suffix_chars(suffix: Option<String>) -> Seq<char> {
    match suffix {
        Option::Some(s) => s@,
        Option::None => Seq::empty(),
    }
}

/// The directory the output goes under: the input's parent when outputs go
/// next to their inputs, else the configured output folder.
pub open spec fn spec_planned_dir(options: CompressionOptions, input: Seq<char>) -> Option<
    Seq<char>,
> {
    if options.same_folder_as_input {
        spec_parent(input)
    } else {
        opt_str_view(options.output_folder)
    }
}

/// The full planned output path: the PathResolver rule under the planned
/// directory, with the extension the target format dictates when the job
/// converts formats.
pub open spec fn spec_planned_path(options: CompressionOptions, input: Seq<char>) -> Option<
    Seq<char>,
> {
    match spec_planned_dir(options, input) {
        Option::None => Option::None,
        Option::Some(dir) => match spec_resolve(
            dir,
            input,
            options.base_path@,
            options.keep_structure,
            spec_suffix_chars(options.suffix),
        ) {
            Option::None => Option::None,
            Option::Some(p) => Option::Some(
                if options.format is Original {
                    p
                } else {
                    spec_with_extension(p, spec_format_extension(options.format))
                },
            ),
        },
    }
}

/// What the planning phase of one job ends in: a finished record (an early
/// error, or a dry-run success), or the resolved path to compress into.
pub enum JobPlan {
    Finished(CompressionResult),
    Compress { output_path: String },
}

/// Plan one job up to the codec call: pick the output directory, resolve
/// the output path, and stop early on a dry run.
pub fn plan_job(
    options: &CompressionOptions,
    input_path: &str,
    original_size: u64,
    dry_run: bool,
) -> (r: JobPlan)
    ensures
        (r matches JobPlan::Finished(res) ==> res.original_path@ == input_path@
            && res.original_size == original_size),
        spec_planned_dir(*options, input_path@) is None ==> (r matches JobPlan::Finished(res)
            && res.status is Error && res.message@ == ("Error determining output directory")@
            && res.compressed_size == 0),
        spec_planned_dir(*options, input_path@) is Some && spec_planned_path(
            *options,
            input_path@,
        ) is None ==> (r matches JobPlan::Finished(res) && res.status is Error && res.message@
            == ("Error computing output path")@ && res.compressed_size == 0),
        spec_planned_path(*options, input_path@) matches Option::Some(p) ==> dry_run ==> (
        r matches JobPlan::Finished(res) && res.status is Success && res.compressed_size == 0
            && res.output_path@ == p),
        spec_planned_path(*options, input_path@) matches Option::Some(p) ==> !dry_run ==> (
        r matches JobPlan::Compress { output_path } && output_path@ == p),
{
    let dir: String = if options.same_folder_as_input {
        match parent_of(input_path) {
            Option::None => {
                return JobPlan::Finished(
                    error_result(
                        input_path,
                        "",
                        original_size,
                        String::from_str(stage_message(JobStage::OutputDirectory)),
                    ),
                );
            },
            Option::Some(d) => d,
        }
    } else {
        match &options.output_folder {
            Option::None => {
                return JobPlan::Finished(
                    error_result(
                        input_path,
                        "",
                        original_size,
                        String::from_str(stage_message(JobStage::OutputDirectory)),
                    ),
                );
            },
            Option::Some(d) => d.clone(),
        }
    };
    let suffix: &str = match &options.suffix {
        Option::Some(s) => s.as_str(),
        Option::None => {
            let empty = "";
            proof {
                reveal_strlit("");
                assert(empty@ =~= Seq::<char>::empty());
            }
            empty
        },
    };
    let resolved: String = match resolve_output_path(
        dir.as_str(),
        input_path,
        options.base_path.as_str(),
        options.keep_structure,
        suffix,
    ) {
        Option::None => {
            return JobPlan::Finished(
                error_result(
                    input_path,
                    "",
                    original_size,
                    String::from_str(stage_message(JobStage::PathResolution)),
                ),
            );
        },
        Option::Some(p) => p,
    };
    let output_path: String = match options.format {
        OutputFormat::Original => resolved,
        f => with_extension(resolved.as_str(), crate::paths::format_extension(f)),
    };
    if dry_run {
        JobPlan::Finished(dry_run_result(input_path, output_path.as_str(), original_size))
    } else {
        JobPlan::Compress { output_path }
    }
}

/// What to do once the codec has answered: write its bytes, skip the job,
/// or record the codec's failure.
pub enum PostCodecAction {
    WriteBytes(Vec<u8>),
    SkipJob,
    Fail(String),
}

/// Fold the codec's answer and the overwrite decision into one action: a
/// codec failure is recorded, and a successful candidate is written unless
/// the overwrite decision on its size is to skip.
pub fn gate_outcome(
    policy: OverwritePolicy,
    output_exists: bool,
    original_size: u64,
    codec_result: Result<Vec<u8>, String>,
) -> (r: PostCodecAction)
    ensures
        (codec_result matches Result::Err(m) ==> r matches PostCodecAction::Fail(f) && f == m),
        (codec_result matches Result::Ok(b) ==> (if spec_should_skip(
            policy,
            output_exists,
            original_size,
            b.len() as u64,
        ) {
            r is SkipJob
        } else {
            r matches PostCodecAction::WriteBytes(w) && w == b
        })),
{
    match codec_result {
        Result::Err(m) => PostCodecAction::Fail(m),
        Result::Ok(b) => {
            let candidate_size = b.len() as u64;
            match decide_overwrite(policy, output_exists, original_size, candidate_size) {
                OverwriteDecision::Skip => PostCodecAction::SkipJob,
                OverwriteDecision::Proceed => PostCodecAction::WriteBytes(b),
            }
        },
    }
}

} // verus!
