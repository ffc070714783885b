//! The codec boundary: per-file parameter building, and the calls into the
//! caesium codec. The codec itself is an external collaborator; what it
//! returns for given bytes is not modelled, and every caller handles every
//! outcome.

use vstd::prelude::*;
use crate::compressor::{gate_outcome, CompressionOptions, PostCodecAction};
use crate::options::{ChromaSubsampling, OutputFormat, OverwritePolicy};
use crate::overwrite::spec_should_skip;
use crate::resize::ResizeTarget;

verus! {

#[verifier::external_type_specification]
#[verifier::external_body]
pub struct ExCSParameters(caesium::parameters::CSParameters);

/// Per-file codec parameters as this library models them. A width or
/// height of 0 leaves that side unconstrained.
#[derive(Copy, Clone, Debug)]
pub struct CodecParameters {
    pub quality: u8,
    pub lossless: bool,
    pub format: OutputFormat,
    pub png_opt_level: u8,
    pub zopfli: bool,
    pub keep_metadata: bool,
    pub jpeg_chroma_subsampling: ChromaSubsampling,
    pub jpeg_baseline: bool,
    pub max_size: Option<u8>,
    pub width: u32,
    pub height: u32,
}

/// Build one job's codec parameters from the shared configuration and the
/// resize target, when one was derived. An unset quality falls back to the
/// codec's default of 80.
pub fn build_codec_parameters(options: &CompressionOptions, target: Option<ResizeTarget>) -> (p:
    CodecParameters)
    ensures
        options.quality matches Option::Some(q) ==> p.quality == q,
        options.quality is None ==> p.quality == 80,
        p.lossless == options.lossless,
        p.format == options.format,
        p.png_opt_level == options.png_opt_level,
        p.zopfli == options.zopfli,
        p.keep_metadata == options.exif,
        p.jpeg_chroma_subsampling == options.jpeg_chroma_subsampling,
        p.jpeg_baseline == options.jpeg_baseline,
        p.max_size == options.max_size,
        target is None ==> p.width == 0 && p.height == 0,
        target matches Option::Some(t) ==> p.width == (match t.width {
            Option::Some(w) => w,
            Option::None => 0u32,
        }),
        target matches Option::Some(t) ==> p.height == (match t.height {
            Option::Some(h) => h,
            Option::None => 0u32,
        }),
{
    let (width, height): (u32, u32) = match target {
        Option::None => (0, 0),
        Option::Some(t) => (
            match t.width {
                Option::Some(w) => w,
                Option::None => 0,
            },
            match t.height {
                Option::Some(h) => h,
                Option::None => 0,
            },
        ),
    };
    CodecParameters {
        quality: match options.quality {
            Option::Some(q) => q,
            Option::None => 80,
        },
        lossless: options.lossless,
        format: options.format,
        png_opt_level: options.png_opt_level,
        zopfli: options.zopfli,
        keep_metadata: options.exif,
        jpeg_chroma_subsampling: options.jpeg_chroma_subsampling,
        jpeg_baseline: options.jpeg_baseline,
        max_size: options.max_size,
        width,
        height,
    }
}

/// Relies on caesium::compress_in_memory: compresses the image held in
/// `bytes` according to `params` and returns the compressed bytes, or the
/// codec's error rendered as text.
#[verifier::external_body]
fn codec_compress_plain(bytes: Vec<u8>, params: &caesium::parameters::CSParameters) -> (r: Result<
    Vec<u8>,
    String,
>) {
    caesium::compress_in_memory(bytes, params).map_err(|e| format!("{} [{}]", e.message, e.code))
}

/// Relies on caesium::compress_to_size_in_memory: compresses the image
/// held in `bytes`, searching for quality settings that fit
/// `max_output_size` and falling back to the smallest attempt. The search
/// multiplies the bound by a small constant, so the bound must leave
/// headroom.
#[verifier::external_body]
fn codec_compress_to_size(
    bytes: Vec<u8>,
    params: &mut caesium::parameters::CSParameters,
    max_output_size: usize,
) -> (r: Result<Vec<u8>, String>)
    requires
        max_output_size <= usize::MAX / 2,
{
    caesium::compress_to_size_in_memory(bytes, params, max_output_size, true)
        .map_err(|e| format!("{} [{}]", e.message, e.code))
}

/// Relies on caesium::convert_in_memory: compresses the image held in
/// `bytes` and converts it to the given format.
#[verifier::external_body]
fn codec_convert(
    bytes: Vec<u8>,
    params: &caesium::parameters::CSParameters,
    format: OutputFormat,
) -> (r: Result<Vec<u8>, String>) {
    let target = match format {
        OutputFormat::Jpeg => caesium::SupportedFileTypes::Jpeg,
        OutputFormat::Png => caesium::SupportedFileTypes::Png,
        OutputFormat::Webp => caesium::SupportedFileTypes::WebP,
        OutputFormat::Tiff => caesium::SupportedFileTypes::Tiff,
        OutputFormat::Original => caesium::SupportedFileTypes::Unkn,
    };
    caesium::convert_in_memory(bytes, params, target)
        .map_err(|e| format!("{} [{}]", e.message, e.code))
}

/// One codec invocation: a maximum output size takes the size-searching
/// path, a format conversion the converting one, and everything else a
/// plain compression. Nothing is assumed about what the codec answers.
pub fn run_codec(
    bytes: Vec<u8>,
    params: &mut caesium::parameters::CSParameters,
    format: OutputFormat,
    max_size: Option<u8>,
) -> (r: Result<Vec<u8>, String>) {
    match max_size {
        Option::Some(m) => codec_compress_to_size(bytes, params, m as usize),
        Option::None => match format {
            OutputFormat::Original => codec_compress_plain(bytes, params),
            f => codec_convert(bytes, params, f),
        },
    }
}

/// Compress one file and run the overwrite gate on the candidate: whatever
/// the codec answers, a skip only happens over an existing output that the
/// policy protects, and bytes are only handed back for writing when the
/// gate does not skip.
pub fn compress_and_gate(
    bytes: Vec<u8>,
    params: &mut caesium::parameters::CSParameters,
    format: OutputFormat,
    max_size: Option<u8>,
    policy: OverwritePolicy,
    output_exists: bool,
    original_size: u64,
) -> (r: PostCodecAction)
    ensures
        policy is All ==> !(r is SkipJob),
        !output_exists ==> !(r is SkipJob),
        r is SkipJob ==> output_exists,
        output_exists && policy is Never ==> !(r matches PostCodecAction::WriteBytes(_)),
        r matches PostCodecAction::WriteBytes(b) ==> !spec_should_skip(
            policy,
            output_exists,
            original_size,
            b.len() as u64,
        ),
{
    let codec_result = run_codec(bytes, params, format, max_size);
    gate_outcome(policy, output_exists, original_size, codec_result)
}

} // verus!
