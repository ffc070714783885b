//! Metadata probes: what the resize planner needs to read from a file's
//! bytes. The dimension and EXIF readers are external collaborators whose
//! answers are functions of the bytes alone; their results carry names, and
//! the derived target is pinned to the resize rule on the named values.

use vstd::prelude::*;
use crate::options::Resize;
use crate::resize::{plan_resize, spec_plan, ResizeTarget};

verus! {

/// JPEG files open with the two-byte start-of-image marker.
pub open spec fn spec_is_jpeg(b: Seq<u8>) -> bool {
    b.len() >= 2 && b[0] == 0xFFu8 && b[1] == 0xD8u8
}

/// Whether the bytes are a JPEG container, by its start-of-image marker.
pub fn is_jpeg_bytes(bytes: &Vec<u8>) -> (r: bool)
    ensures
        r == spec_is_jpeg(bytes@),
{
    bytes.len() >= 2 && bytes[0] == 0xFF && bytes[1] == 0xD8
}

/// What the dimension probe answers for given bytes: the pixel width and
/// height read from the image header, or the reason they could not be.
pub uninterp spec fn dims_of(b: Seq<u8>) -> Result<(usize, usize), Seq<char>>;

/// What the EXIF probe answers for given bytes: the orientation tag's
/// value, nothing when the tag is absent, or the reason the container
/// could not be read.
pub uninterp spec fn exif_orientation_of(b: Seq<u8>) -> Result<Option<u32>, Seq<char>>;

/// A dimension answer with its message viewed as characters.
pub open spec fn dims_view(r: Result<(usize, usize), String>) -> Result<
    (usize, usize),
    Seq<char>,
> {
    match r {
        Result::Ok(d) => Result::Ok(d),
        Result::Err(m) => Result::Err(m@),
    }
}

/// An orientation answer with its message viewed as characters.
pub open spec fn orientation_view(r: Result<Option<u32>, String>) -> Result<
    Option<u32>,
    Seq<char>,
> {
    match r {
        Result::Ok(o) => Result::Ok(o),
        Result::Err(m) => Result::Err(m@),
    }
}

/// Relies on imagesize::blob_size: reads the pixel width and height from
/// the image header held in `bytes`, or reports why it could not. The
/// answer depends on the bytes alone.
#[verifier::external_body]
fn probe_image_dimensions(bytes: &Vec<u8>) -> (r: Result<(usize, usize), String>)
    ensures
        dims_view(r) == dims_of(bytes@),
{
    match imagesize::blob_size(bytes.as_slice()) {
        Ok(s) => Ok((s.width, s.height)),
        Err(e) => Err(format!("{}", e)),
    }
}

/// Relies on exif::Reader::read_from_container and Field::get_uint: reads
/// the EXIF orientation tag from the image held in `bytes`; an image
/// without the tag is not an error, an unreadable container is. The
/// answer depends on the bytes alone.
#[verifier::external_body]
fn probe_exif_orientation(bytes: &Vec<u8>) -> (r: Result<Option<u32>, String>)
    ensures
        orientation_view(r) == exif_orientation_of(bytes@),
{
    let mut cursor = std::io::Cursor::new(bytes.as_slice());
    match exif::Reader::new().read_from_container(&mut cursor) {
        Ok(data) => Ok(
            data.get_field(exif::Tag::Orientation, exif::In::PRIMARY).and_then(
                |f| f.value.get_uint(0),
            ),
        ),
        Err(e) => Err(format!("{}", e)),
    }
}

/// The orientation the planner corrects by: the EXIF tag's value only when
/// EXIF is kept and the bytes are a JPEG container, and the identity 1
/// otherwise or when the tag is absent.
pub open spec fn spec_effective_orientation(keep_exif: bool, b: Seq<u8>) -> u32 {
    if keep_exif && spec_is_jpeg(b) {
        match exif_orientation_of(b) {
            Result::Ok(Option::Some(v)) => v,
            Result::Ok(Option::None) => 1,
            Result::Err(_) => 1,
        }
    } else {
        1
    }
}

/// When the byte-level planner fails: the dimensions are unreadable, a
/// dimension does not fit the codec's 32 bits, or an attempted EXIF read
/// (EXIF kept and a JPEG container) cannot be completed. A missing
/// orientation tag is not a failure.
pub open spec fn spec_resize_scan_fails(keep_exif: bool, b: Seq<u8>) -> bool {
    ||| dims_of(b) is Err
    ||| (dims_of(b) matches Result::Ok(d) && (d.0 > u32::MAX || d.1 > u32::MAX))
    ||| (keep_exif && spec_is_jpeg(b) && exif_orientation_of(b) is Err)
}

/// ResizePlanner for one file: probe the natural dimensions, and the EXIF
/// orientation when EXIF is kept and the file is a JPEG, then apply the
/// resize rule. Fails exactly when a probe does; a returned target is the
/// rule applied to the probed dimensions under the effective orientation.
pub fn resize_target_for_bytes(resize: &Resize, keep_exif: bool, bytes: &Vec<u8>) -> (r: Result<
    ResizeTarget,
    String,
>)
    requires
        resize.well_formed(),
    ensures
        r is Err <==> spec_resize_scan_fails(keep_exif, bytes@),
        r matches Result::Ok(t) ==> (dims_of(bytes@) matches Result::Ok(d) && t == spec_plan(
            *resize,
            d.0 as u32,
            d.1 as u32,
            spec_effective_orientation(keep_exif, bytes@),
        )),
        r matches Result::Ok(t) ==> (resize.spec_count_set() == 1 ==> ((t.width is Some) != (
        t.height is Some))),
        r matches Result::Ok(t) ==> (resize.spec_count_set() == 0 ==> t.width is None
            && t.height is None),
{
    let dims = probe_image_dimensions(bytes);
    match dims {
        Result::Err(m) => Result::Err(m),
        Result::Ok((w, h)) => {
            if w > u32::MAX as usize || h > u32::MAX as usize {
                return Result::Err(String::from_str("Error reading image dimensions"));
            }
            let jpeg = is_jpeg_bytes(bytes);
            let orientation: u32 = if keep_exif && jpeg {
                match probe_exif_orientation(bytes) {
                    Result::Err(m) => {
                        return Result::Err(m);
                    },
                    Result::Ok(Option::Some(v)) => v,
                    Result::Ok(Option::None) => 1,
                }
            } else {
                1
            };
            proof {
                assert(orientation == spec_effective_orientation(keep_exif, bytes@));
                assert(!spec_resize_scan_fails(keep_exif, bytes@));
            }
            Result::Ok(plan_resize(resize, w as u32, h as u32, orientation))
        },
    }
}

} // verus!
