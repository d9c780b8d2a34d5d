use vstd::prelude::*;

use crate::args::FileFormat;
use crate::canvas::{canvas_of, is_canvas_side, pack, unpack, unpack_result, UnpackError};
use image::{ImageDecoder, ImageEncoder};

verus! {

#[verifier::external_type_specification]
#[verifier::external_body]
pub struct ExImageError(image::ImageError);

/// The PNG file that image's encoder writes for a `side` by `side` grayscale plane.
pub uninterp spec fn png_file(plane: Seq<u8>, side: u32) -> Seq<u8>;

/// The decimal digits of `n`, in ASCII.
pub open spec fn decimal(n: nat) -> Seq<u8>
    decreases n,
{
    if n < 10 {
        seq![(48 + n) as u8]
    } else {
        decimal(n / 10).push((48 + n % 10) as u8)
    }
}

/// The ASCII bytes of `s`.
pub open spec fn ascii(s: Seq<char>) -> Seq<u8> {
    s.map_values(|c: char| c as u8)
}

/// The PAM file for a `side` by `side` grayscale plane: its header, then the samples.
pub open spec fn pam_file(plane: Seq<u8>, side: u32) -> Seq<u8> {
    ascii("P7\nWIDTH "@) + decimal(side as nat) + ascii("\nHEIGHT "@) + decimal(side as nat)
        + ascii("\nDEPTH 1\nMAXVAL 255\nTUPLTYPE GRAYSCALE\nENDHDR\n"@) + plane
}

/// The pixel bytes that image's decoder reads from a PNG file no wider or higher than
/// `MAX_DECODED_SIDE`, or `None` where it refuses the file.
pub uninterp spec fn png_plane(file: Seq<u8>) -> Option<Seq<u8>>;

/// The pixel bytes that image's decoder reads from a PNM file no wider or higher than
/// `MAX_DECODED_SIDE`, or `None` where it refuses the file.
pub uninterp spec fn pgm_plane(file: Seq<u8>) -> Option<Seq<u8>>;

/// The largest width and height of an image file that is decoded. A plane holds at most
/// eight bytes per pixel, so its size stays below 2^31: it can be allocated on any
/// target, and image's PNM decoder, which counts it in a `u32`, does not overflow.
pub const MAX_DECODED_SIDE: u32 = 16383;

/// The container file of `format` for a `side` by `side` grayscale plane.
pub open spec fn file_of(format: FileFormat, plane: Seq<u8>, side: u32) -> Seq<u8> {
    match format {
        FileFormat::Png => png_file(plane, side),
        FileFormat::Pgm => pam_file(plane, side),
    }
}

/// The pixel bytes decoded from a container file of `format`, if it can be decoded.
pub open spec fn plane_of(format: FileFormat, file: Seq<u8>) -> Option<Seq<u8>> {
    match format {
        FileFormat::Png => png_plane(file),
        FileFormat::Pgm => pgm_plane(file),
    }
}

/// Relies on image's `PngEncoder::write_image` (8-bit grayscale, written to memory): the
/// bytes depend on the plane and its size alone, and only a zero side is refused. It
/// panics unless the plane holds exactly `side * side` bytes.
#[verifier::external_body]
fn encode_png(plane: &Vec<u8>, side: u32) -> (r: Result<Vec<u8>, image::ImageError>)
    requires
        plane@.len() == side as int * side as int,
    ensures
        side > 0 ==> r is Ok,
        r matches Ok(b) ==> b@ == png_file(plane@, side),
{
    let mut out: Vec<u8> = Vec::new();
    image::codecs::png::PngEncoder::new(&mut out).write_image(
        plane,
        side,
        side,
        image::ColorType::L8,
    )?;
    Ok(out)
}

/// Relies on image's `PnmEncoder::write_image` (8-bit grayscale, written to memory): it
/// writes a PAM header (`P7`, the width, height, depth 1, maxval 255 and tuple type
/// `GRAYSCALE`) and then the samples as they are, and writing to memory does not fail.
/// It panics unless the plane holds exactly `side * side` bytes.
#[verifier::external_body]
fn encode_pgm(plane: &Vec<u8>, side: u32) -> (r: Result<Vec<u8>, image::ImageError>)
    requires
        plane@.len() == side as int * side as int,
    ensures
        r is Ok,
        r matches Ok(b) ==> b@ == pam_file(plane@, side),
{
    let mut out: Vec<u8> = Vec::new();
    image::codecs::pnm::PnmEncoder::new(&mut out).write_image(
        plane,
        side,
        side,
        image::ColorType::L8,
    )?;
    Ok(out)
}

/// Relies on image's `PngDecoder` (`with_limits`, `total_bytes`, `read_image`): whether
/// the file is decoded, and the pixel bytes, depend on the file alone. A file wider or
/// higher than `MAX_DECODED_SIDE` is refused with image's limit error after its header
/// is read, before the plane is allocated.
#[verifier::external_body]
fn decode_png(file: &Vec<u8>) -> (r: Result<Vec<u8>, image::ImageError>)
    ensures
        r is Ok <==> png_plane(file@) is Some,
        r matches Ok(p) ==> png_plane(file@) == Some(p@),
{
    let mut limits = image::io::Limits::no_limits();
    limits.max_image_width = Some(MAX_DECODED_SIDE);
    limits.max_image_height = Some(MAX_DECODED_SIDE);
    let cursor = std::io::Cursor::new(file.as_slice());
    let decoder = image::codecs::png::PngDecoder::with_limits(cursor, limits)?;
    let mut plane = vec![0u8; decoder.total_bytes() as usize];
    decoder.read_image(&mut plane)?;
    Ok(plane)
}

/// Relies on image's `PnmDecoder` (`new`, `set_limits`, `total_bytes`, `read_image`):
/// whether the file is decoded, and the pixel bytes, depend on the file alone. A file
/// wider or higher than `MAX_DECODED_SIDE` is refused with image's limit error before
/// anything is read, since the decoder's byte count would overflow.
#[verifier::external_body]
fn decode_pgm(file: &Vec<u8>) -> (r: Result<Vec<u8>, image::ImageError>)
    ensures
        r is Ok <==> pgm_plane(file@) is Some,
        r matches Ok(p) ==> pgm_plane(file@) == Some(p@),
{
    let mut decoder = image::codecs::pnm::PnmDecoder::new(std::io::Cursor::new(file.as_slice()))?;
    let mut limits = image::io::Limits::no_limits();
    limits.max_image_width = Some(MAX_DECODED_SIDE);
    limits.max_image_height = Some(MAX_DECODED_SIDE);
    decoder.set_limits(limits)?;
    let mut plane = vec![0u8; decoder.total_bytes() as usize];
    decoder.read_image(&mut plane)?;
    Ok(plane)
}

/// Why a container could not be turned back into the payload.
#[derive(Debug)]
pub enum DecodeError {
    /// The container could not be decoded.
    Image(image::ImageError),
    /// The decoded plane holds no valid payload.
    Unpack(UnpackError),
}

/// Packs `data` into the smallest square canvas and encodes it as a grayscale image
/// of `format` (PNG, or PAM for `Pgm`).
pub fn encode_data(data: Vec<u8>, format: FileFormat) -> (r: Result<Vec<u8>, image::ImageError>)
    requires
        data@.len() + 8 <= usize::MAX / 2,
    ensures
        r is Ok,
        r matches Ok(b) ==> exists|side: u32|
            is_canvas_side(data@.len(), side as nat) && b@ == file_of(
                format,
                canvas_of(data@, side as nat),
                side,
            ),
{
    let ghost payload = data@;
    let canvas = pack(data);
    let r = match format {
        FileFormat::Png => encode_png(&canvas.pixels, canvas.width),
        FileFormat::Pgm => encode_pgm(&canvas.pixels, canvas.width),
    };
    proof {
        if r is Ok {
            assert(is_canvas_side(payload.len(), canvas.width as nat));
        }
    }
    r
}

/// Decodes a grayscale image of `format` and recovers the payload packed in it.
pub fn decode_data(file: &Vec<u8>, format: FileFormat) -> (r: Result<Vec<u8>, DecodeError>)
    ensures
        r matches Err(DecodeError::Image(_)) <==> plane_of(format, file@) is None,
        plane_of(format, file@) matches Some(plane) ==> match r {
            Ok(p) => unpack_result(plane) == Ok::<Seq<u8>, UnpackError>(p@),
            Err(DecodeError::Unpack(e)) => unpack_result(plane) == Err::<Seq<u8>, UnpackError>(e),
            Err(DecodeError::Image(_)) => false,
        },
{
    let decoded = match format {
        FileFormat::Png => decode_png(file),
        FileFormat::Pgm => decode_pgm(file),
    };
    match decoded {
        Err(e) => Err(DecodeError::Image(e)),
        Ok(plane) => match unpack(&plane) {
            Ok(p) => Ok(p),
            Err(e) => Err(DecodeError::Unpack(e)),
        },
    }
}

} // verus!
