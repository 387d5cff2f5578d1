//! Ticket photos: one JPEG per ticket, no side longer than 1280 pixels.

use crate::errors::ErrResponse;
use crate::text::{decimal, decimal_spec};
use vstd::prelude::*;

verus! {

/// The directory that photos are kept in.
pub const PHOTOS_PATH: &'static str = "data/tickets/photos";

/// The longest side, in pixels, that a stored photo may have.
pub const MAX_SIDE: u32 = 1280;

/// The width and height of the image that `raw` decodes to with the `image`
/// crate; `None` where it is no image in a format the crate reads.
pub uninterp spec fn photo_size(raw: Seq<u8>) -> Option<(u32, u32)>;

/// Decodes an image with `image::load_from_memory` and returns its width and
/// height.
#[verifier::external_body]
fn decoded_size(raw: &[u8]) -> (size: Option<(u32, u32)>)
    ensures
        size == photo_size(raw@),
{
    match image::load_from_memory(raw) {
        Ok(decoded) => Some((decoded.width(), decoded.height())),
        Err(_) => None,
    }
}

/// The width and height of the image that the `image` crate makes of `raw`
/// when it scales it into the box `nwidth` by `nheight`
/// (`DynamicImage::resize`).
pub uninterp spec fn stored_size(raw: Seq<u8>, nwidth: u32, nheight: u32) -> (u32, u32);

/// Whether `side` is a whole number nearest to `numerator / denominator`
/// (either neighbour at a tie), or 1 where that quotient is below one half.
pub open spec fn is_rounded(side: int, numerator: int, denominator: int) -> bool {
    ||| -denominator <= 2 * side * denominator - 2 * numerator <= denominator
    ||| side == 1 && 2 * numerator < denominator
}

/// What `DynamicImage::resize` makes of an image of size `source` in the box
/// `nwidth` by `nheight`: an image that is the box already is left as it is;
/// any other is scaled to the largest size of its aspect ratio that fits the
/// box, so that one side lies on the box and the other is rounded from the
/// proportion, and no side is less than one pixel.
pub open spec fn is_scaled(source: (u32, u32), nwidth: u32, nheight: u32, stored: (u32, u32)) -> bool {
    if source == (nwidth, nheight) {
        stored == source
    } else {
        &&& 1 <= stored.0 <= nwidth
        &&& 1 <= stored.1 <= nheight
        &&& {
            ||| stored.0 == nwidth && is_rounded(
                stored.1 as int,
                source.1 * nwidth,
                source.0 as int,
            )
            ||| stored.1 == nheight && is_rounded(
                stored.0 as int,
                source.0 * nheight,
                source.1 as int,
            )
        }
    }
}

/// Decodes an image with `image::load_from_memory`, scales it with
/// `DynamicImage::resize` (Lanczos filter) into the box `nwidth` by `nheight`,
/// and encodes it as JPEG with `DynamicImage::write_to`. It is called on
/// images with pixels and on boxes that are neither larger than the image nor
/// than `MAX_SIDE`. The encoder refuses only an image without pixels or with
/// a side over 65535, and it writes to memory, so the call succeeds; the JPEG
/// holds the scaled image, whose size depends on the arguments alone and is
/// what `resize` documents, and decodes to that size. Nothing is claimed of
/// the pixels.
#[verifier::external_body]
fn scale_to_jpeg(raw: &[u8], nwidth: u32, nheight: u32) -> (jpeg: Option<Vec<u8>>)
    requires
        photo_size(raw@) matches Some(size) && 0 < nwidth <= size.0 && 0 < nheight <= size.1,
        nwidth <= MAX_SIDE,
        nheight <= MAX_SIDE,
    ensures
        jpeg is Some,
        jpeg matches Some(bytes) ==> photo_size(bytes@) == Some(stored_size(raw@, nwidth, nheight)),
        jpeg matches Some(bytes) ==> is_scaled(
            photo_size(raw@)->0,
            nwidth,
            nheight,
            photo_size(bytes@)->0,
        ),
{
    let decoded = image::load_from_memory(raw).ok()?;
    let scaled = decoded.resize(nwidth, nheight, image::imageops::FilterType::Lanczos3);
    let mut out = std::io::Cursor::new(Vec::new());
    scaled.write_to(&mut out, image::ImageFormat::Jpeg).ok()?;
    Some(out.into_inner())
}

/// The box that a photo of the given size is scaled into: each side capped at
/// `MAX_SIDE`, never enlarged.
pub open spec fn bounds_spec(width: u32, height: u32) -> (u32, u32) {
    (
        if width < MAX_SIDE {
            width
        } else {
            MAX_SIDE
        },
        if height < MAX_SIDE {
            height
        } else {
            MAX_SIDE
        },
    )
}

/// The box that a photo of the given size is scaled into.
pub fn bounds(width: u32, height: u32) -> (r: (u32, u32))
    ensures
        r == bounds_spec(width, height),
{
    (
        if width < MAX_SIDE {
            width
        } else {
            MAX_SIDE
        },
        if height < MAX_SIDE {
            height
        } else {
            MAX_SIDE
        },
    )
}

/// What becomes of an upload once the encoder has answered: the JPEG, or the
/// error for a photo that could not be saved.
pub fn saved(jpeg: Option<Vec<u8>>) -> (r: Result<Vec<u8>, ErrResponse>)
    ensures
        r == match jpeg {
            Some(bytes) => Ok::<Vec<u8>, ErrResponse>(bytes),
            None => Err(ErrResponse::S500("error saving image")),
        },
{
    match jpeg {
        Some(bytes) => Ok(bytes),
        None => Err(ErrResponse::S500("error saving image")),
    }
}

/// The size of the JPEG that is stored for the upload `raw`: that of the
/// upload scaled into its box; `None` where the upload is no image or has no
/// pixels.
pub open spec fn prepared_size(raw: Seq<u8>) -> Option<(u32, u32)> {
    match photo_size(raw) {
        Some(size) => if size.0 > 0 && size.1 > 0 {
            Some(stored_size(raw, bounds_spec(size.0, size.1).0, bounds_spec(size.0, size.1).1))
        } else {
            None
        },
        None => None,
    }
}

/// Whether `jpeg` is a JPEG stored for the upload `raw`: it decodes to the
/// size owed, which is that of the upload scaled into its box.
pub open spec fn is_stored_for(raw: Seq<u8>, jpeg: Seq<u8>) -> bool {
    &&& photo_size(raw) matches Some(size)
    &&& prepared_size(raw) is Some
    &&& photo_size(jpeg) == prepared_size(raw)
    &&& is_scaled(
        size,
        bounds_spec(size.0, size.1).0,
        bounds_spec(size.0, size.1).1,
        photo_size(jpeg)->0,
    )
}

/// The error for an upload of which nothing can be stored.
pub open spec fn not_stored(raw: Seq<u8>) -> ErrResponse {
    if photo_size(raw) is None {
        ErrResponse::S500("error loading image")
    } else {
        ErrResponse::S500("error saving image")
    }
}

/// The outcome of preparing the upload `raw`.
pub open spec fn prepare_spec(raw: Seq<u8>, r: Result<Vec<u8>, ErrResponse>) -> bool {
    match r {
        Ok(jpeg) => is_stored_for(raw, jpeg@),
        Err(e) => prepared_size(raw) is None && e == not_stored(raw),
    }
}

/// Turns an uploaded image into the JPEG that is stored for it: the upload is
/// decoded and scaled into the box given by `bounds`, so that no side is
/// longer than `MAX_SIDE` and none is enlarged. It succeeds on every image
/// with pixels. An upload that is no image is refused as not loadable, an
/// image without pixels as not savable.
pub fn prepare(raw: &[u8]) -> (r: Result<Vec<u8>, ErrResponse>)
    ensures
        prepare_spec(raw@, r),
{
    match decoded_size(raw) {
        None => Err(ErrResponse::S500("error loading image")),
        Some((width, height)) => {
            let (nwidth, nheight) = bounds(width, height);
            if nwidth == 0 || nheight == 0 {
                Err(ErrResponse::S500("error saving image"))
            } else {
                saved(scale_to_jpeg(raw, nwidth, nheight))
            }
        },
    }
}

/// The size rule of stored photos. A photo of size `source`, scaled into its
/// box to the size `stored`, is never enlarged and has no side longer than
/// `MAX_SIDE`. A source within `MAX_SIDE` keeps its size; a larger one is
/// stored with its longer side at exactly `MAX_SIDE`. The aspect ratio is
/// kept within rounding: a source of 2560 by 1280 is stored as 1280 by 640.
pub proof fn law_photo_size(source: (u32, u32), stored: (u32, u32))
    requires
        source.0 > 0,
        source.1 > 0,
        is_scaled(source, bounds_spec(source.0, source.1).0, bounds_spec(source.0, source.1).1, stored),
    ensures
        1 <= stored.0 <= source.0,
        1 <= stored.1 <= source.1,
        stored.0 <= MAX_SIDE && stored.1 <= MAX_SIDE,
        source.0 <= MAX_SIDE && source.1 <= MAX_SIDE ==> stored == source,
        source.0 > MAX_SIDE || source.1 > MAX_SIDE ==> stored.0 == MAX_SIDE || stored.1
            == MAX_SIDE,
        source.0 >= source.1 && source.0 > MAX_SIDE ==> stored.0 == MAX_SIDE && is_rounded(
            stored.1 as int,
            source.1 * MAX_SIDE,
            source.0 as int,
        ),
        source.1 >= source.0 && source.1 > MAX_SIDE ==> stored.1 == MAX_SIDE && is_rounded(
            stored.0 as int,
            source.0 * MAX_SIDE,
            source.1 as int,
        ),
        source == (2560u32, 1280u32) ==> stored == (1280u32, 640u32),
{
    let w = source.0 as int;
    let h = source.1 as int;
    let nw = bounds_spec(source.0, source.1).0 as int;
    let nh = bounds_spec(source.0, source.1).1 as int;
    let a = stored.0 as int;
    let b = stored.1 as int;
    if source != (nw as u32, nh as u32) {
        if a == nw && is_rounded(b, h * nw, w) {
            if w <= MAX_SIDE {
                // The width is not scaled, so neither is the height.
                assert(nw == w);
                lemma_rounded_exact(b, h, w);
            }
        } else {
            assert(b == nh && is_rounded(a, w * nh, h));
            if h <= MAX_SIDE {
                assert(nh == h);
                lemma_rounded_exact(a, w, h);
            }
        }
        if w >= h && w > MAX_SIDE && !(a == nw && is_rounded(b, h * nw, w)) {
            // The height lies on the box; the width follows from it.
            if h >= MAX_SIDE {
                lemma_rounded_square(a, w, h, b);
            }
        }
        if h >= w && h > MAX_SIDE && !(b == nh && is_rounded(a, w * nh, h)) {
            if w >= MAX_SIDE {
                lemma_rounded_square(b, h, w, a);
            }
        }
    }
}

/// A side rounded from `value * unit / unit` is `value`.
proof fn lemma_rounded_exact(side: int, value: int, unit: int)
    requires
        unit > 0,
        value >= 1,
        is_rounded(side, value * unit, unit),
    ensures
        side == value,
{
    assert(side == value) by (nonlinear_arith)
        requires
            unit > 0,
            value >= 1,
            (-unit <= 2 * side * unit - 2 * (value * unit) <= unit) || (side == 1 && 2 * (value
                * unit) < unit),
    ;
}

/// Where the shorter side of a source lies on the box at `MAX_SIDE` and the
/// longer side is rounded from it, the longer side is at least `MAX_SIDE`
/// and the shorter is rounded from the longer.
proof fn lemma_rounded_square(long: int, source_long: int, source_short: int, short: int)
    requires
        source_long >= source_short >= MAX_SIDE,
        source_long > MAX_SIDE,
        short == MAX_SIDE,
        1 <= long <= MAX_SIDE,
        is_rounded(long, source_long * MAX_SIDE, source_short),
    ensures
        long == MAX_SIDE,
        is_rounded(short, source_short * MAX_SIDE, source_long),
{
    assert(long == 1280 && (-source_long <= 2 * 1280 * source_long - 2 * (source_short * 1280)
        <= source_long)) by (nonlinear_arith)
        requires
            source_long >= source_short >= 1280,
            source_long > 1280,
            1 <= long <= 1280,
            (-source_short <= 2 * long * source_short - 2 * (source_long * 1280) <= source_short)
                || (long == 1 && 2 * (source_long * 1280) < source_short),
    ;
}

/// The path of the photo of the ticket `id`.
pub open spec fn photo_filename_spec(id: i32) -> Seq<char> {
    PHOTOS_PATH@ + "/"@ + decimal_spec(id as int) + ".jpg"@
}

/// The path of the photo of the ticket `id`: the photo directory, the id in
/// decimal notation, and the extension `.jpg`.
pub fn photo_filename(id: i32) -> (path: String)
    ensures
        path@ == photo_filename_spec(id),
{
    let mut path = PHOTOS_PATH.to_owned();
    path.append("/");
    path.append(decimal(id).as_str());
    path.append(".jpg");
    path
}

} // verus!
