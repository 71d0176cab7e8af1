//! Pixel data for the tray: from decoded RGBA to the ARGB32 order that a
//! tray host displays.

use vstd::prelude::*;

verus! {

/// Why an image cannot serve as a tray icon.
#[derive(Clone, Copy, PartialEq, Eq, Structural, Debug)]
pub enum PixmapError {
    /// Width and height differ.
    NotSquare,
    /// The side length is not a multiple of four.
    NotDivisibleByFour,
    /// The data does not hold four bytes for each pixel.
    WrongLength,
}

/// The bytes of `rgba` with each pixel's alpha moved to the front: of every
/// group of four bytes `R, G, B, A` it keeps `A, R, G, B`.
pub open spec fn argb_of(rgba: Seq<u8>) -> Seq<u8> {
    Seq::new(
        rgba.len(),
        |i: int|
            if i % 4 == 0 {
                rgba[i + 3]
            } else {
                rgba[i - 1]
            },
    )
}

/// The verdict on an image of the given size and data: the first of the
/// three defects that it has, if any.
pub open spec fn pixmap_defect(width: u32, height: u32, rgba: Seq<u8>) -> Option<PixmapError> {
    if width != height {
        Some(PixmapError::NotSquare)
    } else if width % 4 != 0 {
        Some(PixmapError::NotDivisibleByFour)
    } else if rgba.len() != 4 * (width * height) {
        Some(PixmapError::WrongLength)
    } else {
        None
    }
}

/// Encodes an image as ARGB32 bytes. `rgba` holds the pixels row by row,
/// four bytes each, in the order red, green, blue, alpha. The image has to be
/// square with a side that is a multiple of four.
pub fn argb32_from_rgba8(
    width: u32,
    height: u32,
    rgba: &[u8],
) -> (pixels: Result<Vec<u8>, PixmapError>)
    ensures
        pixels is Ok <==> pixmap_defect(width, height, rgba@) is None,
        pixels matches Ok(argb) ==> argb@ == argb_of(rgba@),
        pixels matches Err(defect) ==> pixmap_defect(width, height, rgba@) == Some(defect),
{
    if width != height {
        return Err(PixmapError::NotSquare);
    }
    if width % 4 != 0 {
        return Err(PixmapError::NotDivisibleByFour);
    }
    assert(width * height <= 0xFFFF_FFFF * 0xFFFF_FFFF) by (nonlinear_arith)
        requires
            width <= 0xFFFF_FFFF,
            height <= 0xFFFF_FFFF,
    ;
    let area: u64 = (width as u64) * (height as u64);
    if rgba.len() as u128 != 4 * (area as u128) {
        return Err(PixmapError::WrongLength);
    }
    let len: usize = rgba.len();
    let mut argb: Vec<u8> = Vec::new();
    let mut at: usize = 0;
    while at < len
        invariant
            len == rgba@.len(),
            len % 4 == 0,
            at <= len,
            at % 4 == 0,
            argb@ == argb_of(rgba@).subrange(0, at as int),
        decreases len - at,
    {
        argb.push(rgba[at + 3]);
        argb.push(rgba[at]);
        argb.push(rgba[at + 1]);
        argb.push(rgba[at + 2]);
        at += 4;
        assert(argb@ =~= argb_of(rgba@).subrange(0, at as int));
    }
    assert(argb@ =~= argb_of(rgba@));
    Ok(argb)
}

} // verus!
