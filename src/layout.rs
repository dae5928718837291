use vstd::prelude::*;

verus! {

/// Row alignment, in bytes, that the GPU backend asks of a staging buffer.
pub const ROW_ALIGNMENT: u32 = 256;

/// Bytes per pixel of an RGBA image with 8-bit channels.
pub const BYTES_PER_PIXEL: u32 = 4;

/// Bytes of padding that bring a row of `width` pixels to the row alignment.
pub open spec fn row_padding(width: nat) -> nat {
    ((256 - (width * 4) % 256) % 256) as nat
}

/// Row stride of the staging buffer: the natural row length plus its padding.
pub open spec fn padded_row_spec(width: nat) -> nat {
    width * 4 + row_padding(width)
}

/// Number of bytes of one tightly packed RGBA frame.
pub open spec fn frame_len_spec(width: nat, height: nat) -> nat {
    width * height * 4
}

/// Row stride of a padded staging buffer for an image `width` pixels wide.
pub fn padded_bytes_per_row(width: u32) -> (r: u32)
    requires
        width as int * 4 + 255 <= u32::MAX,
    ensures
        r == padded_row_spec(width as nat),
        r % 256 == 0,
        width as int * 4 <= r < width as int * 4 + 256,
{
    let bytes_per_row: u32 = width * BYTES_PER_PIXEL;
    let padding: u32 = (ROW_ALIGNMENT - bytes_per_row % ROW_ALIGNMENT) % ROW_ALIGNMENT;
    bytes_per_row + padding
}

/// Length in bytes of one tightly packed `width` × `height` RGBA frame, or
/// `None` when it does not fit in `usize`.
pub fn frame_len(width: u32, height: u32) -> (r: Option<usize>)
    ensures
        r is Some <==> frame_len_spec(width as nat, height as nat) <= usize::MAX,
        r is Some ==> r->0 == frame_len_spec(width as nat, height as nat),
{
    let pixels = (width as usize).checked_mul(height as usize);
    match pixels {
        Some(p) => {
            let bytes = p.checked_mul(4);
            assert(frame_len_spec(width as nat, height as nat) == (width as nat * height as nat) * 4);
            bytes
        },
        None => {
            assert(width as nat * height as nat * 4 >= width as nat * height as nat) by (nonlinear_arith);
            None
        },
    }
}

/// Length in bytes of a staging buffer for `height` rows of `width` pixels,
/// each row padded to the row alignment.
pub fn padded_frame_len(width: u32, height: u32) -> (r: Option<usize>)
    requires
        width as int * 4 + 255 <= u32::MAX,
    ensures
        r is Some <==> padded_row_spec(width as nat) * height <= usize::MAX,
        r is Some ==> r->0 == padded_row_spec(width as nat) * height,
{
    let row = padded_bytes_per_row(width);
    (row as usize).checked_mul(height as usize)
}

} // verus!
