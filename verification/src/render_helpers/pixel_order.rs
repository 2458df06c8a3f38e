//! The channel order in which a driver hands out 32-bit pixels.

use std::borrow::Cow;
use vstd::prelude::*;
use vstd::slice::slice_to_vec;

verus! {

/// Channel order of the bytes read back from the GPU.
#[derive(Clone, Copy, Debug, PartialEq, Eq, Structural)]
pub enum PixelOrder {
    Bgra,
    Rgba,
}

/// The index that byte `i` trades places with when the first and third channel of every whole
/// pixel in `len` bytes are exchanged. Bytes past the last whole pixel stay where they are.
pub open spec fn swapped_index(len: int, i: int) -> int {
    if i >= len - len % 4 {
        i
    } else if i % 4 == 0 {
        i + 2
    } else if i % 4 == 2 {
        i - 2
    } else {
        i
    }
}

/// `bytes` with the first and third channel of every whole pixel exchanged.
pub open spec fn swap_red_blue(bytes: Seq<u8>) -> Seq<u8> {
    Seq::new(bytes.len(), |i: int| bytes[swapped_index(bytes.len() as int, i)])
}

impl PixelOrder {
    /// What `bytes`, delivered in this order, hold in BGRA order.
    pub open spec fn to_bgra(self, bytes: Seq<u8>) -> Seq<u8> {
        match self {
            PixelOrder::Bgra => bytes,
            PixelOrder::Rgba => swap_red_blue(bytes),
        }
    }

    /// The given bytes in BGRA order. Only RGBA input is copied.
    pub fn bgra(self, bytes: &[u8]) -> (converted: Cow<'_, [u8]>)
        ensures
            converted@ == self.to_bgra(bytes@),
            converted is Borrowed <==> self is Bgra,
    {
        match self {
            PixelOrder::Bgra => Cow::Borrowed(bytes),
            PixelOrder::Rgba => {
                let mut converted: Vec<u8> = slice_to_vec(bytes);
                let len = converted.len();
                let whole: usize = len - len % 4;
                let mut at: usize = 0;
                while at < whole
                    invariant
                        len == bytes@.len(),
                        converted@.len() == len,
                        whole == len - len % 4,
                        whole % 4 == 0,
                        at % 4 == 0,
                        at <= whole,
                        forall|i: int|
                            0 <= i < at ==> #[trigger] converted@[i] == swap_red_blue(bytes@)[i],
                        forall|i: int| at <= i < len ==> #[trigger] converted@[i] == bytes@[i],
                    decreases whole - at,
                {
                    let first: u8 = converted[at];
                    let third: u8 = converted[at + 2];
                    converted[at] = third;
                    converted[at + 2] = first;
                    at = at + 4;
                }
                assert(converted@ =~= swap_red_blue(bytes@));
                Cow::Owned(converted)
            },
        }
    }
}

/// Converting RGBA to BGRA twice gives the bytes back.
pub proof fn swapping_twice_restores(bytes: Seq<u8>)
    ensures
        swap_red_blue(swap_red_blue(bytes)) == bytes,
{
    assert(swap_red_blue(swap_red_blue(bytes)) =~= bytes);
}

/// Converting any order keeps the length, the green and alpha channel of every whole pixel, and
/// the bytes after the last whole pixel.
pub proof fn conversion_keeps_green_and_alpha(order: PixelOrder, bytes: Seq<u8>, i: int)
    requires
        0 <= i < bytes.len(),
        i % 2 == 1 || i >= bytes.len() - bytes.len() % 4,
    ensures
        order.to_bgra(bytes).len() == bytes.len(),
        order.to_bgra(bytes)[i] == bytes[i],
{
}

/// In RGBA the bytes of a pixel are red, green, blue and alpha, and in BGRA they are blue, green,
/// red and alpha: wherever a pixel is, the conversion hands out its third byte first and its first
/// byte third. Bytes that are in BGRA order already stay as they are.
pub proof fn every_pixel_is_reordered(bytes: Seq<u8>, p: int)
    requires
        0 <= 4 * p,
        4 * p + 3 < bytes.len(),
    ensures
        PixelOrder::Rgba.to_bgra(bytes)[4 * p] == bytes[4 * p + 2],
        PixelOrder::Rgba.to_bgra(bytes)[4 * p + 1] == bytes[4 * p + 1],
        PixelOrder::Rgba.to_bgra(bytes)[4 * p + 2] == bytes[4 * p],
        PixelOrder::Rgba.to_bgra(bytes)[4 * p + 3] == bytes[4 * p + 3],
        PixelOrder::Bgra.to_bgra(bytes) == bytes,
{
}

/// A conversion loses no byte and adds none, and bytes that are no whole pixel stay.
pub proof fn incomplete_pixels_stay(bytes: Seq<u8>, i: int)
    requires
        0 <= i < bytes.len(),
        bytes.len() < 4 * (i / 4) + 4,
    ensures
        PixelOrder::Rgba.to_bgra(bytes).len() == bytes.len(),
        PixelOrder::Rgba.to_bgra(bytes)[i] == bytes[i],
{
}

/// Whatever `bgra` hands out for RGBA bytes has the third byte of every pixel first and its first
/// byte third.
pub proof fn handed_out_pixels_are_reordered(
    bytes: &[u8],
    converted: std::borrow::Cow<'_, [u8]>,
    p: int,
)
    requires
        call_ensures(PixelOrder::bgra, (PixelOrder::Rgba, bytes), converted),
        0 <= 4 * p,
        4 * p + 3 < bytes@.len(),
    ensures
        converted@.len() == bytes@.len(),
        converted@[4 * p] == bytes@[4 * p + 2],
        converted@[4 * p + 1] == bytes@[4 * p + 1],
        converted@[4 * p + 2] == bytes@[4 * p],
        converted@[4 * p + 3] == bytes@[4 * p + 3],
{
}

} // verus!
