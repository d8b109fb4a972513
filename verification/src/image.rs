//! The shape of the tensor that an image is turned into before it is fed
//! to the network.

use vstd::prelude::*;

verus! {

/// The axis along which a decoded image lists its channels.
pub const CHANNEL_IDX: i32 = 2;

/// The channel count of a grayscale image.
pub const GRAY: u64 = 1;

/// The channel count that the network takes.
pub const COLOR: u64 = 3;

/// Height and width that every image is resized to.
pub const SIZE: [i32; 2] = [256, 256];

/// How many copies of a decoded image are laid along the channel axis: a
/// grayscale image is repeated once per colour channel, any other image is
/// taken as it is.
pub open spec fn copies(channels: u64) -> nat {
    if channels == GRAY {
        COLOR as nat
    } else {
        1
    }
}

/// The shape of the preprocessed tensor of an image that was decoded with
/// the given height, width and channels: a batch of one, the fixed height
/// and width, and the channels after copying.
pub open spec fn tensor_shape(height: nat, width: nat, channels: u64) -> Seq<int> {
    seq![1, SIZE[0] as int, SIZE[1] as int, channels * copies(channels)]
}

/// Computes `copies`.
pub fn channel_copies(channels: u64) -> (count: usize)
    ensures
        count == copies(channels),
{
    if channels == GRAY {
        COLOR as usize
    } else {
        1
    }
}

/// Any grayscale image and any colour image, whatever their sizes, come out
/// in the same shape: that of the network's input.
pub proof fn lemma_gray_matches_color(
    gray_height: nat,
    gray_width: nat,
    color_height: nat,
    color_width: nat,
)
    ensures
        tensor_shape(gray_height, gray_width, GRAY) == tensor_shape(
            color_height,
            color_width,
            COLOR,
        ),
        tensor_shape(color_height, color_width, COLOR) == seq![1int, 256, 256, 3],
{
}

} // verus!
