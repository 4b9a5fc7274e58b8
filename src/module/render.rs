//! The decisions around rendering: how many frames each output buffer
//! layout can take, and the native render parameters.

use vstd::prelude::*;

verus! {

pub const RENDER_MASTERGAIN_MILLIBEL: i32 = 1;

pub const RENDER_STEREOSEPARATION_PERCENT: i32 = 2;

pub const RENDER_INTERPOLATIONFILTER_LENGTH: i32 = 3;

pub const RENDER_VOLUMERAMPING_STRENGTH: i32 = 4;

/// The smaller of two lengths.
pub open spec fn min_len(a: usize, b: usize) -> usize {
    if a <= b {
        a
    } else {
        b
    }
}

/// The number of frames that two separate channel buffers can both take:
/// the length of the shorter.
pub fn stereo_frame_count(left_len: usize, right_len: usize) -> (r: usize)
    ensures
        r == min_len(left_len, right_len),
        r <= left_len && r <= right_len,
{
    if left_len <= right_len {
        left_len
    } else {
        right_len
    }
}

/// The number of frames that four separate channel buffers can all take:
/// the length of the shortest.
pub fn quad_frame_count(left_len: usize, right_len: usize, rear_left_len: usize, rear_right_len: usize) -> (r: usize)
    ensures
        r == min_len(min_len(left_len, right_len), min_len(rear_left_len, rear_right_len)),
        r <= left_len && r <= right_len && r <= rear_left_len && r <= rear_right_len,
{
    let front = stereo_frame_count(left_len, right_len);
    let rear = stereo_frame_count(rear_left_len, rear_right_len);
    stereo_frame_count(front, rear)
}

/// The number of whole frames that an interleaved buffer of `len` samples
/// holds, with `channels` samples to a frame.
pub fn interleaved_frame_count(len: usize, channels: usize) -> (r: usize)
    requires
        channels > 0,
    ensures
        r == len / channels,
        r * channels <= len,
{
    let r = len / channels;
    assert(r * channels <= len) by (nonlinear_arith)
        requires
            r == len / channels,
            channels > 0,
    ;
    r
}

/// Reads the result of querying a render parameter: the value where the
/// native status code is 1, else nothing.
pub fn render_param_result(code: i32, value: i32) -> (r: Option<i32>)
    ensures
        r == if code == 1 {
            Some(value)
        } else {
            None::<i32>
        },
{
    if code == 1 {
        Some(value)
    } else {
        None
    }
}

} // verus!
