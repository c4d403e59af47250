use vstd::prelude::*;

verus! {

/// Number of threads a decoder is opened with: the requested number, or one
/// thread when none is requested.
pub fn decoder_thread_count(requested: Option<i32>) -> (res: i32)
    ensures
        res == match requested {
            Some(n) => n,
            None => 1i32,
        },
{
    match requested {
        Some(n) => n,
        None => 1,
    }
}

/// Whether a decoded frame is a video frame: only video frames have a
/// positive width.
pub fn frame_is_video(width: i32) -> (res: bool)
    ensures
        res == (width > 0),
{
    width > 0
}

} // verus!
