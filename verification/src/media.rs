use vstd::prelude::*;

verus! {

/// The kind of media a stream carries, as the demuxer reports it.
#[derive(Clone, Copy, Debug, PartialEq, Eq, Structural)]
pub enum MediaKind {
    Unknown,
    Video,
    Audio,
    Data,
    Subtitle,
    Attachment,
}

/// A rational number `num / den`, used for time bases and frame rates.
#[derive(Clone, Copy, Debug, PartialEq, Eq, Structural)]
pub struct Ratio {
    pub num: i32,
    pub den: i32,
}

/// Whether a stream of this kind is carried into the output file.
pub open spec fn is_carried(kind: MediaKind) -> bool {
    kind == MediaKind::Video || kind == MediaKind::Audio || kind == MediaKind::Subtitle
}

/// Whether a stream of kind `kind` is carried into the output file:
/// video, audio and subtitle streams are, every other kind is dropped.
pub fn carries(kind: MediaKind) -> (res: bool)
    ensures
        res == is_carried(kind),
{
    match kind {
        MediaKind::Video | MediaKind::Audio | MediaKind::Subtitle => true,
        _ => false,
    }
}

} // verus!
