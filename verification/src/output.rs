use vstd::prelude::*;
use crate::media::Ratio;

verus! {

/// Width of the encoded video.
pub const TARGET_WIDTH: u32 = 1280;

/// Height of the encoded video.
pub const TARGET_HEIGHT: u32 = 720;

/// What the transcoder reads of the output container format's flags.
#[derive(Clone, Copy, Debug, PartialEq, Eq, Structural)]
pub struct OutputFormatFlags {
    /// The muxer writes no file of its own (it needs no I/O context).
    pub no_file: bool,
    /// The muxer wants codec headers once, globally, rather than in-band.
    pub global_header: bool,
}

impl OutputFormatFlags {
    /// Whether an I/O context must be opened on the output path before the
    /// header is written: exactly when the muxer writes a file.
    pub fn needs_io_open(&self) -> (res: bool)
        ensures
            res == !self.no_file,
    {
        !self.no_file
    }

    /// Whether the I/O context must be closed after the trailer: when the
    /// muxer writes a file and the context is still open.
    pub fn needs_io_close(&self, io_open: bool) -> (res: bool)
        ensures
            res == (!self.no_file && io_open),
    {
        !self.no_file && io_open
    }
}

/// How the video encoder is set up.
#[derive(Clone, Copy, Debug, PartialEq, Eq, Structural)]
pub struct EncoderPlan {
    pub width: u32,
    pub height: u32,
    pub time_base: Ratio,
    pub frame_rate: Option<Ratio>,
    pub bit_rate: usize,
    /// Whether the encoder must emit global headers.
    pub global_header: bool,
}

/// The video encoder setup: scaled to `TARGET_WIDTH` x `TARGET_HEIGHT`, in the
/// time base and at the frame rate of the input video stream, at the bit rate
/// of the decoder, with global headers when the output format asks for them.
pub fn plan_video_encoder(
    stream_time_base: Ratio,
    stream_rate: Ratio,
    decoder_bit_rate: usize,
    format: OutputFormatFlags,
) -> (res: EncoderPlan)
    ensures
        res == (EncoderPlan {
            width: TARGET_WIDTH,
            height: TARGET_HEIGHT,
            time_base: stream_time_base,
            frame_rate: Some(stream_rate),
            bit_rate: decoder_bit_rate,
            global_header: format.global_header,
        }),
{
    EncoderPlan {
        width: TARGET_WIDTH,
        height: TARGET_HEIGHT,
        time_base: stream_time_base,
        frame_rate: Some(stream_rate),
        bit_rate: decoder_bit_rate,
        global_header: format.global_header,
    }
}

} // verus!
