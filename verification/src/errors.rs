use vstd::prelude::*;

verus! {

/// Why a demuxer could not serve a request.
#[derive(Debug)]
pub enum DemuxerCtxError {
    /// The input could not be opened; holds the underlying error's text.
    OpenFailed(String),
    /// The input has no stream of the requested media type.
    MediaTypeNotFound,
}

/// The text shown for a demuxer error.
pub open spec fn demuxer_error_text(e: DemuxerCtxError) -> Seq<char> {
    match e {
        DemuxerCtxError::OpenFailed(detail) => "AV format input failed: "@ + detail@,
        DemuxerCtxError::MediaTypeNotFound => "No Codec Parameters found for given Type(MediaType)"@,
    }
}

impl DemuxerCtxError {
    /// The human-readable text of this error.
    pub fn message(&self) -> (res: String)
        ensures
            res@ == demuxer_error_text(*self),
    {
        match self {
            DemuxerCtxError::OpenFailed(detail) => {
                let mut text = String::from_str("AV format input failed: ");
                text.append(detail.as_str());
                text
            },
            DemuxerCtxError::MediaTypeNotFound => String::from_str(
                "No Codec Parameters found for given Type(MediaType)",
            ),
        }
    }
}

/// The outcome of asking the demuxer for the best stream of a media type:
/// the stream found, or `MediaTypeNotFound` when there is none.
pub fn best_stream(found: Option<usize>) -> (res: Result<usize, DemuxerCtxError>)
    ensures
        found matches Some(index) ==> res == Ok::<usize, DemuxerCtxError>(index),
        found is None ==> res matches Err(DemuxerCtxError::MediaTypeNotFound),
{
    match found {
        Some(index) => Ok(index),
        None => Err(DemuxerCtxError::MediaTypeNotFound),
    }
}

/// Why a decoder context failed.
#[derive(Debug)]
pub enum CodecFailure {
    /// No decoder exists for the stream's codec.
    DecoderNotFound,
    /// The decoder could not be opened; holds the underlying error's text.
    OpenFailed(String),
    /// A packet could not be sent to the decoder.
    SendPacketFailed(String),
    /// A frame could not be received from the decoder.
    ReceiveFrameFailed(String),
}

/// The text reported for a decoder failure.
pub open spec fn codec_failure_text(f: CodecFailure) -> Seq<char> {
    match f {
        CodecFailure::DecoderNotFound => "Unable to find code"@,
        CodecFailure::OpenFailed(detail) => "failed to decode: "@ + detail@,
        CodecFailure::SendPacketFailed(detail) => "failed to send packet: "@ + detail@,
        CodecFailure::ReceiveFrameFailed(detail) => "failed to receive packet: "@ + detail@,
    }
}

impl CodecFailure {
    /// The text reported for this failure.
    pub fn message(&self) -> (res: String)
        ensures
            res@ == codec_failure_text(*self),
    {
        match self {
            CodecFailure::DecoderNotFound => String::from_str("Unable to find code"),
            CodecFailure::OpenFailed(detail) => {
                let mut text = String::from_str("failed to decode: ");
                text.append(detail.as_str());
                text
            },
            CodecFailure::SendPacketFailed(detail) => {
                let mut text = String::from_str("failed to send packet: ");
                text.append(detail.as_str());
                text
            },
            CodecFailure::ReceiveFrameFailed(detail) => {
                let mut text = String::from_str("failed to receive packet: ");
                text.append(detail.as_str());
                text
            },
        }
    }
}

/// The text reported when an input file cannot be opened for demuxing.
pub fn open_input_error_message(detail: &str) -> (res: String)
    ensures
        res@ == "error: "@ + detail@,
{
    let mut text = String::from_str("error: ");
    text.append(detail);
    text
}

} // verus!
