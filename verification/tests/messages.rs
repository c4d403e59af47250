use transcode::errors::{best_stream, open_input_error_message, CodecFailure, DemuxerCtxError};
use transcode::manifest::mpd_final_name;

#[test]
fn demuxer_error_texts() {
    assert_eq!(
        DemuxerCtxError::OpenFailed("No such file or directory".to_string()).message(),
        "AV format input failed: No such file or directory"
    );
    assert_eq!(
        DemuxerCtxError::MediaTypeNotFound.message(),
        "No Codec Parameters found for given Type(MediaType)"
    );
}

#[test]
fn best_stream_found_or_not() {
    assert!(matches!(best_stream(Some(2)), Ok(2)));
    assert!(matches!(best_stream(None), Err(DemuxerCtxError::MediaTypeNotFound)));
}

#[test]
fn codec_failure_texts() {
    assert_eq!(CodecFailure::DecoderNotFound.message(), "Unable to find code");
    assert_eq!(CodecFailure::OpenFailed("Invalid data".to_string()).message(), "failed to decode: Invalid data");
    assert_eq!(
        CodecFailure::SendPacketFailed("Resource temporarily unavailable".to_string()).message(),
        "failed to send packet: Resource temporarily unavailable"
    );
    assert_eq!(CodecFailure::ReceiveFrameFailed("End of file".to_string()).message(), "failed to receive packet: End of file");
}

#[test]
fn open_input_text() {
    assert_eq!(open_input_error_message("Invalid argument"), "error: Invalid argument");
    assert_eq!(open_input_error_message(""), "error: ");
}

#[test]
fn temporary_manifest_is_renamed() {
    assert_eq!(mpd_final_name("its_mpd.mpd.tmp"), Some("its_mpd.mpd".to_string()));
    assert_eq!(mpd_final_name("mpd.tmp"), Some("mpd".to_string()));
    assert_eq!(mpd_final_name("x.tmpmpd.tmp"), Some("x.tmpmpd".to_string()));
    assert_eq!(mpd_final_name("été.mpd.tmp"), Some("été.mpd".to_string()));
}

#[test]
fn other_names_are_left_alone() {
    assert_eq!(mpd_final_name("its_mpd.mpd"), None);
    assert_eq!(mpd_final_name("chunk-stream0-00001.m4s.tmp"), None);
    assert_eq!(mpd_final_name("pd.tmp"), None);
    assert_eq!(mpd_final_name(""), None);
    assert_eq!(mpd_final_name("a.mpd.tmp.tmp"), None);
}
