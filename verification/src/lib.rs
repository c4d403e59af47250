//! Planning logic of a DASH transcoder: how input streams become output
//! streams, where each demuxed packet goes, how the video encoder is set up,
//! and the error messages and file names the transcoder produces.

pub mod media;
pub mod streams;
pub mod transcode;
pub mod errors;
pub mod manifest;
pub mod decoding;
pub mod output;
pub mod pipeline;
