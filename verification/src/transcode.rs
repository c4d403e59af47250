use std::path::PathBuf;
use vstd::prelude::*;

verus! {

#[verifier::external_type_specification]
#[verifier::external_body]
pub struct ExPathBuf(PathBuf);

/// What a transcode job is asked to do (`T` is the encoder name, any string-like type): read `input`, write `output`, encode
/// with the named encoder (or a default one) at `width` x `height`.
pub struct TranscoderConfig<T> {
    pub input: PathBuf,
    pub output: PathBuf,
    pub encoder_name: Option<T>,
    pub width: u32,
    pub height: u32,
}

impl<T> TranscoderConfig<T> {
    /// A configuration holding exactly the given values.
    pub fn new(
        input: PathBuf,
        output: PathBuf,
        encoder_name: Option<T>,
        width: u32,
        height: u32,
    ) -> (res: TranscoderConfig<T>)
        ensures
            res.input == input,
            res.output == output,
            res.encoder_name == encoder_name,
            res.width == width,
            res.height == height,
    {
        TranscoderConfig { input, output, encoder_name, width, height }
    }
}

} // verus!
