use vstd::prelude::*;

verus! {

/// A stream-level fault: the stream is rejected, the process goes on.
#[derive(Clone, Copy, Debug, PartialEq, Eq, Structural)]
pub enum RemuxError {
    /// An AAC record arrived while the declared audio codec is not AAC.
    AudioCodecMismatchExpectedAac,
    /// An MP3 record arrived while the declared audio codec is not MP3.
    AudioCodecMismatchExpectedMp3,
    /// The AAC sampling-frequency index lies outside the 13-entry table.
    InvalidAacSampleRateIndex,
    /// The declared video codec has no sample entry.
    UnsupportedVideoCodec,
    /// The declared audio codec has no sample entry.
    UnsupportedAudioCodec,
    /// The minor version is not a decimal number that fits in 32 bits.
    InvalidMinorVersion,
}

impl RemuxError {
    /// A short human-readable reason.
    pub fn reason(&self) -> (r: &'static str) {
        match self {
            RemuxError::AudioCodecMismatchExpectedAac => "audio type mismatch: expected aac",
            RemuxError::AudioCodecMismatchExpectedMp3 => "audio type mismatch: expected mp3",
            RemuxError::InvalidAacSampleRateIndex => "invalid aac sample rate index",
            RemuxError::UnsupportedVideoCodec => "unsupported video codec type",
            RemuxError::UnsupportedAudioCodec => "unsupported audio codec type",
            RemuxError::InvalidMinorVersion => "invalid minor version",
        }
    }
}

} // verus!
