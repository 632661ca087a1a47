//! Decoded codec parameter records and FLV-level inputs, as handed over by
//! the demultiplexer and the codec bitstream parsers.
use vstd::prelude::*;

verus! {

/// Presence flags of the FLV file header.
#[derive(Clone, Copy, Debug, PartialEq, Eq, Structural)]
pub struct FlvHeader {
    pub type_flags_audio: bool,
    pub type_flags_video: bool,
}

/// The kind of an FLV tag.
#[derive(Clone, Copy, Debug, PartialEq, Eq, Structural)]
pub enum TagType {
    Audio,
    Video,
    Script,
    Encryption,
}

/// One demultiplexed FLV tag; its payload goes to the codec parsers.
#[derive(Clone, Debug)]
pub struct Tag {
    pub tag_type: TagType,
    pub timestamp: u32,
    pub data: Vec<u8>,
}

/// MPEG audio channel mode.
#[derive(Clone, Copy, Debug, PartialEq, Eq, Structural)]
pub enum Channel {
    Mono,
    Dual,
    Stereo,
    JointStereo,
}

/// A decoded AAC audio specific config.
#[derive(Clone, Debug)]
pub struct AacSequenceHeader {
    pub channel_configuration: u8,
    pub sampling_frequency_index: u8,
    /// The audio specific config bytes as they stood in the stream.
    pub raw: Vec<u8>,
}

/// A decoded MP3 frame header.
#[derive(Clone, Copy, Debug, PartialEq, Eq, Structural)]
pub struct Mp3Header {
    pub channel: Channel,
    pub channel_extended: u8,
    pub sample_rate: u32,
}

/// What the audio parser makes of one audio tag.
#[derive(Clone, Debug)]
pub enum AudioParseResult {
    AacSequenceHeader(AacSequenceHeader),
    Mp3(Mp3Header),
    /// Coded audio payload, no configuration in it.
    Raw(Vec<u8>),
}

/// What the AVC parser makes of one AVC video tag.
#[derive(Clone, Debug)]
pub enum Avc1ParseResult {
    /// The AVC decoder configuration record.
    AvcSequenceHeader(Vec<u8>),
    AvcEndOfSequence,
    /// Coded NAL units, no configuration in them.
    AvcNalu(Vec<u8>),
}

/// What the video parser makes of one video tag.
#[derive(Clone, Debug)]
pub enum VideoParseResult {
    Avc1(Avc1ParseResult),
    /// A payload of a codec other than AVC.
    Other(Vec<u8>),
}

/// The script-tag metadata, its numbers already brought to the units kept
/// here (`None` where the key is absent).
#[derive(Clone, Debug)]
pub struct ScriptMetadata {
    /// Duration in milliseconds.
    pub duration_ms: Option<u32>,
    /// Width in pixels.
    pub width: Option<u16>,
    /// Height in pixels.
    pub height: Option<u16>,
    /// Frame rate in thousandths of a frame per second.
    pub frame_rate_milli: Option<u32>,
    pub audio_codec_id: Option<u8>,
    pub audio_data_rate: Option<u32>,
    pub video_codec_id: Option<u8>,
    pub video_data_rate: Option<u32>,
    pub major_brand: Option<Vec<u8>>,
    /// Decimal text of the minor version.
    pub minor_version: Option<Vec<u8>>,
    /// A flat buffer of brand characters, four per brand.
    pub compatible_brands: Option<Vec<u8>>,
}

impl ScriptMetadata {
    /// Metadata with every key absent.
    pub fn empty() -> (r: ScriptMetadata)
        ensures
            r.duration_ms is None && r.width is None && r.height is None,
            r.frame_rate_milli is None && r.audio_codec_id is None && r.audio_data_rate is None,
            r.video_codec_id is None && r.video_data_rate is None,
            r.major_brand is None && r.minor_version is None && r.compatible_brands is None,
    {
        ScriptMetadata {
            duration_ms: None,
            width: None,
            height: None,
            frame_rate_milli: None,
            audio_codec_id: None,
            audio_data_rate: None,
            video_codec_id: None,
            video_data_rate: None,
            major_brand: None,
            minor_version: None,
            compatible_brands: None,
        }
    }

    /// The compatible-brand buffer, where present, holds the four brands.
    pub open spec fn well_formed(&self) -> bool {
        self.compatible_brands matches Some(b) ==> b@.len() >= 16
    }
}

} // verus!
