//! The stream context: what is known of the stream so far, and whether it is
//! enough to describe the initialization segment.
use vstd::prelude::*;
use crate::codec::{
    AudioParseResult, Avc1ParseResult, Channel, FlvHeader, ScriptMetadata, VideoParseResult,
};
use crate::encoder::{DEFAULT_AUDIO_TRACK_ID, DEFAULT_VIDEO_TRACK_ID};
use crate::error::RemuxError;

verus! {

/// Ticks per second of the movie and media timescales (milliseconds).
pub const TIME_SCALE: u32 = 1000;

#[derive(Clone, Copy, Debug, PartialEq, Eq, Structural)]
pub enum TrackType {
    Audio,
    Video,
}

/// One elementary stream inside the container.
#[derive(Clone, Copy, Debug, PartialEq, Eq, Structural)]
pub struct TrackContext {
    pub track_id: u32,
    /// Sequence number of the next media fragment of this track.
    pub sequence_number: u32,
    pub track_type: TrackType,
}

impl TrackContext {
    pub fn new(track_id: u32, track_type: TrackType) -> (r: Self)
        ensures
            r.track_id == track_id,
            r.sequence_number == 1,
            r.track_type == track_type,
    {
        TrackContext { track_id, sequence_number: 1, track_type }
    }
}

/// Placement of one encoded access unit in a media fragment.
#[derive(Clone, Copy, Debug, PartialEq, Eq, Structural)]
pub struct SampleContext {
    pub is_leading: bool,
    pub is_non_sync: bool,
    pub is_keyframe: bool,
    pub has_redundancy: bool,
    pub decode_time: u32,
    /// Added to the decode time, gives the presentation time.
    pub composition_time_offset: u32,
    pub sample_duration: u32,
    pub sample_size: u32,
}

impl SampleContext {
    /// Presentation time: decode time plus composition offset.
    pub open spec fn presentation_time(&self) -> int {
        self.decode_time + self.composition_time_offset
    }
}

#[derive(Clone, Copy, Debug, PartialEq, Eq, Structural)]
pub enum VideoCodecType {
    Avc1,
    Unknown,
}

impl VideoCodecType {
    /// FLV video codec id 7 is AVC; every other id has no sample entry here.
    pub open spec fn of_id(id: u8) -> VideoCodecType {
        if id == 7 { VideoCodecType::Avc1 } else { VideoCodecType::Unknown }
    }
}

impl From<u8> for VideoCodecType {
    fn from(value: u8) -> (r: Self) {
        match value {
            7 => VideoCodecType::Avc1,
            _ => VideoCodecType::Unknown,
        }
    }
}

impl vstd::std_specs::convert::FromSpecImpl<u8> for VideoCodecType {
    open spec fn obeys_from_spec() -> bool {
        true
    }

    open spec fn from_spec(v: u8) -> VideoCodecType {
        VideoCodecType::of_id(v)
    }
}

#[derive(Clone, Copy, Debug, PartialEq, Eq, Structural)]
pub enum AudioCodecType {
    Aac,
    Mp3,
    Unknown,
}

impl AudioCodecType {
    /// FLV sound format 10 is AAC, 2 is MP3; no other has a sample entry here.
    pub open spec fn of_id(id: u8) -> AudioCodecType {
        if id == 10 {
            AudioCodecType::Aac
        } else if id == 2 {
            AudioCodecType::Mp3
        } else {
            AudioCodecType::Unknown
        }
    }
}

impl From<u8> for AudioCodecType {
    fn from(value: u8) -> (r: Self) {
        match value {
            10 => AudioCodecType::Aac,
            2 => AudioCodecType::Mp3,
            _ => AudioCodecType::Unknown,
        }
    }
}

impl vstd::std_specs::convert::FromSpecImpl<u8> for AudioCodecType {
    open spec fn obeys_from_spec() -> bool {
        true
    }

    open spec fn from_spec(v: u8) -> AudioCodecType {
        AudioCodecType::of_id(v)
    }
}

/// The four readiness flags of a stream context.
#[derive(Clone, Copy, Debug, PartialEq, Eq, Structural)]
pub struct ConfigFlags {
    pub flv_header: bool,
    pub metadata: bool,
    pub video: bool,
    pub audio: bool,
}

/// Which readiness flag an operation raises, if any.
#[derive(Clone, Copy, Debug, PartialEq, Eq, Structural)]
pub enum ConfigStep {
    FlvHeader,
    Metadata,
    Video,
    Audio,
    Unchanged,
}

impl ConfigFlags {
    pub open spec fn initial() -> ConfigFlags {
        ConfigFlags { flv_header: false, metadata: false, video: false, audio: false }
    }

    /// All four sub-configurations are done.
    pub open spec fn ready(self) -> bool {
        self.flv_header && self.metadata && self.video && self.audio
    }

    /// Flags only rise: a step raises its flag and leaves the others.
    pub open spec fn step(self, s: ConfigStep) -> ConfigFlags {
        match s {
            ConfigStep::FlvHeader => ConfigFlags { flv_header: true, ..self },
            ConfigStep::Metadata => ConfigFlags { metadata: true, ..self },
            ConfigStep::Video => ConfigFlags { video: true, ..self },
            ConfigStep::Audio => ConfigFlags { audio: true, ..self },
            ConfigStep::Unchanged => self,
        }
    }
}

/// The flags after a run of steps from `start`.
pub open spec fn flags_after(start: ConfigFlags, steps: Seq<ConfigStep>) -> ConfigFlags
    decreases steps.len(),
{
    if steps.len() == 0 {
        start
    } else {
        flags_after(start, steps.drop_last()).step(steps.last())
    }
}

/// The sample rate of each AAC sampling-frequency index.
pub open spec fn aac_sample_rate_of(index: int) -> u32 {
    if index == 0 { 96000 }
    else if index == 1 { 88200 }
    else if index == 2 { 64000 }
    else if index == 3 { 48000 }
    else if index == 4 { 44100 }
    else if index == 5 { 32000 }
    else if index == 6 { 24000 }
    else if index == 7 { 22050 }
    else if index == 8 { 16000 }
    else if index == 9 { 12000 }
    else if index == 10 { 11025 }
    else if index == 11 { 8000 }
    else { 7350 }
}

/// The largest valid AAC sampling-frequency index.
pub const MAX_AAC_SAMPLE_RATE_INDEX: u8 = 12;

/// Looks the index up in the AAC sampling-frequency table.
pub fn aac_sample_rate(index: u8) -> (r: Option<u32>)
    ensures
        index <= MAX_AAC_SAMPLE_RATE_INDEX ==> r == Some(aac_sample_rate_of(index as int)),
        index > MAX_AAC_SAMPLE_RATE_INDEX ==> r is None,
{
    match index {
        0 => Some(96000),
        1 => Some(88200),
        2 => Some(64000),
        3 => Some(48000),
        4 => Some(44100),
        5 => Some(32000),
        6 => Some(24000),
        7 => Some(22050),
        8 => Some(16000),
        9 => Some(12000),
        10 => Some(11025),
        11 => Some(8000),
        12 => Some(7350),
        _ => None,
    }
}

/// The four-byte brands that a flat brand buffer splits into, appended to
/// `before`, give `after`.
pub open spec fn brands_appended(before: Seq<[u8; 4]>, buf: Seq<u8>, after: Seq<[u8; 4]>) -> bool {
    &&& after.len() == before.len() + 4
    &&& after.subrange(0, before.len() as int) == before
    &&& after[before.len() as int]@ == buf.subrange(0, 4)
    &&& after[before.len() + 1int]@ == buf.subrange(4, 8)
    &&& after[before.len() + 2int]@ == buf.subrange(8, 12)
    &&& after[before.len() + 3int]@ == buf.subrange(12, 16)
}

/// The value of `o`, or `d` where it is absent.
pub open spec fn or_keep<T>(o: Option<T>, d: T) -> T {
    match o {
        Some(v) => v,
        None => d,
    }
}

/// The bytes of `o`, or `d` where it is absent.
pub open spec fn bytes_or_keep(o: Option<Vec<u8>>, d: Seq<u8>) -> Seq<u8> {
    match o {
        Some(v) => v@,
        None => d,
    }
}

pub open spec fn brand_isom() -> Seq<u8> {
    seq![0x69u8, 0x73u8, 0x6fu8, 0x6du8]
}

pub open spec fn brand_iso2() -> Seq<u8> {
    seq![0x69u8, 0x73u8, 0x6fu8, 0x32u8]
}

pub open spec fn brand_avc1() -> Seq<u8> {
    seq![0x61u8, 0x76u8, 0x63u8, 0x31u8]
}

pub open spec fn brand_mp41() -> Seq<u8> {
    seq![0x6du8, 0x70u8, 0x34u8, 0x31u8]
}

/// The default minor version, "512".
pub open spec fn default_minor_version() -> Seq<u8> {
    seq![0x35u8, 0x31u8, 0x32u8]
}

/// What is known of one stream so far.
pub struct RemuxContext {
    /// Frame rate in thousandths of a frame per second.
    pub fps_num: u32,
    pub duration_ms: u32,
    pub width: u16,
    pub height: u16,
    pub has_audio: bool,
    pub has_video: bool,
    pub audio_codec_id: u8,
    pub audio_codec_type: AudioCodecType,
    pub audio_data_rate: u32,
    pub audio_sample_rate: u32,
    pub audio_channels: u8,
    pub audio_channels_extended: u8,
    /// AAC audio specific config bytes.
    pub audio_aac_info: Vec<u8>,
    pub video_codec_id: u8,
    pub video_codec_type: VideoCodecType,
    pub video_data_rate: u32,
    /// AVC decoder configuration record bytes.
    pub video_avcc_info: Vec<u8>,
    pub major_brand: Vec<u8>,
    /// Decimal text of the minor version.
    pub minor_version: Vec<u8>,
    pub compatible_brands: Vec<[u8; 4]>,
    pub audio_track: TrackContext,
    pub video_track: TrackContext,
    /// Readiness flags and header latch; only this module changes them.
    pub readiness: Readiness,
}

impl RemuxContext {
    pub open spec fn flags(&self) -> ConfigFlags {
        self.readiness.flags()
    }

    pub open spec fn header_sent_spec(&self) -> bool {
        self.readiness.header_sent()
    }

    pub open spec fn configured(&self) -> bool {
        self.flags().ready()
    }

    /// Codec types follow their ids, and the header goes out only once the
    /// stream is configured.
    pub open spec fn wf(&self) -> bool {
        &&& self.audio_codec_type == AudioCodecType::of_id(self.audio_codec_id)
        &&& self.video_codec_type == VideoCodecType::of_id(self.video_codec_id)
        &&& self.header_sent_spec() ==> self.configured()
    }

    /// The fields that script metadata sets agree.
    pub open spec fn same_stream_info(&self, o: &RemuxContext) -> bool {
        &&& o.fps_num == self.fps_num
        &&& o.duration_ms == self.duration_ms
        &&& o.width == self.width
        &&& o.height == self.height
        &&& o.audio_codec_id == self.audio_codec_id
        &&& o.audio_codec_type == self.audio_codec_type
        &&& o.audio_data_rate == self.audio_data_rate
        &&& o.video_codec_id == self.video_codec_id
        &&& o.video_codec_type == self.video_codec_type
        &&& o.video_data_rate == self.video_data_rate
        &&& o.major_brand@ == self.major_brand@
        &&& o.minor_version@ == self.minor_version@
        &&& o.compatible_brands@ == self.compatible_brands@
    }

    /// The fields that audio records set agree.
    pub open spec fn same_audio_config(&self, o: &RemuxContext) -> bool {
        &&& o.audio_sample_rate == self.audio_sample_rate
        &&& o.audio_channels == self.audio_channels
        &&& o.audio_channels_extended == self.audio_channels_extended
        &&& o.audio_aac_info@ == self.audio_aac_info@
    }

    /// Presence flags, tracks and the header latch agree.
    pub open spec fn same_identity(&self, o: &RemuxContext) -> bool {
        &&& o.has_audio == self.has_audio
        &&& o.has_video == self.has_video
        &&& o.audio_track == self.audio_track
        &&& o.video_track == self.video_track
        &&& o.header_sent_spec() == self.header_sent_spec()
    }

    /// What reading script metadata `m` makes of this context: each field
    /// that `m` holds is taken, each that it lacks is kept, a brand buffer
    /// appends four brands, and the metadata flag rises.
    pub open spec fn metadata_applied(self, m: ScriptMetadata, new: RemuxContext) -> bool {
        &&& new.duration_ms == or_keep(m.duration_ms, self.duration_ms)
        &&& new.width == or_keep(m.width, self.width)
        &&& new.height == or_keep(m.height, self.height)
        &&& new.fps_num == or_keep(m.frame_rate_milli, self.fps_num)
        &&& new.audio_codec_id == or_keep(m.audio_codec_id, self.audio_codec_id)
        &&& new.audio_data_rate == or_keep(m.audio_data_rate, self.audio_data_rate)
        &&& new.video_codec_id == or_keep(m.video_codec_id, self.video_codec_id)
        &&& new.video_data_rate == or_keep(m.video_data_rate, self.video_data_rate)
        &&& new.major_brand@ == bytes_or_keep(m.major_brand, self.major_brand@)
        &&& new.minor_version@ == bytes_or_keep(m.minor_version, self.minor_version@)
        &&& match m.compatible_brands {
            Some(b) => brands_appended(self.compatible_brands@, b@, new.compatible_brands@),
            None => new.compatible_brands@ == self.compatible_brands@,
        }
        &&& new.flags() == self.flags().step(ConfigStep::Metadata)
        &&& self.same_audio_config(&new)
        &&& self.same_identity(&new)
        &&& new.video_avcc_info@ == self.video_avcc_info@
    }

    /// What a decoded audio record makes of this context, with result `r`.
    pub open spec fn audio_applied(self, rec: AudioParseResult, r: Result<(), RemuxError>, new: RemuxContext) -> bool {
        &&& self.same_stream_info(&new)
        &&& self.same_identity(&new)
        &&& new.video_avcc_info@ == self.video_avcc_info@
        &&& match rec {
            AudioParseResult::AacSequenceHeader(h) => {
                if self.audio_codec_type != AudioCodecType::Aac {
                    &&& r == Err::<(), RemuxError>(RemuxError::AudioCodecMismatchExpectedAac)
                    &&& new.flags() == self.flags()
                    &&& self.same_audio_config(&new)
                } else if h.sampling_frequency_index > MAX_AAC_SAMPLE_RATE_INDEX {
                    &&& r == Err::<(), RemuxError>(RemuxError::InvalidAacSampleRateIndex)
                    &&& new.flags() == self.flags()
                    &&& self.same_audio_config(&new)
                } else {
                    &&& r is Ok
                    &&& new.flags() == self.flags().step(ConfigStep::Audio)
                    &&& new.audio_channels == h.channel_configuration
                    &&& new.audio_sample_rate == aac_sample_rate_of(h.sampling_frequency_index as int)
                    &&& new.audio_aac_info@ == h.raw@
                    &&& new.audio_channels_extended == self.audio_channels_extended
                }
            },
            AudioParseResult::Mp3(h) => {
                if self.audio_codec_type != AudioCodecType::Mp3 {
                    &&& r == Err::<(), RemuxError>(RemuxError::AudioCodecMismatchExpectedMp3)
                    &&& new.flags() == self.flags()
                    &&& self.same_audio_config(&new)
                } else {
                    &&& r is Ok
                    &&& new.flags() == self.flags().step(ConfigStep::Audio)
                    &&& new.audio_channels == (if h.channel == Channel::Mono { 1u8 } else { 2u8 })
                    &&& new.audio_channels_extended == (if h.channel == Channel::JointStereo {
                        h.channel_extended
                    } else {
                        self.audio_channels_extended
                    })
                    &&& new.audio_sample_rate == h.sample_rate
                    &&& new.audio_aac_info@ == self.audio_aac_info@
                }
            },
            AudioParseResult::Raw(_) => {
                &&& r is Ok
                &&& new.flags() == self.flags()
                &&& self.same_audio_config(&new)
            },
        }
    }

    /// What a decoded video record makes of this context.
    pub open spec fn video_applied(self, rec: VideoParseResult, new: RemuxContext) -> bool {
        &&& self.same_stream_info(&new)
        &&& self.same_audio_config(&new)
        &&& self.same_identity(&new)
        &&& match rec {
            VideoParseResult::Avc1(Avc1ParseResult::AvcSequenceHeader(record)) => {
                &&& new.video_avcc_info@ == record@
                &&& new.flags() == self.flags().step(ConfigStep::Video)
            },
            _ => {
                &&& new.video_avcc_info@ == self.video_avcc_info@
                &&& new.flags() == self.flags()
            },
        }
    }

    /// The context after an FLV header.
    pub open spec fn with_flv_header(self, header: FlvHeader) -> RemuxContext {
        RemuxContext {
            has_audio: header.type_flags_audio,
            has_video: header.type_flags_video,
            readiness: self.readiness.stepped(ConfigStep::FlvHeader),
            ..self
        }
    }

    /// A context as it starts: nothing known, every flag down, zero
    /// numbers, default brands `isom iso2 avc1 mp41`, minor version "512",
    /// video track 1 and audio track 2, both at fragment sequence 1.
    pub open spec fn is_fresh(&self) -> bool {
        &&& self.wf()
        &&& self.flags() == ConfigFlags::initial()
        &&& !self.header_sent_spec()
        &&& self.fps_num == 0 && self.duration_ms == 0 && self.width == 0 && self.height == 0
        &&& !self.has_audio && !self.has_video
        &&& self.audio_codec_id == 0 && self.audio_codec_type == AudioCodecType::Unknown
        &&& self.audio_data_rate == 0 && self.audio_sample_rate == 0
        &&& self.audio_channels == 0 && self.audio_channels_extended == 0
        &&& self.audio_aac_info@.len() == 0
        &&& self.video_codec_id == 0 && self.video_codec_type == VideoCodecType::Unknown
        &&& self.video_data_rate == 0 && self.video_avcc_info@.len() == 0
        &&& self.major_brand@ == brand_isom()
        &&& self.minor_version@ == default_minor_version()
        &&& self.compatible_brands@.len() == 4
        &&& self.compatible_brands@[0]@ == brand_isom()
        &&& self.compatible_brands@[1]@ == brand_iso2()
        &&& self.compatible_brands@[2]@ == brand_avc1()
        &&& self.compatible_brands@[3]@ == brand_mp41()
        &&& self.audio_track == (TrackContext { track_id: 2, sequence_number: 1, track_type: TrackType::Audio })
        &&& self.video_track == (TrackContext { track_id: 1, sequence_number: 1, track_type: TrackType::Video })
    }

    pub fn new() -> (r: Self)
        ensures
            r.is_fresh(),
    {
        let isom: [u8; 4] = [0x69, 0x73, 0x6f, 0x6d];
        let iso2: [u8; 4] = [0x69, 0x73, 0x6f, 0x32];
        let avc1: [u8; 4] = [0x61, 0x76, 0x63, 0x31];
        let mp41: [u8; 4] = [0x6d, 0x70, 0x34, 0x31];
        let r = RemuxContext {
            fps_num: 0,
            duration_ms: 0,
            width: 0,
            height: 0,
            has_audio: false,
            has_video: false,
            audio_codec_id: 0,
            audio_codec_type: AudioCodecType::Unknown,
            audio_data_rate: 0,
            audio_sample_rate: 0,
            audio_channels: 0,
            audio_channels_extended: 0,
            audio_aac_info: Vec::new(),
            video_codec_id: 0,
            video_codec_type: VideoCodecType::Unknown,
            video_data_rate: 0,
            video_avcc_info: Vec::new(),
            major_brand: vec![0x69, 0x73, 0x6f, 0x6d],
            minor_version: vec![0x35, 0x31, 0x32],
            compatible_brands: vec![isom, iso2, avc1, mp41],
            audio_track: TrackContext::new(DEFAULT_AUDIO_TRACK_ID, TrackType::Audio),
            video_track: TrackContext::new(DEFAULT_VIDEO_TRACK_ID, TrackType::Video),
            readiness: Readiness::new(),
        };
        assert(r.major_brand@ =~= brand_isom());
        assert(r.minor_version@ =~= default_minor_version());
        assert(r.compatible_brands@[0]@ =~= brand_isom());
        assert(r.compatible_brands@[1]@ =~= brand_iso2());
        assert(r.compatible_brands@[2]@ =~= brand_avc1());
        assert(r.compatible_brands@[3]@ =~= brand_mp41());
        r
    }
    /// Copies the presence flags of the FLV header and marks it known.
    pub fn parse_flv_header(&mut self, header: &FlvHeader)
        requires
            old(self).wf(),
        ensures
            final(self).wf(),
            *final(self) == old(self).with_flv_header(*header),
            final(self).has_audio == header.type_flags_audio,
            final(self).has_video == header.type_flags_video,
            final(self).flags() == old(self).flags().step(ConfigStep::FlvHeader),
            old(self).same_stream_info(final(self)),
            old(self).same_audio_config(final(self)),
            final(self).video_avcc_info@ == old(self).video_avcc_info@,
    {
        self.has_audio = header.type_flags_audio;
        self.has_video = header.type_flags_video;
        self.readiness.raise(ConfigStep::FlvHeader);
    }

    /// Takes each field that the script metadata holds, keeps the present
    /// value of each that it lacks, and marks the metadata known. A brand
    /// buffer is split into four brands appended to the present list.
    pub fn parse_metadata(&mut self, metadata: &ScriptMetadata)
        requires
            old(self).wf(),
            metadata.well_formed(),
        ensures
            final(self).wf(),
            old(self).metadata_applied(*metadata, *final(self)),
    {
        self.duration_ms = match metadata.duration_ms {
            Some(duration) => duration,
            None => self.duration_ms,
        };
        self.width = match metadata.width {
            Some(width) => width,
            None => self.width,
        };
        self.height = match metadata.height {
            Some(height) => height,
            None => self.height,
        };
        self.fps_num = match metadata.frame_rate_milli {
            Some(frame_rate) => frame_rate,
            None => self.fps_num,
        };
        self.audio_codec_id = match metadata.audio_codec_id {
            Some(audio_codec_id) => audio_codec_id,
            None => self.audio_codec_id,
        };
        self.audio_codec_type = AudioCodecType::from(self.audio_codec_id);
        self.audio_data_rate = match metadata.audio_data_rate {
            Some(audio_data_rate) => audio_data_rate,
            None => self.audio_data_rate,
        };
        self.video_codec_id = match metadata.video_codec_id {
            Some(video_codec_id) => video_codec_id,
            None => self.video_codec_id,
        };
        self.video_codec_type = VideoCodecType::from(self.video_codec_id);
        self.video_data_rate = match metadata.video_data_rate {
            Some(video_data_rate) => video_data_rate,
            None => self.video_data_rate,
        };
        self.major_brand = bytes_or_keep_exec(&metadata.major_brand, &self.major_brand);
        self.minor_version = bytes_or_keep_exec(&metadata.minor_version, &self.minor_version);
        push_brands_from(&mut self.compatible_brands, &metadata.compatible_brands);
        self.readiness.raise(ConfigStep::Metadata);
    }

    /// Takes the configuration of the audio stream from a decoded record.
    /// An AAC or MP3 record must match the declared audio codec; an AAC
    /// index must lie in the sampling-frequency table. On an error the
    /// context is left as it was; a raw payload changes nothing.
    pub fn configure_audio_metadata(&mut self, audio_metadata: &AudioParseResult) -> (r: Result<(), RemuxError>)
        requires
            old(self).wf(),
        ensures
            final(self).wf(),
            old(self).audio_applied(*audio_metadata, r, *final(self)),
    {
        match audio_metadata {
            AudioParseResult::AacSequenceHeader(aac_info) => {
                if self.audio_codec_type != AudioCodecType::Aac {
                    return Err(RemuxError::AudioCodecMismatchExpectedAac);
                }
                let sample_rate = match aac_sample_rate(aac_info.sampling_frequency_index) {
                    Some(rate) => rate,
                    None => {
                        return Err(RemuxError::InvalidAacSampleRateIndex);
                    },
                };
                self.audio_channels = aac_info.channel_configuration;
                self.audio_sample_rate = sample_rate;
                self.audio_aac_info = copy_bytes(&aac_info.raw);
            },
            AudioParseResult::Mp3(mp3_info) => {
                if self.audio_codec_type != AudioCodecType::Mp3 {
                    return Err(RemuxError::AudioCodecMismatchExpectedMp3);
                }
                self.audio_channels = match mp3_info.channel {
                    Channel::Mono => 1,
                    Channel::Dual => 2,
                    Channel::Stereo => 2,
                    Channel::JointStereo => {
                        self.audio_channels_extended = mp3_info.channel_extended;
                        2
                    },
                };
                self.audio_sample_rate = mp3_info.sample_rate;
            },
            AudioParseResult::Raw(_) => {
                return Ok(());
            },
        }
        self.readiness.raise(ConfigStep::Audio);
        Ok(())
    }

    /// Takes the AVC decoder configuration record from a decoded video
    /// record. An end-of-sequence marker, coded NAL units and payloads of
    /// other codecs change nothing.
    pub fn configure_video_metadata(&mut self, video_metadata: &VideoParseResult)
        requires
            old(self).wf(),
        ensures
            final(self).wf(),
            old(self).video_applied(*video_metadata, *final(self)),
    {
        match video_metadata {
            VideoParseResult::Avc1(h264_info) => {
                match h264_info {
                    Avc1ParseResult::AvcSequenceHeader(record) => {
                        self.video_avcc_info = copy_bytes(record);
                        self.readiness.raise(ConfigStep::Video);
                    },
                    Avc1ParseResult::AvcEndOfSequence => {},
                    Avc1ParseResult::AvcNalu(_) => {},
                }
            },
            VideoParseResult::Other(_) => {},
        }
    }

    /// True when all four sub-configurations are done.
    pub fn is_configured(&self) -> (r: bool)
        ensures
            r == self.configured(),
    {
        self.readiness.is_configured()
    }

    /// Sets all four readiness flags at once, for tests; clearing them also
    /// clears the header latch.
    pub fn _set_configured(&mut self, flag: bool)
        requires
            old(self).wf(),
        ensures
            final(self).wf(),
            *final(self) == (RemuxContext { readiness: old(self).readiness.with_all(flag), ..*old(self) }),
            final(self).flags() == (ConfigFlags { flv_header: flag, metadata: flag, video: flag, audio: flag }),
            final(self).header_sent_spec() == (flag && old(self).header_sent_spec()),
    {
        self.readiness.set_all(flag);
    }

    pub fn is_header_sent(&self) -> (r: bool)
        ensures
            r == self.header_sent_spec(),
    {
        self.readiness.is_header_sent()
    }

    /// Sets the header latch; it can rise only on a configured stream.
    pub fn set_header_sent(&mut self, flag: bool)
        requires
            old(self).wf(),
            flag ==> old(self).configured(),
        ensures
            final(self).wf(),
            *final(self) == (RemuxContext { readiness: old(self).readiness.with_header_sent(flag), ..*old(self) }),
            final(self).header_sent_spec() == flag,
            final(self).flags() == old(self).flags(),
    {
        self.readiness.set_header_sent(flag);
    }
}

/// The readiness flags of a stream context and its header latch. Their
/// fields change only through the context's operations.
pub struct Readiness {
    header_sent: bool,
    flv_header_configured: bool,
    metadata_configured: bool,
    video_metadata_configured: bool,
    audio_metadata_configured: bool,
}

impl Readiness {
    pub closed spec fn flags(&self) -> ConfigFlags {
        ConfigFlags {
            flv_header: self.flv_header_configured,
            metadata: self.metadata_configured,
            video: self.video_metadata_configured,
            audio: self.audio_metadata_configured,
        }
    }

    pub closed spec fn header_sent(&self) -> bool {
        self.header_sent
    }

    /// The same latch, with the step's flag raised.
    pub closed spec fn stepped(self, s: ConfigStep) -> Readiness {
        let f = self.flags().step(s);
        Readiness {
            flv_header_configured: f.flv_header,
            metadata_configured: f.metadata,
            video_metadata_configured: f.video,
            audio_metadata_configured: f.audio,
            ..self
        }
    }

    /// The same flags, with the latch set to `flag`.
    pub closed spec fn with_header_sent(self, flag: bool) -> Readiness {
        Readiness { header_sent: flag, ..self }
    }

    /// Every flag set to `flag`; clearing them clears the latch too.
    pub closed spec fn with_all(self, flag: bool) -> Readiness {
        Readiness {
            header_sent: flag && self.header_sent,
            flv_header_configured: flag,
            metadata_configured: flag,
            video_metadata_configured: flag,
            audio_metadata_configured: flag,
        }
    }

    /// Readiness stepped once more by the same step is unchanged.
    pub proof fn lemma_stepped_twice(self, s: ConfigStep)
        ensures
            self.stepped(s).stepped(s) == self.stepped(s),
    {
    }

    fn new() -> (r: Readiness)
        ensures
            r.flags() == ConfigFlags::initial(),
            !r.header_sent(),
    {
        Readiness {
            header_sent: false,
            flv_header_configured: false,
            metadata_configured: false,
            video_metadata_configured: false,
            audio_metadata_configured: false,
        }
    }

    fn raise(&mut self, s: ConfigStep)
        ensures
            *final(self) == old(self).stepped(s),
            final(self).flags() == old(self).flags().step(s),
            final(self).header_sent() == old(self).header_sent(),
    {
        match s {
            ConfigStep::FlvHeader => self.flv_header_configured = true,
            ConfigStep::Metadata => self.metadata_configured = true,
            ConfigStep::Video => self.video_metadata_configured = true,
            ConfigStep::Audio => self.audio_metadata_configured = true,
            ConfigStep::Unchanged => {},
        }
    }

    fn set_header_sent(&mut self, flag: bool)
        ensures
            *final(self) == old(self).with_header_sent(flag),
            final(self).flags() == old(self).flags(),
            final(self).header_sent() == flag,
    {
        self.header_sent = flag;
    }

    fn set_all(&mut self, flag: bool)
        ensures
            *final(self) == old(self).with_all(flag),
            final(self).flags() == (ConfigFlags { flv_header: flag, metadata: flag, video: flag, audio: flag }),
            final(self).header_sent() == (flag && old(self).header_sent()),
    {
        self.header_sent = flag && self.header_sent;
        self.flv_header_configured = flag;
        self.metadata_configured = flag;
        self.video_metadata_configured = flag;
        self.audio_metadata_configured = flag;
    }

    pub fn is_flv_header_configured(&self) -> (r: bool)
        ensures
            r == self.flags().flv_header,
    {
        self.flv_header_configured
    }

    pub fn is_metadata_configured(&self) -> (r: bool)
        ensures
            r == self.flags().metadata,
    {
        self.metadata_configured
    }

    pub fn is_video_metadata_configured(&self) -> (r: bool)
        ensures
            r == self.flags().video,
    {
        self.video_metadata_configured
    }

    pub fn is_audio_metadata_configured(&self) -> (r: bool)
        ensures
            r == self.flags().audio,
    {
        self.audio_metadata_configured
    }

    pub fn is_configured(&self) -> (r: bool)
        ensures
            r == self.flags().ready(),
    {
        self.flv_header_configured && self.metadata_configured && self.video_metadata_configured
            && self.audio_metadata_configured
    }

    pub fn is_header_sent(&self) -> (r: bool)
        ensures
            r == self.header_sent(),
    {
        self.header_sent
    }
}

/// A run of steps ends one step past the run without its last step: the
/// flags after a sequence of calls follow each call's own step in turn.
pub proof fn lemma_flags_after_push(start: ConfigFlags, steps: Seq<ConfigStep>, s: ConfigStep)
    ensures
        flags_after(start, steps.push(s)) == flags_after(start, steps).step(s),
{
    assert(steps.push(s).drop_last() =~= steps);
}

/// The flags that record which kinds of step occur in `steps`.
pub open spec fn seen_flags(steps: Seq<ConfigStep>) -> ConfigFlags {
    ConfigFlags {
        flv_header: steps.contains(ConfigStep::FlvHeader),
        metadata: steps.contains(ConfigStep::Metadata),
        video: steps.contains(ConfigStep::Video),
        audio: steps.contains(ConfigStep::Audio),
    }
}

/// From the initial flags, a run of steps raises exactly the flags whose
/// step occurs in it.
pub proof fn lemma_flags_record_steps_seen(steps: Seq<ConfigStep>)
    ensures
        flags_after(ConfigFlags::initial(), steps) == seen_flags(steps),
    decreases steps.len(),
{
    if steps.len() > 0 {
        let front = steps.drop_last();
        lemma_flags_record_steps_seen(front);
        assert(steps == front.push(steps.last()));
        assert forall|x: ConfigStep| steps.contains(x) <==> (front.contains(x) || steps.last() == x) by {
            if steps.contains(x) {
                let i = choose|i: int| 0 <= i < steps.len() && steps[i] == x;
                if i < steps.len() - 1 {
                    assert(front[i] == x);
                }
            }
            if front.contains(x) {
                let i = choose|i: int| 0 <= i < front.len() && front[i] == x;
                assert(steps[i] == x);
            }
            if steps.last() == x {
                assert(steps[steps.len() - 1] == x);
            }
        }
    }
}

/// However the header, metadata, audio and video steps interleave, the
/// context is configured exactly when each of the four has occurred at
/// least once.
pub proof fn lemma_configured_iff_each_step_seen(steps: Seq<ConfigStep>)
    ensures
        flags_after(ConfigFlags::initial(), steps).ready() <==> {
            &&& steps.contains(ConfigStep::FlvHeader)
            &&& steps.contains(ConfigStep::Metadata)
            &&& steps.contains(ConfigStep::Video)
            &&& steps.contains(ConfigStep::Audio)
        },
{
    lemma_flags_record_steps_seen(steps);
}

/// The order in which the steps arrive does not change the flags: two runs
/// made of the same steps end in the same flags.
pub proof fn lemma_configuration_order_independent(a: Seq<ConfigStep>, b: Seq<ConfigStep>)
    requires
        a.to_multiset() == b.to_multiset(),
    ensures
        flags_after(ConfigFlags::initial(), a) == flags_after(ConfigFlags::initial(), b),
{
    lemma_flags_record_steps_seen(a);
    lemma_flags_record_steps_seen(b);
    vstd::seq_lib::to_multiset_contains(a, ConfigStep::FlvHeader);
    vstd::seq_lib::to_multiset_contains(b, ConfigStep::FlvHeader);
    vstd::seq_lib::to_multiset_contains(a, ConfigStep::Metadata);
    vstd::seq_lib::to_multiset_contains(b, ConfigStep::Metadata);
    vstd::seq_lib::to_multiset_contains(a, ConfigStep::Video);
    vstd::seq_lib::to_multiset_contains(b, ConfigStep::Video);
    vstd::seq_lib::to_multiset_contains(a, ConfigStep::Audio);
    vstd::seq_lib::to_multiset_contains(b, ConfigStep::Audio);
    assert(a.contains(ConfigStep::FlvHeader) == b.contains(ConfigStep::FlvHeader));
    assert(a.contains(ConfigStep::Metadata) == b.contains(ConfigStep::Metadata));
    assert(a.contains(ConfigStep::Video) == b.contains(ConfigStep::Video));
    assert(a.contains(ConfigStep::Audio) == b.contains(ConfigStep::Audio));
}

/// Reading the same FLV header a second time changes nothing.
pub proof fn lemma_flv_header_idempotent(ctx: RemuxContext, header: FlvHeader)
    ensures
        ctx.with_flv_header(header).with_flv_header(header) == ctx.with_flv_header(header),
{
    ctx.readiness.lemma_stepped_twice(ConfigStep::FlvHeader);
}

/// Splits the first sixteen bytes of `buf` into four brands and appends them.
pub fn push_brands(brands: &mut Vec<[u8; 4]>, buf: &Vec<u8>)
    requires
        buf@.len() >= 16,
    ensures
        brands_appended(old(brands)@, buf@, final(brands)@),
{
    let ghost before = brands@;
    let mut k: usize = 0;
    while k < 4
        invariant
            k <= 4,
            buf@.len() >= 16,
            brands@.len() == before.len() + k,
            brands@.subrange(0, before.len() as int) == before,
            forall|j: int| 0 <= j < k ==> #[trigger] brands@[before.len() + j]@
                == buf@.subrange(4 * j, 4 * j + 4),
        decreases 4 - k,
    {
        let i: usize = 4 * k;
        let brand: [u8; 4] = [buf[i], buf[i + 1], buf[i + 2], buf[i + 3]];
        assert(brand@ =~= buf@.subrange(4 * k, 4 * k + 4));
        brands.push(brand);
        k = k + 1;
        assert(brands@.subrange(0, before.len() as int) =~= before);
    }
    assert(brands@[before.len() + 0int]@ == buf@.subrange(4 * 0int, 4 * 0int + 4));
    assert(brands@[before.len() + 1int]@ == buf@.subrange(4 * 1int, 4 * 1int + 4));
    assert(brands@[before.len() + 2int]@ == buf@.subrange(4 * 2int, 4 * 2int + 4));
    assert(brands@[before.len() + 3int]@ == buf@.subrange(4 * 3int, 4 * 3int + 4));
}

/// A copy of the bytes of `o`, or of `d` where `o` is absent.
pub fn bytes_or_keep_exec(o: &Option<Vec<u8>>, d: &Vec<u8>) -> (r: Vec<u8>)
    ensures
        r@ == bytes_or_keep(*o, d@),
{
    match o {
        Some(v) => copy_bytes(v),
        None => copy_bytes(d),
    }
}

/// Appends the four brands of `o`, where present.
pub fn push_brands_from(brands: &mut Vec<[u8; 4]>, o: &Option<Vec<u8>>)
    requires
        o matches Some(b) ==> b@.len() >= 16,
    ensures
        match *o {
            Some(b) => brands_appended(old(brands)@, b@, final(brands)@),
            None => final(brands)@ == old(brands)@,
        },
{
    if let Some(buf) = o {
        push_brands(brands, buf);
    }
}

/// A copy of the bytes.
pub fn copy_bytes(src: &Vec<u8>) -> (r: Vec<u8>)
    ensures
        r@ == src@,
{
    let mut r: Vec<u8> = Vec::with_capacity(src.len());
    let mut i: usize = 0;
    while i < src.len()
        invariant
            i <= src@.len(),
            r@ == src@.subrange(0, i as int),
        decreases src@.len() - i,
    {
        r.push(src[i]);
        i = i + 1;
        assert(r@ =~= src@.subrange(0, i as int));
    }
    assert(r@ =~= src@);
    r
}

} // verus!
