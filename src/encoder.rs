//! Assembly of the initialization segment's box tree from a configured
//! stream context.
use vstd::prelude::*;
use crate::boxes::{
    fixed_16_16, DataInformationBox, FileTypeBox, HandlerBox, HandlerType, MediaBox,
    MediaHeaderBox, MediaInfoBox, MovieBox, MovieHeaderBox, SampleDescriptionBox, SampleEntry,
    SampleTableBox, TrackBox, TrackHeaderBox, XMediaHandlerBox, FIXED_ONE_16_16, FIXED_ONE_8_8,
};
use crate::error::RemuxError;
use crate::remux_context::{copy_bytes, AudioCodecType, RemuxContext, VideoCodecType, TIME_SCALE};

verus! {

/// Track id of the video track.
pub const DEFAULT_VIDEO_TRACK_ID: u32 = 1;

/// Track id of the audio track.
pub const DEFAULT_AUDIO_TRACK_ID: u32 = 2;

/// One past the largest track id.
pub const NEXT_TRACK_ID: u32 = 3;

pub open spec fn is_digit(b: u8) -> bool {
    0x30 <= b <= 0x39
}

pub open spec fn all_digits(s: Seq<u8>) -> bool {
    forall|i: int| 0 <= i < s.len() ==> is_digit(#[trigger] s[i])
}

/// The number that a run of decimal digits spells.
pub open spec fn decimal_value(s: Seq<u8>) -> nat
    decreases s.len(),
{
    if s.len() == 0 {
        0
    } else {
        decimal_value(s.drop_last()) * 10 + (s.last() - 0x30) as nat
    }
}

/// The digits of an unsigned number's text: what follows one optional
/// leading `+`.
pub open spec fn unsigned_digits(s: Seq<u8>) -> Seq<u8> {
    if s.len() > 0 && s[0] == 0x2b {
        s.subrange(1, s.len() as int)
    } else {
        s
    }
}

/// Text of a 32-bit unsigned number: an optional `+`, then a non-empty run
/// of decimal digits whose value fits in 32 bits.
pub open spec fn is_u32_decimal(s: Seq<u8>) -> bool {
    let d = unsigned_digits(s);
    d.len() > 0 && all_digits(d) && decimal_value(d) <= u32::MAX
}

/// The number that the text of an unsigned number spells.
pub open spec fn u32_text_value(s: Seq<u8>) -> nat {
    decimal_value(unsigned_digits(s))
}

/// The value of a prefix of digits is at most that of the whole.
pub proof fn lemma_decimal_prefix_le(s: Seq<u8>, i: int)
    requires
        all_digits(s),
        0 <= i <= s.len(),
    ensures
        decimal_value(s.take(i)) <= decimal_value(s),
    decreases s.len(),
{
    if i < s.len() {
        let front = s.drop_last();
        assert(front.take(i) =~= s.take(i));
        lemma_decimal_prefix_le(front, i);
    } else {
        assert(s.take(i) =~= s);
    }
}

/// Reads the text of a 32-bit unsigned number: an optional `+`, then
/// decimal digits.
pub fn parse_decimal_u32(s: &Vec<u8>) -> (r: Option<u32>)
    ensures
        r is Some <==> is_u32_decimal(s@),
        r matches Some(v) ==> v == u32_text_value(s@),
{
    let start: usize = if s.len() > 0 && s[0] == 0x2b { 1 } else { 0 };
    let ghost d = unsigned_digits(s@);
    assert(d =~= s@.subrange(start as int, s@.len() as int));
    if start >= s.len() {
        return None;
    }
    let mut acc: u64 = 0;
    let mut i: usize = start;
    while i < s.len()
        invariant
            start <= i <= s@.len(),
            d == s@.subrange(start as int, s@.len() as int),
            d == unsigned_digits(s@),
            acc == decimal_value(d.take(i - start)),
            acc <= u32::MAX,
            forall|j: int| 0 <= j < i - start ==> is_digit(#[trigger] d[j]),
        decreases s@.len() - i,
    {
        let b = s[i];
        if b < 0x30 || b > 0x39 {
            assert(!all_digits(d)) by {
                assert(!is_digit(d[i - start]));
            }
            return None;
        }
        let ghost prefix = d.take(i - start + 1);
        assert(prefix.drop_last() =~= d.take(i - start));
        acc = acc * 10 + (b - 0x30) as u64;
        i = i + 1;
        if acc > 0xffff_ffff {
            assert(!is_u32_decimal(s@)) by {
                if all_digits(d) {
                    lemma_decimal_prefix_le(d, i - start);
                }
            }
            return None;
        }
    }
    assert(d.take(i - start) =~= d);
    Some(acc as u32)
}

/// A copy of a brand list.
pub fn copy_brands(src: &Vec<[u8; 4]>) -> (r: Vec<[u8; 4]>)
    ensures
        r@ == src@,
{
    let mut r: Vec<[u8; 4]> = Vec::with_capacity(src.len());
    let mut i: usize = 0;
    while i < src.len()
        invariant
            i <= src@.len(),
            r@ == src@.subrange(0, i as int),
        decreases src@.len() - i,
    {
        r.push(src[i]);
        i = i + 1;
        assert(r@ =~= src@.subrange(0, i as int));
    }
    assert(r@ =~= src@);
    r
}

pub open spec fn mvhd_of(ctx: &RemuxContext) -> MovieHeaderBox {
    MovieHeaderBox {
        creation_time: 0,
        modification_time: 0,
        timescale: TIME_SCALE,
        duration: ctx.duration_ms,
        rate: FIXED_ONE_16_16,
        volume: FIXED_ONE_8_8,
        next_track_id: NEXT_TRACK_ID,
    }
}

pub open spec fn tkhd_of(ctx: &RemuxContext, track_id: u32) -> TrackHeaderBox {
    TrackHeaderBox {
        track_id,
        creation_time: 0,
        modification_time: 0,
        duration: ctx.duration_ms,
        width: fixed_16_16(ctx.width),
        height: fixed_16_16(ctx.height),
    }
}

pub open spec fn mdhd_of(ctx: &RemuxContext) -> MediaHeaderBox {
    MediaHeaderBox {
        creation_time: 0,
        modification_time: 0,
        timescale: TIME_SCALE,
        duration: ctx.duration_ms,
    }
}

pub open spec fn xmhd_of(handler_type: HandlerType) -> XMediaHandlerBox {
    match handler_type {
        HandlerType::Video => XMediaHandlerBox::Video,
        HandlerType::Audio => XMediaHandlerBox::Audio,
    }
}

/// The context's codec for this media type has a sample entry.
pub open spec fn codec_supported(ctx: &RemuxContext, handler_type: HandlerType) -> bool {
    match handler_type {
        HandlerType::Video => ctx.video_codec_type == VideoCodecType::Avc1,
        HandlerType::Audio => ctx.audio_codec_type != AudioCodecType::Unknown,
    }
}

/// The error for a media type whose codec has no sample entry.
pub open spec fn unsupported_error(handler_type: HandlerType) -> RemuxError {
    match handler_type {
        HandlerType::Video => RemuxError::UnsupportedVideoCodec,
        HandlerType::Audio => RemuxError::UnsupportedAudioCodec,
    }
}

/// `e` is the sample entry of the context's codec for this media type.
pub open spec fn sample_entry_matches(ctx: &RemuxContext, handler_type: HandlerType, e: SampleEntry) -> bool {
    match handler_type {
        HandlerType::Video => e matches SampleEntry::Avc1 { width, height, avcc }
            && width == ctx.width && height == ctx.height && avcc@ == ctx.video_avcc_info@,
        HandlerType::Audio => match ctx.audio_codec_type {
            AudioCodecType::Aac => e matches SampleEntry::Mp4a { sample_rate, channel_count, spec_config }
                && sample_rate == ctx.audio_sample_rate && channel_count == ctx.audio_channels as u16
                && spec_config@ == ctx.audio_aac_info@,
            _ => e matches SampleEntry::Mp3 { sample_rate, channel_count }
                && sample_rate == ctx.audio_sample_rate && channel_count == ctx.audio_channels as u16,
        },
    }
}

pub open spec fn minf_matches(ctx: &RemuxContext, handler_type: HandlerType, m: MediaInfoBox) -> bool {
    &&& m.xmhd == xmhd_of(handler_type)
    &&& m.stbl.stsd.entries@.len() == 1
    &&& sample_entry_matches(ctx, handler_type, m.stbl.stsd.entries@[0])
}

pub open spec fn mdia_matches(ctx: &RemuxContext, handler_type: HandlerType, m: MediaBox) -> bool {
    &&& m.mdhd == mdhd_of(ctx)
    &&& m.hdlr == (HandlerBox { handler_type })
    &&& minf_matches(ctx, handler_type, m.minf)
}

pub open spec fn trak_matches(ctx: &RemuxContext, track_id: u32, handler_type: HandlerType, t: TrackBox) -> bool {
    &&& t.tkhd == tkhd_of(ctx, track_id)
    &&& mdia_matches(ctx, handler_type, t.mdia)
}

/// `m` is the movie box of the context: its header, then the video track
/// (id 1), then the audio track (id 2).
pub open spec fn moov_matches(ctx: &RemuxContext, m: MovieBox) -> bool {
    &&& m.mvhd == mvhd_of(ctx)
    &&& m.tracks@.len() == 2
    &&& trak_matches(ctx, DEFAULT_VIDEO_TRACK_ID, HandlerType::Video, m.tracks@[0])
    &&& trak_matches(ctx, DEFAULT_AUDIO_TRACK_ID, HandlerType::Audio, m.tracks@[1])
}

/// Builds the boxes of the initialization segment.
pub struct Encoder;

impl Encoder {
    /// The file type box: the context's brands and its minor version read
    /// as a decimal number.
    pub fn encode_ftyp(ctx: &RemuxContext) -> (r: Result<FileTypeBox, RemuxError>)
        requires
            ctx.configured(),
        ensures
            r is Ok <==> is_u32_decimal(ctx.minor_version@),
            r matches Err(e) ==> e == RemuxError::InvalidMinorVersion,
            r matches Ok(f) ==> {
                &&& f.major_brand@ == ctx.major_brand@
                &&& f.minor_version == u32_text_value(ctx.minor_version@)
                &&& f.compatible_brands@ == ctx.compatible_brands@
            },
    {
        match parse_decimal_u32(&ctx.minor_version) {
            Some(minor_version) => Ok(FileTypeBox {
                major_brand: copy_bytes(&ctx.major_brand),
                minor_version,
                compatible_brands: copy_brands(&ctx.compatible_brands),
            }),
            None => Err(RemuxError::InvalidMinorVersion),
        }
    }

    /// The movie box: header, video track, audio track.
    pub fn encode_moov(ctx: &RemuxContext) -> (r: Result<MovieBox, RemuxError>)
        requires
            ctx.configured(),
        ensures
            !codec_supported(ctx, HandlerType::Video) ==> r == Err::<MovieBox, RemuxError>(
                RemuxError::UnsupportedVideoCodec,
            ),
            codec_supported(ctx, HandlerType::Video) && !codec_supported(ctx, HandlerType::Audio)
                ==> r == Err::<MovieBox, RemuxError>(RemuxError::UnsupportedAudioCodec),
            codec_supported(ctx, HandlerType::Video) && codec_supported(ctx, HandlerType::Audio)
                ==> (r matches Ok(m) && moov_matches(ctx, m)),
    {
        let mvhd = Self::encode_mhdv(ctx);
        let video = Self::encode_mdia(ctx, HandlerType::Video)?;
        let audio = Self::encode_mdia(ctx, HandlerType::Audio)?;
        let mut tracks: Vec<TrackBox> = Vec::new();
        tracks.push(Self::encode_trak(ctx, DEFAULT_VIDEO_TRACK_ID, video));
        tracks.push(Self::encode_trak(ctx, DEFAULT_AUDIO_TRACK_ID, audio));
        Ok(MovieBox { mvhd, tracks })
    }

    /// The movie header: millisecond timescale, the stream's duration,
    /// rate and volume 1.0, zero timestamps.
    pub fn encode_mhdv(ctx: &RemuxContext) -> (r: MovieHeaderBox)
        requires
            ctx.configured(),
        ensures
            r == mvhd_of(ctx),
    {
        MovieHeaderBox {
            creation_time: 0,
            modification_time: 0,
            timescale: TIME_SCALE,
            duration: ctx.duration_ms,
            rate: FIXED_ONE_16_16,
            volume: FIXED_ONE_8_8,
            next_track_id: NEXT_TRACK_ID,
        }
    }

    /// A track: its header, then the given media box.
    pub fn encode_trak(ctx: &RemuxContext, track_id: u32, media_box: MediaBox) -> (r: TrackBox)
        requires
            ctx.configured(),
        ensures
            r.tkhd == tkhd_of(ctx, track_id),
            r.mdia == media_box,
    {
        let width: u32 = ctx.width as u32 * 0x10000;
        let height: u32 = ctx.height as u32 * 0x10000;
        TrackBox {
            tkhd: TrackHeaderBox {
                track_id,
                creation_time: 0,
                modification_time: 0,
                duration: ctx.duration_ms,
                width,
                height,
            },
            mdia: media_box,
        }
    }

    /// The media box of one media type.
    pub fn encode_mdia(ctx: &RemuxContext, handler_type: HandlerType) -> (r: Result<MediaBox, RemuxError>)
        requires
            ctx.configured(),
        ensures
            codec_supported(ctx, handler_type) ==> (r matches Ok(m) && mdia_matches(ctx, handler_type, m)),
            !codec_supported(ctx, handler_type) ==> r == Err::<MediaBox, RemuxError>(
                unsupported_error(handler_type),
            ),
    {
        let minf = Self::encode_minf(ctx, handler_type)?;
        Ok(MediaBox {
            mdhd: Self::encode_mdhd(ctx),
            hdlr: Self::encode_hdlr(ctx, handler_type),
            minf,
        })
    }

    /// The media header: millisecond timescale and the stream's duration.
    pub fn encode_mdhd(ctx: &RemuxContext) -> (r: MediaHeaderBox)
        requires
            ctx.configured(),
        ensures
            r == mdhd_of(ctx),
    {
        MediaHeaderBox {
            creation_time: 0,
            modification_time: 0,
            timescale: TIME_SCALE,
            duration: ctx.duration_ms,
        }
    }

    /// The handler box of one media type.
    pub fn encode_hdlr(ctx: &RemuxContext, handler_type: HandlerType) -> (r: HandlerBox)
        requires
            ctx.configured(),
        ensures
            r.handler_type == handler_type,
    {
        HandlerBox { handler_type }
    }

    /// The media information box: media header, data information, and a
    /// sample table whose description holds the one sample entry of the
    /// context's codec.
    pub fn encode_minf(ctx: &RemuxContext, handler_type: HandlerType) -> (r: Result<MediaInfoBox, RemuxError>)
        requires
            ctx.configured(),
        ensures
            codec_supported(ctx, handler_type) ==> (r matches Ok(m) && minf_matches(ctx, handler_type, m)),
            !codec_supported(ctx, handler_type) ==> r == Err::<MediaInfoBox, RemuxError>(
                unsupported_error(handler_type),
            ),
    {
        let xmhd = match handler_type {
            HandlerType::Video => XMediaHandlerBox::Video,
            HandlerType::Audio => XMediaHandlerBox::Audio,
        };
        let entry = match handler_type {
            HandlerType::Video => {
                match ctx.video_codec_type {
                    VideoCodecType::Avc1 => SampleEntry::Avc1 {
                        width: ctx.width,
                        height: ctx.height,
                        avcc: copy_bytes(&ctx.video_avcc_info),
                    },
                    VideoCodecType::Unknown => {
                        return Err(RemuxError::UnsupportedVideoCodec);
                    },
                }
            },
            HandlerType::Audio => {
                match ctx.audio_codec_type {
                    AudioCodecType::Aac => SampleEntry::Mp4a {
                        sample_rate: ctx.audio_sample_rate,
                        channel_count: ctx.audio_channels as u16,
                        spec_config: copy_bytes(&ctx.audio_aac_info),
                    },
                    AudioCodecType::Mp3 => SampleEntry::Mp3 {
                        sample_rate: ctx.audio_sample_rate,
                        channel_count: ctx.audio_channels as u16,
                    },
                    AudioCodecType::Unknown => {
                        return Err(RemuxError::UnsupportedAudioCodec);
                    },
                }
            },
        };
        let mut entries: Vec<SampleEntry> = Vec::new();
        entries.push(entry);
        Ok(MediaInfoBox {
            xmhd,
            dinf: DataInformationBox {},
            stbl: SampleTableBox { stsd: SampleDescriptionBox { entries } },
        })
    }
}

} // verus!
