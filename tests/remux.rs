use fmpeg::boxes::{HandlerType, SampleEntry, XMediaHandlerBox, FIXED_ONE_16_16, FIXED_ONE_8_8};
use fmpeg::codec::{
    AacSequenceHeader, AudioParseResult, Avc1ParseResult, Channel, FlvHeader, Mp3Header,
    ScriptMetadata, Tag, TagType, VideoParseResult,
};
use fmpeg::encoder::{parse_decimal_u32, Encoder};
use fmpeg::error::RemuxError;
use fmpeg::remux_context::{
    aac_sample_rate, AudioCodecType, RemuxContext, TrackContext, TrackType, VideoCodecType,
};
use fmpeg::remuxer::{Action, ParsedTag, Remuxer, RemuxerMessage, TagDisposition};

fn aac_record(index: u8, channels: u8) -> AudioParseResult {
    AudioParseResult::AacSequenceHeader(AacSequenceHeader {
        channel_configuration: channels,
        sampling_frequency_index: index,
        raw: vec![0x12, 0x10],
    })
}

fn avc_record() -> VideoParseResult {
    VideoParseResult::Avc1(Avc1ParseResult::AvcSequenceHeader(vec![0x01, 0x64, 0x00, 0x1f]))
}

fn header(audio: bool, video: bool) -> FlvHeader {
    FlvHeader { type_flags_audio: audio, type_flags_video: video }
}

fn stream_metadata(audio_codec_id: u8) -> ScriptMetadata {
    let mut m = ScriptMetadata::empty();
    m.duration_ms = Some(5000);
    m.width = Some(640);
    m.height = Some(480);
    m.frame_rate_milli = Some(30000);
    m.audio_codec_id = Some(audio_codec_id);
    m.video_codec_id = Some(7);
    m
}

fn configured_aac_context() -> RemuxContext {
    let mut ctx = RemuxContext::new();
    ctx.parse_flv_header(&header(true, true));
    ctx.parse_metadata(&stream_metadata(10));
    ctx.configure_audio_metadata(&aac_record(4, 2)).unwrap();
    ctx.configure_video_metadata(&avc_record());
    ctx
}

#[test]
fn track_context_starts_at_sequence_one() {
    let t = TrackContext::new(7, TrackType::Audio);
    assert_eq!(t.track_id, 7);
    assert_eq!(t.sequence_number, 1);
    assert_eq!(t.track_type, TrackType::Audio);
}

#[test]
fn codec_ids_map_to_codec_types() {
    assert_eq!(AudioCodecType::from(10u8), AudioCodecType::Aac);
    assert_eq!(AudioCodecType::from(2u8), AudioCodecType::Mp3);
    assert_eq!(AudioCodecType::from(3u8), AudioCodecType::Unknown);
    assert_eq!(VideoCodecType::from(7u8), VideoCodecType::Avc1);
    assert_eq!(VideoCodecType::from(12u8), VideoCodecType::Unknown);
}

#[test]
fn aac_table_bounds() {
    assert_eq!(aac_sample_rate(0), Some(96000));
    assert_eq!(aac_sample_rate(4), Some(44100));
    assert_eq!(aac_sample_rate(12), Some(7350));
    assert_eq!(aac_sample_rate(13), None);
}

#[test]
fn aac_index_four_is_44100() {
    let mut ctx = RemuxContext::new();
    let mut m = ScriptMetadata::empty();
    m.audio_codec_id = Some(10);
    ctx.parse_metadata(&m);
    assert_eq!(ctx.configure_audio_metadata(&aac_record(4, 2)), Ok(()));
    assert_eq!(ctx.audio_sample_rate, 44100);
    assert_eq!(ctx.audio_channels, 2);
    assert_eq!(ctx.audio_aac_info, vec![0x12, 0x10]);
    assert!(ctx.readiness.is_audio_metadata_configured());
}

#[test]
fn aac_index_out_of_table_is_rejected() {
    let mut ctx = RemuxContext::new();
    let mut m = ScriptMetadata::empty();
    m.audio_codec_id = Some(10);
    ctx.parse_metadata(&m);
    assert_eq!(
        ctx.configure_audio_metadata(&aac_record(13, 2)),
        Err(RemuxError::InvalidAacSampleRateIndex)
    );
    assert_eq!(ctx.audio_sample_rate, 0);
    assert!(!ctx.readiness.is_audio_metadata_configured());
}

#[test]
fn mp3_joint_stereo_keeps_extension() {
    let mut ctx = RemuxContext::new();
    let mut m = ScriptMetadata::empty();
    m.audio_codec_id = Some(2);
    ctx.parse_metadata(&m);
    let rec = AudioParseResult::Mp3(Mp3Header {
        channel: Channel::JointStereo,
        channel_extended: 3,
        sample_rate: 44100,
    });
    assert_eq!(ctx.configure_audio_metadata(&rec), Ok(()));
    assert_eq!(ctx.audio_channels, 2);
    assert_eq!(ctx.audio_channels_extended, 3);
    assert_eq!(ctx.audio_sample_rate, 44100);
}

#[test]
fn mp3_mono_is_one_channel() {
    let mut ctx = RemuxContext::new();
    let mut m = ScriptMetadata::empty();
    m.audio_codec_id = Some(2);
    ctx.parse_metadata(&m);
    let rec = AudioParseResult::Mp3(Mp3Header { channel: Channel::Mono, channel_extended: 9, sample_rate: 22050 });
    assert_eq!(ctx.configure_audio_metadata(&rec), Ok(()));
    assert_eq!(ctx.audio_channels, 1);
    assert_eq!(ctx.audio_channels_extended, 0);
}

#[test]
fn mp3_record_under_aac_is_mismatch() {
    let mut ctx = RemuxContext::new();
    let mut m = ScriptMetadata::empty();
    m.audio_codec_id = Some(10);
    ctx.parse_metadata(&m);
    let rec = AudioParseResult::Mp3(Mp3Header { channel: Channel::Stereo, channel_extended: 0, sample_rate: 44100 });
    assert_eq!(ctx.configure_audio_metadata(&rec), Err(RemuxError::AudioCodecMismatchExpectedMp3));
    assert!(!ctx.readiness.is_audio_metadata_configured());
}

#[test]
fn aac_record_under_mp3_is_mismatch() {
    let mut ctx = RemuxContext::new();
    let mut m = ScriptMetadata::empty();
    m.audio_codec_id = Some(2);
    ctx.parse_metadata(&m);
    assert_eq!(
        ctx.configure_audio_metadata(&aac_record(4, 2)),
        Err(RemuxError::AudioCodecMismatchExpectedAac)
    );
}

#[test]
fn raw_audio_changes_nothing() {
    let mut ctx = RemuxContext::new();
    assert_eq!(ctx.configure_audio_metadata(&AudioParseResult::Raw(vec![1, 2])), Ok(()));
    assert!(!ctx.readiness.is_audio_metadata_configured());
}

#[test]
fn video_records() {
    let mut ctx = RemuxContext::new();
    ctx.configure_video_metadata(&VideoParseResult::Avc1(Avc1ParseResult::AvcNalu(vec![5])));
    assert!(!ctx.readiness.is_video_metadata_configured());
    ctx.configure_video_metadata(&VideoParseResult::Avc1(Avc1ParseResult::AvcEndOfSequence));
    assert!(!ctx.readiness.is_video_metadata_configured());
    ctx.configure_video_metadata(&VideoParseResult::Other(vec![1]));
    assert!(!ctx.readiness.is_video_metadata_configured());
    ctx.configure_video_metadata(&avc_record());
    assert!(ctx.readiness.is_video_metadata_configured());
    assert_eq!(ctx.video_avcc_info, vec![0x01, 0x64, 0x00, 0x1f]);
}

#[test]
fn default_brands_without_key() {
    let mut ctx = RemuxContext::new();
    let defaults = vec![*b"isom", *b"iso2", *b"avc1", *b"mp41"];
    assert_eq!(ctx.compatible_brands, defaults);
    ctx.parse_metadata(&ScriptMetadata::empty());
    assert_eq!(ctx.compatible_brands, defaults);
    assert_eq!(ctx.major_brand, b"isom".to_vec());
    assert_eq!(ctx.minor_version, b"512".to_vec());
}

#[test]
fn brand_buffer_is_appended() {
    let mut ctx = RemuxContext::new();
    let mut m = ScriptMetadata::empty();
    m.compatible_brands = Some(b"mp42isomavc1dash".to_vec());
    ctx.parse_metadata(&m);
    assert_eq!(
        ctx.compatible_brands,
        vec![*b"isom", *b"iso2", *b"avc1", *b"mp41", *b"mp42", *b"isom", *b"avc1", *b"dash"]
    );
}

#[test]
fn absent_metadata_fields_are_kept() {
    let mut ctx = RemuxContext::new();
    ctx.parse_metadata(&stream_metadata(10));
    ctx.parse_metadata(&ScriptMetadata::empty());
    assert_eq!(ctx.duration_ms, 5000);
    assert_eq!(ctx.width, 640);
    assert_eq!(ctx.height, 480);
    assert_eq!(ctx.fps_num, 30000);
    assert_eq!(ctx.audio_codec_type, AudioCodecType::Aac);
    assert_eq!(ctx.video_codec_type, VideoCodecType::Avc1);
}

#[test]
fn configured_in_any_order() {
    let mut a = RemuxContext::new();
    a.configure_video_metadata(&avc_record());
    assert!(!a.is_configured());
    a.parse_metadata(&stream_metadata(10));
    a.configure_audio_metadata(&aac_record(3, 1)).unwrap();
    assert!(!a.is_configured());
    a.parse_flv_header(&header(true, true));
    assert!(a.is_configured());

    let mut b = RemuxContext::new();
    b.parse_flv_header(&header(true, true));
    b.parse_metadata(&stream_metadata(10));
    b.configure_audio_metadata(&aac_record(3, 1)).unwrap();
    assert!(!b.is_configured());
    b.configure_video_metadata(&avc_record());
    assert!(b.is_configured());
}

#[test]
fn flv_header_twice_is_idempotent() {
    let mut ctx = RemuxContext::new();
    ctx.parse_flv_header(&header(true, false));
    let (audio, video, flag) = (ctx.has_audio, ctx.has_video, ctx.readiness.is_flv_header_configured());
    ctx.parse_flv_header(&header(true, false));
    assert_eq!((ctx.has_audio, ctx.has_video, ctx.readiness.is_flv_header_configured()), (audio, video, flag));
    assert!(audio && !video && flag);
    assert!(!ctx.readiness.is_metadata_configured());
}

#[test]
fn header_latch() {
    let mut ctx = configured_aac_context();
    assert!(!ctx.is_header_sent());
    ctx.set_header_sent(true);
    assert!(ctx.is_header_sent());
    ctx._set_configured(true);
    assert!(ctx.is_configured());
}

#[test]
fn test_hook_clears_flags() {
    let mut ctx = configured_aac_context();
    ctx.set_header_sent(true);
    ctx._set_configured(false);
    assert!(!ctx.is_configured());
    assert!(!ctx.is_header_sent());
    assert_eq!(ctx.duration_ms, 5000);
}

#[test]
fn fresh_actor_context() {
    let r = Remuxer::new();
    assert!(!r.remuxing);
    assert_eq!(r.ctx.compatible_brands, vec![*b"isom", *b"iso2", *b"avc1", *b"mp41"]);
    assert_eq!(r.ctx.minor_version, b"512".to_vec());
    assert_eq!(r.ctx.video_track.track_id, 1);
    assert_eq!(r.ctx.audio_track.track_id, 2);
    assert_eq!(r.ctx.audio_track.sequence_number, 1);
    assert_eq!(r.ctx.duration_ms, 0);
    assert!(!r.ctx.is_configured());
}

#[test]
fn header_latch_keeps_other_fields() {
    let mut ctx = configured_aac_context();
    ctx.set_header_sent(true);
    assert!(ctx.has_audio && ctx.has_video);
    assert_eq!((ctx.video_track.track_id, ctx.audio_track.track_id), (1, 2));
    assert_eq!(ctx.audio_sample_rate, 44100);
}

#[test]
fn end_to_end_moov() {
    let ctx = configured_aac_context();
    assert!(ctx.is_configured());
    let moov = Encoder::encode_moov(&ctx).unwrap();
    assert_eq!(moov.tracks.len(), 2);
    assert_eq!(moov.tracks[0].tkhd.track_id, 1);
    assert_eq!(moov.tracks[1].tkhd.track_id, 2);
    assert_eq!(moov.mvhd.duration, 5000);
    assert_eq!(moov.mvhd.timescale, 1000);
    assert_eq!(moov.mvhd.next_track_id, 3);
    assert_eq!(moov.mvhd.rate, FIXED_ONE_16_16);
    assert_eq!(moov.mvhd.volume, FIXED_ONE_8_8);
    assert_eq!(moov.tracks[0].tkhd.width, 640 << 16);
    assert_eq!(moov.tracks[0].tkhd.height, 480 << 16);
    assert_eq!(moov.tracks[0].mdia.hdlr.handler_type, HandlerType::Video);
    assert_eq!(moov.tracks[1].mdia.hdlr.handler_type, HandlerType::Audio);
    assert_eq!(moov.tracks[0].mdia.minf.xmhd, XMediaHandlerBox::Video);
    assert_eq!(moov.tracks[1].mdia.mdhd.timescale, 1000);
    match &moov.tracks[0].mdia.minf.stbl.stsd.entries[0] {
        SampleEntry::Avc1 { width, height, avcc } => {
            assert_eq!((*width, *height), (640, 480));
            assert_eq!(avcc, &vec![0x01, 0x64, 0x00, 0x1f]);
        }
        _ => panic!("expected an avc1 entry"),
    }
    match &moov.tracks[1].mdia.minf.stbl.stsd.entries[0] {
        SampleEntry::Mp4a { sample_rate, channel_count, spec_config } => {
            assert_eq!((*sample_rate, *channel_count), (44100, 2));
            assert_eq!(spec_config, &vec![0x12, 0x10]);
        }
        _ => panic!("expected an mp4a entry"),
    }
}

#[test]
fn mp3_sample_entry() {
    let mut ctx = RemuxContext::new();
    ctx.parse_flv_header(&header(true, true));
    ctx.parse_metadata(&stream_metadata(2));
    let rec = AudioParseResult::Mp3(Mp3Header { channel: Channel::Stereo, channel_extended: 0, sample_rate: 48000 });
    ctx.configure_audio_metadata(&rec).unwrap();
    ctx.configure_video_metadata(&avc_record());
    let minf = Encoder::encode_minf(&ctx, HandlerType::Audio).unwrap();
    match &minf.stbl.stsd.entries[0] {
        SampleEntry::Mp3 { sample_rate, channel_count } => assert_eq!((*sample_rate, *channel_count), (48000, 2)),
        _ => panic!("expected an mp3 entry"),
    }
}

#[test]
fn unsupported_codecs_are_errors() {
    let mut ctx = configured_aac_context();
    let mut m = ScriptMetadata::empty();
    m.video_codec_id = Some(2);
    ctx.parse_metadata(&m);
    assert_eq!(Encoder::encode_moov(&ctx).err(), Some(RemuxError::UnsupportedVideoCodec));
    let mut m = ScriptMetadata::empty();
    m.video_codec_id = Some(7);
    m.audio_codec_id = Some(1);
    ctx.parse_metadata(&m);
    assert_eq!(Encoder::encode_moov(&ctx).err(), Some(RemuxError::UnsupportedAudioCodec));
    assert_eq!(Encoder::encode_mdia(&ctx, HandlerType::Audio).err(), Some(RemuxError::UnsupportedAudioCodec));
}

#[test]
fn ftyp_from_context() {
    let ctx = configured_aac_context();
    let ftyp = Encoder::encode_ftyp(&ctx).unwrap();
    assert_eq!(ftyp.major_brand, b"isom".to_vec());
    assert_eq!(ftyp.minor_version, 512);
    assert_eq!(ftyp.compatible_brands, vec![*b"isom", *b"iso2", *b"avc1", *b"mp41"]);
}

#[test]
fn ftyp_rejects_bad_minor_version() {
    let mut ctx = configured_aac_context();
    let mut m = ScriptMetadata::empty();
    m.minor_version = Some(b"5x".to_vec());
    ctx.parse_metadata(&m);
    assert_eq!(Encoder::encode_ftyp(&ctx).err(), Some(RemuxError::InvalidMinorVersion));
}

#[test]
fn decimal_parsing() {
    assert_eq!(parse_decimal_u32(&b"0".to_vec()), Some(0));
    assert_eq!(parse_decimal_u32(&b"4294967295".to_vec()), Some(4294967295));
    assert_eq!(parse_decimal_u32(&b"4294967296".to_vec()), None);
    assert_eq!(parse_decimal_u32(&Vec::new()), None);
    assert_eq!(parse_decimal_u32(&b"12a".to_vec()), None);
    assert_eq!(parse_decimal_u32(&b"+512".to_vec()), Some(512));
    assert_eq!(parse_decimal_u32(&b"+".to_vec()), None);
    assert_eq!(parse_decimal_u32(&b"++5".to_vec()), None);
    assert_eq!(parse_decimal_u32(&b"-5".to_vec()), None);
}

#[test]
fn ftyp_accepts_plus_sign() {
    let mut ctx = configured_aac_context();
    let mut m = ScriptMetadata::empty();
    m.minor_version = Some(b"+512".to_vec());
    ctx.parse_metadata(&m);
    assert_eq!(Encoder::encode_ftyp(&ctx).unwrap().minor_version, 512);
    let mut m = ScriptMetadata::empty();
    m.minor_version = Some(b"+".to_vec());
    ctx.parse_metadata(&m);
    assert_eq!(Encoder::encode_ftyp(&ctx).err(), Some(RemuxError::InvalidMinorVersion));
}

#[test]
fn actor_dispositions_before_configuration() {
    let mut r = Remuxer::new();
    r.handle_message(RemuxerMessage::PushMetadata(stream_metadata(10)));
    assert_eq!(r.remux_parsed(&ParsedTag::Audio(AudioParseResult::Raw(vec![1]))), Ok(TagDisposition::Discarded));
    assert_eq!(
        r.remux_parsed(&ParsedTag::Video(VideoParseResult::Avc1(Avc1ParseResult::AvcNalu(vec![1])))),
        Ok(TagDisposition::Discarded)
    );
    assert_eq!(r.remux_parsed(&ParsedTag::Unparsable), Ok(TagDisposition::Dropped));
    assert!(!r.ctx.readiness.is_audio_metadata_configured());
    assert!(!r.ctx.readiness.is_video_metadata_configured());
}

#[test]
fn small_encoders() {
    let ctx = configured_aac_context();
    let mdhd = Encoder::encode_mdhd(&ctx);
    assert_eq!((mdhd.timescale, mdhd.duration, mdhd.creation_time), (1000, 5000, 0));
    assert_eq!(Encoder::encode_hdlr(&ctx, HandlerType::Audio).handler_type.tag(), *b"soun");
    assert_eq!(HandlerType::Video.tag(), *b"vide");
    let mhdv = Encoder::encode_mhdv(&ctx);
    assert_eq!(mhdv.modification_time, 0);
    let mdia = Encoder::encode_mdia(&ctx, HandlerType::Video).unwrap();
    let trak = Encoder::encode_trak(&ctx, 9, mdia);
    assert_eq!(trak.tkhd.track_id, 9);
    assert_eq!(trak.tkhd.duration, 5000);
}

#[test]
fn actor_gate_and_header() {
    let mut r = Remuxer::new();
    assert_eq!(r.handle_message(RemuxerMessage::Now), Action::Idle);
    assert_eq!(r.handle_message(RemuxerMessage::StartRemuxing), Action::AwaitConfiguration);
    assert_eq!(r.handle_message(RemuxerMessage::PushFlvHeader(header(true, true))), Action::AwaitConfiguration);
    assert_eq!(r.handle_message(RemuxerMessage::PushMetadata(stream_metadata(10))), Action::AwaitConfiguration);
    assert_eq!(r.remux_parsed(&ParsedTag::Audio(aac_record(4, 2))), Ok(TagDisposition::Configured));
    assert_eq!(r.decide(), Action::AwaitConfiguration);
    assert_eq!(r.remux_parsed(&ParsedTag::Video(avc_record())), Ok(TagDisposition::Configured));
    assert_eq!(r.decide(), Action::SendHeader);
    let (ftyp, moov) = r.send_mpeg4_header().unwrap();
    assert_eq!(ftyp.minor_version, 512);
    assert_eq!(moov.tracks.len(), 2);
    assert!(r.ctx.is_header_sent());
    assert_eq!(r.decide(), Action::Remux);
    assert_eq!(r.remux_parsed(&ParsedTag::Audio(AudioParseResult::Raw(vec![1]))), Ok(TagDisposition::Forward));
    assert_eq!(r.remux_parsed(&ParsedTag::Discarded), Ok(TagDisposition::Discarded));
    assert_eq!(r.handle_message(RemuxerMessage::StopRemuxing), Action::Idle);
    assert_eq!(r.handle_message(RemuxerMessage::CloseWorkerThread), Action::Close);
}

#[test]
fn actor_queue_is_fifo() {
    let mut r = Remuxer::new();
    for (i, kind) in [TagType::Audio, TagType::Video, TagType::Script].into_iter().enumerate() {
        let tag = Tag { tag_type: kind, timestamp: i as u32, data: vec![i as u8] };
        assert_eq!(r.handle_message(RemuxerMessage::PushTag(tag)), Action::Idle);
    }
    assert_eq!(r.pop_tag().map(|t| t.timestamp), Some(0));
    assert_eq!(r.pop_tag().map(|t| t.tag_type), Some(TagType::Video));
    assert_eq!(r.pop_tag().map(|t| t.data), Some(vec![2]));
    assert!(r.pop_tag().is_none());
}

#[test]
fn actor_reports_codec_mismatch() {
    let mut r = Remuxer::new();
    r.handle_message(RemuxerMessage::PushMetadata(stream_metadata(2)));
    assert_eq!(
        r.remux_parsed(&ParsedTag::Audio(aac_record(4, 2))),
        Err(RemuxError::AudioCodecMismatchExpectedAac)
    );
    assert_eq!(RemuxError::AudioCodecMismatchExpectedAac.reason(), "audio type mismatch: expected aac");
}
