//! The decisions of the remux actor: what each message does to its state,
//! what the actor does next, and what becomes of each parsed tag. The loop
//! that receives messages and runs the parsers stands outside the library.
use vstd::prelude::*;
use std::collections::VecDeque;
use crate::boxes::{FileTypeBox, MovieBox};
use crate::codec::{AudioParseResult, Avc1ParseResult, FlvHeader, ScriptMetadata, Tag, VideoParseResult};
use crate::encoder::{
    codec_supported, is_u32_decimal, u32_text_value, moov_matches, Encoder,
};
use crate::boxes::HandlerType;
use crate::error::RemuxError;
use crate::remux_context::{
    flags_after, lemma_configuration_order_independent, lemma_configured_iff_each_step_seen,
    lemma_flags_after_push, ConfigFlags, ConfigStep, RemuxContext,
};

verus! {

/// A message from the producer.
pub enum RemuxerMessage {
    PushTag(Tag),
    PushFlvHeader(FlvHeader),
    PushMetadata(ScriptMetadata),
    StartRemuxing,
    StopRemuxing,
    CloseWorkerThread,
    /// A heartbeat; it changes nothing.
    Now,
}

/// What the actor does after a message.
#[derive(Clone, Copy, Debug, PartialEq, Eq, Structural)]
pub enum Action {
    /// Leave the loop.
    Close,
    /// Remuxing is off: wait for the next message.
    Idle,
    /// Remuxing is on but the stream is not configured yet.
    AwaitConfiguration,
    /// Assemble and send the initialization segment.
    SendHeader,
    /// Drain the pending tags in order.
    Remux,
}

/// A tag as its parser left it.
pub enum ParsedTag {
    Audio(AudioParseResult),
    Video(VideoParseResult),
    /// A script or encryption tag: nothing to parse.
    Discarded,
    /// The parser failed on the tag's payload.
    Unparsable,
}

/// What became of one parsed tag.
#[derive(Clone, Copy, Debug, PartialEq, Eq, Structural)]
pub enum TagDisposition {
    /// Its record went into the stream configuration.
    Configured,
    /// The stream is configured: its payload goes on to media packaging.
    Forward,
    /// It carries nothing for the remuxer.
    Discarded,
    /// It did not parse: it is dropped and the queue goes on.
    Dropped,
}

/// The next action of a running actor.
pub open spec fn next_action(remuxing: bool, configured: bool, header_sent: bool) -> Action {
    if !remuxing {
        Action::Idle
    } else if !configured {
        Action::AwaitConfiguration
    } else if !header_sent {
        Action::SendHeader
    } else {
        Action::Remux
    }
}

/// The actor asks for the initialization segment only on a configured
/// stream whose header has not gone out, and drains tags only after it has.
pub proof fn lemma_assembly_gated(remuxing: bool, configured: bool, header_sent: bool)
    ensures
        next_action(remuxing, configured, header_sent) == Action::SendHeader ==> configured && !header_sent,
        next_action(remuxing, configured, header_sent) == Action::Remux ==> configured && header_sent,
        !configured ==> next_action(remuxing, configured, header_sent) != Action::SendHeader,
{
}

/// However header, metadata, audio and video messages and tags interleave,
/// the actor's stream is configured exactly when each of the four kinds of
/// configuration step has been applied at least once.
pub proof fn lemma_actor_configured_iff_each_step_seen(r: Remuxer)
    requires
        r.wf(),
    ensures
        r.ctx.configured() <==> {
            &&& r.steps@.contains(ConfigStep::FlvHeader)
            &&& r.steps@.contains(ConfigStep::Metadata)
            &&& r.steps@.contains(ConfigStep::Video)
            &&& r.steps@.contains(ConfigStep::Audio)
        },
{
    lemma_configured_iff_each_step_seen(r.steps@);
}

/// Two actors that applied the same configuration steps, in whatever order,
/// agree on whether their streams are configured.
pub proof fn lemma_actor_order_independent(a: Remuxer, b: Remuxer)
    requires
        a.wf(),
        b.wf(),
        a.steps@.to_multiset() == b.steps@.to_multiset(),
    ensures
        a.ctx.configured() == b.ctx.configured(),
        a.ctx.flags() == b.ctx.flags(),
{
    lemma_configuration_order_independent(a.steps@, b.steps@);
}

/// The state of one remux actor.
pub struct Remuxer {
    pub remuxing: bool,
    /// Tags waiting to be remuxed, oldest first.
    pub tags: VecDeque<Tag>,
    pub metadata: Option<ScriptMetadata>,
    pub flv_header: Option<FlvHeader>,
    pub ctx: RemuxContext,
    /// The configuration step of each message and tag applied so far, in
    /// order of arrival.
    pub steps: Ghost<Seq<ConfigStep>>,
}

impl Remuxer {
    /// The context is well formed, and its flags are those that the
    /// recorded steps raise.
    pub open spec fn wf(&self) -> bool {
        &&& self.ctx.wf()
        &&& self.ctx.flags() == flags_after(ConfigFlags::initial(), self.steps@)
    }

    /// An idle actor with a fresh context and no pending tags.
    pub fn new() -> (r: Self)
        ensures
            r.wf(),
            !r.remuxing,
            r.tags@.len() == 0,
            r.metadata is None,
            r.flv_header is None,
            r.ctx.is_fresh(),
            r.steps@.len() == 0,
    {
        Remuxer {
            remuxing: false,
            tags: VecDeque::new(),
            metadata: None,
            flv_header: None,
            ctx: RemuxContext::new(),
            steps: Ghost(Seq::empty()),
        }
    }

    fn set_remuxing(&mut self, flag: bool)
        ensures
            final(self).remuxing == flag,
            final(self).tags@ == old(self).tags@,
            final(self).metadata == old(self).metadata,
            final(self).flv_header == old(self).flv_header,
            final(self).ctx == old(self).ctx,
            final(self).steps == old(self).steps,
    {
        self.remuxing = flag;
    }

    /// What the actor does next, from its present state.
    pub fn decide(&self) -> (r: Action)
        ensures
            r == next_action(self.remuxing, self.ctx.configured(), self.ctx.header_sent_spec()),
    {
        if !self.remuxing {
            Action::Idle
        } else if !self.ctx.is_configured() {
            Action::AwaitConfiguration
        } else if !self.ctx.is_header_sent() {
            Action::SendHeader
        } else {
            Action::Remux
        }
    }

    /// Applies one message and says what the actor does next: a tag joins
    /// the queue, a header or metadata goes into the context, start and stop
    /// switch remuxing, close ends the loop, a heartbeat changes nothing.
    pub fn handle_message(&mut self, message: RemuxerMessage) -> (r: Action)
        requires
            old(self).wf(),
            message matches RemuxerMessage::PushMetadata(m) ==> m.well_formed(),
        ensures
            final(self).wf(),
            match message {
                RemuxerMessage::PushTag(tag) => {
                    &&& final(self).tags@ == old(self).tags@.push(tag)
                    &&& final(self).ctx == old(self).ctx
                    &&& final(self).remuxing == old(self).remuxing
                    &&& final(self).metadata == old(self).metadata
                    &&& final(self).flv_header == old(self).flv_header
                },
                RemuxerMessage::PushFlvHeader(h) => {
                    &&& final(self).ctx == old(self).ctx.with_flv_header(h)
                    &&& final(self).flv_header == Some(h)
                    &&& final(self).tags@ == old(self).tags@
                    &&& final(self).remuxing == old(self).remuxing
                    &&& final(self).metadata == old(self).metadata
                },
                RemuxerMessage::PushMetadata(m) => {
                    &&& old(self).ctx.metadata_applied(m, final(self).ctx)
                    &&& final(self).metadata == Some(m)
                    &&& final(self).tags@ == old(self).tags@
                    &&& final(self).remuxing == old(self).remuxing
                    &&& final(self).flv_header == old(self).flv_header
                },
                RemuxerMessage::StartRemuxing | RemuxerMessage::StopRemuxing => {
                    &&& final(self).remuxing == (message is StartRemuxing)
                    &&& final(self).ctx == old(self).ctx
                    &&& final(self).tags@ == old(self).tags@
                    &&& final(self).metadata == old(self).metadata
                    &&& final(self).flv_header == old(self).flv_header
                },
                RemuxerMessage::CloseWorkerThread | RemuxerMessage::Now => {
                    &&& final(self).ctx == old(self).ctx
                    &&& final(self).remuxing == old(self).remuxing
                    &&& final(self).tags@ == old(self).tags@
                    &&& final(self).metadata == old(self).metadata
                    &&& final(self).flv_header == old(self).flv_header
                },
            },
            final(self).steps@ == match message {
                RemuxerMessage::PushFlvHeader(_) => old(self).steps@.push(ConfigStep::FlvHeader),
                RemuxerMessage::PushMetadata(_) => old(self).steps@.push(ConfigStep::Metadata),
                _ => old(self).steps@,
            },
            message is CloseWorkerThread ==> r == Action::Close,
            !(message is CloseWorkerThread) ==> r == next_action(
                final(self).remuxing,
                final(self).ctx.configured(),
                final(self).ctx.header_sent_spec(),
            ),
    {
        match message {
            RemuxerMessage::PushTag(tag) => {
                self.tags.push_back(tag);
            },
            RemuxerMessage::PushFlvHeader(flv_header) => {
                self.ctx.parse_flv_header(&flv_header);
                proof {
                    lemma_flags_after_push(ConfigFlags::initial(), self.steps@, ConfigStep::FlvHeader);
                }
                self.steps = Ghost(self.steps@.push(ConfigStep::FlvHeader));
                self.flv_header = Some(flv_header);
            },
            RemuxerMessage::PushMetadata(metadata) => {
                self.ctx.parse_metadata(&metadata);
                proof {
                    lemma_flags_after_push(ConfigFlags::initial(), self.steps@, ConfigStep::Metadata);
                }
                self.steps = Ghost(self.steps@.push(ConfigStep::Metadata));
                self.metadata = Some(metadata);
            },
            RemuxerMessage::StartRemuxing => {
                self.set_remuxing(true);
            },
            RemuxerMessage::StopRemuxing => {
                self.set_remuxing(false);
            },
            RemuxerMessage::CloseWorkerThread => {
                return Action::Close;
            },
            RemuxerMessage::Now => {},
        }
        self.decide()
    }

    /// Assembles the initialization segment and marks it sent. On an error
    /// nothing changes.
    pub fn send_mpeg4_header(&mut self) -> (r: Result<(FileTypeBox, MovieBox), RemuxError>)
        requires
            old(self).wf(),
            old(self).ctx.configured(),
        ensures
            final(self).wf(),
            final(self).tags@ == old(self).tags@,
            final(self).remuxing == old(self).remuxing,
            final(self).metadata == old(self).metadata,
            final(self).flv_header == old(self).flv_header,
            final(self).ctx.flags() == old(self).ctx.flags(),
            final(self).steps@ == old(self).steps@,
            old(self).ctx.same_stream_info(&final(self).ctx),
            old(self).ctx.same_audio_config(&final(self).ctx),
            final(self).ctx.video_avcc_info@ == old(self).ctx.video_avcc_info@,
            final(self).ctx.has_audio == old(self).ctx.has_audio,
            final(self).ctx.has_video == old(self).ctx.has_video,
            final(self).ctx.audio_track == old(self).ctx.audio_track,
            final(self).ctx.video_track == old(self).ctx.video_track,
            !is_u32_decimal(old(self).ctx.minor_version@) ==> r == Err::<(FileTypeBox, MovieBox), RemuxError>(
                RemuxError::InvalidMinorVersion,
            ),
            is_u32_decimal(old(self).ctx.minor_version@) && !codec_supported(&old(self).ctx, HandlerType::Video)
                ==> r == Err::<(FileTypeBox, MovieBox), RemuxError>(RemuxError::UnsupportedVideoCodec),
            is_u32_decimal(old(self).ctx.minor_version@) && codec_supported(&old(self).ctx, HandlerType::Video)
                && !codec_supported(&old(self).ctx, HandlerType::Audio)
                ==> r == Err::<(FileTypeBox, MovieBox), RemuxError>(RemuxError::UnsupportedAudioCodec),
            r is Err ==> final(self).ctx == old(self).ctx,
            r is Ok ==> final(self).ctx == (RemuxContext { readiness: old(self).ctx.readiness.with_header_sent(true), ..old(self).ctx }),
            r matches Ok((ftyp, moov)) ==> {
                &&& final(self).ctx.header_sent_spec()
                &&& ftyp.major_brand@ == old(self).ctx.major_brand@
                &&& ftyp.minor_version == u32_text_value(old(self).ctx.minor_version@)
                &&& ftyp.compatible_brands@ == old(self).ctx.compatible_brands@
                &&& moov_matches(&old(self).ctx, moov)
            },
            is_u32_decimal(old(self).ctx.minor_version@) && codec_supported(&old(self).ctx, HandlerType::Video)
                && codec_supported(&old(self).ctx, HandlerType::Audio) ==> r is Ok,
    {
        let ftyp = Encoder::encode_ftyp(&self.ctx)?;
        let moov = Encoder::encode_moov(&self.ctx)?;
        self.ctx.set_header_sent(true);
        Ok((ftyp, moov))
    }

    /// Takes the oldest pending tag.
    pub fn pop_tag(&mut self) -> (r: Option<Tag>)
        ensures
            match r {
                Some(t) => old(self).tags@.len() > 0 && t == old(self).tags@[0]
                    && final(self).tags@ == old(self).tags@.subrange(1, old(self).tags@.len() as int),
                None => old(self).tags@.len() == 0 && final(self).tags@ == old(self).tags@,
            },
            final(self).ctx == old(self).ctx,
            final(self).remuxing == old(self).remuxing,
            final(self).metadata == old(self).metadata,
            final(self).flv_header == old(self).flv_header,
            final(self).steps == old(self).steps,
    {
        self.tags.pop_front()
    }

    /// Handles one parsed tag. Before the stream is configured, a record
    /// that carries configuration goes into it, and a raw payload is
    /// discarded; after, every audio or video payload goes on. Script and
    /// encryption tags are discarded, and a tag that did not parse is
    /// dropped. Only a configuration fault rejects the stream.
    pub fn remux_parsed(&mut self, parsed: &ParsedTag) -> (r: Result<TagDisposition, RemuxError>)
        requires
            old(self).wf(),
        ensures
            final(self).wf(),
            final(self).tags@ == old(self).tags@,
            final(self).remuxing == old(self).remuxing,
            final(self).metadata == old(self).metadata,
            final(self).flv_header == old(self).flv_header,
            final(self).steps@ == if r == Ok::<TagDisposition, RemuxError>(TagDisposition::Configured) {
                old(self).steps@.push(if parsed is Audio { ConfigStep::Audio } else { ConfigStep::Video })
            } else {
                old(self).steps@
            },
            parsed is Discarded ==> r == Ok::<TagDisposition, RemuxError>(TagDisposition::Discarded)
                && final(self).ctx == old(self).ctx,
            parsed is Unparsable ==> r == Ok::<TagDisposition, RemuxError>(TagDisposition::Dropped)
                && final(self).ctx == old(self).ctx,
            (parsed is Audio || parsed is Video) && old(self).ctx.configured() ==> r == Ok::<
                TagDisposition,
                RemuxError,
            >(TagDisposition::Forward) && final(self).ctx == old(self).ctx,
            !old(self).ctx.configured() ==> match *parsed {
                ParsedTag::Audio(a) => if a is Raw {
                    r == Ok::<TagDisposition, RemuxError>(TagDisposition::Discarded)
                        && final(self).ctx == old(self).ctx
                } else {
                    match r {
                        Ok(d) => d == TagDisposition::Configured
                            && old(self).ctx.audio_applied(a, Ok(()), final(self).ctx),
                        Err(e) => old(self).ctx.audio_applied(a, Err(e), final(self).ctx),
                    }
                },
                ParsedTag::Video(v) => if v matches VideoParseResult::Avc1(
                    Avc1ParseResult::AvcSequenceHeader(_),
                ) {
                    r == Ok::<TagDisposition, RemuxError>(TagDisposition::Configured)
                        && old(self).ctx.video_applied(v, final(self).ctx)
                } else {
                    r == Ok::<TagDisposition, RemuxError>(TagDisposition::Discarded)
                        && final(self).ctx == old(self).ctx
                },
                _ => true,
            },
    {
        match parsed {
            ParsedTag::Discarded => Ok(TagDisposition::Discarded),
            ParsedTag::Unparsable => Ok(TagDisposition::Dropped),
            ParsedTag::Audio(audio) => {
                if self.ctx.is_configured() {
                    Ok(TagDisposition::Forward)
                } else if let AudioParseResult::Raw(_) = audio {
                    Ok(TagDisposition::Discarded)
                } else {
                    match self.ctx.configure_audio_metadata(audio) {
                        Ok(()) => {
                            proof {
                                lemma_flags_after_push(ConfigFlags::initial(), self.steps@, ConfigStep::Audio);
                            }
                            self.steps = Ghost(self.steps@.push(ConfigStep::Audio));
                            Ok(TagDisposition::Configured)
                        },
                        Err(e) => Err(e),
                    }
                }
            },
            ParsedTag::Video(video) => {
                if self.ctx.is_configured() {
                    Ok(TagDisposition::Forward)
                } else if let VideoParseResult::Avc1(Avc1ParseResult::AvcSequenceHeader(_)) = video {
                    self.ctx.configure_video_metadata(video);
                    proof {
                        lemma_flags_after_push(ConfigFlags::initial(), self.steps@, ConfigStep::Video);
                    }
                    self.steps = Ghost(self.steps@.push(ConfigStep::Video));
                    Ok(TagDisposition::Configured)
                } else {
                    Ok(TagDisposition::Discarded)
                }
            },
        }
    }
}

} // verus!
