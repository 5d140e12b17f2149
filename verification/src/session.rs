//! The stream tee and its accumulator: single-consumption, dual-destination
//! fan-out of the parsed frame sequence, with an exactly-once persistence
//! decision whatever way the stream ends.
//!
//! Each parsed frame is applied to both destinations before the next one is
//! pulled: the outbound re-encoding for the client, and the in-memory
//! accumulation of the assistant message. A frame that failed to parse is
//! skipped — counted, never fatal. When the stream ends (normally, by client
//! disconnect, or by upstream failure), `finalize` fires exactly once and
//! yields the one record to persist; later calls yield nothing.

use vstd::prelude::*;

use crate::chat::{chunk_text, chunk_finish, ChatMessage};
use crate::convo::Status;
use crate::provider::{common_of, OpenAICompletionChunk, ProviderChunkView};
use crate::wire::{sse_of, OpenAIChatCompletionResponsePayload, OpenAIResponseChoice, OpenAISseChunk,
    SseChunkView};

verus! {

/// How a stream ended: normal completion, an early client disconnect (not
/// an error), or an upstream failure carrying its cause.
#[derive(Debug, Clone)]
pub enum StreamOutcome {
    Completed,
    Disconnected,
    Failed(String),
}

/// The persistence status corresponding to a stream outcome.
pub open spec fn status_of_outcome(o: StreamOutcome) -> Status {
    match o {
        StreamOutcome::Completed => Status::Done,
        StreamOutcome::Disconnected => Status::Stopped,
        StreamOutcome::Failed(_) => Status::Error,
    }
}

/// The stored error text of a stream outcome: the failure's cause, with a
/// fixed fallback so that a failed stream never records an empty cause.
pub open spec fn error_text_of_outcome(o: StreamOutcome) -> Option<Seq<char>> {
    match o {
        StreamOutcome::Failed(d) => if d@.len() > 0 {
            Some(d@)
        } else {
            Some("upstream stream error"@)
        },
        _ => None,
    }
}

/// The one assistant record a finished stream persists.
#[derive(Debug, Clone)]
pub struct AssistantRecord {
    pub content: String,
    pub finish_reason: Option<String>,
    pub status: Status,
    pub error_message: Option<String>,
    pub model: Option<String>,
    pub completion_id: Option<String>,
}

/// The accumulated text of a sequence of parsed frames: the concatenation,
/// in order, of the delta contents of every frame that parsed.
pub open spec fn frames_text(fs: Seq<Option<ProviderChunkView>>) -> Seq<char>
    decreases fs.len(),
{
    if fs.len() == 0 {
        Seq::empty()
    } else {
        frames_text(fs.drop_last()) + (match fs.last() {
            Some(p) => chunk_text(common_of(p)),
            None => Seq::empty(),
        })
    }
}

/// The outbound chunk sequence of a sequence of parsed frames: every frame
/// that parsed, normalized and re-encoded, in the original order; frames
/// that failed to parse are absent.
pub open spec fn frames_outputs(fs: Seq<Option<ProviderChunkView>>) -> Seq<SseChunkView>
    decreases fs.len(),
{
    if fs.len() == 0 {
        Seq::empty()
    } else {
        match fs.last() {
            Some(p) => frames_outputs(fs.drop_last()).push(sse_of(common_of(p))),
            None => frames_outputs(fs.drop_last()),
        }
    }
}

/// The finish reason retained after a sequence of parsed frames.
pub open spec fn frames_finish(fs: Seq<Option<ProviderChunkView>>, prev: Option<Seq<char>>) -> Option<
    Seq<char>,
>
    decreases fs.len(),
{
    if fs.len() == 0 {
        prev
    } else {
        match fs.last() {
            Some(p) => chunk_finish(common_of(p), frames_finish(fs.drop_last(), prev)),
            None => frames_finish(fs.drop_last(), prev),
        }
    }
}

/// The id of the last frame that parsed, if any.
pub open spec fn frames_last_id(fs: Seq<Option<ProviderChunkView>>) -> Option<Seq<char>>
    decreases fs.len(),
{
    if fs.len() == 0 {
        None
    } else {
        match fs.last() {
            Some(p) => Some(p.id),
            None => frames_last_id(fs.drop_last()),
        }
    }
}

/// The model named by the last frame that parsed, if any.
pub open spec fn frames_last_model(fs: Seq<Option<ProviderChunkView>>) -> Option<Seq<char>>
    decreases fs.len(),
{
    if fs.len() == 0 {
        None
    } else {
        match fs.last() {
            Some(p) => Some(p.model),
            None => frames_last_model(fs.drop_last()),
        }
    }
}

/// The stream tee. It consumes the parsed frame sequence exactly once and
/// serves two destinations: the outbound chunk returned by `on_frame`, and
/// the accumulator that `finalize` turns into the one persistence record.
pub struct StreamTee {
    content: String,
    finish_reason: Option<String>,
    last_id: Option<String>,
    last_model: Option<String>,
    finalized: bool,
    skipped: u64,
}

impl StreamTee {
    /// Accumulated assistant text so far.
    pub closed spec fn content(&self) -> Seq<char> {
        self.content@
    }

    /// Finish reason retained so far.
    pub closed spec fn finish(&self) -> Option<Seq<char>> {
        self.finish_reason.deep_view()
    }

    /// Id of the last chunk seen.
    pub closed spec fn chunk_id(&self) -> Option<Seq<char>> {
        self.last_id.deep_view()
    }

    /// Model of the last chunk seen.
    pub closed spec fn chunk_model(&self) -> Option<Seq<char>> {
        self.last_model.deep_view()
    }

    /// Whether the single-fire persistence latch has fired.
    pub closed spec fn finalized(&self) -> bool {
        self.finalized
    }

    /// How many malformed frames were skipped (saturating).
    pub closed spec fn skipped(&self) -> u64 {
        self.skipped
    }

    /// A fresh tee with nothing accumulated and the latch unfired.
    pub fn new() -> (r: Self)
        ensures
            r.content() == Seq::<char>::empty(),
            r.finish() is None,
            r.chunk_id() is None,
            r.chunk_model() is None,
            !r.finalized(),
            r.skipped() == 0,
    {
        StreamTee {
            content: String::new(),
            finish_reason: None,
            last_id: None,
            last_model: None,
            finalized: false,
            skipped: 0,
        }
    }

    /// Applies one parsed frame to both destinations, before the next frame
    /// is pulled. A frame that parsed is normalized, its delta contents are
    /// appended to the accumulator, its finish reason (last one wins) is
    /// retained, and its outbound re-encoding is returned. A frame that
    /// failed to parse is skipped and counted; it changes nothing else and
    /// never aborts the stream.
    pub fn on_frame(&mut self, frame: Option<OpenAICompletionChunk>) -> (out: Option<
        OpenAISseChunk,
    >)
        requires
            !old(self).finalized(),
        ensures
            !final(self).finalized(),
            match frame {
                None => {
                    &&& out is None
                    &&& final(self).content() == old(self).content()
                    &&& final(self).finish() == old(self).finish()
                    &&& final(self).chunk_id() == old(self).chunk_id()
                    &&& final(self).chunk_model() == old(self).chunk_model()
                    &&& final(self).skipped() == (if old(self).skipped() < u64::MAX {
                        old(self).skipped() + 1
                    } else {
                        old(self).skipped() as int
                    })
                },
                Some(pc) => {
                    &&& out matches Some(s) && s@ == sse_of(common_of(pc@))
                    &&& final(self).content() == old(self).content() + chunk_text(common_of(pc@))
                    &&& final(self).finish() == chunk_finish(common_of(pc@), old(self).finish())
                    &&& final(self).chunk_id() == Some(pc@.id)
                    &&& final(self).chunk_model() == Some(pc@.model)
                    &&& final(self).skipped() == old(self).skipped()
                },
            },
    {
        match frame {
            None => {
                if self.skipped < u64::MAX {
                    self.skipped = self.skipped + 1;
                }
                None
            },
            Some(pc) => {
                let common = pc.into_common_chunk();
                self.last_id = Some(common.id.clone());
                self.last_model = Some(common.model.clone());
                let ghost cv = common@;
                let n = common.choices.len();
                let mut i: usize = 0;
                proof {
                    assert(cv.choices.take(0) =~= Seq::<crate::chat::ChunkChoiceView>::empty());
                }
                while i < n
                    invariant
                        i <= n,
                        n == common.choices.len(),
                        cv == common@,
                        self.content@ == old(self).content() + crate::chat::choices_text(
                            cv.choices.take(i as int),
                        ),
                        self.finish_reason.deep_view() == crate::chat::choices_finish(
                            cv.choices.take(i as int),
                            old(self).finish(),
                        ),
                        self.last_id.deep_view() == Some(cv.id),
                        self.last_model.deep_view() == Some(cv.model),
                        self.finalized == old(self).finalized(),
                        self.skipped == old(self).skipped(),
                    decreases n - i,
                {
                    proof {
                        assert(cv.choices.take(i + 1 as int).drop_last() =~= cv.choices.take(
                            i as int,
                        ));
                        assert(cv.choices.take(i + 1 as int).last() == cv.choices[i as int]);
                    }
                    let c = &common.choices[i];
                    match &c.delta.content {
                        Some(t) => {
                            self.content.append(t.as_str());
                        },
                        None => {},
                    }
                    match &c.finish_reason {
                        Some(f) => {
                            self.finish_reason = Some(f.clone());
                        },
                        None => {},
                    }
                    i = i + 1;
                }
                proof {
                    assert(cv.choices.take(n as int) =~= cv.choices);
                }
                Some(OpenAISseChunk::from_common(common))
            },
        }
    }

    /// Fires the single-use latch and yields the one assistant record to
    /// persist: the accumulated content, the retained finish reason, and the
    /// status the outcome dictates — done for normal completion, stopped for
    /// a client disconnect, error (with a non-empty cause) for an upstream
    /// failure. A latch that already fired yields nothing and changes
    /// nothing: no stream persists two assistant records.
    pub fn finalize(&mut self, outcome: StreamOutcome) -> (r: Option<AssistantRecord>)
        ensures
            final(self).finalized(),
            final(self).content() == old(self).content(),
            final(self).finish() == old(self).finish(),
            final(self).chunk_id() == old(self).chunk_id(),
            final(self).chunk_model() == old(self).chunk_model(),
            final(self).skipped() == old(self).skipped(),
            old(self).finalized() ==> r is None,
            !old(self).finalized() ==> (r matches Some(rec) && {
                &&& rec.content@ == old(self).content()
                &&& rec.finish_reason.deep_view() == old(self).finish()
                &&& rec.status == status_of_outcome(outcome)
                &&& rec.error_message.deep_view() == error_text_of_outcome(outcome)
                &&& rec.model.deep_view() == old(self).chunk_model()
                &&& rec.completion_id.deep_view() == old(self).chunk_id()
            }),
    {
        if self.finalized {
            return None;
        }
        self.finalized = true;
        let (status, error_message) = match outcome {
            StreamOutcome::Completed => (Status::Done, None),
            StreamOutcome::Disconnected => (Status::Stopped, None),
            StreamOutcome::Failed(d) => {
                if d.as_str().is_empty() {
                    (Status::Error, Some(String::from_str("upstream stream error")))
                } else {
                    (Status::Error, Some(d))
                }
            },
        };
        Some(
            AssistantRecord {
                content: self.content.clone(),
                finish_reason: crate::provider::copy_opt_string(&self.finish_reason),
                status,
                error_message,
                model: crate::provider::copy_opt_string(&self.last_model),
                completion_id: crate::provider::copy_opt_string(&self.last_id),
            },
        )
    }
}

/// Runs the tee over the first `k` parsed frames of a stream — exactly what
/// the request loop does, one frame at a time — and finalizes with the given
/// outcome. The outbound sequence is every frame that parsed, normalized and
/// re-encoded, in the original order; a single malformed frame among
/// well-formed ones is skipped without aborting anything. The one returned
/// record carries the concatenation of the delta contents of the frames that
/// were delivered, under the status the outcome dictates: with `k` short of
/// the stream's length and a `Disconnected` outcome this is the partial
/// content persisted as stopped; with a `Failed` outcome it is persisted as
/// an error with a non-empty cause.
pub fn drive_stream(
    frames: &Vec<Option<OpenAICompletionChunk>>,
    k: usize,
    outcome: StreamOutcome,
) -> (r: (Vec<OpenAISseChunk>, AssistantRecord))
    requires
        k <= frames@.len(),
    ensures
        ({
            let fs = frames.deep_view().take(k as int);
            &&& r.0.deep_view() == frames_outputs(fs)
            &&& r.1.content@ == frames_text(fs)
            &&& r.1.finish_reason.deep_view() == frames_finish(fs, None)
            &&& r.1.status == status_of_outcome(outcome)
            &&& r.1.error_message.deep_view() == error_text_of_outcome(outcome)
            &&& r.1.completion_id.deep_view() == frames_last_id(fs)
            &&& r.1.model.deep_view() == frames_last_model(fs)
        }),
{
    let ghost fs = frames.deep_view();
    let mut tee = StreamTee::new();
    let mut outs: Vec<OpenAISseChunk> = Vec::new();
    let mut i: usize = 0;
    proof {
        assert(fs.take(0) =~= Seq::<Option<ProviderChunkView>>::empty());
    }
    while i < k
        invariant
            i <= k <= frames@.len(),
            fs == frames.deep_view(),
            !tee.finalized(),
            tee.content() == frames_text(fs.take(i as int)),
            tee.finish() == frames_finish(fs.take(i as int), None),
            tee.chunk_id() == frames_last_id(fs.take(i as int)),
            tee.chunk_model() == frames_last_model(fs.take(i as int)),
            outs.deep_view() == frames_outputs(fs.take(i as int)),
        decreases k - i,
    {
        proof {
            assert(fs.take(i + 1 as int).drop_last() =~= fs.take(i as int));
            assert(fs.take(i + 1 as int).last() == fs[i as int]);
        }
        let frame = match &frames[i] {
            Some(pc) => Some(crate::provider::copy_provider_chunk(pc)),
            None => None,
        };
        proof {
            assert(frame.deep_view() == fs[i as int]);
        }
        match tee.on_frame(frame) {
            Some(out) => {
                proof {
                    assert(outs@.len() == outs.deep_view().len());
                }
                let ghost ov = out@;
                outs.push(out);
                proof {
                    assert(outs@.last()@ == ov);
                    assert(outs.deep_view() =~= frames_outputs(fs.take(i + 1 as int)));
                }
            },
            None => {},
        }
        i = i + 1;
    }
    match tee.finalize(outcome) {
        Some(rec) => (outs, rec),
        None => vstd::pervasive::unreached(),
    }
}

/// The non-streaming path: the same pipeline folded to completion before
/// anything is returned. All frames are consumed; the response body carries
/// exactly one choice whose message content is the full concatenation of the
/// upstream delta contents, under the last frame's id and model (or the
/// given fallbacks when no frame parsed); the one record to persist —
/// written before the response is sent — carries the same content with
/// status done.
pub fn collect_completion(
    frames: &Vec<Option<OpenAICompletionChunk>>,
    fallback_id: String,
    fallback_model: String,
    created: u64,
) -> (r: (OpenAIChatCompletionResponsePayload, AssistantRecord))
    ensures
        ({
            let fs = frames.deep_view();
            &&& r.0.id@ == (match frames_last_id(fs) {
                Some(s) => s,
                None => fallback_id@,
            })
            &&& r.0.object@ == "chat.completion"@
            &&& r.0.created == created
            &&& r.0.model@ == (match frames_last_model(fs) {
                Some(s) => s,
                None => fallback_model@,
            })
            &&& r.0.choices@.len() == 1
            &&& r.0.choices@[0].index == 0
            &&& r.0.choices@[0].message@.role == "assistant"@
            &&& r.0.choices@[0].message@.content == Some(frames_text(fs))
            &&& r.0.choices@[0].finish_reason.deep_view() == frames_finish(fs, None)
            &&& r.1.content@ == frames_text(fs)
            &&& r.1.status == Status::Done
            &&& r.1.error_message is None
            &&& r.1.finish_reason.deep_view() == frames_finish(fs, None)
        }),
{
    let n = frames.len();
    proof {
        assert(frames.deep_view().take(n as int) =~= frames.deep_view());
    }
    let (_outs, rec) = drive_stream(frames, n, StreamOutcome::Completed);
    let id = match &rec.completion_id {
        Some(s) => s.clone(),
        None => fallback_id,
    };
    let model = match &rec.model {
        Some(s) => s.clone(),
        None => fallback_model,
    };
    let message = ChatMessage {
        role: String::from_str("assistant"),
        content: Some(rec.content.clone()),
    };
    let choice = OpenAIResponseChoice {
        index: 0,
        message,
        finish_reason: crate::provider::copy_opt_string(&rec.finish_reason),
    };
    let mut choices: Vec<OpenAIResponseChoice> = Vec::new();
    choices.push(choice);
    let payload = OpenAIChatCompletionResponsePayload {
        id,
        object: String::from_str("chat.completion"),
        created,
        model,
        choices,
    };
    (payload, rec)
}

} // verus!
