//! Wire shapes of the OpenAI-compatible API: the streaming chunk as written
//! to the client's event stream, and the non-streaming response body.

use vstd::prelude::*;

use crate::chat::{ChatMessage, ChatMessageView, ChatCompletionChunk, ChunkChoiceView, ChunkView};

verus! {

/// One choice of an outbound streaming chunk.
#[derive(Debug, Clone)]
pub struct OpenAISseChunkChoice {
    pub index: u32,
    pub delta: ChatMessage,
    pub finish_reason: Option<String>,
}

/// View of `OpenAISseChunkChoice`.
pub struct SseChoiceView {
    pub index: u32,
    pub delta: ChatMessageView,
    pub finish_reason: Option<Seq<char>>,
}

impl View for OpenAISseChunkChoice {
    type V = SseChoiceView;

    open spec fn view(&self) -> SseChoiceView {
        SseChoiceView {
            index: self.index,
            delta: self.delta@,
            finish_reason: self.finish_reason.deep_view(),
        }
    }
}

impl DeepView for OpenAISseChunkChoice {
    type V = SseChoiceView;

    open spec fn deep_view(&self) -> SseChoiceView {
        self.view()
    }
}

/// One outbound streaming chunk, as serialized into a `data:` event.
#[derive(Debug, Clone)]
pub struct OpenAISseChunk {
    pub id: String,
    pub object: String,
    pub created: u64,
    pub model: String,
    pub choices: Vec<OpenAISseChunkChoice>,
}

/// View of `OpenAISseChunk`.
pub struct SseChunkView {
    pub id: Seq<char>,
    pub object: Seq<char>,
    pub created: u64,
    pub model: Seq<char>,
    pub choices: Seq<SseChoiceView>,
}

impl View for OpenAISseChunk {
    type V = SseChunkView;

    open spec fn view(&self) -> SseChunkView {
        SseChunkView {
            id: self.id@,
            object: self.object@,
            created: self.created,
            model: self.model@,
            choices: self.choices.deep_view(),
        }
    }
}

impl DeepView for OpenAISseChunk {
    type V = SseChunkView;

    open spec fn deep_view(&self) -> SseChunkView {
        self.view()
    }
}

/// The outbound encoding of one canonical chunk choice.
pub open spec fn sse_choice_of(c: ChunkChoiceView) -> SseChoiceView {
    SseChoiceView { index: c.index, delta: c.delta, finish_reason: c.finish_reason }
}

/// The outbound encoding of one canonical chunk: the same fields under the
/// wire object tag "chat.completion.chunk".
pub open spec fn sse_of(c: ChunkView) -> SseChunkView {
    SseChunkView {
        id: c.id,
        object: "chat.completion.chunk"@,
        created: c.created,
        model: c.model,
        choices: c.choices.map_values(|ch: ChunkChoiceView| sse_choice_of(ch)),
    }
}

impl OpenAISseChunk {
    /// Re-encodes one canonical chunk for the outbound event stream. The
    /// choices are carried over unchanged, in order.
    pub fn from_common(chunk: ChatCompletionChunk) -> (r: OpenAISseChunk)
        ensures
            r@ == sse_of(chunk@),
    {
        let mut choices: Vec<OpenAISseChunkChoice> = Vec::new();
        let mut i: usize = 0;
        let n = chunk.choices.len();
        while i < n
            invariant
                i <= n,
                n == chunk.choices.len(),
                choices.deep_view().len() == i,
                forall|j: int|
                    0 <= j < i ==> choices.deep_view()[j] == sse_choice_of(
                        #[trigger] chunk.choices.deep_view()[j],
                    ),
            decreases n - i,
        {
            let c = &chunk.choices[i];
            let choice = OpenAISseChunkChoice {
                index: c.index,
                delta: crate::provider::copy_message(&c.delta),
                finish_reason: match &c.finish_reason {
                    Some(s) => Some(s.clone()),
                    None => None,
                },
            };
            proof {
                assert(choice@ == sse_choice_of(chunk.choices.deep_view()[i as int]));
                assert(choices@.len() == choices.deep_view().len() == i);
            }
            choices.push(choice);
            proof {
                assert(choices@[i as int] == choice);
            }
            i = i + 1;
        }
        let r = OpenAISseChunk {
            id: chunk.id,
            object: String::from_str("chat.completion.chunk"),
            created: chunk.created,
            model: chunk.model,
            choices,
        };
        proof {
            assert(r@.choices =~= sse_of(chunk@).choices);
        }
        r
    }
}

/// The SSE framing of one serialized payload: a `data:` line followed by a
/// blank line.
pub fn sse_frame(payload: &str) -> (r: String)
    ensures
        r@ == "data: "@ + payload@ + "\n\n"@,
{
    let mut r = String::from_str("data: ");
    r.append(payload);
    r.append("\n\n");
    r
}

/// One choice of the non-streaming response body.
#[derive(Debug, Clone)]
pub struct OpenAIResponseChoice {
    pub index: u32,
    pub message: ChatMessage,
    pub finish_reason: Option<String>,
}

/// The non-streaming response body of the OpenAI-compatible endpoint.
#[derive(Debug, Clone)]
pub struct OpenAIChatCompletionResponsePayload {
    pub id: String,
    pub object: String,
    pub created: u64,
    pub model: String,
    pub choices: Vec<OpenAIResponseChoice>,
}

} // verus!
