//! Core chat data types exchanged with providers and clients, together with
//! their mathematical views.

use vstd::prelude::*;

verus! {

/// One chat message: a role ("system", "user", "assistant", "tool") and
/// optional text content. Also used as the delta of a streaming chunk.
#[derive(Debug, Clone)]
pub struct ChatMessage {
    pub role: String,
    pub content: Option<String>,
}

/// Mathematical view of a `ChatMessage`.
pub struct ChatMessageView {
    pub role: Seq<char>,
    pub content: Option<Seq<char>>,
}

impl View for ChatMessage {
    type V = ChatMessageView;

    open spec fn view(&self) -> ChatMessageView {
        ChatMessageView { role: self.role@, content: self.content.deep_view() }
    }
}

impl DeepView for ChatMessage {
    type V = ChatMessageView;

    open spec fn deep_view(&self) -> ChatMessageView {
        self.view()
    }
}

/// An inbound chat-completion request, constructed once per request.
/// `temperature` is carried in thousandths (700 stands for 0.7) so that the
/// value stays integral throughout the library.
#[derive(Debug, Clone)]
pub struct ChatCompletionRequest {
    pub model: String,
    pub messages: Vec<ChatMessage>,
    pub api_key: Option<String>,
    pub temperature: Option<u32>,
    pub max_tokens: Option<u32>,
    pub stream: bool,
}

/// One choice of a canonical streaming chunk: the delta, its index and an
/// optional finish reason.
#[derive(Debug, Clone)]
pub struct ChatCompletionChunkChoice {
    pub delta: ChatMessage,
    pub index: u32,
    pub finish_reason: Option<String>,
}

/// Mathematical view of a `ChatCompletionChunkChoice`.
pub struct ChunkChoiceView {
    pub delta: ChatMessageView,
    pub index: u32,
    pub finish_reason: Option<Seq<char>>,
}

impl View for ChatCompletionChunkChoice {
    type V = ChunkChoiceView;

    open spec fn view(&self) -> ChunkChoiceView {
        ChunkChoiceView {
            delta: self.delta@,
            index: self.index,
            finish_reason: self.finish_reason.deep_view(),
        }
    }
}

impl DeepView for ChatCompletionChunkChoice {
    type V = ChunkChoiceView;

    open spec fn deep_view(&self) -> ChunkChoiceView {
        self.view()
    }
}

/// The canonical, provider-independent representation of one incremental
/// unit of a streaming chat completion.
#[derive(Debug, Clone)]
pub struct ChatCompletionChunk {
    pub id: String,
    pub model: String,
    pub created: u64,
    pub choices: Vec<ChatCompletionChunkChoice>,
}

/// Mathematical view of a `ChatCompletionChunk`.
pub struct ChunkView {
    pub id: Seq<char>,
    pub model: Seq<char>,
    pub created: u64,
    pub choices: Seq<ChunkChoiceView>,
}

impl View for ChatCompletionChunk {
    type V = ChunkView;

    open spec fn view(&self) -> ChunkView {
        ChunkView {
            id: self.id@,
            model: self.model@,
            created: self.created,
            choices: self.choices.deep_view(),
        }
    }
}

impl DeepView for ChatCompletionChunk {
    type V = ChunkView;

    open spec fn deep_view(&self) -> ChunkView {
        self.view()
    }
}

/// One choice of a non-streaming completion response.
#[derive(Debug, Clone)]
pub struct ResponseMessageChoice {
    pub index: u32,
    pub message: ChatMessage,
    pub finish_reason: Option<String>,
}

/// A complete non-streaming chat completion response.
#[derive(Debug, Clone)]
pub struct ChatCompletionResponse {
    pub id: String,
    pub object: String,
    pub created: u64,
    pub model: String,
    pub choices: Vec<ResponseMessageChoice>,
}

/// The text carried by one chunk choice: its delta content, or nothing.
pub open spec fn choice_text(c: ChunkChoiceView) -> Seq<char> {
    match c.delta.content {
        Some(t) => t,
        None => Seq::empty(),
    }
}

/// The text carried by a whole chunk: the concatenation of its choices'
/// delta contents, in order.
pub open spec fn choices_text(cs: Seq<ChunkChoiceView>) -> Seq<char>
    decreases cs.len(),
{
    if cs.len() == 0 {
        Seq::empty()
    } else {
        choices_text(cs.drop_last()) + choice_text(cs.last())
    }
}

/// The text carried by a chunk.
pub open spec fn chunk_text(c: ChunkView) -> Seq<char> {
    choices_text(c.choices)
}

/// The finish reason a chunk leaves behind, given the one retained so far:
/// the last `Some` among the chunk's choices wins, otherwise the previous
/// value is kept.
pub open spec fn choices_finish(cs: Seq<ChunkChoiceView>, prev: Option<Seq<char>>) -> Option<
    Seq<char>,
>
    decreases cs.len(),
{
    if cs.len() == 0 {
        prev
    } else if cs.last().finish_reason is Some {
        cs.last().finish_reason
    } else {
        choices_finish(cs.drop_last(), prev)
    }
}

/// The finish reason retained after applying one chunk.
pub open spec fn chunk_finish(c: ChunkView, prev: Option<Seq<char>>) -> Option<Seq<char>> {
    choices_finish(c.choices, prev)
}

} // verus!
