//! Provider resolution and upstream request preparation: splitting composite
//! model identifiers, choosing an API key, and normalizing provider chunks
//! into the canonical chunk shape.

use vstd::prelude::*;

use crate::chat::{ChatCompletionChunk, ChatCompletionChunkChoice, ChatMessage, ChatMessageView,
    ChunkChoiceView, ChunkView};
use crate::text::{ascii_lower, ascii_lowercase};

verus! {

/// Index of the first '/' in `s` at or after `i`, or -1 if there is none.
pub open spec fn first_slash_from(s: Seq<char>, i: int) -> int
    decreases s.len() - i when 0 <= i <= s.len()
{
    if i >= s.len() {
        -1
    } else if s[i] == '/' {
        i
    } else {
        first_slash_from(s, i + 1)
    }
}

/// Index of the first '/' in `s`, or -1 if there is none.
pub open spec fn first_slash(s: Seq<char>) -> int {
    first_slash_from(s, 0)
}

/// The provider part of a composite model id: the lowercased prefix before
/// the first separator, or "openai" (the lenient default) if there is none.
pub open spec fn resolved_provider(model_id: Seq<char>) -> Seq<char> {
    let f = first_slash(model_id);
    if f >= 0 {
        ascii_lower(model_id.take(f))
    } else {
        "openai"@
    }
}

/// The bare model part of a composite model id: the remainder after the
/// first separator, or the whole id if there is none.
pub open spec fn resolved_model(model_id: Seq<char>) -> Seq<char> {
    let f = first_slash(model_id);
    if f >= 0 {
        model_id.skip(f + 1)
    } else {
        model_id
    }
}

/// True when the model id names a provider explicitly. When this is false,
/// `determine_provider_and_model` falls back to the default provider and the
/// caller should log a warning; the fallback is deliberate and never an
/// error.
pub fn model_id_has_provider(model_id: &str) -> (b: bool)
    ensures
        b == (first_slash(model_id@) >= 0),
{
    find_slash(model_id).is_some()
}

/// Finds the first '/' of a string, as an executable counterpart of
/// `first_slash`.
fn find_slash(s: &str) -> (r: Option<usize>)
    ensures
        match r {
            Some(i) => first_slash(s@) == i as int && i < s@.len(),
            None => first_slash(s@) == -1,
        },
{
    let n = s.unicode_len();
    let mut i: usize = 0;
    while i < n
        invariant
            i <= n,
            n == s@.len(),
            first_slash(s@) == first_slash_from(s@, i as int),
        decreases n - i,
    {
        let c = s.get_char(i);
        if c == '/' {
            return Some(i);
        }
        i = i + 1;
    }
    None
}

/// Splits a composite model id `"provider/model"` on the first separator and
/// lowercases the provider. An id without a separator resolves to the
/// default provider "openai" with the id itself as the model name; callers
/// can observe that fallback through `model_id_has_provider`.
pub fn determine_provider_and_model(model_id: &str) -> (r: (String, String))
    ensures
        r.0@ == resolved_provider(model_id@),
        r.1@ == resolved_model(model_id@),
{
    let n = model_id.unicode_len();
    match find_slash(model_id) {
        Some(i) => {
            let provider_raw = model_id.substring_char(0, i);
            let provider = ascii_lowercase(provider_raw);
            let model = String::from_str(model_id.substring_char(i + 1, n));
            (provider, model)
        },
        None => {
            let provider = String::from_str("openai");
            let model = String::from_str(model_id);
            (provider, model)
        },
    }
}

/// Errors of the proxy core, following its error taxonomy: a missing
/// provider key is fatal to the request, an unsupported provider likewise, a
/// non-success upstream response carries the provider's status and body
/// verbatim, and a mid-stream network failure carries its cause.
#[derive(Debug, Clone)]
pub enum ChatError {
    Configuration { provider: String },
    UnsupportedProvider { provider: String },
    Upstream { status: u16, body: String },
    UpstreamStream { detail: String },
}

impl ChatError {
    /// Human-readable description of the error.
    pub fn message(&self) -> (r: String)
        ensures
            match self {
                ChatError::Configuration { provider } => r@ == "API key not configured for provider: "@
                    + provider@,
                ChatError::UnsupportedProvider { provider } => r@ == "Unsupported AI provider: "@
                    + provider@,
                ChatError::Upstream { status: _, body } => r@ == "Upstream API request failed: "@
                    + body@,
                ChatError::UpstreamStream { detail } => r@ == "Error reading upstream stream: "@
                    + detail@,
            },
    {
        match self {
            ChatError::Configuration { provider } => {
                let mut m = String::from_str("API key not configured for provider: ");
                m.append(provider.as_str());
                m
            },
            ChatError::UnsupportedProvider { provider } => {
                let mut m = String::from_str("Unsupported AI provider: ");
                m.append(provider.as_str());
                m
            },
            ChatError::Upstream { status: _, body } => {
                let mut m = String::from_str("Upstream API request failed: ");
                m.append(body.as_str());
                m
            },
            ChatError::UpstreamStream { detail } => {
                let mut m = String::from_str("Error reading upstream stream: ");
                m.append(detail.as_str());
                m
            },
        }
    }
}

/// Server-configured API keys, one per supported provider. The process
/// environment is read outside the library; the values arrive here as plain
/// options.
#[derive(Debug, Clone)]
pub struct ProviderKeys {
    pub openai: Option<String>,
    pub openrouter: Option<String>,
}

/// View of `ProviderKeys`.
pub struct ProviderKeysView {
    pub openai: Option<Seq<char>>,
    pub openrouter: Option<Seq<char>>,
}

impl View for ProviderKeys {
    type V = ProviderKeysView;

    open spec fn view(&self) -> ProviderKeysView {
        ProviderKeysView { openai: self.openai.deep_view(), openrouter: self.openrouter.deep_view() }
    }
}

/// The server key configured for a provider, if any.
pub open spec fn server_key(keys: ProviderKeysView, provider: Seq<char>) -> Option<Seq<char>> {
    if provider == "openai"@ {
        keys.openai
    } else if provider == "openrouter"@ {
        keys.openrouter
    } else {
        None
    }
}

/// Whether the proxy can talk to this provider at all.
pub open spec fn provider_supported(provider: Seq<char>) -> bool {
    provider == "openai"@ || provider == "openrouter"@
}

/// Chooses the API key for a request: the caller-supplied key when present,
/// else the provider's server-configured key; fails with a
/// `Configuration` error naming the provider when neither exists, or with
/// `UnsupportedProvider` when no server key can exist for the provider.
pub fn select_api_key(provider: &String, caller_key: &Option<String>, keys: &ProviderKeys) -> (r:
    Result<String, ChatError>)
    ensures
        match caller_key {
            Some(k) => r matches Ok(x) && x@ == k@,
            None => {
                if !provider_supported(provider@) {
                    r matches Err(ChatError::UnsupportedProvider { provider: p }) && p@
                        == provider@
                } else {
                    match server_key(keys@, provider@) {
                        Some(k) => r matches Ok(x) && x@ == k,
                        None => r matches Err(ChatError::Configuration { provider: p }) && p@
                            == provider@,
                    }
                }
            },
        },
{
    if let Some(k) = caller_key {
        return Ok(k.clone());
    }
    let openai_name = String::from_str("openai");
    let openrouter_name = String::from_str("openrouter");
    if *provider == openai_name {
        match &keys.openai {
            Some(k) => Ok(k.clone()),
            None => Err(ChatError::Configuration { provider: provider.clone() }),
        }
    } else if *provider == openrouter_name {
        match &keys.openrouter {
            Some(k) => Ok(k.clone()),
            None => Err(ChatError::Configuration { provider: provider.clone() }),
        }
    } else {
        Err(ChatError::UnsupportedProvider { provider: provider.clone() })
    }
}

/// The chat-completions endpoint of a provider, and whether the request to
/// it carries aggregator attribution headers.
pub open spec fn endpoint_of(provider: Seq<char>) -> Seq<char> {
    if provider == "openrouter"@ {
        "https://openrouter.ai/api/v1/chat/completions"@
    } else {
        "https://api.openai.com/v1/chat/completions"@
    }
}

/// Everything the network layer needs to issue the upstream call: the
/// endpoint, the bearer key, whether to add aggregator attribution headers,
/// and the request body values. The upstream call always streams; the
/// non-streaming path folds the stream afterwards.
#[derive(Debug, Clone)]
pub struct UpstreamRequest {
    pub url: String,
    pub api_key: String,
    pub attribution: bool,
    pub model: String,
    pub messages: Vec<ChatMessage>,
    pub temperature: Option<u32>,
    pub max_tokens: Option<u32>,
}

/// Copy of a chat message whose view is known to be preserved.
pub fn copy_message(m: &ChatMessage) -> (r: ChatMessage)
    ensures
        r@ == m@,
{
    ChatMessage {
        role: m.role.clone(),
        content: match &m.content {
            Some(s) => Some(s.clone()),
            None => None,
        },
    }
}

/// Copy of a message list whose view is known to be preserved.
pub fn copy_messages(v: &Vec<ChatMessage>) -> (r: Vec<ChatMessage>)
    ensures
        r.deep_view() == v.deep_view(),
{
    let mut out: Vec<ChatMessage> = Vec::new();
    let mut i: usize = 0;
    while i < v.len()
        invariant
            i <= v.len(),
            out.deep_view() =~= v.deep_view().take(i as int),
        decreases v.len() - i,
    {
        let m = copy_message(&v[i]);
        proof {
            assert(m@ == v.deep_view()[i as int]);
            assert(out@.len() == out.deep_view().len() == i);
        }
        out.push(m);
        proof {
            assert(out@[i as int] == m);
            assert(out.deep_view() =~= v.deep_view().take(i + 1 as int));
        }
        i = i + 1;
    }
    proof {
        assert(v.deep_view().take(v.len() as int) =~= v.deep_view());
    }
    out
}

/// Resolves the request's composite model id, chooses the API key, and
/// assembles the upstream request. Returns `Ok` exactly when the resolved
/// provider is supported and a key is available for it.
pub fn prepare_upstream(request: &crate::chat::ChatCompletionRequest, keys: &ProviderKeys) -> (r:
    Result<UpstreamRequest, ChatError>)
    ensures
        ({
            let p = resolved_provider(request.model@);
            match r {
                Ok(u) => {
                    &&& provider_supported(p)
                    &&& (request.api_key is Some || server_key(keys@, p) is Some)
                    &&& u.url@ == endpoint_of(p)
                    &&& u.attribution == (p == "openrouter"@)
                    &&& u.api_key@ == (match request.api_key.deep_view() {
                        Some(k) => k,
                        None => server_key(keys@, p).unwrap(),
                    })
                    &&& u.model@ == resolved_model(request.model@)
                    &&& u.messages.deep_view() == request.messages.deep_view()
                    &&& u.temperature == request.temperature
                    &&& u.max_tokens == request.max_tokens
                },
                Err(e) => {
                    if !provider_supported(p) {
                        e matches ChatError::UnsupportedProvider { provider: q } && q@ == p
                    } else {
                        request.api_key is None && server_key(keys@, p) is None && (
                        e matches ChatError::Configuration { provider: q } && q@ == p)
                    }
                },
            }
        }),
{
    let (provider, model) = determine_provider_and_model(request.model.as_str());
    let openai_name = String::from_str("openai");
    let openrouter_name = String::from_str("openrouter");
    let attribution = provider == openrouter_name;
    if !(provider == openai_name || attribution) {
        return Err(ChatError::UnsupportedProvider { provider });
    }
    let api_key = match select_api_key(&provider, &request.api_key, keys) {
        Ok(k) => k,
        Err(e) => {
            return Err(e);
        },
    };
    let url = if attribution {
        String::from_str("https://openrouter.ai/api/v1/chat/completions")
    } else {
        String::from_str("https://api.openai.com/v1/chat/completions")
    };
    Ok(
        UpstreamRequest {
            url,
            api_key,
            attribution,
            model,
            messages: copy_messages(&request.messages),
            temperature: request.temperature,
            max_tokens: request.max_tokens,
        },
    )
}

/// Gate on the upstream call's initial response: a success-class status lets
/// the stream proceed; anything else fails the request with the provider's
/// status and body captured verbatim for diagnostics.
pub fn upstream_gate(status: u16, body: String) -> (r: Result<(), ChatError>)
    ensures
        200 <= status < 300 ==> r is Ok,
        !(200 <= status < 300) ==> (r matches Err(ChatError::Upstream { status: s, body: b })
            && s == status && b@ == body@),
{
    if 200 <= status && status < 300 {
        Ok(())
    } else {
        Err(ChatError::Upstream { status, body })
    }
}

/// The delta of one provider chunk choice. Providers commonly send the role
/// only on the first chunk of a turn, so both fields are optional.
#[derive(Debug, Clone)]
pub struct OpenAIDelta {
    pub role: Option<String>,
    pub content: Option<String>,
}

/// View of `OpenAIDelta`.
pub struct DeltaView {
    pub role: Option<Seq<char>>,
    pub content: Option<Seq<char>>,
}

impl View for OpenAIDelta {
    type V = DeltaView;

    open spec fn view(&self) -> DeltaView {
        DeltaView { role: self.role.deep_view(), content: self.content.deep_view() }
    }
}

impl DeepView for OpenAIDelta {
    type V = DeltaView;

    open spec fn deep_view(&self) -> DeltaView {
        self.view()
    }
}

/// One choice of a provider chunk.
#[derive(Debug, Clone)]
pub struct OpenAIChunkChoice {
    pub delta: OpenAIDelta,
    pub index: u32,
    pub finish_reason: Option<String>,
}

/// View of `OpenAIChunkChoice`.
pub struct ProviderChoiceView {
    pub delta: DeltaView,
    pub index: u32,
    pub finish_reason: Option<Seq<char>>,
}

impl View for OpenAIChunkChoice {
    type V = ProviderChoiceView;

    open spec fn view(&self) -> ProviderChoiceView {
        ProviderChoiceView {
            delta: self.delta@,
            index: self.index,
            finish_reason: self.finish_reason.deep_view(),
        }
    }
}

impl DeepView for OpenAIChunkChoice {
    type V = ProviderChoiceView;

    open spec fn deep_view(&self) -> ProviderChoiceView {
        self.view()
    }
}

/// One parsed provider streaming chunk, in the provider's own shape.
#[derive(Debug, Clone)]
pub struct OpenAICompletionChunk {
    pub id: String,
    pub object: String,
    pub created: u64,
    pub model: String,
    pub choices: Vec<OpenAIChunkChoice>,
}

/// View of `OpenAICompletionChunk`.
pub struct ProviderChunkView {
    pub id: Seq<char>,
    pub object: Seq<char>,
    pub created: u64,
    pub model: Seq<char>,
    pub choices: Seq<ProviderChoiceView>,
}

impl View for OpenAICompletionChunk {
    type V = ProviderChunkView;

    open spec fn view(&self) -> ProviderChunkView {
        ProviderChunkView {
            id: self.id@,
            object: self.object@,
            created: self.created,
            model: self.model@,
            choices: self.choices.deep_view(),
        }
    }
}

impl DeepView for OpenAICompletionChunk {
    type V = ProviderChunkView;

    open spec fn deep_view(&self) -> ProviderChunkView {
        self.view()
    }
}

/// Copy of an optional string whose view is known to be preserved.
pub fn copy_opt_string(o: &Option<String>) -> (r: Option<String>)
    ensures
        r.deep_view() == o.deep_view(),
{
    match o {
        Some(s) => Some(s.clone()),
        None => None,
    }
}

/// Copy of a provider chunk whose view is known to be preserved.
pub fn copy_provider_chunk(c: &OpenAICompletionChunk) -> (r: OpenAICompletionChunk)
    ensures
        r@ == c@,
{
    let mut choices: Vec<OpenAIChunkChoice> = Vec::new();
    let mut i: usize = 0;
    let n = c.choices.len();
    while i < n
        invariant
            i <= n,
            n == c.choices.len(),
            choices.deep_view().len() == i,
            forall|j: int| 0 <= j < i ==> choices.deep_view()[j] == #[trigger] c.choices.deep_view()[j],
        decreases n - i,
    {
        let ch = &c.choices[i];
        let copy = OpenAIChunkChoice {
            delta: OpenAIDelta {
                role: copy_opt_string(&ch.delta.role),
                content: copy_opt_string(&ch.delta.content),
            },
            index: ch.index,
            finish_reason: copy_opt_string(&ch.finish_reason),
        };
        proof {
            assert(copy@ == c.choices.deep_view()[i as int]);
            assert(choices@.len() == choices.deep_view().len() == i);
        }
        choices.push(copy);
        proof {
            assert(choices@[i as int] == copy);
        }
        i = i + 1;
    }
    let r = OpenAICompletionChunk {
        id: c.id.clone(),
        object: c.object.clone(),
        created: c.created,
        model: c.model.clone(),
        choices,
    };
    proof {
        assert(r@.choices =~= c@.choices);
    }
    r
}

/// Normalization of one choice: a delta without a role gets the default role
/// "assistant"; an explicit role is preserved; an absent finish reason stays
/// absent, never an error.
pub open spec fn common_choice(c: ProviderChoiceView) -> ChunkChoiceView {
    ChunkChoiceView {
        delta: ChatMessageView {
            role: match c.delta.role {
                Some(r) => r,
                None => "assistant"@,
            },
            content: c.delta.content,
        },
        index: c.index,
        finish_reason: c.finish_reason,
    }
}

/// Normalization of a whole provider chunk into the canonical shape.
pub open spec fn common_of(p: ProviderChunkView) -> ChunkView {
    ChunkView {
        id: p.id,
        model: p.model,
        created: p.created,
        choices: p.choices.map_values(|c: ProviderChoiceView| common_choice(c)),
    }
}

impl OpenAICompletionChunk {
    /// Maps this provider chunk to the canonical chunk representation. The
    /// normalization is pure and per-chunk: a delta that omits its role gets
    /// role "assistant", and absent finish reasons are kept as absent.
    pub fn into_common_chunk(self) -> (r: ChatCompletionChunk)
        ensures
            r@ == common_of(self@),
    {
        let mut choices: Vec<ChatCompletionChunkChoice> = Vec::new();
        let mut i: usize = 0;
        let n = self.choices.len();
        while i < n
            invariant
                i <= n,
                n == self.choices.len(),
                choices.deep_view().len() == i,
                forall|j: int|
                    0 <= j < i ==> choices.deep_view()[j] == common_choice(
                        #[trigger] self.choices.deep_view()[j],
                    ),
            decreases n - i,
        {
            let c = &self.choices[i];
            let role = match &c.delta.role {
                Some(r) => r.clone(),
                None => String::from_str("assistant"),
            };
            let content = match &c.delta.content {
                Some(s) => Some(s.clone()),
                None => None,
            };
            let finish_reason = match &c.finish_reason {
                Some(s) => Some(s.clone()),
                None => None,
            };
            let choice = ChatCompletionChunkChoice {
                delta: ChatMessage { role, content },
                index: c.index,
                finish_reason,
            };
            proof {
                assert(choice@ == common_choice(self.choices.deep_view()[i as int]));
                assert(choices@.len() == choices.deep_view().len() == i);
            }
            choices.push(choice);
            proof {
                assert(choices@[i as int] == choice);
            }
            i = i + 1;
        }
        let r = ChatCompletionChunk { id: self.id, model: self.model, created: self.created, choices };
        proof {
            assert(r@.choices =~= common_of(self@).choices);
        }
        r
    }
}

} // verus!
