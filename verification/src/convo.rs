//! Conversation state: thread and message records, the decision rules for
//! resolving a thread for a request, and the drafts of the two messages a
//! chat turn persists.

use vstd::prelude::*;

use crate::chat::{ChatMessage, ChatMessageView};

verus! {

/// Role of a stored message.
#[derive(PartialEq, Eq, Structural, Clone, Copy, Debug)]
pub enum Role {
    User,
    Assistant,
    System,
    Data,
}

/// Lifecycle status of a stored message.
#[derive(PartialEq, Eq, Structural, Clone, Copy, Debug)]
pub enum Status {
    Pending,
    Streaming,
    Done,
    Error,
    Stopped,
}

/// Visibility of a thread.
#[derive(PartialEq, Eq, Structural, Clone, Copy, Debug)]
pub enum Visibility {
    Private,
    Public,
}

/// Title given to a thread created without one.
pub fn default_thread_title() -> (r: String)
    ensures
        r@ == "New Thread"@,
{
    String::from_str("New Thread")
}

/// Visibility given to a thread created without one.
pub fn default_visibility() -> (r: Visibility)
    ensures
        r == Visibility::Private,
{
    Visibility::Private
}

/// Status given to a message created without one.
pub fn default_status() -> (r: Status)
    ensures
        r == Status::Done,
{
    Status::Done
}

/// A conversation thread. Timestamps are unix milliseconds.
#[derive(Debug, Clone)]
pub struct Thread {
    pub id: Option<String>,
    pub user_id: String,
    pub title: String,
    pub visibility: Visibility,
    pub origin_thread_id: Option<String>,
    pub created_at: i64,
    pub updated_at: i64,
}

/// A stored message of a thread. `parts` carries a provider-opaque JSON
/// payload as text. Timestamps are unix milliseconds.
#[derive(Debug, Clone)]
pub struct Message {
    pub id: Option<String>,
    pub thread_id: String,
    pub parts: Option<String>,
    pub content: Option<String>,
    pub role: Role,
    pub model: Option<String>,
    pub status: Status,
    pub is_errored: bool,
    pub is_stopped: bool,
    pub error_message: Option<String>,
    pub created_at: i64,
    pub updated_at: i64,
}

/// Mathematical view of a `Message`.
pub struct MessageView {
    pub id: Option<Seq<char>>,
    pub thread_id: Seq<char>,
    pub parts: Option<Seq<char>>,
    pub content: Option<Seq<char>>,
    pub role: Role,
    pub model: Option<Seq<char>>,
    pub status: Status,
    pub is_errored: bool,
    pub is_stopped: bool,
    pub error_message: Option<Seq<char>>,
    pub created_at: i64,
    pub updated_at: i64,
}

impl View for Message {
    type V = MessageView;

    open spec fn view(&self) -> MessageView {
        MessageView {
            id: self.id.deep_view(),
            thread_id: self.thread_id@,
            parts: self.parts.deep_view(),
            content: self.content.deep_view(),
            role: self.role,
            model: self.model.deep_view(),
            status: self.status,
            is_errored: self.is_errored,
            is_stopped: self.is_stopped,
            error_message: self.error_message.deep_view(),
            created_at: self.created_at,
            updated_at: self.updated_at,
        }
    }
}

impl DeepView for Message {
    type V = MessageView;

    open spec fn deep_view(&self) -> MessageView {
        self.view()
    }
}

/// Payload for creating a thread explicitly.
#[derive(Debug, Clone)]
pub struct CreateThreadPayload {
    pub title: Option<String>,
    pub visibility: Option<Visibility>,
}

/// A thread as rendered to API clients, timestamps preformatted.
#[derive(Debug, Clone)]
pub struct ThreadResponse {
    pub id: String,
    pub user_id: String,
    pub title: String,
    pub visibility: Visibility,
    pub origin_thread_id: Option<String>,
    pub created_at: String,
    pub updated_at: String,
}

/// Renders a thread for API clients. The caller formats the timestamps; the
/// record's identifier defaults to the empty string when absent.
pub fn thread_response(t: &Thread, created_at: String, updated_at: String) -> (r: ThreadResponse)
    ensures
        r.id@ == (match t.id.deep_view() {
            Some(s) => s,
            None => Seq::<char>::empty(),
        }),
        r.user_id@ == t.user_id@,
        r.title@ == t.title@,
        r.visibility == t.visibility,
        r.origin_thread_id.deep_view() == t.origin_thread_id.deep_view(),
        r.created_at == created_at,
        r.updated_at == updated_at,
{
    ThreadResponse {
        id: match &t.id {
            Some(s) => s.clone(),
            None => String::new(),
        },
        user_id: t.user_id.clone(),
        title: t.title.clone(),
        visibility: t.visibility,
        origin_thread_id: match &t.origin_thread_id {
            Some(s) => Some(s.clone()),
            None => None,
        },
        created_at,
        updated_at,
    }
}

/// How the streaming core resolves the thread a request belongs to.
#[derive(Debug, Clone)]
pub enum ThreadDecision {
    /// A caller-supplied thread id is used as-is; existence is validated
    /// lazily by the message write.
    UseExisting(String),
    /// No thread was supplied but a user is known: create a thread owned by
    /// that user, with the default title.
    CreateNew(String),
    /// Neither a thread nor a user is known: answer the request but persist
    /// nothing. A deliberate degraded mode, not a failure.
    NoPersistence,
}

/// Resolves the thread for a request from the optional caller-supplied
/// thread id and the optional user id.
pub fn ensure_thread(caller_thread_id: Option<String>, user_id: Option<String>) -> (r:
    ThreadDecision)
    ensures
        match caller_thread_id {
            Some(t) => r matches ThreadDecision::UseExisting(x) && x@ == t@,
            None => match user_id {
                Some(u) => r matches ThreadDecision::CreateNew(x) && x@ == u@,
                None => r is NoPersistence,
            },
        },
{
    match caller_thread_id {
        Some(t) => ThreadDecision::UseExisting(t),
        None => match user_id {
            Some(u) => ThreadDecision::CreateNew(u),
            None => ThreadDecision::NoPersistence,
        },
    }
}

/// Index of the last user-role message of a request, or -1 if there is none.
pub open spec fn last_user_idx(msgs: Seq<ChatMessageView>) -> int
    decreases msgs.len(),
{
    if msgs.len() == 0 {
        -1
    } else if msgs.last().role == "user"@ {
        msgs.len() - 1
    } else {
        last_user_idx(msgs.drop_last())
    }
}

/// The draft of the user message persisted before the upstream call: the
/// last user-role message of the request, if it exists and has content.
/// Created with the default status; the caller supplies the record id and
/// the clock reading.
pub fn user_turn_message(
    thread_id: &String,
    messages: &Vec<ChatMessage>,
    model: &String,
    id: String,
    now: i64,
) -> (r: Option<Message>)
    ensures
        ({
            let idx = last_user_idx(messages.deep_view());
            if idx >= 0 && messages.deep_view()[idx].content is Some {
                r matches Some(m) && m.id.deep_view() == Some(id@) && m.thread_id@ == thread_id@
                    && m.parts is None && m.content.deep_view() == messages.deep_view()[idx].content
                    && m.role == Role::User && m.model.deep_view() == Some(model@) && m.status
                    == Status::Done && !m.is_errored && !m.is_stopped && m.error_message is None
                    && m.created_at == now && m.updated_at == now
            } else {
                r is None
            }
        }),
{
    let user_name = String::from_str("user");
    let n = messages.len();
    let mut i: usize = n;
    proof {
        assert(messages.deep_view().take(n as int) =~= messages.deep_view());
    }
    while i > 0
        invariant
            i <= n,
            n == messages@.len(),
            user_name@ == "user"@,
            last_user_idx(messages.deep_view()) == last_user_idx(
                messages.deep_view().take(i as int),
            ),
        decreases i,
    {
        proof {
            assert(messages.deep_view().take(i as int).drop_last() =~= messages.deep_view().take(
                i - 1 as int,
            ));
            assert(messages.deep_view().take(i as int).last() == messages.deep_view()[i - 1 as int]);
        }
        if messages[i - 1].role == user_name {
            let m = &messages[i - 1];
            match &m.content {
                Some(c) => {
                    return Some(
                        Message {
                            id: Some(id),
                            thread_id: thread_id.clone(),
                            parts: None,
                            content: Some(c.clone()),
                            role: Role::User,
                            model: Some(model.clone()),
                            status: Status::Done,
                            is_errored: false,
                            is_stopped: false,
                            error_message: None,
                            created_at: now,
                            updated_at: now,
                        },
                    );
                },
                None => {
                    return None;
                },
            }
        }
        i = i - 1;
    }
    proof {
        assert(messages.deep_view().take(0) =~= Seq::<ChatMessageView>::empty());
    }
    None
}

/// Copy of a stored message whose view is known to be preserved.
pub fn copy_message_record(m: &Message) -> (r: Message)
    ensures
        r@ == m@,
{
    Message {
        id: copy_opt(&m.id),
        thread_id: m.thread_id.clone(),
        parts: copy_opt(&m.parts),
        content: copy_opt(&m.content),
        role: m.role,
        model: copy_opt(&m.model),
        status: m.status,
        is_errored: m.is_errored,
        is_stopped: m.is_stopped,
        error_message: copy_opt(&m.error_message),
        created_at: m.created_at,
        updated_at: m.updated_at,
    }
}

/// Copy of an optional string whose view is known to be preserved.
fn copy_opt(o: &Option<String>) -> (r: Option<String>)
    ensures
        r.deep_view() == o.deep_view(),
{
    match o {
        Some(s) => Some(s.clone()),
        None => None,
    }
}

/// The messages of a thread created no later than `cutoff`, in their
/// original order.
pub open spec fn kept_through(ms: Seq<MessageView>, cutoff: i64) -> Seq<MessageView>
    decreases ms.len(),
{
    if ms.len() == 0 {
        Seq::empty()
    } else if ms.last().created_at <= cutoff {
        kept_through(ms.drop_last(), cutoff).push(ms.last())
    } else {
        kept_through(ms.drop_last(), cutoff)
    }
}

/// Whether one of the messages carries the given identifier.
pub open spec fn contains_id(ms: Seq<MessageView>, id: Option<Seq<char>>) -> bool
    decreases ms.len(),
{
    if ms.len() == 0 {
        false
    } else {
        ms.last().id == id || contains_id(ms.drop_last(), id)
    }
}

/// The prefix of a conversation that a branch or a partial share takes: the
/// messages created no later than the anchor, in their stored order, with
/// the anchor itself appended when the selection missed it (timestamp
/// granularity can hide it). Used both to copy a thread up to a message and
/// to render a shared thread.
pub fn messages_through_anchor(messages: &Vec<Message>, anchor: &Message) -> (r: Vec<Message>)
    ensures
        ({
            let kept = kept_through(messages.deep_view(), anchor@.created_at);
            if contains_id(kept, anchor@.id) {
                r.deep_view() == kept
            } else {
                r.deep_view() == kept.push(anchor@)
            }
        }),
{
    let mut out: Vec<Message> = Vec::new();
    let mut found = false;
    let mut i: usize = 0;
    let n = messages.len();
    proof {
        assert(messages.deep_view().take(0) =~= Seq::<MessageView>::empty());
    }
    while i < n
        invariant
            i <= n,
            n == messages@.len(),
            out.deep_view() == kept_through(
                messages.deep_view().take(i as int),
                anchor@.created_at,
            ),
            found == contains_id(
                kept_through(messages.deep_view().take(i as int), anchor@.created_at),
                anchor@.id,
            ),
        decreases n - i,
    {
        proof {
            assert(messages.deep_view().take(i + 1 as int).drop_last()
                =~= messages.deep_view().take(i as int));
            assert(messages.deep_view().take(i + 1 as int).last()
                == messages.deep_view()[i as int]);
        }
        let m = &messages[i];
        if m.created_at <= anchor.created_at {
            if same_id(&m.id, &anchor.id) {
                found = true;
            }
            let copy = copy_message_record(m);
            proof {
                assert(copy@ == messages.deep_view()[i as int]);
                assert(out@.len() == out.deep_view().len());
            }
            out.push(copy);
            proof {
                assert(out@.last() == copy);
                assert(out.deep_view() =~= kept_through(
                    messages.deep_view().take(i + 1 as int),
                    anchor@.created_at,
                ));
                let kept_i = kept_through(messages.deep_view().take(i as int), anchor@.created_at);
                let m_view = messages.deep_view()[i as int];
                assert(kept_i.push(m_view).drop_last() =~= kept_i);
                assert(contains_id(kept_i.push(m_view), anchor@.id) == (m_view.id == anchor@.id
                    || contains_id(kept_i, anchor@.id)));
            }
        }
        i = i + 1;
    }
    proof {
        assert(messages.deep_view().take(n as int) =~= messages.deep_view());
    }
    if !found {
        let copy = copy_message_record(anchor);
        proof {
            assert(out@.len() == out.deep_view().len());
        }
        out.push(copy);
        proof {
            assert(out@.last() == copy);
        }
    }
    out
}

/// Whether two optional identifiers are the same.
fn same_id(a: &Option<String>, b: &Option<String>) -> (r: bool)
    ensures
        r == (a.deep_view() == b.deep_view()),
{
    match (a, b) {
        (Some(x), Some(y)) => *x == *y,
        (None, None) => true,
        _ => false,
    }
}

/// A message copied onto a new thread, as branching a conversation does:
/// same content and role, fresh identifier, new thread, original creation
/// time kept so ordering survives, update time set to the branch time.
pub fn rebase_message(m: &Message, new_thread_id: &String, new_id: String, now: i64) -> (r: Message)
    ensures
        r@ == (MessageView {
            id: Some(new_id@),
            thread_id: new_thread_id@,
            updated_at: now,
            ..m@
        }),
{
    let mut r = copy_message_record(m);
    r.id = Some(new_id);
    r.thread_id = new_thread_id.clone();
    r.updated_at = now;
    r
}

/// The error flags a status dictates: only an error status carries an error
/// message; a stopped status marks the record stopped.
pub open spec fn errored_of(status: Status) -> bool {
    status == Status::Error
}

/// The draft of the one assistant message a finished stream persists, built
/// from the tee's record: the accumulated content under the record's status,
/// with the error flags that status dictates. The caller supplies the record
/// id and the clock reading.
pub fn assistant_message(
    thread_id: &String,
    rec: &crate::session::AssistantRecord,
    id: String,
    now: i64,
) -> (r: Message)
    ensures
        r@.id == Some(id@),
        r@.thread_id == thread_id@,
        r@.parts is None,
        r@.content == Some(rec.content@),
        r@.role == Role::Assistant,
        r@.model == rec.model.deep_view(),
        r@.status == rec.status,
        r@.is_errored == errored_of(rec.status),
        r@.is_stopped == (rec.status == Status::Stopped),
        r@.error_message == (if rec.status == Status::Error {
            rec.error_message.deep_view()
        } else {
            None::<Seq<char>>
        }),
        r@.created_at == now && r@.updated_at == now,
{
    Message {
        id: Some(id),
        thread_id: thread_id.clone(),
        parts: None,
        content: Some(rec.content.clone()),
        role: Role::Assistant,
        model: copy_opt(&rec.model),
        status: rec.status,
        is_errored: rec.status == Status::Error,
        is_stopped: rec.status == Status::Stopped,
        error_message: if rec.status == Status::Error {
            copy_opt(&rec.error_message)
        } else {
            None
        },
        created_at: now,
        updated_at: now,
    }
}

/// A status change applied to a stored message, as an edit does: an error
/// status records the given cause and raises the error flag, any other
/// status clears both; a stopped status additionally marks the record
/// stopped (and nothing un-marks it).
pub fn apply_status(m: &Message, status: Status, error_message: Option<String>, now: i64) -> (r:
    Message)
    ensures
        r@ == (MessageView {
            status,
            is_errored: errored_of(status),
            error_message: if errored_of(status) {
                error_message.deep_view()
            } else {
                None::<Seq<char>>
            },
            is_stopped: m@.is_stopped || status == Status::Stopped,
            updated_at: now,
            ..m@
        }),
{
    let mut r = copy_message_record(m);
    r.status = status;
    if status == Status::Error {
        r.is_errored = true;
        r.error_message = error_message;
    } else {
        r.is_errored = false;
        r.error_message = None;
    }
    if status == Status::Stopped {
        r.is_stopped = true;
    }
    r.updated_at = now;
    r
}

/// Whether a user may read a thread: its owner always may; anyone may read a
/// public thread.
pub fn can_view_thread(thread: &Thread, user_id: &String) -> (r: bool)
    ensures
        r == (thread.user_id@ == user_id@ || thread.visibility == Visibility::Public),
{
    thread.user_id == *user_id || thread.visibility == Visibility::Public
}

/// Whether a user may change a thread (rename it, change its visibility,
/// delete it): only its owner.
pub fn can_modify_thread(thread: &Thread, user_id: &String) -> (r: bool)
    ensures
        r == (thread.user_id@ == user_id@),
{
    thread.user_id == *user_id
}

/// A message must reference an existing thread: a lookup that found none is
/// reported as a data inconsistency rather than silently ignored.
pub fn verify_message_thread(message_thread_id: &String, thread: &Option<Thread>) -> (r: Result<
    (),
    String,
>)
    ensures
        r is Ok <==> (thread matches Some(t) && t.id.deep_view() == Some(message_thread_id@)),
        r matches Err(e) ==> e@ == "Data inconsistency: message references a missing thread"@,
{
    match thread {
        Some(t) => match &t.id {
            Some(tid) => {
                if *tid == *message_thread_id {
                    Ok(())
                } else {
                    Err(String::from_str("Data inconsistency: message references a missing thread"))
                }
            },
            None => Err(String::from_str("Data inconsistency: message references a missing thread")),
        },
        None => Err(String::from_str("Data inconsistency: message references a missing thread")),
    }
}

} // verus!
