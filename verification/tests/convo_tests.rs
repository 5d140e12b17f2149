use chat_proxy::chat::ChatMessage;
use chat_proxy::convo::{default_status, default_thread_title, default_visibility, ensure_thread,
    messages_through_anchor, thread_response, user_turn_message, verify_message_thread, Role,
    Status, Thread, ThreadDecision, Visibility};

fn msg(role: &str, content: Option<&str>) -> ChatMessage {
    ChatMessage { role: role.to_string(), content: content.map(|s| s.to_string()) }
}

#[test]
fn defaults_match_the_schema() {
    assert_eq!(default_thread_title(), "New Thread");
    assert_eq!(default_visibility(), Visibility::Private);
    assert_eq!(default_status(), Status::Done);
}

#[test]
fn ensure_thread_uses_caller_supplied_id_as_is() {
    let d = ensure_thread(Some("t-42".to_string()), Some("u-1".to_string()));
    assert!(matches!(d, ThreadDecision::UseExisting(ref t) if t == "t-42"));
}

#[test]
fn ensure_thread_creates_for_known_user() {
    let d = ensure_thread(None, Some("u-1".to_string()));
    assert!(matches!(d, ThreadDecision::CreateNew(ref u) if u == "u-1"));
}

#[test]
fn ensure_thread_degrades_to_no_persistence() {
    let d = ensure_thread(None, None);
    assert!(matches!(d, ThreadDecision::NoPersistence));
}

#[test]
fn user_turn_picks_last_user_message_with_content() {
    let thread_id = "t-1".to_string();
    let model = "openai/gpt-4o".to_string();
    let messages = vec![
        msg("system", Some("be brief")),
        msg("user", Some("first question")),
        msg("assistant", Some("first answer")),
        msg("user", Some("second question")),
    ];
    let m = user_turn_message(&thread_id, &messages, &model, "m-1".to_string(), 1000).unwrap();
    assert_eq!(m.id.as_deref(), Some("m-1"));
    assert_eq!(m.thread_id, "t-1");
    assert_eq!(m.content.as_deref(), Some("second question"));
    assert_eq!(m.role, Role::User);
    assert_eq!(m.model.as_deref(), Some("openai/gpt-4o"));
    assert_eq!(m.status, Status::Done);
    assert!(!m.is_errored);
    assert!(!m.is_stopped);
    assert_eq!(m.error_message, None);
    assert_eq!(m.created_at, 1000);
    assert_eq!(m.updated_at, 1000);
}

#[test]
fn user_turn_without_user_message_saves_nothing() {
    let thread_id = "t-1".to_string();
    let model = "m".to_string();
    let messages = vec![msg("system", Some("x")), msg("assistant", Some("y"))];
    assert!(user_turn_message(&thread_id, &messages, &model, "m-1".to_string(), 0).is_none());
}

#[test]
fn user_turn_without_content_saves_nothing() {
    let thread_id = "t-1".to_string();
    let model = "m".to_string();
    let messages = vec![msg("user", None)];
    assert!(user_turn_message(&thread_id, &messages, &model, "m-1".to_string(), 0).is_none());
}

fn thread(id: Option<&str>) -> Thread {
    Thread {
        id: id.map(|s| s.to_string()),
        user_id: "u-1".to_string(),
        title: "New Thread".to_string(),
        visibility: Visibility::Private,
        origin_thread_id: None,
        created_at: 5,
        updated_at: 6,
    }
}

#[test]
fn thread_access_follows_ownership_and_visibility() {
    let mut t = thread(Some("t-1"));
    let owner = "u-1".to_string();
    let stranger = "u-2".to_string();
    assert!(chat_proxy::convo::can_view_thread(&t, &owner));
    assert!(!chat_proxy::convo::can_view_thread(&t, &stranger));
    assert!(chat_proxy::convo::can_modify_thread(&t, &owner));
    assert!(!chat_proxy::convo::can_modify_thread(&t, &stranger));
    t.visibility = Visibility::Public;
    assert!(chat_proxy::convo::can_view_thread(&t, &stranger));
    assert!(!chat_proxy::convo::can_modify_thread(&t, &stranger));
}

#[test]
fn missing_thread_is_reported_as_data_inconsistency() {
    let tid = "t-1".to_string();
    assert!(verify_message_thread(&tid, &Some(thread(Some("t-1")))).is_ok());
    let err = verify_message_thread(&tid, &None).unwrap_err();
    assert_eq!(err, "Data inconsistency: message references a missing thread");
    let err = verify_message_thread(&tid, &Some(thread(Some("t-2")))).unwrap_err();
    assert_eq!(err, "Data inconsistency: message references a missing thread");
}

fn stored(id: &str, created_at: i64) -> chat_proxy::convo::Message {
    chat_proxy::convo::Message {
        id: Some(id.to_string()),
        thread_id: "t-1".to_string(),
        parts: None,
        content: Some(format!("content of {}", id)),
        role: Role::User,
        model: None,
        status: Status::Done,
        is_errored: false,
        is_stopped: false,
        error_message: None,
        created_at,
        updated_at: created_at,
    }
}

#[test]
fn share_selection_keeps_messages_up_to_the_anchor_in_order() {
    let messages = vec![stored("m1", 10), stored("m2", 20), stored("m3", 30)];
    let anchor = stored("m2", 20);
    let picked = messages_through_anchor(&messages, &anchor);
    let ids: Vec<_> = picked.iter().map(|m| m.id.clone().unwrap()).collect();
    assert_eq!(ids, vec!["m1", "m2"]);
}

#[test]
fn share_selection_appends_a_missed_anchor() {
    // The anchor shares its timestamp with another message and was not part
    // of the fetched list: it must still be included, at the end.
    let messages = vec![stored("m1", 10), stored("mx", 20)];
    let anchor = stored("m2", 20);
    let picked = messages_through_anchor(&messages, &anchor);
    let ids: Vec<_> = picked.iter().map(|m| m.id.clone().unwrap()).collect();
    assert_eq!(ids, vec!["m1", "mx", "m2"]);
}

#[test]
fn branching_rebases_a_message_onto_the_new_thread() {
    let original = stored("m1", 10);
    let rebased = chat_proxy::convo::rebase_message(&original, &"t-branch".to_string(),
        "m-new".to_string(), 99);
    assert_eq!(rebased.id.as_deref(), Some("m-new"));
    assert_eq!(rebased.thread_id, "t-branch");
    assert_eq!(rebased.content.as_deref(), Some("content of m1"));
    assert_eq!(rebased.created_at, 10, "creation time is kept so ordering survives");
    assert_eq!(rebased.updated_at, 99);
}

#[test]
fn assistant_draft_carries_status_and_flags() {
    let rec = chat_proxy::session::AssistantRecord {
        content: "partial text".to_string(),
        finish_reason: None,
        status: Status::Stopped,
        error_message: None,
        model: Some("gpt-4o".to_string()),
        completion_id: Some("c9".to_string()),
    };
    let m = chat_proxy::convo::assistant_message(&"t-1".to_string(), &rec, "m-a".to_string(), 50);
    assert_eq!(m.role, Role::Assistant);
    assert_eq!(m.content.as_deref(), Some("partial text"));
    assert_eq!(m.status, Status::Stopped);
    assert!(m.is_stopped);
    assert!(!m.is_errored);
    assert_eq!(m.error_message, None);
    assert_eq!(m.model.as_deref(), Some("gpt-4o"));
}

#[test]
fn status_update_sets_and_clears_error_flags() {
    let m = stored("m1", 10);
    let errored = chat_proxy::convo::apply_status(&m, Status::Error,
        Some("boom".to_string()), 20);
    assert_eq!(errored.status, Status::Error);
    assert!(errored.is_errored);
    assert_eq!(errored.error_message.as_deref(), Some("boom"));
    assert_eq!(errored.updated_at, 20);

    let recovered = chat_proxy::convo::apply_status(&errored, Status::Done, None, 30);
    assert_eq!(recovered.status, Status::Done);
    assert!(!recovered.is_errored);
    assert_eq!(recovered.error_message, None);

    let stopped = chat_proxy::convo::apply_status(&m, Status::Stopped, None, 40);
    assert!(stopped.is_stopped);
    let after = chat_proxy::convo::apply_status(&stopped, Status::Done, None, 50);
    assert!(after.is_stopped, "nothing un-marks a stopped record");
}

#[test]
fn thread_response_renders_fields() {
    let r = thread_response(&thread(Some("t-9")), "2024-01-01T00:00:00Z".to_string(),
        "2024-01-02T00:00:00Z".to_string());
    assert_eq!(r.id, "t-9");
    assert_eq!(r.user_id, "u-1");
    assert_eq!(r.title, "New Thread");
    assert_eq!(r.visibility, Visibility::Private);
    assert_eq!(r.origin_thread_id, None);
    assert_eq!(r.created_at, "2024-01-01T00:00:00Z");
    let r = thread_response(&thread(None), String::new(), String::new());
    assert_eq!(r.id, "");
}
