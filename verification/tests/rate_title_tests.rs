use chat_proxy::rate::{fixed_window, retry_after_minutes};
use chat_proxy::title::{clean_title, title_prompt_messages};

#[test]
fn fixed_window_allows_up_to_the_limit() {
    // Window of one hour starting at 7,200,000 ms.
    let r = fixed_window(1, 20, 3_600_000, 7_250_000);
    assert!(r.success);
    assert_eq!(r.limit, 20);
    assert_eq!(r.remaining, 19);
    assert_eq!(r.reset, 10_800_000);

    let r = fixed_window(20, 20, 3_600_000, 7_250_000);
    assert!(r.success);
    assert_eq!(r.remaining, 0);
}

#[test]
fn fixed_window_rejects_over_the_limit() {
    let r = fixed_window(21, 20, 3_600_000, 7_250_000);
    assert!(!r.success);
    assert_eq!(r.remaining, 0);
    assert_eq!(r.reset, 10_800_000);
}

#[test]
fn retry_wait_rounds_up_to_whole_minutes() {
    assert_eq!(retry_after_minutes(10_800_000, 7_250_000), 60);
    assert_eq!(retry_after_minutes(7_250_001, 7_250_000), 1);
    assert_eq!(retry_after_minutes(7_250_000, 7_250_000), 1);
    assert_eq!(retry_after_minutes(0, 7_250_000), 1);
}

#[test]
fn clean_title_strips_whitespace_then_quotes() {
    assert_eq!(clean_title("  \"Rust and Verus\"  "), "Rust and Verus");
    assert_eq!(clean_title("'Single quoted'"), "Single quoted");
    assert_eq!(clean_title("plain title"), "plain title");
    assert_eq!(clean_title("\n\t \" mixed '\" \t"), " mixed ");
    assert_eq!(clean_title(""), "");
    assert_eq!(clean_title("  \"\"  "), "");
}

#[test]
fn title_prompt_has_system_then_user_message() {
    let msgs = title_prompt_messages("How do I sort a vector?");
    assert_eq!(msgs.len(), 2);
    assert_eq!(msgs[0].role, "system");
    assert!(msgs[0].content.as_deref().unwrap().contains("5 words or less"));
    assert_eq!(msgs[1].role, "user");
    assert_eq!(msgs[1].content.as_deref(), Some("How do I sort a vector?"));
}
