use chat_core::assemble;
use chat_core::{HistoryItem, Role};

fn turn(question: &str, answer: &str) -> HistoryItem {
    HistoryItem { question: question.to_string(), answer: answer.to_string() }
}

#[test]
fn empty_history_yields_single_message() {
    let history: Vec<HistoryItem> = Vec::new();
    let msgs = assemble(&history, "hello");
    assert_eq!(msgs.len(), 1);
    assert_eq!(msgs[0].role, Role::User);
    assert_eq!(msgs[0].content, "hello");
}

#[test]
fn history_is_replayed_in_order_with_alternating_roles() {
    let history = vec![turn("q1", "a1"), turn("q2", "a2")];
    let msgs = assemble(&history, "q3");
    assert_eq!(msgs.len(), 5);
    assert_eq!(msgs[0].role, Role::User);
    assert_eq!(msgs[0].content, "q1");
    assert_eq!(msgs[1].role, Role::Assistant);
    assert_eq!(msgs[1].content, "a1");
    assert_eq!(msgs[2].role, Role::User);
    assert_eq!(msgs[2].content, "q2");
    assert_eq!(msgs[3].role, Role::Assistant);
    assert_eq!(msgs[3].content, "a2");
    assert_eq!(msgs[4].role, Role::User);
    assert_eq!(msgs[4].content, "q3");
}

#[test]
fn assembly_is_idempotent() {
    let history = vec![turn("what", "that"), turn("why", "because")];
    let first = assemble(&history, "and now?");
    let second = assemble(&history, "and now?");
    assert_eq!(first, second);
    // the history itself is untouched
    assert_eq!(history.len(), 2);
    assert_eq!(history[0].question, "what");
}

#[test]
fn empty_contents_are_kept_verbatim() {
    let history = vec![turn("", "")];
    let msgs = assemble(&history, "");
    assert_eq!(msgs.len(), 3);
    assert_eq!(msgs[0].content, "");
    assert_eq!(msgs[1].content, "");
    assert_eq!(msgs[2].content, "");
}
