use chat_core::collector::collect_script;
use chat_core::{Config, Core, Error, HistoryItem};

fn config() -> Config {
    Config {
        api_base: "https://example.invalid/v1".to_string(),
        token: "test-token".to_string(),
        model: "small-model".to_string(),
    }
}

fn fresh_core() -> Core {
    Core::new(config(), Vec::new())
}

#[test]
fn new_session_keeps_the_loaded_history() {
    let loaded = vec![HistoryItem { question: "q".to_string(), answer: "a".to_string() }];
    let core = Core::new(config(), loaded);
    let history = core.get_history();
    assert_eq!(history.len(), 1);
    assert_eq!(history[0].question, "q");
    assert_eq!(history[0].answer, "a");
}

#[test]
fn get_config_returns_the_parameters() {
    let core = fresh_core();
    let c = core.get_config();
    assert_eq!(c.api_base, "https://example.invalid/v1");
    assert_eq!(c.model, "small-model");
}

#[test]
fn update_config_replaces_parameters_and_preserves_history() {
    let mut core = fresh_core();
    let r = core.finish_exchange("q", Ok("a".to_string()));
    assert!(r.is_ok());
    let mut new_config = config();
    new_config.model = "large-model".to_string();
    core.update_config(new_config);
    assert_eq!(core.get_config().model, "large-model");
    assert_eq!(core.get_history().len(), 1);
}

#[test]
fn successful_exchange_commits_exactly_one_turn() {
    let mut core = fresh_core();
    let r = core.finish_exchange("hello", Ok("world".to_string()));
    assert_eq!(r, Ok("world".to_string()));
    let history = core.get_history();
    assert_eq!(history.len(), 1);
    assert_eq!(history[0].question, "hello");
    assert_eq!(history[0].answer, "world");
}

#[test]
fn buffered_failure_commits_nothing_and_returns_the_error_unchanged() {
    let mut core = fresh_core();
    let r = core.finish_exchange("hello", Err(Error::Transport("refused".to_string())));
    assert_eq!(r, Err(Error::Transport("refused".to_string())));
    assert!(core.get_history().is_empty());
}

#[test]
fn each_error_kind_propagates_unchanged() {
    let errors = vec![
        Error::Config("unreadable".to_string()),
        Error::Transport("refused".to_string()),
        Error::StreamFragment("reset".to_string()),
        Error::IoSink("flush failed".to_string()),
    ];
    for e in errors {
        let mut core = fresh_core();
        let r = core.finish_exchange("q", Err(e.clone()));
        assert_eq!(r, Err(e.clone()));
        assert!(core.get_history().is_empty());
        assert_eq!(r.unwrap_err().describe(), e.describe());
    }
}

#[test]
fn streamed_exchange_commits_the_accumulated_answer() {
    let mut core = fresh_core();
    let frags = vec![
        Ok("He".to_string()),
        Ok("llo".to_string()),
        Ok("".to_string()),
        Ok(" world".to_string()),
    ];
    let (outcome, _sink) = collect_script(frags);
    let r = core.finish_exchange("greet me", outcome);
    assert_eq!(r, Ok("Hello world".to_string()));
    let history = core.get_history();
    assert_eq!(history.len(), 1);
    assert_eq!(history[0].question, "greet me");
    assert_eq!(history[0].answer, "Hello world");
}

#[test]
fn failed_stream_commits_nothing() {
    let mut core = fresh_core();
    let frags = vec![
        Ok("Hi".to_string()),
        Err(Error::StreamFragment("reset".to_string())),
    ];
    let (outcome, sink) = collect_script(frags);
    assert_eq!(sink, vec!["Hi"]);
    let r = core.finish_exchange("greet me", outcome);
    assert_eq!(r, Err(Error::StreamFragment("reset".to_string())));
    assert!(core.get_history().is_empty());
}

#[test]
fn turns_are_committed_in_insertion_order() {
    let mut core = fresh_core();
    core.append_history("first".to_string(), "one".to_string());
    core.append_history("second".to_string(), "two".to_string());
    let history = core.get_history();
    assert_eq!(history[0].question, "first");
    assert_eq!(history[1].question, "second");
}

#[test]
fn clear_history_then_get_history_is_empty() {
    let mut core = fresh_core();
    core.append_history("q1".to_string(), "a1".to_string());
    core.append_history("q2".to_string(), "a2".to_string());
    core.clear_history();
    assert!(core.get_history().is_empty());
    // the configuration is untouched
    assert_eq!(core.get_config().model, "small-model");
}

#[test]
fn build_request_replays_history_then_new_message() {
    let mut core = fresh_core();
    core.append_history("q1".to_string(), "a1".to_string());
    let msgs = core.build_request("q2");
    assert_eq!(msgs.len(), 3);
    assert_eq!(msgs[0].content, "q1");
    assert_eq!(msgs[1].content, "a1");
    assert_eq!(msgs[2].content, "q2");
}
