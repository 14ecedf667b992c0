use vstd::prelude::*;

use crate::assemble::{assemble, assemble_spec};
use crate::error::Error;
use crate::msg::{HistoryItem, HistoryItemView, Message};

verus! {

/// Connection parameters of the session: which endpoint the bridge talks to,
/// with which credential, and which model it asks for. Loading and saving
/// these is the job of an external collaborator; the core only holds them.
#[derive(Clone, Debug, PartialEq, Eq)]
pub struct Config {
    pub api_base: String,
    pub token: String,
    pub model: String,
}

/// Mathematical model of a `Config`.
pub struct ConfigView {
    pub api_base: Seq<char>,
    pub token: Seq<char>,
    pub model: Seq<char>,
}

impl View for Config {
    type V = ConfigView;

    open spec fn view(&self) -> ConfigView {
        ConfigView { api_base: self.api_base@, token: self.token@, model: self.model@ }
    }
}

/// Mathematical model of a `Core`: its connection parameters and the ordered
/// turn history, oldest first.
pub struct CoreView {
    pub config: ConfigView,
    pub history: Seq<HistoryItemView>,
}

/// The owning session object: the connection parameters and the linear
/// conversation history. One exchange runs to completion before the next
/// begins, and the history is only touched once an exchange fully resolves.
pub struct Core {
    config: Config,
    history: Vec<HistoryItem>,
}

/// The session after one committed exchange: the new turn appended at the
/// end, everything else untouched.
pub open spec fn spec_append(c: CoreView, question: Seq<char>, answer: Seq<char>) -> CoreView {
    CoreView { config: c.config, history: c.history.push(HistoryItemView { question, answer }) }
}

/// The session after clearing: the history empty, the configuration kept.
pub open spec fn spec_clear(c: CoreView) -> CoreView {
    CoreView { config: c.config, history: Seq::empty() }
}

/// The session after reconfiguration: the new connection parameters in
/// place, the history preserved.
pub open spec fn spec_reconfigure(c: CoreView, config: ConfigView) -> CoreView {
    CoreView { config, history: c.history }
}

impl View for Core {
    type V = CoreView;

    closed spec fn view(&self) -> CoreView {
        CoreView { config: self.config@, history: self.history.deep_view() }
    }
}

impl Core {
    /// A session over the given connection parameters and the turn history
    /// the external collaborator loaded, empty at a fresh session start.
    pub fn new(config: Config, history: Vec<HistoryItem>) -> (c: Core)
        ensures
            c@.config == config@,
            c@.history == history.deep_view(),
    {
        Core { config, history }
    }

    /// The current connection parameters.
    pub fn get_config(&self) -> (c: &Config)
        ensures
            c@ == self@.config,
    {
        &self.config
    }

    /// Replace the connection parameters; the caller rebuilds the bridge from
    /// them and persists them. The history is preserved across
    /// reconfiguration.
    pub fn update_config(&mut self, new_config: Config)
        ensures
            final(self)@ == spec_reconfigure(old(self)@, new_config@),
    {
        self.config = new_config;
    }

    /// The committed turns, oldest first.
    pub fn get_history(&self) -> (h: &Vec<HistoryItem>)
        ensures
            h.deep_view() == self@.history,
    {
        &self.history
    }

    /// Forget every committed turn; the configuration stays as it is.
    pub fn clear_history(&mut self)
        ensures
            final(self)@ == spec_clear(old(self)@),
    {
        self.history.clear();
        proof {
            assert(self.history.deep_view() =~= Seq::<HistoryItemView>::empty());
        }
    }

    /// Commit one completed exchange: append its turn at the end of the
    /// history. Called only once the full answer is known.
    pub fn append_history(&mut self, question: String, answer: String)
        ensures
            final(self)@ == spec_append(old(self)@, question@, answer@),
    {
        let ghost pre = self.history@;
        let ghost pre_deep = self.history.deep_view();
        let ghost qv = question@;
        let ghost av = answer@;
        self.history.push(HistoryItem { question, answer });
        proof {
            assert forall|i: int|
                0 <= i < self.history@.len() implies self.history.deep_view()[i] == pre_deep.push(
                HistoryItemView { question: qv, answer: av },
            )[i] by {
                if i < pre.len() {
                    assert(self.history@[i] == pre[i]);
                    assert(pre_deep[i] == pre[i].deep_view());
                }
            }
            assert(self.history.deep_view() =~= pre_deep.push(
                HistoryItemView { question: qv, answer: av },
            ));
        }
    }

    /// Build the ordered request for a new user message: the whole history
    /// replayed oldest first, then the message as the trailing user turn.
    pub fn build_request(&self, message: &str) -> (msgs: Vec<Message>)
        ensures
            msgs.deep_view() == assemble_spec(self@.history, message@),
    {
        assemble(&self.history, message)
    }

    /// Resolve one exchange from the outcome the bridge (or the stream
    /// collector) handed back. On success the turn is committed: exactly one
    /// history item is appended, carrying the question and the full answer,
    /// and the answer is returned. On any error nothing is committed — the
    /// session is exactly as it was — and the error is returned unchanged.
    pub fn finish_exchange(&mut self, question: &str, outcome: Result<String, Error>) -> (r: Result<
        String,
        Error,
    >)
        ensures
            outcome matches Ok(answer) ==> final(self)@ == spec_append(
                old(self)@,
                question@,
                answer@,
            ),
            outcome is Err ==> final(self)@ == old(self)@,
            r == outcome,
    {
        match outcome {
            Ok(answer) => {
                let kept = answer.clone();
                self.append_history(question.to_owned(), kept);
                Ok(answer)
            },
            Err(e) => Err(e),
        }
    }
}

/// Emptying the session and then reading the history back yields the empty
/// sequence: clearing leaves no turn behind.
pub proof fn lemma_clear_then_get(c: CoreView)
    ensures
        spec_clear(c).history == Seq::<HistoryItemView>::empty(),
{
}

/// Named prompts the caller can manage alongside the session.
pub struct PromptManager {
}

} // verus!
