use vstd::prelude::*;

verus! {

/// Who authored a message of an assembled request: the human user or the
/// remote model.
#[derive(Clone, Copy, Debug, PartialEq, Eq)]
pub enum Role {
    User,
    Assistant,
}

/// One message of an assembled request. Messages are derived transiently from
/// the history and the new input; they are never stored.
#[derive(Clone, Debug, PartialEq, Eq)]
pub struct Message {
    pub role: Role,
    pub content: String,
}

/// One committed exchange: the user's question and the model's full answer.
/// Immutable once created; the history keeps items in insertion order.
#[derive(Clone, Debug, PartialEq, Eq)]
pub struct HistoryItem {
    pub question: String,
    pub answer: String,
}

/// Mathematical model of a `Message`: its role and its content's characters.
pub struct MessageView {
    pub role: Role,
    pub content: Seq<char>,
}

/// Mathematical model of a `HistoryItem`.
pub struct HistoryItemView {
    pub question: Seq<char>,
    pub answer: Seq<char>,
}

impl View for Message {
    type V = MessageView;

    open spec fn view(&self) -> MessageView {
        MessageView { role: self.role, content: self.content@ }
    }
}

impl DeepView for Message {
    type V = MessageView;

    open spec fn deep_view(&self) -> MessageView {
        self@
    }
}

impl View for HistoryItem {
    type V = HistoryItemView;

    open spec fn view(&self) -> HistoryItemView {
        HistoryItemView { question: self.question@, answer: self.answer@ }
    }
}

impl DeepView for HistoryItem {
    type V = HistoryItemView;

    open spec fn deep_view(&self) -> HistoryItemView {
        self@
    }
}

} // verus!
