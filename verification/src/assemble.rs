use vstd::prelude::*;

use crate::msg::{HistoryItem, HistoryItemView, Message, MessageView, Role};

verus! {

/// The message that a user turn contributes to a request.
pub open spec fn user_msg(content: Seq<char>) -> MessageView {
    MessageView { role: Role::User, content }
}

/// The message that an assistant turn contributes to a request.
pub open spec fn assistant_msg(content: Seq<char>) -> MessageView {
    MessageView { role: Role::Assistant, content }
}

/// The replayed context: for each history item in order, its question as a
/// user message immediately followed by its answer as an assistant message.
pub open spec fn history_messages(h: Seq<HistoryItemView>) -> Seq<MessageView> {
    Seq::new(
        2 * h.len(),
        |i: int|
            if i % 2 == 0 {
                user_msg(h[i / 2].question)
            } else {
                assistant_msg(h[i / 2].answer)
            },
    )
}

/// The full assembled request: the whole history replayed in order, then the
/// new user message. No reordering, deduplication or truncation.
pub open spec fn assemble_spec(h: Seq<HistoryItemView>, m: Seq<char>) -> Seq<MessageView> {
    history_messages(h).push(user_msg(m))
}

/// Replaying one more history item extends the context by exactly its two
/// messages.
proof fn lemma_history_messages_snoc(h: Seq<HistoryItemView>, k: int)
    requires
        0 <= k < h.len(),
    ensures
        history_messages(h.take(k + 1)) == history_messages(h.take(k)).push(
            user_msg(h[k].question),
        ).push(assistant_msg(h[k].answer)),
{
    let a = history_messages(h.take(k + 1));
    let b = history_messages(h.take(k)).push(user_msg(h[k].question)).push(
        assistant_msg(h[k].answer),
    );
    assert forall|i: int| 0 <= i < a.len() implies a[i] == b[i] by {
        if i < 2 * k {
            assert(h.take(k + 1)[i / 2] == h.take(k)[i / 2]);
        } else if i == 2 * k {
            assert(i % 2 == 0 && i / 2 == k) by (nonlinear_arith)
                requires
                    i == 2 * k,
            ;
        } else {
            assert(i == 2 * k + 1);
            assert(i % 2 == 1 && i / 2 == k) by (nonlinear_arith)
                requires
                    i == 2 * k + 1,
            ;
        }
    }
    assert(a =~= b);
}

/// Shape of every assembled request: `2*len(h) + 1` messages whose roles
/// strictly alternate user, assistant, ..., user; position `2i` carries the
/// `i`th question, position `2i + 1` the `i`th answer, and the final position
/// the new message.
pub proof fn lemma_assemble_shape(h: Seq<HistoryItemView>, m: Seq<char>)
    ensures
        assemble_spec(h, m).len() == 2 * h.len() + 1,
        forall|i: int|
            0 <= i < h.len() ==> assemble_spec(h, m)[2 * i] == user_msg(h[i].question),
        forall|i: int|
            0 <= i < h.len() ==> assemble_spec(h, m)[2 * i + 1] == assistant_msg(h[i].answer),
        assemble_spec(h, m)[2 * h.len() as int] == user_msg(m),
{
    assert forall|i: int| 0 <= i < h.len() implies assemble_spec(h, m)[2 * i] == user_msg(
        h[i].question,
    ) by {
        assert((2 * i) % 2 == 0 && (2 * i) / 2 == i) by (nonlinear_arith);
    }
    assert forall|i: int| 0 <= i < h.len() implies assemble_spec(h, m)[2 * i + 1] == assistant_msg(
        h[i].answer,
    ) by {
        assert((2 * i + 1) % 2 == 1 && (2 * i + 1) / 2 == i) by (nonlinear_arith);
    }
}

/// Assembly is idempotent: two runs over identical inputs produce identical
/// message sequences, since the result is a function of the inputs alone and
/// nothing else.
pub proof fn lemma_assemble_idempotent(
    h: Seq<HistoryItemView>,
    m: Seq<char>,
    r1: Seq<MessageView>,
    r2: Seq<MessageView>,
)
    requires
        r1 == assemble_spec(h, m),
        r2 == assemble_spec(h, m),
    ensures
        r1 == r2,
{
}

/// Build the ordered request for a new user message: the full history
/// replayed oldest first, then the new message as the trailing user turn.
/// A pure, total transformation: the history itself is left untouched.
pub fn assemble(history: &Vec<HistoryItem>, message: &str) -> (msgs: Vec<Message>)
    ensures
        msgs.deep_view() == assemble_spec(history.deep_view(), message@),
{
    let ghost hd = history.deep_view();
    let mut msgs: Vec<Message> = Vec::new();
    proof {
        assert(msgs.deep_view() =~= history_messages(hd.take(0)));
    }
    let mut k: usize = 0;
    while k < history.len()
        invariant
            k <= hd.len(),
            hd == history.deep_view(),
            hd.len() == history@.len(),
            msgs.deep_view() == history_messages(hd.take(k as int)),
        decreases hd.len() - k,
    {
        let ghost pre = msgs@;
        let ghost pre_deep = msgs.deep_view();
        let question = history[k].question.clone();
        let ghost qv = question@;
        msgs.push(Message { role: Role::User, content: question });
        let answer = history[k].answer.clone();
        let ghost av = answer@;
        msgs.push(Message { role: Role::Assistant, content: answer });
        proof {
            let ki = k as int;
            assert(hd[ki] == history@[ki].deep_view());
            assert forall|i: int|
                0 <= i < msgs@.len() implies msgs.deep_view()[i] == pre_deep.push(
                user_msg(qv),
            ).push(assistant_msg(av))[i] by {
                if i < pre.len() {
                    assert(msgs@[i] == pre[i]);
                    assert(pre_deep[i] == pre[i].deep_view());
                }
            }
            assert(msgs.deep_view() =~= pre_deep.push(user_msg(qv)).push(assistant_msg(av)));
            assert(user_msg(qv) == user_msg(hd[ki].question));
            assert(assistant_msg(av) == assistant_msg(hd[ki].answer));
            lemma_history_messages_snoc(hd, ki);
        }
        k = k + 1;
    }
    let ghost pre = msgs@;
    let ghost pre_deep = msgs.deep_view();
    let content = message.to_owned();
    let ghost mv = content@;
    msgs.push(Message { role: Role::User, content });
    proof {
        assert(hd.take(hd.len() as int) =~= hd);
        assert forall|i: int|
            0 <= i < msgs@.len() implies msgs.deep_view()[i] == pre_deep.push(user_msg(mv))[i] by {
            if i < pre.len() {
                assert(msgs@[i] == pre[i]);
                assert(pre_deep[i] == pre[i].deep_view());
            }
        }
        assert(msgs.deep_view() =~= pre_deep.push(user_msg(mv)));
    }
    msgs
}

} // verus!
