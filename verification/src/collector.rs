use vstd::prelude::*;
use vstd::string::StringExecFns;

use crate::error::Error;

verus! {

/// The state of one streaming exchange.
#[derive(Clone, Copy, Debug, PartialEq, Eq)]
pub enum Phase {
    /// Fragments are still being consumed.
    Receiving,
    /// The fragment source was exhausted with no error; the answer is
    /// complete.
    Completed,
    /// A fragment carried an error; the partial answer was discarded.
    Failed,
}

/// Accumulator for one streamed response. It exists only for the duration of
/// a single exchange: fragments are folded in as they arrive, and the result
/// is handed out once the source is exhausted.
///
/// The caller drives it: for each successful fragment it calls
/// [`Self::on_fragment`] and writes the fragment to the live sink exactly
/// when told to; on a fragment error it calls [`Self::on_error`] and stops
/// consuming; on exhaustion it calls [`Self::finish`] and writes one newline
/// to the sink.
pub struct StreamCollector {
    phase: Phase,
    acc: String,
}

/// Mathematical model of a collector: its phase and the characters
/// accumulated so far.
pub struct CollectorView {
    pub phase: Phase,
    pub acc: Seq<char>,
}

impl View for StreamCollector {
    type V = CollectorView;

    closed spec fn view(&self) -> CollectorView {
        CollectorView { phase: self.phase, acc: self.acc@ }
    }
}

impl StreamCollector {
    /// A fresh collector, ready to receive the first fragment.
    pub fn new() -> (c: StreamCollector)
        ensures
            c@.phase is Receiving,
            c@.acc == Seq::<char>::empty(),
    {
        StreamCollector { phase: Phase::Receiving, acc: String::new() }
    }

    /// The current phase of the exchange.
    pub fn phase(&self) -> (p: Phase)
        ensures
            p == self@.phase,
    {
        self.phase
    }

    /// Consume one successful fragment: append it to the accumulated answer,
    /// preserving arrival order. Returns whether the caller must write the
    /// fragment to the live sink, which is exactly when it is non-empty;
    /// empty fragments are no-ops that neither reach the sink nor the
    /// accumulator.
    pub fn on_fragment(&mut self, text: &str) -> (emit: bool)
        requires
            old(self)@.phase is Receiving,
        ensures
            final(self)@.phase is Receiving,
            final(self)@.acc == old(self)@.acc + text@,
            emit == (text@.len() != 0),
    {
        if text.is_empty() {
            proof {
                assert(self@.acc + text@ =~= self@.acc);
            }
            false
        } else {
            self.acc.append(text);
            true
        }
    }

    /// A fragment carried an error: the whole exchange fails and the partial
    /// answer accumulated so far is discarded. Nothing of it may reach the
    /// history.
    pub fn on_error(&mut self)
        requires
            old(self)@.phase is Receiving,
        ensures
            final(self)@.phase is Failed,
            final(self)@.acc == Seq::<char>::empty(),
    {
        self.phase = Phase::Failed;
        self.acc = String::new();
    }

    /// The fragment source is exhausted with no error: the accumulated text
    /// is the complete answer. The caller then writes one trailing newline to
    /// the sink to terminate the visual output.
    pub fn finish(&mut self) -> (answer: String)
        requires
            old(self)@.phase is Receiving,
        ensures
            final(self)@.phase is Completed,
            answer@ == old(self)@.acc,
    {
        self.phase = Phase::Completed;
        self.acc.clone()
    }
}

/// The answer accumulated after the first `n` fragment results, all of them
/// successful chunks.
pub open spec fn script_concat(frags: Seq<Result<String, Error>>, n: int) -> Seq<char>
    decreases n,
{
    if n <= 0 {
        Seq::empty()
    } else {
        script_concat(frags, n - 1) + frags[n - 1]->Ok_0@
    }
}

/// The sink writes after the first `n` fragment results: exactly the
/// non-empty successful chunks, in arrival order.
pub open spec fn script_emitted(frags: Seq<Result<String, Error>>, n: int) -> Seq<Seq<char>>
    decreases n,
{
    if n <= 0 {
        Seq::empty()
    } else {
        let rest = script_emitted(frags, n - 1);
        if frags[n - 1] is Ok && frags[n - 1]->Ok_0@.len() != 0 {
            rest.push(frags[n - 1]->Ok_0@)
        } else {
            rest
        }
    }
}

/// Whether each of the first `n` fragment results is a successful chunk.
pub open spec fn script_ok(frags: Seq<Result<String, Error>>, n: int) -> bool {
    forall|i: int| 0 <= i < n ==> frags[i] is Ok
}

/// Concatenation of a batch of sink writes, in order.
pub open spec fn seq_join(parts: Seq<Seq<char>>) -> Seq<char>
    decreases parts.len(),
{
    if parts.len() == 0 {
        Seq::empty()
    } else {
        seq_join(parts.drop_last()) + parts.last()
    }
}

/// What the user watched is what gets committed: over any error-free prefix
/// of the fragment sequence, the non-empty chunks handed to the sink, joined
/// in arrival order, are exactly the accumulated answer. Empty chunks change
/// neither side.
pub proof fn lemma_emitted_joins_to_answer(frags: Seq<Result<String, Error>>, n: int)
    requires
        0 <= n <= frags.len(),
        script_ok(frags, n),
    ensures
        seq_join(script_emitted(frags, n)) == script_concat(frags, n),
    decreases n,
{
    if n > 0 {
        lemma_emitted_joins_to_answer(frags, n - 1);
        let rest = script_emitted(frags, n - 1);
        let chunk = frags[n - 1]->Ok_0@;
        if chunk.len() != 0 {
            assert(rest.push(chunk).drop_last() =~= rest);
            assert(rest.push(chunk).last() == chunk);
        } else {
            assert(script_concat(frags, n - 1) + chunk =~= script_concat(frags, n - 1));
        }
    } else {
        assert(seq_join(script_emitted(frags, n)) =~= Seq::<char>::empty());
    }
}

/// Append one write to the sink log.
fn push_sink(sink: &mut Vec<String>, text: String)
    ensures
        final(sink).deep_view() == old(sink).deep_view().push(text@),
{
    let ghost pre = sink@;
    let ghost pre_deep = sink.deep_view();
    let ghost tv = text@;
    sink.push(text);
    proof {
        assert forall|i: int|
            0 <= i < sink@.len() implies sink.deep_view()[i] == pre_deep.push(tv)[i] by {
            if i < pre.len() {
                assert(sink@[i] == pre[i]);
                assert(pre_deep[i] == pre[i].deep_view());
            }
        }
        assert(sink.deep_view() =~= pre_deep.push(tv));
    }
}

/// Run one whole streaming exchange over a scripted fragment sequence,
/// driving a collector over the results in arrival order. Returns the
/// outcome of the exchange together with the sink log: everything the live
/// sink was handed, in order.
///
/// With no error the outcome is the concatenation of all chunks and the sink
/// log is the non-empty chunks followed by one newline. On the first error
/// the exchange aborts at once: no later fragment is consumed, nothing after
/// the last emitted chunk reaches the sink, the partial answer is discarded,
/// and the error itself is the outcome, unchanged.
#[verifier::loop_isolation(false)]
pub fn collect_script(frags: Vec<Result<String, Error>>) -> (r: (
    Result<String, Error>,
    Vec<String>,
))
    ensures
        script_ok(frags@, frags@.len() as int) ==> {
            &&& r.0 is Ok
            &&& r.0->Ok_0@ == script_concat(frags@, frags@.len() as int)
            &&& r.1.deep_view() == script_emitted(frags@, frags@.len() as int).push("\n"@)
        },
        forall|k: int|
            (0 <= k < frags@.len() && script_ok(frags@, k) && frags@[k] is Err) ==> {
                &&& r.0 == Result::<String, Error>::Err(frags@[k]->Err_0)
                &&& r.1.deep_view() == script_emitted(frags@, k)
            },
{
    let ghost orig = frags@;
    let mut frags = frags;
    let mut collector = StreamCollector::new();
    let mut sink: Vec<String> = Vec::new();
    let ghost mut n: int = 0;
    proof {
        assert(frags@ =~= orig.skip(0));
        assert(sink.deep_view() =~= Seq::<Seq<char>>::empty());
    }
    while frags.len() > 0
        invariant
            0 <= n <= orig.len(),
            frags@ == orig.skip(n),
            script_ok(orig, n),
            collector@.phase is Receiving,
            collector@.acc == script_concat(orig, n),
            sink.deep_view() == script_emitted(orig, n),
        decreases frags@.len(),
    {
        proof {
            assert(frags@[0] == orig[n]);
        }
        let frag = frags.remove(0);
        match frag {
            Ok(text) => {
                let emit = collector.on_fragment(text.as_str());
                if emit {
                    push_sink(&mut sink, text);
                }
                proof {
                    assert(frags@ =~= orig.skip(n + 1));
                    assert(script_ok(orig, n + 1));
                    n = n + 1;
                }
            },
            Err(e) => {
                collector.on_error();
                proof {
                    assert(orig[n] is Err);
                    assert(!script_ok(orig, orig.len() as int)) by {
                        if script_ok(orig, orig.len() as int) {
                            assert(orig[n] is Ok);
                        }
                    }
                    assert forall|k: int|
                        (0 <= k < orig.len() && script_ok(orig, k) && orig[k] is Err) implies k
                        == n by {
                        if k < n {
                            assert(orig[k] is Ok);
                        } else if k > n {
                            assert(orig[n] is Ok);
                        }
                    }
                }
                return (Err(e), sink);
            },
        }
    }
    proof {
        assert(n == orig.len());
    }
    let answer = collector.finish();
    push_sink(&mut sink, String::from_str("\n"));
    (Ok(answer), sink)
}

} // verus!
