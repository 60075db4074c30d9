//! The producer side of the batch exchange protocol.
//!
//! The worker pulls items from the execution stream one at a time and, for
//! each, decides what to hand to the caller through the two rendezvous
//! channels. Empty batches are skipped, every other batch is exported in
//! stream order, and exactly one terminal signal (error or end of stream)
//! closes the exchange.
use vstd::prelude::*;

verus! {

/// What one pull from the execution stream produced.
#[derive(Clone, Copy, Debug, PartialEq, Eq, Structural)]
pub enum Pulled {
    /// A batch with the given number of rows.
    Rows(usize),
    /// The stream reported an error.
    Failed,
    /// The stream has no more items.
    Exhausted,
}

/// What the producer does with one pulled item.
#[derive(Clone, Copy, Debug, PartialEq, Eq, Structural)]
pub enum Action {
    /// An empty batch: nothing is exchanged.
    Skip,
    /// Wait for the caller's "ready", export the batch that stood at
    /// `position` in the stream, then signal "batch available".
    Export { position: usize },
    /// Send one error signal on the output channel; nothing follows.
    ReportError,
    /// Drain one "ready" from the input channel, then signal end of stream;
    /// nothing follows.
    EndOfStream,
}

pub open spec fn is_terminal(a: Action) -> bool {
    a is ReportError || a is EndOfStream
}

/// The action taken for item `p`, pulled at `position` in the stream.
pub open spec fn action_for(position: int, p: Pulled) -> Action {
    match p {
        Pulled::Rows(n) => if n == 0 {
            Action::Skip
        } else {
            Action::Export { position: position as usize }
        },
        Pulled::Failed => Action::ReportError,
        Pulled::Exhausted => Action::EndOfStream,
    }
}

/// The actions taken for `items`, the first pulled at `position`: the
/// producer stops after the first terminal action.
pub open spec fn run(position: int, items: Seq<Pulled>) -> Seq<Action>
    decreases items.len(),
{
    if items.len() == 0 {
        seq![]
    } else {
        let a = action_for(position, items[0]);
        if is_terminal(a) {
            seq![a]
        } else {
            seq![a] + run(position + 1, items.drop_first())
        }
    }
}

/// What the caller observes of `actions`: every action but `Skip`.
pub open spec fn observed(actions: Seq<Action>) -> Seq<Action>
    decreases actions.len(),
{
    if actions.len() == 0 {
        seq![]
    } else if actions[0] is Skip {
        observed(actions.drop_first())
    } else {
        seq![actions[0]] + observed(actions.drop_first())
    }
}

/// The items of a stream that yields batches of `rows` rows each.
pub open spec fn batches(rows: Seq<usize>) -> Seq<Pulled> {
    Seq::new(rows.len(), |i: int| Pulled::Rows(rows[i]))
}

/// The exports owed for batches of `rows` rows, the first at `position`:
/// one per non-empty batch, in stream order.
pub open spec fn exports(position: int, rows: Seq<usize>) -> Seq<Action>
    decreases rows.len(),
{
    if rows.len() == 0 {
        seq![]
    } else if rows[0] == 0 {
        exports(position + 1, rows.drop_first())
    } else {
        seq![Action::Export { position: position as usize }] + exports(
            position + 1,
            rows.drop_first(),
        )
    }
}

/// Whatever ends a stream of batches of `rows` rows each (an error, or the
/// end of the stream), the caller observes one export per non-empty batch,
/// in stream order, then that one terminal signal, and nothing of the items
/// pulled after it.
pub proof fn lemma_exports_then_terminal(
    position: int,
    rows: Seq<usize>,
    last: Pulled,
    rest: Seq<Pulled>,
)
    requires
        last is Failed || last is Exhausted,
    ensures
        observed(run(position, batches(rows).push(last) + rest)) == exports(position, rows).push(
            action_for(position + rows.len(), last),
        ),
    decreases rows.len(),
{
    let items = batches(rows).push(last) + rest;
    if rows.len() == 0 {
        assert(items[0] == last);
        assert(observed(seq![action_for(position, last)].drop_first()) == Seq::<Action>::empty());
    } else {
        let tail = rows.drop_first();
        assert(items.drop_first() =~= batches(tail).push(last) + rest);
        lemma_exports_then_terminal(position + 1, tail, last, rest);
        let a = action_for(position, items[0]);
        assert(items[0] == Pulled::Rows(rows[0]));
        assert((seq![a] + run(position + 1, items.drop_first())).drop_first() =~= run(
            position + 1,
            items.drop_first(),
        ));
        if rows[0] != 0 {
            assert(exports(position, rows) == seq![a] + exports(position + 1, tail));
            assert((seq![a] + exports(position + 1, tail)).push(action_for(position + rows.len(), last))
                =~= seq![a] + exports(position + 1, tail).push(action_for(position + rows.len(), last)));
        }
    }
}

/// For a stream of batches of `rows` rows each that then ends, the caller
/// observes exactly the non-empty batches, in order, each once, followed by
/// exactly one end-of-stream signal.
pub proof fn lemma_delivers_all_in_order(rows: Seq<usize>)
    ensures
        observed(run(0, batches(rows).push(Pulled::Exhausted))) == exports(0, rows).push(
            Action::EndOfStream,
        ),
{
    lemma_exports_then_terminal(0, rows, Pulled::Exhausted, seq![]);
    assert(batches(rows).push(Pulled::Exhausted) + seq![] =~= batches(rows).push(Pulled::Exhausted));
}

/// Every export owed for `rows` names a batch of the stream that has at
/// least one row, and the exports name strictly increasing positions.
pub proof fn lemma_exports_are_nonempty(position: int, rows: Seq<usize>)
    requires
        0 <= position,
        position + rows.len() <= usize::MAX,
    ensures
        forall|i: int|
            #![trigger exports(position, rows)[i]]
            0 <= i < exports(position, rows).len() ==> {
                let e = exports(position, rows)[i];
                &&& e is Export
                &&& position <= e->position < position + rows.len()
                &&& rows[e->position - position] > 0
            },
        forall|i: int, j: int|
            0 <= i < j < exports(position, rows).len() ==> exports(position, rows)[i]->position
                < exports(position, rows)[j]->position,
    decreases rows.len(),
{
    if rows.len() > 0 {
        let tail = rows.drop_first();
        lemma_exports_are_nonempty(position + 1, tail);
        let e = exports(position, rows);
        let t = exports(position + 1, tail);
        if rows[0] != 0 {
            assert forall|i: int| 0 < i < e.len() implies e[i] == t[i - 1] by {}
        }
        assert forall|i: int| 0 <= i < e.len() implies {
            &&& e[i] is Export
            &&& position <= e[i]->position < position + rows.len()
            &&& rows[e[i]->position - position] > 0
        } by {
            if rows[0] != 0 && i > 0 {
                assert(e[i] == t[i - 1]);
                assert(rows[e[i]->position - position] == tail[e[i]->position - position - 1]);
            } else if rows[0] == 0 {
                assert(rows[e[i]->position - position] == tail[e[i]->position - position - 1]);
            }
        }
    }
}

/// How many "ready" handshakes the caller makes on the input channel for
/// `actions`: one per export and one final drain before end of stream.
pub open spec fn input_handshakes(actions: Seq<Action>) -> nat
    decreases actions.len(),
{
    if actions.len() == 0 {
        0
    } else {
        (if actions[0] is Export || actions[0] is EndOfStream {
            1nat
        } else {
            0nat
        }) + input_handshakes(actions.drop_first())
    }
}

/// How many "batch available" signals the output channel carries for
/// `actions`.
pub open spec fn batch_signals(actions: Seq<Action>) -> nat
    decreases actions.len(),
{
    if actions.len() == 0 {
        0
    } else {
        (if actions[0] is Export {
            1nat
        } else {
            0nat
        }) + batch_signals(actions.drop_first())
    }
}

/// How many of `rows` are non-empty.
pub open spec fn nonempty_count(rows: Seq<usize>) -> nat
    decreases rows.len(),
{
    if rows.len() == 0 {
        0
    } else {
        (if rows[0] > 0 {
            1nat
        } else {
            0nat
        }) + nonempty_count(rows.drop_first())
    }
}

/// For a stream of batches that then ends, the output channel carries one
/// "batch available" signal per non-empty batch, and the caller's input
/// channel one "ready" more than that.
pub proof fn lemma_handshake_counts(position: int, rows: Seq<usize>)
    ensures
        batch_signals(exports(position, rows).push(Action::EndOfStream)) == nonempty_count(rows),
        input_handshakes(exports(position, rows).push(Action::EndOfStream)) == nonempty_count(rows)
            + 1,
    decreases rows.len(),
{
    let end = Action::EndOfStream;
    if rows.len() == 0 {
        let u = exports(position, rows).push(end);
        assert(u =~= seq![end]);
        assert(u[0] == end);
        assert(u.drop_first() =~= Seq::<Action>::empty());
        assert(batch_signals(u.drop_first()) == 0);
        assert(input_handshakes(u.drop_first()) == 0);
    } else {
        let tail = rows.drop_first();
        lemma_handshake_counts(position + 1, tail);
        let t = exports(position + 1, tail).push(end);
        assert(nonempty_count(rows) == (if rows[0] > 0 { 1nat } else { 0nat }) + nonempty_count(tail));
        if rows[0] != 0 {
            let e = Action::Export { position: position as usize };
            let u = exports(position, rows).push(end);
            assert(exports(position, rows) == seq![e] + exports(position + 1, tail));
            assert(u =~= seq![e] + t);
            assert(u[0] == e);
            assert(u.drop_first() =~= t);
        }
    }
}

/// Pulling one more item after items that all went on (none ended the
/// exchange) adds exactly that item's action.
pub proof fn lemma_run_push(position: int, items: Seq<Pulled>, p: Pulled)
    requires
        forall|i: int| 0 <= i < items.len() ==> !is_terminal(action_for(position + i, items[i])),
    ensures
        run(position, items.push(p)) == run(position, items).push(
            action_for(position + items.len(), p),
        ),
    decreases items.len(),
{
    if items.len() > 0 {
        let tail = items.drop_first();
        assert forall|i: int| 0 <= i < tail.len() implies !is_terminal(
            action_for(position + 1 + i, tail[i]),
        ) by {
            assert(tail[i] == items[i + 1]);
        }
        lemma_run_push(position + 1, tail, p);
        assert(items.push(p).drop_first() =~= tail.push(p));
        assert(items.push(p)[0] == items[0]);
        assert(!is_terminal(action_for(position + 0, items[0])));
        let a = action_for(position, items[0]);
        let b = action_for(position + items.len(), p);
        assert(position + 1 + tail.len() == position + items.len());
        assert(seq![a] + run(position + 1, tail).push(b) =~= (seq![a] + run(position + 1, tail)).push(b));
    } else {
        let a = action_for(position, p);
        assert(items.push(p) =~= seq![p]);
        assert(seq![p].drop_first() =~= Seq::<Pulled>::empty());
        assert(seq![a] + Seq::<Action>::empty() =~= seq![a]);
        assert(Seq::<Action>::empty().push(a) =~= seq![a]);
        assert(seq![p][0] == p);
        assert(run(position + 1, seq![p].drop_first()) == Seq::<Action>::empty());
    }
}

/// The producer state of one exchange.
pub struct BatchExchange {
    pulled: usize,
    terminated: bool,
    history: Ghost<Seq<Pulled>>,
    actions: Ghost<Seq<Action>>,
}

impl BatchExchange {
    /// How many items have been pulled from the stream.
    pub closed spec fn pulled(&self) -> nat {
        self.pulled as nat
    }

    /// Whether the terminal signal has been sent.
    pub closed spec fn terminated(&self) -> bool {
        self.terminated
    }

    /// The items pulled so far, in order.
    pub closed spec fn history(&self) -> Seq<Pulled> {
        self.history@
    }

    /// The actions taken so far, in order.
    pub closed spec fn actions(&self) -> Seq<Action> {
        self.actions@
    }

    pub closed spec fn wf(&self) -> bool {
        let h = self.history@;
        &&& self.pulled == h.len()
        &&& self.actions@ == run(0, h)
        &&& forall|i: int| 0 <= i < h.len() - 1 ==> !is_terminal(action_for(i, h[i]))
        &&& self.terminated == (h.len() > 0 && is_terminal(action_for(h.len() - 1, h[h.len() - 1])))
    }

    pub fn new() -> (r: BatchExchange)
        ensures
            r.wf(),
            r.pulled() == 0,
            !r.terminated(),
            r.history() == Seq::<Pulled>::empty(),
            r.actions() == Seq::<Action>::empty(),
    {
        BatchExchange {
            pulled: 0,
            terminated: false,
            history: Ghost(Seq::empty()),
            actions: Ghost(Seq::empty()),
        }
    }

    pub fn is_terminated(&self) -> (r: bool)
        ensures
            r == self.terminated(),
    {
        self.terminated
    }

    /// Decides what to do with the next item pulled from the stream.
    pub fn on_pulled(&mut self, p: Pulled) -> (a: Action)
        requires
            old(self).wf(),
            !old(self).terminated(),
            old(self).pulled() < usize::MAX,
        ensures
            final(self).wf(),
            final(self).history() == old(self).history().push(p),
            final(self).actions() == old(self).actions().push(a),
            final(self).actions() == run(0, final(self).history()),
            a == action_for(old(self).pulled() as int, p),
            final(self).pulled() == old(self).pulled() + 1,
            final(self).terminated() == is_terminal(a),
    {
        let a = match p {
            Pulled::Rows(n) => if n == 0 {
                Action::Skip
            } else {
                Action::Export { position: self.pulled }
            },
            Pulled::Failed => Action::ReportError,
            Pulled::Exhausted => Action::EndOfStream,
        };
        proof {
            let h = self.history@;
            assert forall|i: int| 0 <= i < h.len() implies !is_terminal(action_for(0 + i, h[i])) by {
                if i == h.len() - 1 {
                    assert(!self.terminated);
                }
            }
            lemma_run_push(0, h, p);
        }
        self.pulled = self.pulled + 1;
        self.terminated = matches!(a, Action::ReportError | Action::EndOfStream);
        self.history = Ghost(self.history@.push(p));
        self.actions = Ghost(self.actions@.push(a));
        a
    }
}

} // verus!
