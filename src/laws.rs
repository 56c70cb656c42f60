//! Laws of the queue, stated over the spec functions that the methods'
//! contracts use (`add_spec`, `pop_result`, `pop_rest`).
use crate::queue::{add_spec, pop_rest, pop_result, CommentView};
use vstd::prelude::*;

verus! {

/// The queue after adding each comment of `cs`, in order, to `q`.
pub open spec fn adds(q: Seq<CommentView>, cs: Seq<CommentView>) -> Seq<CommentView>
    decreases cs.len(),
{
    if cs.len() == 0 {
        q
    } else {
        adds(add_spec(q, cs[0]), cs.drop_first())
    }
}

/// What `k` pops in a row on `q` hand out.
pub open spec fn pops(q: Seq<CommentView>, k: nat) -> Seq<Option<Seq<char>>>
    decreases k,
{
    if k == 0 {
        Seq::empty()
    } else {
        seq![pop_result(q)] + pops(pop_rest(q), (k - 1) as nat)
    }
}

/// The queue left after `k` pops in a row on `q`.
pub open spec fn after_pops(q: Seq<CommentView>, k: nat) -> Seq<CommentView>
    decreases k,
{
    if k == 0 {
        q
    } else {
        after_pops(pop_rest(q), (k - 1) as nat)
    }
}

/// The texts of a sequence of comments, in order.
pub open spec fn texts(q: Seq<CommentView>) -> Seq<Seq<char>> {
    q.map_values(|c: CommentView| c.text)
}

/// One call on a queue: an add of a comment, or a pop.
pub enum QueueOp {
    Add(CommentView),
    Pop,
}

/// The comments that the adds of `ops` bring, in order.
pub open spec fn added(ops: Seq<QueueOp>) -> Seq<CommentView>
    decreases ops.len(),
{
    if ops.len() == 0 {
        Seq::empty()
    } else {
        match ops[0] {
            QueueOp::Add(c) => seq![c] + added(ops.drop_first()),
            QueueOp::Pop => added(ops.drop_first()),
        }
    }
}

/// Runs `ops` on `q`: the final queue, and the texts that the pops handed out.
pub open spec fn run(q: Seq<CommentView>, ops: Seq<QueueOp>) -> (Seq<CommentView>, Seq<Seq<char>>)
    decreases ops.len(),
{
    if ops.len() == 0 {
        (q, Seq::empty())
    } else {
        match ops[0] {
            QueueOp::Add(c) => run(add_spec(q, c), ops.drop_first()),
            QueueOp::Pop => {
                let (fin, out) = run(pop_rest(q), ops.drop_first());
                match pop_result(q) {
                    Some(t) => (fin, seq![t] + out),
                    None => (fin, out),
                }
            },
        }
    }
}

/// Adding comments one by one appends them, in order, at the tail.
pub proof fn lemma_adds_append(q: Seq<CommentView>, cs: Seq<CommentView>)
    ensures
        adds(q, cs) == q + cs,
    decreases cs.len(),
{
    if cs.len() > 0 {
        lemma_adds_append(add_spec(q, cs[0]), cs.drop_first());
        assert(q.push(cs[0]) + cs.drop_first() =~= q + cs);
    }
}

/// The first `k` pops of a queue hand out the texts of its first `k` comments.
pub proof fn lemma_pops_prefix(q: Seq<CommentView>, k: nat)
    requires
        k <= q.len(),
    ensures
        pops(q, k) == q.take(k as int).map_values(|c: CommentView| Some(c.text)),
        after_pops(q, k) == q.skip(k as int),
    decreases k,
{
    if k == 0 {
        assert(q.take(0).map_values(|c: CommentView| Some(c.text)) =~= Seq::empty());
        assert(q.skip(0) =~= q);
    } else {
        lemma_pops_prefix(q.drop_first(), (k - 1) as nat);
        assert(q.take(k as int).map_values(|c: CommentView| Some(c.text)) =~= seq![Some(q[0].text)]
            + q.drop_first().take(k - 1).map_values(|c: CommentView| Some(c.text)));
        assert(q.drop_first().skip(k - 1) =~= q.skip(k as int));
    }
}

/// Adding `n` comments to a fresh queue and then popping `n` times yields
/// their texts, in the order in which they were added.
pub proof fn lemma_fifo_drain(cs: Seq<CommentView>)
    ensures
        pops(adds(Seq::empty(), cs), cs.len()) == cs.map_values(|c: CommentView| Some(c.text)),
{
    lemma_adds_append(Seq::empty(), cs);
    assert(Seq::<CommentView>::empty() + cs =~= cs);
    lemma_pops_prefix(cs, cs.len());
    assert(cs.take(cs.len() as int) =~= cs);
}

/// A pop on a fresh queue hands out nothing and leaves the queue empty.
pub proof fn lemma_fresh_pop_none()
    ensures
        pop_result(Seq::<CommentView>::empty()) == None::<Seq<char>>,
        pop_rest(Seq::<CommentView>::empty()) == Seq::<CommentView>::empty(),
{
}

/// Once a queue is drained, every further pop hands out nothing and leaves
/// it empty.
pub proof fn lemma_drained_stays_empty(q: Seq<CommentView>, extra: nat)
    ensures
        after_pops(q, q.len()) == Seq::<CommentView>::empty(),
        pops(after_pops(q, q.len()), extra) == Seq::new(extra, |i: int| None::<Seq<char>>),
    decreases extra,
{
    lemma_pops_prefix(q, q.len());
    assert(q.skip(q.len() as int) =~= Seq::<CommentView>::empty());
    if extra > 0 {
        lemma_drained_stays_empty(q, (extra - 1) as nat);
        assert(seq![None::<Seq<char>>] + Seq::new((extra - 1) as nat, |i: int| None::<Seq<char>>)
            =~= Seq::new(extra, |i: int| None::<Seq<char>>));
    } else {
        assert(pops(after_pops(q, q.len()), 0) =~= Seq::new(0, |i: int| None::<Seq<char>>));
    }
}

/// Under any interleaving of adds and pops, the texts handed out followed by
/// the texts still queued are the texts that went in, in arrival order: the
/// pops hand out the added texts in the order they were added.
pub proof fn lemma_interleaved_fifo(q: Seq<CommentView>, ops: Seq<QueueOp>)
    ensures
        run(q, ops).1 + texts(run(q, ops).0) == texts(q + added(ops)),
    decreases ops.len(),
{
    if ops.len() == 0 {
        assert(q + added(ops) =~= q);
        assert(Seq::<Seq<char>>::empty() + texts(q) =~= texts(q));
    } else {
        let rest = ops.drop_first();
        match ops[0] {
            QueueOp::Add(c) => {
                lemma_interleaved_fifo(q.push(c), rest);
                assert(q.push(c) + added(rest) =~= q + added(ops));
            },
            QueueOp::Pop => {
                lemma_interleaved_fifo(pop_rest(q), rest);
                let (fin, out) = run(pop_rest(q), rest);
                if q.len() == 0 {
                } else {
                    assert(q + added(rest) =~= seq![q[0]] + (q.drop_first() + added(rest)));
                    assert(texts(q + added(rest)) =~= seq![q[0].text] + texts(
                        q.drop_first() + added(rest),
                    ));
                    assert(seq![q[0].text] + out + texts(fin) =~= seq![q[0].text] + (out + texts(
                        fin,
                    )));
                }
            },
        }
    }
}

} // verus!
