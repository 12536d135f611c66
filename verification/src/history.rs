//! Histories: sequences of operations applied to a store one after the
//! other, as exclusive access serialises them, and what holds of every
//! history.

use vstd::prelude::*;
use crate::slots::{
    after_create, after_delete, ascending, holds, lemma_live_ascending, lemma_live_complete, live,
    next_ticket, slots_wf, Slots, TicketView,
};

verus! {

/// One operation on the store.
pub enum Op {
    Create { title: Seq<char> },
    List,
    Delete { id: nat },
}

/// The slots after one operation.
pub open spec fn step(s: Slots, op: Op) -> Slots {
    match op {
        Op::Create { title } => after_create(s, title),
        Op::List => s,
        Op::Delete { id } => after_delete(s, id),
    }
}

/// The slots after a history, applied first to last.
pub open spec fn run(s: Slots, ops: Seq<Op>) -> Slots
    decreases ops.len(),
{
    if ops.len() == 0 {
        s
    } else {
        step(run(s, ops.drop_last()), ops.last())
    }
}

/// How many creates a history holds.
pub open spec fn creates(ops: Seq<Op>) -> nat
    decreases ops.len(),
{
    if ops.len() == 0 {
        0
    } else if ops.last() is Create {
        creates(ops.drop_last()) + 1
    } else {
        creates(ops.drop_last())
    }
}

/// The store that nothing has touched yet.
pub open spec fn empty_slots() -> Slots {
    Seq::empty()
}

/// Operation `c` of the history is a create, and `i` creates come before it.
pub open spec fn created_at(ops: Seq<Op>, c: int, i: nat) -> bool {
    0 <= c < ops.len() && ops[c] is Create && creates(ops.take(c)) == i
}

/// Some create of the history was given id `i`.
pub open spec fn given(ops: Seq<Op>, i: nat) -> bool {
    exists|c: int| #[trigger] created_at(ops, c, i)
}

/// Some operation after position `c` is a delete of id `i`.
pub open spec fn deleted_after(ops: Seq<Op>, c: int, i: nat) -> bool {
    exists|d: int| c < d < ops.len() && #[trigger] ops[d] == (Op::Delete { id: i })
}

/// Ticket `t` was created in the history, with its id and its title, and
/// not deleted afterwards.
pub open spec fn kept(ops: Seq<Op>, t: TicketView) -> bool {
    exists|c: int|
        #[trigger] created_at(ops, c, t.id) && ops[c] == (Op::Create { title: t.title })
            && !deleted_after(ops, c, t.id)
}

/// Slot `t.id` exists and holds ticket `t`.
pub open spec fn stored(s: Slots, t: TicketView) -> bool {
    t.id < s.len() && s[t.id as int] == Some(t)
}

/// Every operation keeps the store well formed.
pub proof fn lemma_step_wf(s: Slots, op: Op)
    requires
        slots_wf(s),
    ensures
        slots_wf(step(s, op)),
{
}

/// Every history keeps the store well formed.
pub proof fn lemma_run_wf(s: Slots, ops: Seq<Op>)
    requires
        slots_wf(s),
    ensures
        slots_wf(run(s, ops)),
    decreases ops.len(),
{
    if ops.len() > 0 {
        lemma_run_wf(s, ops.drop_last());
        lemma_step_wf(run(s, ops.drop_last()), ops.last());
    }
}

/// The store only grows: a history adds one slot for each create and
/// removes none.
pub proof fn lemma_run_len(s: Slots, ops: Seq<Op>)
    ensures
        run(s, ops).len() == s.len() + creates(ops),
    decreases ops.len(),
{
    if ops.len() > 0 {
        lemma_run_len(s, ops.drop_last());
    }
}

/// A longer prefix of a history holds at least as many creates.
pub proof fn lemma_creates_monotone(ops: Seq<Op>, a: int, b: int)
    requires
        0 <= a <= b <= ops.len(),
    ensures
        creates(ops.take(a)) <= creates(ops.take(b)),
        b == ops.len() ==> creates(ops.take(b)) == creates(ops),
        a < b && ops[a] is Create ==> creates(ops.take(a)) < creates(ops.take(b)),
    decreases b - a,
{
    if b == ops.len() {
        assert(ops.take(b) =~= ops);
    }
    if a < b {
        assert(ops.take(b).drop_last() =~= ops.take(b - 1));
        lemma_creates_monotone(ops, a, b - 1);
    }
}

/// Id assignment: starting from the empty store, a create is given the
/// number of creates before it as its id, whatever operations are
/// interleaved with them.
pub proof fn lemma_create_id(ops: Seq<Op>, c: int)
    requires
        0 <= c < ops.len(),
        ops[c] is Create,
    ensures
        next_ticket(run(empty_slots(), ops.take(c)), ops[c]->title).id == creates(ops.take(c)),
{
    lemma_run_len(empty_slots(), ops.take(c));
}

/// The ids that the creates of a history are given are exactly
/// `0, 1, ..., n - 1` for `n` creates, each given once: none is missing
/// and none is given twice.
pub proof fn lemma_create_ids_exact(ops: Seq<Op>)
    ensures
        forall|i: nat| #[trigger] given(ops, i) <==> i < creates(ops),
        forall|c1: int, c2: int, i: nat|
            #[trigger] created_at(ops, c1, i) && #[trigger] created_at(ops, c2, i) ==> c1 == c2,
    decreases ops.len(),
{
    assert forall|c1: int, c2: int, i: nat|
        #[trigger] created_at(ops, c1, i) && #[trigger] created_at(ops, c2, i) implies c1
        == c2 by {
        if c1 < c2 {
            lemma_creates_monotone(ops, c1, c2);
        }
        if c2 < c1 {
            lemma_creates_monotone(ops, c2, c1);
        }
    }
    assert forall|i: nat| #[trigger] given(ops, i) <==> i < creates(ops) by {
        if i < creates(ops) {
            lemma_create_present(ops, i);
        }
        if given(ops, i) {
            let c = choose|c: int| #[trigger] created_at(ops, c, i);
            lemma_creates_monotone(ops, c, ops.len() as int);
        }
    }
}

/// Each id below the number of creates was given to some create.
proof fn lemma_create_present(ops: Seq<Op>, i: nat)
    requires
        i < creates(ops),
    ensures
        given(ops, i),
    decreases ops.len(),
{
    let pre = ops.drop_last();
    if ops.last() is Create && creates(pre) == i {
        assert(ops.take(ops.len() - 1) =~= pre);
        assert(created_at(ops, ops.len() - 1, i));
    } else {
        lemma_create_present(pre, i);
        let c = choose|c: int| #[trigger] created_at(pre, c, i);
        assert(ops.take(c) =~= pre.take(c));
        assert(created_at(ops, c, i));
    }
}

/// A deleted ticket stays deleted: once `id` has been deleted, no later
/// history fills its slot again, so a second delete of `id` finds nothing.
pub proof fn lemma_delete_once(s: Slots, id: nat, ops: Seq<Op>)
    requires
        slots_wf(s),
        holds(s, id),
    ensures
        !holds(run(after_delete(s, id), ops), id),
{
    lemma_tombstone_stays(after_delete(s, id), id, ops);
}

/// An empty slot stays empty through every history.
pub proof fn lemma_tombstone_stays(s: Slots, id: nat, ops: Seq<Op>)
    requires
        id < s.len(),
        s[id as int] is None,
    ensures
        id < run(s, ops).len(),
        run(s, ops)[id as int] is None,
    decreases ops.len(),
{
    if ops.len() > 0 {
        lemma_tombstone_stays(s, id, ops.drop_last());
    }
}

/// A delete of an id at or beyond the number of slots finds nothing and
/// changes nothing.
pub proof fn lemma_delete_unknown(s: Slots, id: nat)
    requires
        id >= s.len(),
    ensures
        !holds(s, id),
        after_delete(s, id) == s,
{
}

/// Ids are never reused: once the store has a slot for `k`, filled or
/// emptied, every create of every later history is given an id above `k`.
pub proof fn lemma_id_never_reused(s: Slots, k: nat, ops: Seq<Op>, c: int)
    requires
        k < s.len(),
        0 <= c < ops.len(),
        ops[c] is Create,
    ensures
        next_ticket(run(s, ops.take(c)), ops[c]->title).id > k,
{
    lemma_run_len(s, ops.take(c));
}

/// What a store holds after a history from empty: a slot holds ticket `t`
/// if and only if `t` was created and not deleted afterwards.
pub proof fn lemma_stored_iff_kept(ops: Seq<Op>, t: TicketView)
    ensures
        stored(run(empty_slots(), ops), t) <==> kept(ops, t),
    decreases ops.len(),
{
    let i = t.id;
    if ops.len() == 0 {
        if kept(ops, t) {
            let c = choose|c: int|
                #[trigger] created_at(ops, c, i) && ops[c] == (Op::Create { title: t.title })
                    && !deleted_after(ops, c, i);
        }
    } else {
        let pre = ops.drop_last();
        let last = ops.last();
        let n = pre.len() as int;
        lemma_stored_iff_kept(pre, t);
        lemma_run_len(empty_slots(), pre);
        lemma_run_wf(empty_slots(), pre);
        assert(ops.take(n) =~= pre);
        if kept(pre, t) && last != (Op::Delete { id: i }) {
            let c = choose|c: int|
                #[trigger] created_at(pre, c, i) && pre[c] == (Op::Create { title: t.title })
                    && !deleted_after(pre, c, i);
            assert(ops.take(c) =~= pre.take(c));
            assert(created_at(ops, c, i));
            if deleted_after(ops, c, i) {
                let d = choose|d: int| c < d < ops.len() && #[trigger] ops[d] == (Op::Delete {
                    id: i,
                });
                assert(pre[d] == ops[d]);
            }
            assert(kept(ops, t));
        }
        if last == (Op::Create { title: t.title }) && creates(pre) == i {
            assert(created_at(ops, n, i));
            assert(kept(ops, t));
        }
        if kept(ops, t) {
            let c = choose|c: int|
                #[trigger] created_at(ops, c, i) && ops[c] == (Op::Create { title: t.title })
                    && !deleted_after(ops, c, i);
            if c < n {
                assert(ops.take(c) =~= pre.take(c));
                assert(created_at(pre, c, i));
                if deleted_after(pre, c, i) {
                    let d = choose|d: int| c < d < pre.len() && #[trigger] pre[d] == (Op::Delete {
                        id: i,
                    });
                    assert(ops[d] == pre[d]);
                }
                assert(kept(pre, t));
                assert(ops[n] == last);
                assert(last != (Op::Delete { id: i }));
            }
        }
    }
}

/// List completeness: after any history from empty, the listing holds
/// exactly the tickets that were created and not deleted afterwards, in
/// strictly ascending id order.
pub proof fn lemma_list_complete(ops: Seq<Op>)
    ensures
        forall|t: TicketView| #[trigger]
            live(run(empty_slots(), ops)).contains(t) <==> kept(ops, t),
        ascending(live(run(empty_slots(), ops))),
{
    let s = run(empty_slots(), ops);
    lemma_run_wf(empty_slots(), ops);
    lemma_live_ascending(s);
    assert forall|t: TicketView| #[trigger] live(s).contains(t) <==> kept(ops, t) by {
        lemma_live_complete(s, t);
        lemma_stored_iff_kept(ops, t);
    }
}

} // verus!
