//! The mathematical model of the store: a sequence of optional ticket
//! records indexed by id, the effect of each operation on it, and the laws
//! that hold of every history of operations.

use vstd::prelude::*;

verus! {

/// What a ticket is, as plain mathematical values.
pub struct TicketView {
    pub id: nat,
    pub title: Seq<char>,
}

/// The slot collection: slot `i` is either empty or holds the ticket whose
/// id is `i`.
pub type Slots = Seq<Option<TicketView>>;

/// Every filled slot holds the ticket whose id is the slot's index.
pub open spec fn slots_wf(s: Slots) -> bool {
    forall|i: int| 0 <= i < s.len() ==> (#[trigger] s[i] matches Some(t) ==> t.id == i)
}

/// The ticket that a create with this title produces on `s`.
pub open spec fn next_ticket(s: Slots, title: Seq<char>) -> TicketView {
    TicketView { id: s.len(), title }
}

/// The slots after a create: one more slot, filled with the new ticket.
pub open spec fn after_create(s: Slots, title: Seq<char>) -> Slots {
    s.push(Some(next_ticket(s, title)))
}

/// Whether slot `id` exists and is filled.
pub open spec fn holds(s: Slots, id: nat) -> bool {
    id < s.len() && s[id as int] is Some
}

/// The slots after a delete of `id`: the slot is emptied if it was filled,
/// and nothing changes otherwise.
pub open spec fn after_delete(s: Slots, id: nat) -> Slots {
    if holds(s, id) {
        s.update(id as int, None)
    } else {
        s
    }
}

/// The tickets of the filled slots, in slot order.
pub open spec fn live(s: Slots) -> Seq<TicketView>
    decreases s.len(),
{
    if s.len() == 0 {
        Seq::empty()
    } else {
        match s.last() {
            Some(t) => live(s.drop_last()).push(t),
            None => live(s.drop_last()),
        }
    }
}

/// Ids ascend strictly along the sequence.
pub open spec fn ascending(tickets: Seq<TicketView>) -> bool {
    forall|i: int, j: int| 0 <= i < j < tickets.len() ==> tickets[i].id < tickets[j].id
}

/// `tickets` is what some well-formed store lists.
pub open spec fn is_listing(tickets: Seq<TicketView>) -> bool {
    exists|s: Slots| slots_wf(s) && tickets == #[trigger] live(s)
}

/// A listing holds exactly the tickets of the filled slots: a ticket is
/// listed if and only if the slot of its id holds it.
pub proof fn lemma_live_complete(s: Slots, t: TicketView)
    requires
        slots_wf(s),
    ensures
        live(s).contains(t) <==> (t.id < s.len() && s[t.id as int] == Some(t)),
    decreases s.len(),
{
    if s.len() > 0 {
        let rest = s.drop_last();
        lemma_live_complete(rest, t);
        match s.last() {
            Some(last) => {
                let listed = live(rest);
                assert(listed.push(last).last() == last);
                if listed.contains(t) {
                    let k = choose|k: int| 0 <= k < listed.len() && listed[k] == t;
                    assert(listed.push(last)[k] == t);
                }
                if live(s).contains(t) && t != last {
                    let k = choose|k: int| 0 <= k < live(s).len() && live(s)[k] == t;
                    assert(listed[k] == t);
                }
                if t == last {
                    assert(live(s)[listed.len() as int] == t);
                }
            },
            None => {},
        }
    }
}

/// Every listed ticket's id is below the number of slots.
pub proof fn lemma_live_bounded(s: Slots)
    requires
        slots_wf(s),
    ensures
        forall|k: int| 0 <= k < live(s).len() ==> (#[trigger] live(s)[k]).id < s.len(),
        live(s).len() <= s.len(),
    decreases s.len(),
{
    if s.len() > 0 {
        lemma_live_bounded(s.drop_last());
    }
}

/// A listing is in strictly ascending id order, so no id occurs twice.
pub proof fn lemma_live_ascending(s: Slots)
    requires
        slots_wf(s),
    ensures
        ascending(live(s)),
    decreases s.len(),
{
    if s.len() > 0 {
        lemma_live_ascending(s.drop_last());
        lemma_live_bounded(s.drop_last());
    }
}

} // verus!
