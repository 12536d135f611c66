//! Tickets and the store that owns them.

use vstd::prelude::*;
use crate::error::Error;
use crate::lock::{acquire, guarded, share, store_mut, store_ref};
use crate::slots::{
    after_create, after_delete, ascending, holds, is_listing, live, next_ticket, slots_wf,
    lemma_live_ascending, Slots, TicketView,
};
use std::sync::{Arc, Mutex};

verus! {

/// A created record. The store assigns `id`; `title` is the creator's text.
#[derive(Debug)]
pub struct Ticket {
    pub id: u64,
    pub title: String,
}

impl View for Ticket {
    type V = TicketView;

    open spec fn view(&self) -> TicketView {
        TicketView { id: self.id as nat, title: self.title@ }
    }
}

impl Clone for Ticket {
    fn clone(&self) -> (copy: Self)
        ensures
            copy@ == self@,
    {
        Ticket { id: self.id, title: self.title.clone() }
    }
}

/// What a creator supplies: the title, and nothing else.
pub struct TicketForCreate {
    pub title: String,
}

/// The view of one slot.
pub open spec fn slot_view(slot: Option<Ticket>) -> Option<TicketView> {
    match slot {
        Some(t) => Some(t@),
        None => None,
    }
}

/// The view of a sequence of slots.
pub open spec fn slots_view(slots: Seq<Option<Ticket>>) -> Slots {
    slots.map_values(|slot: Option<Ticket>| slot_view(slot))
}

/// The view of a vector of tickets.
pub open spec fn tickets_view(tickets: Seq<Ticket>) -> Seq<TicketView> {
    tickets.map_values(|t: Ticket| t@)
}

/// The slot collection: an append-only sequence of optional tickets in
/// which a ticket's id is the index of its slot.
pub struct TicketStore {
    slots: Vec<Option<Ticket>>,
}

impl View for TicketStore {
    type V = Slots;

    closed spec fn view(&self) -> Slots {
        slots_view(self.slots@)
    }
}

impl TicketStore {
    #[verifier::type_invariant]
    spec fn inv(self) -> bool {
        slots_wf(self@)
    }

    /// An empty store.
    pub fn new() -> (store: Self)
        ensures
            store@ == Seq::<Option<TicketView>>::empty(),
    {
        let store = TicketStore { slots: Vec::new() };
        assert(store@ =~= Seq::<Option<TicketView>>::empty());
        store
    }

    /// Appends a ticket with the given title. Its id is the number of slots
    /// before the call.
    pub fn create(&mut self, ticket_fc: TicketForCreate) -> (ticket: Ticket)
        ensures
            slots_wf(old(self)@),
            slots_wf(final(self)@),
            final(self)@ == after_create(old(self)@, ticket_fc.title@),
            ticket@ == next_ticket(old(self)@, ticket_fc.title@),
    {
        proof {
            use_type_invariant(&*self);
        }
        let id = self.slots.len() as u64;
        let ticket = Ticket { id, title: ticket_fc.title };
        let slot = Some(ticket.clone());
        let mut slots: Vec<Option<Ticket>> = Vec::new();
        std::mem::swap(&mut slots, &mut self.slots);
        slots.push(slot);
        proof {
            assert(slots_view(slots@) =~= after_create(old(self)@, ticket_fc.title@));
        }
        self.slots = slots;
        ticket
    }

    /// The number of slots, filled or empty: the id that the next create
    /// assigns.
    pub fn len(&self) -> (n: usize)
        ensures
            slots_wf(self@),
            n == self@.len(),
    {
        proof {
            use_type_invariant(self);
        }
        self.slots.len()
    }

    /// The tickets of all filled slots, in ascending id order, as
    /// independent copies.
    pub fn list(&self) -> (tickets: Vec<Ticket>)
        ensures
            slots_wf(self@),
            tickets_view(tickets@) == live(self@),
    {
        proof {
            use_type_invariant(self);
        }
        let mut tickets: Vec<Ticket> = Vec::new();
        let mut i: usize = 0;
        assert(self.slots@.take(0) =~= Seq::<Option<Ticket>>::empty());
        assert(tickets_view(tickets@) =~= live(slots_view(self.slots@.take(0))));
        while i < self.slots.len()
            invariant
                i <= self.slots.len(),
                tickets_view(tickets@) == live(slots_view(self.slots@.take(i as int))),
            decreases self.slots.len() - i,
        {
            let ghost before = slots_view(self.slots@.take(i as int));
            let ghost upto = slots_view(self.slots@.take(i + 1));
            proof {
                assert(upto.drop_last() =~= before);
                assert(upto.last() == slot_view(self.slots@[i as int]));
            }
            match &self.slots[i] {
                Some(t) => {
                    let copy = t.clone();
                    let ghost listed = tickets_view(tickets@);
                    tickets.push(copy);
                    assert(tickets_view(tickets@) =~= listed.push(t@));
                },
                None => {},
            }
            i += 1;
        }
        assert(self.slots@.take(i as int) =~= self.slots@);
        tickets
    }

    /// Empties slot `id` and returns the ticket it held. Fails, and changes
    /// nothing, when the slot does not exist or is already empty.
    pub fn delete(&mut self, id: u64) -> (r: Result<Ticket, Error>)
        ensures
            slots_wf(old(self)@),
            slots_wf(final(self)@),
            final(self)@ == after_delete(old(self)@, id as nat),
            match r {
                Ok(ticket) => holds(old(self)@, id as nat) && old(self)@[id as int] == Some(ticket@),
                Err(e) => !holds(old(self)@, id as nat) && e == (Error::TicketDeleteFailIdNotFound {
                    id,
                }),
            },
    {
        proof {
            use_type_invariant(&*self);
        }
        if id >= self.slots.len() as u64 {
            return Err(Error::TicketDeleteFailIdNotFound { id });
        }
        let index = id as usize;
        let mut slots: Vec<Option<Ticket>> = Vec::new();
        std::mem::swap(&mut slots, &mut self.slots);
        let taken = slots[index].take();
        proof {
            assert(slots_view(slots@) =~= after_delete(old(self)@, id as nat));
        }
        self.slots = slots;
        match taken {
            Some(ticket) => Ok(ticket),
            None => Err(Error::TicketDeleteFailIdNotFound { id }),
        }
    }
}

/// A handle on one shared store. Copies of a handle refer to the same
/// store; each operation holds the store exclusively for its own duration
/// and no longer.
///
/// What a call finds in the store depends on the calls that held it
/// before, through this handle or a copy of it, so the contracts below say
/// what holds of every outcome. What an operation does to a given store is
/// stated exactly on [`TicketStore`].
pub struct ModelController {
    tickets_store: Arc<Mutex<TicketStore>>,
}

impl Clone for ModelController {
    /// Another handle on the same store.
    fn clone(&self) -> (copy: Self)
        ensures
            copy == *self,
    {
        ModelController { tickets_store: share(&self.tickets_store) }
    }
}

impl ModelController {
    /// A handle on a fresh, empty store. Always succeeds.
    ///
    /// The store put behind the lock is `TicketStore::new()`, whose own
    /// contract says that it is empty. The lock is opaque and every call
    /// makes a lock of its own, so this contract promises success and no
    /// more.
    pub fn new() -> (r: Result<Self, Error>)
        ensures
            r is Ok,
    {
        Ok(ModelController { tickets_store: Arc::new(guarded(TicketStore::new())) })
    }

    /// Creates a ticket in the shared store, as [`TicketStore::create`]
    /// does. Always succeeds. The id is the number of slots the store had
    /// when this call held it, which no caller can know beforehand.
    pub fn create_ticket(&self, ticket_fc: TicketForCreate) -> (r: Result<Ticket, Error>)
        ensures
            r matches Ok(ticket) && ticket@.title == ticket_fc.title@,
    {
        let mut guard = acquire(&*self.tickets_store);
        let store = store_mut(&mut guard);
        let ticket = store.create(ticket_fc);
        Ok(ticket)
    }

    /// Lists the tickets that the shared store held when this call held it,
    /// as [`TicketStore::list`] does. Always succeeds; the result is the
    /// listing of a well-formed store, so its ids ascend strictly.
    pub fn list_tickets(&self) -> (r: Result<Vec<Ticket>, Error>)
        ensures
            r matches Ok(tickets) && is_listing(tickets_view(tickets@)) && ascending(
                tickets_view(tickets@),
            ),
    {
        let guard = acquire(&*self.tickets_store);
        let store = store_ref(&guard);
        let tickets = store.list();
        proof {
            lemma_live_ascending(store@);
        }
        Ok(tickets)
    }

    /// Deletes ticket `id` from the shared store, as
    /// [`TicketStore::delete`] does. What comes back is either the ticket
    /// with that id, or the error that names that id.
    pub fn delete_ticket(&self, id: u64) -> (r: Result<Ticket, Error>)
        ensures
            match r {
                Ok(ticket) => ticket.id == id,
                Err(e) => e == (Error::TicketDeleteFailIdNotFound { id }),
            },
    {
        let mut guard = acquire(&*self.tickets_store);
        let store = store_mut(&mut guard);
        store.delete(id)
    }
}

} // verus!
