//! A simple ticket model over an in-memory store.

use crate::web::ctx::Ctx;
use crate::web::error::Error;
use vstd::pervasive::VecAdditionalExecFns;
use vstd::prelude::*;

verus! {

/// A ticket owned by a user.
#[derive(Debug, PartialEq)]
pub struct Ticket {
    pub id: u64,
    pub cid: u64,
    pub title: String,
}

impl Clone for Ticket {
    /// Clones preserve the ticket's value exactly.
    fn clone(&self) -> (r: Self)
        ensures
            r == *self,
    {
        Ticket { id: self.id, cid: self.cid, title: self.title.clone() }
    }
}

/// What a caller supplies to create a ticket.
#[derive(Debug)]
pub struct TicketForCreate {
    pub title: String,
}

/// The tickets still present in a store, in order: deleted slots are
/// skipped.
pub open spec fn present_tickets(store: Seq<Option<Ticket>>) -> Seq<Ticket>
    decreases store.len(),
{
    if store.len() == 0 {
        Seq::empty()
    } else {
        let rest = present_tickets(store.drop_last());
        match store.last() {
            Some(ticket) => rest.push(ticket),
            None => rest,
        }
    }
}

/// The model layer over an in-memory ticket store. A ticket's id is its
/// slot index; deleting leaves an empty slot so later ids stay stable.
#[derive(Debug)]
pub struct ModelController {
    tickets_store: Vec<Option<Ticket>>,
}

impl ModelController {
    /// The store's slots, in id order.
    pub closed spec fn spec_tickets(&self) -> Seq<Option<Ticket>> {
        self.tickets_store@
    }

    /// Creates an empty model controller; creation never fails.
    pub fn new() -> (r: Result<Self, Error>)
        ensures
            match r {
                Ok(mc) => mc.spec_tickets() =~= Seq::<Option<Ticket>>::empty(),
                Err(_) => false,
            },
    {
        Ok(ModelController { tickets_store: Vec::new() })
    }

    /// Appends a ticket owned by the context's user: its id is the slot it
    /// occupies, and creation never fails.
    pub fn create_ticket(&mut self, ctx: Ctx, ticket_fc: TicketForCreate) -> (r: Result<
        Ticket,
        Error,
    >)
        ensures
            match r {
                Ok(ticket) => {
                    &&& ticket.id == old(self).spec_tickets().len()
                    &&& ticket.cid == ctx.spec_user_id()
                    &&& ticket.title@ == ticket_fc.title@
                    &&& final(self).spec_tickets() == old(self).spec_tickets().push(Some(ticket))
                },
                Err(_) => false,
            },
    {
        let id = self.tickets_store.len() as u64;
        let ticket = Ticket { id, cid: ctx.user_id(), title: ticket_fc.title };
        self.tickets_store.push(Some(ticket.clone()));
        Ok(ticket)
    }

    /// Lists the tickets still present, in id order.
    pub fn list_tickets(&self, _ctx: Ctx) -> (r: Result<Vec<Ticket>, Error>)
        ensures
            match r {
                Ok(tickets) => tickets@ == present_tickets(self.spec_tickets()),
                Err(_) => false,
            },
    {
        let mut tickets: Vec<Ticket> = Vec::new();
        let mut i: usize = 0;
        while i < self.tickets_store.len()
            invariant
                i <= self.tickets_store@.len(),
                tickets@ == present_tickets(self.tickets_store@.take(i as int)),
            decreases self.tickets_store@.len() - i,
        {
            let ghost taken = self.tickets_store@.take(i + 1int);
            match &self.tickets_store[i] {
                Some(ticket) => {
                    tickets.push(ticket.clone());
                },
                None => {},
            }
            proof {
                assert(taken.drop_last() =~= self.tickets_store@.take(i as int));
                assert(taken.last() == self.tickets_store@[i as int]);
            }
            i += 1;
        }
        proof {
            assert(self.tickets_store@.take(self.tickets_store@.len() as int)
                =~= self.tickets_store@);
        }
        Ok(tickets)
    }

    /// Removes and returns the ticket with the given id; an absent or
    /// already-deleted id is exactly the delete-failed error, and the
    /// store is then unchanged.
    pub fn delete_ticket(&mut self, _ctx: Ctx, id: u64) -> (r: Result<Ticket, Error>)
        ensures
            (id < old(self).spec_tickets().len() && old(self).spec_tickets()[id as int] is Some)
                ==> (r == Ok::<Ticket, Error>(old(self).spec_tickets()[id as int].unwrap())
                && final(self).spec_tickets() == old(self).spec_tickets().update(id as int, None)),
            !(id < old(self).spec_tickets().len() && old(self).spec_tickets()[id as int] is Some)
                ==> (r == Err::<Ticket, Error>((Error::TicketDeleteFailIdNotFound { id }))
                && final(self).spec_tickets() == old(self).spec_tickets()),
    {
        if id >= self.tickets_store.len() as u64 {
            return Err(Error::TicketDeleteFailIdNotFound { id });
        }
        let idx = id as usize;
        match &self.tickets_store[idx] {
            Some(ticket) => {
                let removed = ticket.clone();
                self.tickets_store.set(idx, None);
                Ok(removed)
            },
            None => Err(Error::TicketDeleteFailIdNotFound { id }),
        }
    }
}

} // verus!
