//! The escrow: the rules by which deposits are admitted, todos are
//! completed and deposits are released.

use crate::amount::Amount;
use crate::owner::Owner;
use crate::store::following_id;
use crate::store::Ledger;
use crate::store::RecordStore;
use crate::todo::admits;
use crate::todo::release_of;
use crate::todo::settled;
use crate::todo::toggled;
use crate::todo::Error;
use crate::todo::Todo;
use crate::todo::TodoView;
use vstd::prelude::*;

verus! {

/// The ledger after `owner` has added a todo with a deposit that was
/// admitted: the todo stands under the owner's next id, not completed, with
/// the whole deposit locked, and the owner's counter has moved on.
pub open spec fn after_add(s: Ledger, owner: Seq<u8>, content: Seq<char>, paid: nat) -> Ledger {
    let id = s.counter(owner);
    Ledger {
        records: s.records.insert(
            (owner, id),
            TodoView { id, content, completed: false, amount: paid },
        ),
        counters: s.counters.insert(owner, following_id(id)),
    }
}

/// The ledger after `owner` has toggled the todo `id`: where there is such a
/// todo, its completion is flipped and nothing else changes.
pub open spec fn after_toggle(s: Ledger, owner: Seq<u8>, id: u64) -> Ledger {
    if s.records.contains_key((owner, id)) {
        Ledger {
            records: s.records.insert((owner, id), toggled(s.records[(owner, id)])),
            counters: s.counters,
        }
    } else {
        s
    }
}

/// What a release of the todo `id` of `owner` comes to while the escrow
/// holds `balance`: the amount to hand back, or why nothing is released.
/// A todo that is missing is invalid; one that is there is released as
/// `release_of` says.
pub open spec fn release_outcome(s: Ledger, owner: Seq<u8>, id: u64, balance: nat) -> Result<
    nat,
    Error,
> {
    if s.records.contains_key((owner, id)) {
        release_of(s.records[(owner, id)], balance)
    } else {
        Err(Error::InvalidTodo)
    }
}

/// The ledger after a release of the todo `id` of `owner` was asked for while
/// the escrow held `balance`: where the release goes through, nothing is
/// locked for the todo any more; where it does not, nothing changes.
pub open spec fn after_release(s: Ledger, owner: Seq<u8>, id: u64, balance: nat) -> Ledger {
    if release_outcome(s, owner, id, balance) is Ok {
        Ledger {
            records: s.records.insert((owner, id), settled(s.records[(owner, id)])),
            counters: s.counters,
        }
    } else {
        s
    }
}

/// The todo ledger of all owners, with the deposits it keeps in escrow.
pub struct TodoApp {
    store: RecordStore,
}

impl View for TodoApp {
    type V = Ledger;

    closed spec fn view(&self) -> Ledger {
        self.store@
    }
}

impl Default for TodoApp {
    /// The ledger without any todo.
    fn default() -> (r: TodoApp)
        ensures
            r@ == Ledger::empty(),
    {
        TodoApp::new()
    }
}

impl TodoApp {
    /// The ledger without any todo.
    pub fn new() -> (r: TodoApp)
        ensures
            r@ == Ledger::empty(),
    {
        TodoApp { store: RecordStore::new() }
    }

    /// Adds a todo for `caller`, who paid `paid` with the call. A deposit
    /// below the minimum is refused and changes nothing.
    pub fn add_todo(&mut self, caller: Owner, paid: Amount, content: String) -> (r: Result<
        (),
        Error,
    >)
        ensures
            admits(paid@) ==> r == Ok::<(), Error>(()) && final(self)@ == after_add(
                old(self)@,
                caller@,
                content@,
                paid@,
            ),
            !admits(paid@) ==> r == Err::<(), Error>(Error::NotEnoughFunds) && final(self)@ == old(
                self,
            )@,
    {
        let id = self.store.next_id(&caller);
        match Todo::open(id, content, paid) {
            Ok(todo) => {
                self.store.put_record(caller, id, todo);
                self.store.advance_id(caller, id);
                Ok(())
            },
            Err(e) => Err(e),
        }
    }

    /// Flips the completion of the todo `id` of `caller` and returns the new
    /// value, or `None` where `caller` has no such todo.
    pub fn toggle_todo(&mut self, caller: Owner, id: u64) -> (r: Option<bool>)
        ensures
            final(self)@ == after_toggle(old(self)@, caller@, id),
            r == if old(self)@.records.contains_key((caller@, id)) {
                Some(!old(self)@.records[(caller@, id)].completed)
            } else {
                None
            },
    {
        match self.store.get_record(&caller, id) {
            Some(todo) => {
                let flipped = todo.toggle();
                let completed = flipped.completed;
                self.store.put_record(caller, id, flipped);
                Some(completed)
            },
            None => None,
        }
    }

    /// Releases the deposit of the todo `id` of `caller` while the escrow
    /// holds `balance`. On success the todo is settled first, and the amount
    /// that is now owed to `caller` is returned for the transfer; a failure
    /// changes nothing.
    pub fn release_deposit(&mut self, caller: Owner, id: u64, balance: Amount) -> (r: Result<
        Amount,
        Error,
    >)
        ensures
            final(self)@ == after_release(old(self)@, caller@, id, balance@),
            match r {
                Ok(amount) => release_outcome(old(self)@, caller@, id, balance@) == Ok::<
                    nat,
                    Error,
                >(amount@),
                Err(e) => release_outcome(old(self)@, caller@, id, balance@) == Err::<nat, Error>(
                    e,
                ),
            },
    {
        match self.store.get_record(&caller, id) {
            Some(todo) => match todo.release(&balance) {
                Ok((done, amount)) => {
                    self.store.put_record(caller, id, done);
                    Ok(amount)
                },
                Err(e) => Err(e),
            },
            None => Err(Error::InvalidTodo),
        }
    }

    /// The todo `id` of `caller`, if there is one.
    pub fn get_todo(&self, caller: Owner, id: u64) -> (r: Option<Todo>)
        ensures
            match r {
                Some(t) => self@.records.contains_key((caller@, id)) && t@ == self@.records[(
                    caller@,
                    id,
                )],
                None => !self@.records.contains_key((caller@, id)),
            },
    {
        self.store.get_record(&caller, id)
    }

    /// The next local id of `account_id`: the number of todos it has added,
    /// zero for an owner that has added none.
    pub fn get_counter(&self, account_id: Owner) -> (r: u64)
        ensures
            r == self@.counter(account_id@),
    {
        self.store.get_counter(&account_id)
    }
}

} // verus!
