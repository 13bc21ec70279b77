//! Todos and the reasons for refusing an operation.

use crate::amount::Amount;
use crate::amount::MINIMUM_DEPOSIT;
use vstd::prelude::*;

verus! {

/// Why an operation was refused.
#[derive(Debug, PartialEq, Eq, Structural, Clone, Copy)]
pub enum Error {
    /// The value paid or held is below what the operation needs.
    NotEnoughFunds,
    /// The todo does not exist or is not eligible for the operation.
    InvalidTodo,
}

/// One task with its deposit.
#[derive(Debug, PartialEq, Eq)]
pub struct Todo {
    /// Unique among the todos of one owner.
    pub id: u64,
    pub content: String,
    pub completed: bool,
    /// The value still locked for this todo; zero once it has been released.
    pub amount: Amount,
}

/// What a todo stands for.
pub struct TodoView {
    pub id: u64,
    pub content: Seq<char>,
    pub completed: bool,
    pub amount: nat,
}

impl View for Todo {
    type V = TodoView;

    open spec fn view(&self) -> TodoView {
        TodoView {
            id: self.id,
            content: self.content@,
            completed: self.completed,
            amount: self.amount@,
        }
    }
}

/// Whether a deposit of `paid` opens a todo.
pub open spec fn admits(paid: nat) -> bool {
    paid >= MINIMUM_DEPOSIT as nat
}

/// The todo with its completion flipped and nothing else changed.
pub open spec fn toggled(t: TodoView) -> TodoView {
    TodoView { id: t.id, content: t.content, completed: !t.completed, amount: t.amount }
}

/// The todo with nothing locked for it any more.
pub open spec fn settled(t: TodoView) -> TodoView {
    TodoView { id: t.id, content: t.content, completed: t.completed, amount: 0 }
}

/// What a release of `t` comes to while the escrow holds `balance`: the
/// amount to hand back, or why nothing is released. A todo that is not
/// completed, or whose deposit is gone already, is invalid; a deposit
/// larger than the balance is not paid out.
pub open spec fn release_of(t: TodoView, balance: nat) -> Result<nat, Error> {
    if !t.completed || t.amount == 0 {
        Err(Error::InvalidTodo)
    } else if balance < t.amount {
        Err(Error::NotEnoughFunds)
    } else {
        Ok(t.amount)
    }
}

impl Todo {
    /// The todo that a deposit of `paid` opens under `id`: not completed,
    /// with the whole deposit locked. A deposit below the minimum opens
    /// none.
    pub fn open(id: u64, content: String, paid: Amount) -> (r: Result<Todo, Error>)
        ensures
            match r {
                Ok(t) => admits(paid@) && t@ == (TodoView {
                    id,
                    content: content@,
                    completed: false,
                    amount: paid@,
                }),
                Err(e) => !admits(paid@) && e == Error::NotEnoughFunds,
            },
    {
        let minimum = Amount::minimum_deposit();
        if paid.less_than(&minimum) {
            return Err(Error::NotEnoughFunds);
        }
        Ok(Todo { id, content, completed: false, amount: paid })
    }

    /// This todo with its completion flipped.
    pub fn toggle(self) -> (r: Todo)
        ensures
            r@ == toggled(self@),
    {
        Todo {
            id: self.id,
            content: self.content,
            completed: !self.completed,
            amount: self.amount,
        }
    }

    /// Settles this todo while the escrow holds `balance`: gives the todo
    /// with nothing locked, and the amount that is owed to its owner, or
    /// the reason why it cannot be released.
    pub fn release(self, balance: &Amount) -> (r: Result<(Todo, Amount), Error>)
        ensures
            match r {
                Ok((t, amount)) => release_of(self@, balance@) == Ok::<nat, Error>(amount@) && t@
                    == settled(self@),
                Err(e) => release_of(self@, balance@) == Err::<nat, Error>(e),
            },
    {
        if !self.completed || self.amount.is_zero() {
            return Err(Error::InvalidTodo);
        }
        if balance.less_than(&self.amount) {
            return Err(Error::NotEnoughFunds);
        }
        let amount = self.amount;
        let t = Todo {
            id: self.id,
            content: self.content,
            completed: self.completed,
            amount: Amount::zero(),
        };
        Ok((t, amount))
    }

    /// A copy of this todo.
    pub fn duplicate(&self) -> (r: Todo)
        ensures
            r@ == self@,
    {
        Todo {
            id: self.id,
            content: self.content.clone(),
            completed: self.completed,
            amount: self.amount,
        }
    }
}

} // verus!
