//! What holds of the escrow whatever the calls: how counters count, that a
//! toggle undoes itself, that a deposit is released once and only for a
//! completed todo, and that owners do not touch each other.

use crate::escrow::after_add;
use crate::escrow::after_release;
use crate::escrow::after_toggle;
use crate::escrow::release_outcome;
use crate::store::Ledger;
use crate::todo::admits;
use crate::todo::Error;
use crate::todo::TodoView;
use vstd::prelude::*;

verus! {

/// The ledger after `owner` has added todos with the given contents and
/// deposits, one after another.
pub open spec fn after_adds(
    s: Ledger,
    owner: Seq<u8>,
    contents: Seq<Seq<char>>,
    paids: Seq<nat>,
) -> Ledger
    decreases contents.len(),
{
    if contents.len() == 0 {
        s
    } else {
        after_add(
            after_adds(s, owner, contents.drop_last(), paids.drop_last()),
            owner,
            contents.last(),
            paids.last(),
        )
    }
}

/// After an owner has added `n` todos, its counter has grown by `n`, and the
/// todos stand under the ids from the old counter on, in the order in which
/// they were added: for an owner that starts at zero the counter is `n` and
/// the ids are `0` to `n - 1`. This holds as long as the counter stays within
/// the largest id.
pub proof fn law_adds_are_counted(
    s: Ledger,
    owner: Seq<u8>,
    contents: Seq<Seq<char>>,
    paids: Seq<nat>,
)
    requires
        contents.len() == paids.len(),
        forall|i: int| 0 <= i < paids.len() ==> admits(#[trigger] paids[i]),
        s.counter(owner) + contents.len() <= u64::MAX,
    ensures
        after_adds(s, owner, contents, paids).counter(owner) == s.counter(owner) + contents.len(),
        forall|i: int|
            #![trigger contents[i]]
            0 <= i < contents.len() ==> {
                let id = (s.counter(owner) + i) as u64;
                let after = after_adds(s, owner, contents, paids);
                after.records.contains_key((owner, id)) && after.records[(owner, id)] == (TodoView {
                    id,
                    content: contents[i],
                    completed: false,
                    amount: paids[i],
                })
            },
    decreases contents.len(),
{
    if contents.len() > 0 {
        let head = contents.drop_last();
        let paid_head = paids.drop_last();
        law_adds_are_counted(s, owner, head, paid_head);
        let mid = after_adds(s, owner, head, paid_head);
        let after = after_adds(s, owner, contents, paids);
        assert(after == after_add(mid, owner, contents.last(), paids.last()));
        assert forall|i: int| #![trigger contents[i]] 0 <= i < contents.len() implies {
            let id = (s.counter(owner) + i) as u64;
            after.records.contains_key((owner, id)) && after.records[(owner, id)] == (TodoView {
                id,
                content: contents[i],
                completed: false,
                amount: paids[i],
            })
        } by {
            if i < head.len() {
                assert(head[i] == contents[i]);
                assert(paid_head[i] == paids[i]);
            }
        }
    }
}

/// A toggle of a todo that does not exist changes nothing, and two toggles
/// of one that exists bring the ledger back to where it was.
pub proof fn law_toggle_undoes_itself(s: Ledger, owner: Seq<u8>, id: u64)
    ensures
        !s.records.contains_key((owner, id)) ==> after_toggle(s, owner, id) == s,
        after_toggle(after_toggle(s, owner, id), owner, id) == s,
{
    let twice = after_toggle(after_toggle(s, owner, id), owner, id);
    assert(twice.records =~= s.records);
}

/// A todo that is not completed is never released, whatever is locked for
/// it and whatever the escrow holds, and the attempt changes nothing.
pub proof fn law_release_needs_completion(s: Ledger, owner: Seq<u8>, id: u64, balance: nat)
    requires
        s.records.contains_key((owner, id)),
        !s.records[(owner, id)].completed,
    ensures
        release_outcome(s, owner, id, balance) == Err::<nat, Error>(Error::InvalidTodo),
        after_release(s, owner, id, balance) == s,
{
}

/// A deposit is released once: after a release that went through nothing is
/// locked for the todo, a further release is refused as invalid whatever the
/// escrow then holds, and toggling the todo does not bring the deposit back.
pub proof fn law_release_happens_once(
    s: Ledger,
    owner: Seq<u8>,
    id: u64,
    balance: nat,
    later_balance: nat,
)
    requires
        release_outcome(s, owner, id, balance) is Ok,
    ensures
        release_outcome(s, owner, id, balance) == Ok::<nat, Error>(s.records[(owner, id)].amount),
        after_release(s, owner, id, balance).records[(owner, id)].amount == 0,
        release_outcome(after_release(s, owner, id, balance), owner, id, later_balance) == Err::<
            nat,
            Error,
        >(Error::InvalidTodo),
        after_release(after_release(s, owner, id, balance), owner, id, later_balance)
            == after_release(s, owner, id, balance),
        release_outcome(
            after_toggle(after_release(s, owner, id, balance), owner, id),
            owner,
            id,
            later_balance,
        ) == Err::<nat, Error>(Error::InvalidTodo),
{
}

/// A completed todo whose deposit exceeds what the escrow holds is not
/// released, and the todo stays as it was.
pub proof fn law_release_needs_funds(s: Ledger, owner: Seq<u8>, id: u64, balance: nat)
    requires
        s.records.contains_key((owner, id)),
        s.records[(owner, id)].completed,
        balance < s.records[(owner, id)].amount,
    ensures
        release_outcome(s, owner, id, balance) == Err::<nat, Error>(Error::NotEnoughFunds),
        after_release(s, owner, id, balance) == s,
{
}

/// Whether two ledgers hold the same for `owner`: the same todos under the
/// same ids, and the same counter.
pub open spec fn same_for(s: Ledger, t: Ledger, owner: Seq<u8>) -> bool {
    &&& s.counter(owner) == t.counter(owner)
    &&& forall|id: u64|
        s.records.contains_key((owner, id)) == #[trigger] t.records.contains_key((owner, id))
    &&& forall|id: u64| #[trigger]
        s.records.contains_key((owner, id)) ==> s.records[(owner, id)] == t.records[(owner, id)]
}

/// What one owner does never changes what another owner has: not its todos,
/// also under the same id, and not its counter.
pub proof fn law_owners_are_independent(
    s: Ledger,
    actor: Seq<u8>,
    other: Seq<u8>,
    id: u64,
    content: Seq<char>,
    paid: nat,
    balance: nat,
)
    requires
        actor != other,
    ensures
        same_for(s, after_add(s, actor, content, paid), other),
        same_for(s, after_toggle(s, actor, id), other),
        same_for(s, after_release(s, actor, id, balance), other),
{
}

/// Toggling and releasing leave every counter alone, and neither they nor
/// adding ever lower one.
pub proof fn law_counters_never_decrease(
    s: Ledger,
    actor: Seq<u8>,
    owner: Seq<u8>,
    id: u64,
    content: Seq<char>,
    paid: nat,
    balance: nat,
)
    ensures
        after_toggle(s, actor, id).counter(owner) == s.counter(owner),
        after_release(s, actor, id, balance).counter(owner) == s.counter(owner),
        after_add(s, actor, content, paid).counter(owner) >= s.counter(owner),
{
}

/// One call to the escrow, as the ledger sees it.
pub enum Call {
    Add { owner: Seq<u8>, content: Seq<char>, paid: nat },
    Toggle { owner: Seq<u8>, id: u64 },
    Release { owner: Seq<u8>, id: u64, balance: nat },
}

/// Whether `c` is an add by `owner` whose deposit is admitted.
pub open spec fn is_add_by(c: Call, owner: Seq<u8>) -> bool {
    match c {
        Call::Add { owner: who, content, paid } => who == owner && admits(paid),
        _ => false,
    }
}

/// Whether `c`, made on the ledger `s`, releases the deposit of the todo `id`
/// of `owner`.
pub open spec fn is_release_of(s: Ledger, c: Call, owner: Seq<u8>, id: u64) -> bool {
    match c {
        Call::Release { owner: who, id: which, balance } => who == owner && which == id
            && release_outcome(s, who, which, balance) is Ok,
        _ => false,
    }
}

/// The ledger after the call `c`.
pub open spec fn after_call(s: Ledger, c: Call) -> Ledger {
    match c {
        Call::Add { owner, content, paid } => if admits(paid) {
            after_add(s, owner, content, paid)
        } else {
            s
        },
        Call::Toggle { owner, id } => after_toggle(s, owner, id),
        Call::Release { owner, id, balance } => after_release(s, owner, id, balance),
    }
}

/// The ledger after the given calls were made, in their order, on a ledger
/// that was empty.
pub open spec fn after_calls(calls: Seq<Call>) -> Ledger
    decreases calls.len(),
{
    if calls.len() == 0 {
        Ledger::empty()
    } else {
        after_call(after_calls(calls.drop_last()), calls.last())
    }
}

/// How many of the calls are adds by `owner` that were admitted.
pub open spec fn adds_by(calls: Seq<Call>, owner: Seq<u8>) -> nat
    decreases calls.len(),
{
    if calls.len() == 0 {
        0
    } else {
        adds_by(calls.drop_last(), owner) + if is_add_by(calls.last(), owner) {
            1nat
        } else {
            0nat
        }
    }
}

/// How many of the calls released the deposit of the todo `id` of `owner`.
pub open spec fn releases_of(calls: Seq<Call>, owner: Seq<u8>, id: u64) -> nat
    decreases calls.len(),
{
    if calls.len() == 0 {
        0
    } else {
        releases_of(calls.drop_last(), owner, id) + if is_release_of(
            after_calls(calls.drop_last()),
            calls.last(),
            owner,
            id,
        ) {
            1nat
        } else {
            0nat
        }
    }
}

/// Whatever calls were made on a ledger that started empty, and by whom:
/// the counter of an owner is the number of todos it has added, its todos
/// stand under exactly the ids below the counter, each under the id it
/// carries. So every add was given the number of the adds before it. This
/// holds as long as the owner has added no more todos than the largest id.
pub proof fn law_ids_count_up(calls: Seq<Call>, owner: Seq<u8>)
    requires
        adds_by(calls, owner) <= u64::MAX,
    ensures
        after_calls(calls).counter(owner) == adds_by(calls, owner),
        forall|id: u64| #[trigger]
            after_calls(calls).records.contains_key((owner, id)) <==> id < adds_by(calls, owner),
        forall|id: u64| #[trigger]
            after_calls(calls).records.contains_key((owner, id)) ==> after_calls(calls).records[(
                owner,
                id,
            )].id == id,
    decreases calls.len(),
{
    if calls.len() > 0 {
        law_ids_count_up(calls.drop_last(), owner);
    }
}

/// Whatever calls were made on a ledger that started empty: the deposit of
/// a todo was released at most once; once it was, nothing is locked for the
/// todo; and until it is, what is locked is a deposit that was admitted.
/// This holds as long as the owner has added no more todos than the largest
/// id.
pub proof fn law_one_release_per_todo(calls: Seq<Call>, owner: Seq<u8>, id: u64)
    requires
        adds_by(calls, owner) <= u64::MAX,
    ensures
        releases_of(calls, owner, id) <= 1,
        releases_of(calls, owner, id) == 1 ==> after_calls(calls).records.contains_key((owner, id))
            && after_calls(calls).records[(owner, id)].amount == 0,
        releases_of(calls, owner, id) == 0 && after_calls(calls).records.contains_key((owner, id))
            ==> admits(after_calls(calls).records[(owner, id)].amount),
    decreases calls.len(),
{
    if calls.len() > 0 {
        law_one_release_per_todo(calls.drop_last(), owner, id);
        law_ids_count_up(calls.drop_last(), owner);
    }
}

} // verus!
