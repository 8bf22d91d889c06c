//! What holds of the operations taken together.
//!
//! Each law is stated over the model of the state, in which the contracts
//! of the operations are stated too.

use vstd::prelude::*;
use crate::error::CasincError;
use crate::identity::Identity;
use crate::ledger::UserState;
use crate::model::CasinoView;
use crate::withdrawal::Payout;

verus! {

/// What two deposits of `user`, `first` and then `second`, make of `view`:
/// the second is tried only if the first was accepted.
pub open spec fn deposit_twice(
    view: CasinoView,
    user: Identity,
    first: u64,
    second: u64,
) -> Result<CasinoView, CasincError> {
    match view.deposit(user, first) {
        Ok(between) => between.deposit(user, second),
        Err(e) => Err(e),
    }
}

/// The state after `user` has tried the deposits `amounts` in order: one
/// that is refused leaves the state as it was, and the next is tried.
pub open spec fn after_deposits(view: CasinoView, user: Identity, amounts: Seq<u64>) -> CasinoView
    decreases amounts.len(),
{
    if amounts.len() == 0 {
        view
    } else {
        let before = after_deposits(view, user, amounts.drop_last());
        match before.deposit(user, amounts.last()) {
            Ok(after) => after,
            Err(_) => before,
        }
    }
}

/// Depositing `a` and then `b` comes to depositing `a + b` at once: both are
/// accepted and leave the same state, or both are refused for overflow.
pub proof fn lemma_deposits_add_up(view: CasinoView, user: Identity, a: u64, b: u64)
    requires
        view.wf(),
        view.has_user(user),
        a + b <= u64::MAX,
    ensures
        deposit_twice(view, user, a, b) == view.deposit(user, (a + b) as u64),
{
    match view.deposit(user, a) {
        Ok(between) => {
            match between.deposit(user, b) {
                Ok(twice) => {
                    let once = view.deposit(user, (a + b) as u64)->Ok_0;
                    assert(twice =~= once);
                },
                Err(_) => {},
            }
        },
        Err(_) => {},
    }
}

/// Whatever deposits a user tries, the deposit never goes down, and nothing
/// else of the user's entry moves: not from one deposit to the next, and so
/// not over the whole sequence.
pub proof fn lemma_deposits_never_decrease(
    view: CasinoView,
    user: Identity,
    amounts: Seq<u64>,
    upto: int,
)
    requires
        view.wf(),
        view.has_user(user),
        0 <= upto <= amounts.len(),
    ensures
        after_deposits(view, user, amounts).wf(),
        after_deposits(view, user, amounts).has_user(user),
        after_deposits(view, user, amounts.take(upto)).has_user(user),
        0 <= view.users[user].deposit <= after_deposits(
            view,
            user,
            amounts.take(upto),
        ).users[user].deposit <= after_deposits(view, user, amounts).users[user].deposit,
        after_deposits(view, user, amounts).users[user].winnings == view.users[user].winnings,
        after_deposits(view, user, amounts).users[user].unlock_time
            == view.users[user].unlock_time,
        after_deposits(view, user, amounts).requests == view.requests,
    decreases amounts.len(),
{
    if amounts.len() == 0 {
    } else {
        let shorter = amounts.drop_last();
        if upto == amounts.len() {
            assert(amounts.take(upto) =~= amounts);
            lemma_deposits_never_decrease(view, user, shorter, shorter.len() as int);
        } else {
            assert(shorter.take(upto) =~= amounts.take(upto));
            lemma_deposits_never_decrease(view, user, shorter, upto);
        }
    }
}

/// Approving twice is approving once: where the signers suffice, the
/// request is approved, and the same signers approving it again are
/// accepted again and change nothing.
pub proof fn lemma_approval_is_idempotent(view: CasinoView, user: Identity, asserted: Seq<Identity>)
    requires
        view.wf(),
        view.has_request(user),
    ensures
        match view.approve_withdrawal(user, asserted) {
            Ok(approved) => {
                &&& approved.requests[user].approved
                &&& approved.approve_withdrawal(user, asserted) == Ok::<CasinoView, CasincError>(
                    approved,
                )
            },
            Err(e) => e == CasincError::NotEnoughSigners,
        },
{
    match view.approve_withdrawal(user, asserted) {
        Ok(approved) => {
            let again = approved.approve_withdrawal(user, asserted)->Ok_0;
            assert(again =~= approved);
        },
        Err(_) => {},
    }
}

/// A request is paid out once. Where executing it calls for a payout, that
/// payout is of the request's amount to its user, and retiring the request
/// for it is accepted; after that, executing again is refused with
/// `WithdrawalNotApproved`, and so is retiring again.
pub proof fn lemma_paid_out_once(view: CasinoView, user: Identity)
    requires
        view.wf(),
    ensures
        match view.execute_withdrawal(user) {
            Ok(payout) => {
                &&& payout == Payout { user, amount: view.requests[user].amount }
                &&& view.retire_withdrawal(payout) is Ok
                &&& view.retire_withdrawal(payout)->Ok_0.wf()
                &&& view.retire_withdrawal(payout)->Ok_0.execute_withdrawal(user) == Err::<
                    Payout,
                    CasincError,
                >(CasincError::WithdrawalNotApproved)
                &&& view.retire_withdrawal(payout)->Ok_0.retire_withdrawal(payout) == Err::<
                    CasinoView,
                    CasincError,
                >(CasincError::WithdrawalNotApproved)
            },
            Err(e) => e == CasincError::WithdrawalNotApproved,
        },
{
}

/// An operation of one user leaves every other user's entry and request as
/// they were, and never touches the configuration.
pub proof fn lemma_operations_are_local(
    view: CasinoView,
    user: Identity,
    other: Identity,
    amount: u64,
    now: i64,
    asserted: Seq<Identity>,
)
    requires
        view.wf(),
        other != user,
    ensures
        view.initialize_user(user) matches Ok(after) ==> untouched(view, after, other),
        view.has_user(user) ==> (view.deposit(user, amount) matches Ok(after) ==> untouched(
            view,
            after,
            other,
        )),
        view.has_user(user) ==> (view.place_bet(user, amount, now) matches Ok(after) ==> untouched(
            view,
            after,
            other,
        )),
        view.has_user(user) ==> (view.request_withdrawal(user, amount, now) matches Ok(after)
            ==> untouched(view, after, other)),
        view.has_request(user) ==> (view.approve_withdrawal(user, asserted) matches Ok(after)
            ==> untouched(view, after, other)),
        view.retire_withdrawal(Payout { user, amount }) matches Ok(after) ==> untouched(
            view,
            after,
            other,
        ),
{
}

/// Whether `after` holds for `other` what `before` held, under the same
/// configuration.
pub open spec fn untouched(before: CasinoView, after: CasinoView, other: Identity) -> bool {
    &&& after.params == before.params
    &&& after.has_user(other) == before.has_user(other)
    &&& after.has_user(other) ==> after.users[other] == before.users[other]
    &&& after.has_request(other) == before.has_request(other)
    &&& after.has_request(other) ==> after.requests[other] == before.requests[other]
}

/// Every operation that is accepted leaves a well-formed state well formed.
pub proof fn lemma_operations_keep_well_formed(
    view: CasinoView,
    user: Identity,
    amount: u64,
    now: i64,
    asserted: Seq<Identity>,
)
    requires
        view.wf(),
    ensures
        view.initialize_user(user) matches Ok(after) ==> after.wf(),
        view.has_user(user) ==> (view.deposit(user, amount) matches Ok(after) ==> after.wf()),
        view.has_user(user) ==> (view.place_bet(user, amount, now) matches Ok(after) ==> after.wf()),
        view.has_user(user) ==> (view.request_withdrawal(user, amount, now) matches Ok(after)
            ==> after.wf()),
        view.has_request(user) ==> (view.approve_withdrawal(user, asserted) matches Ok(after)
            ==> after.wf()),
        view.retire_withdrawal(Payout { user, amount }) matches Ok(after) ==> after.wf(),
{
}

/// Only a bet moves the lock: a deposit and a withdrawal request leave the
/// unlock time as it was.
pub proof fn lemma_only_bets_move_the_lock(view: CasinoView, user: Identity, amount: u64, now: i64)
    requires
        view.wf(),
        view.has_user(user),
    ensures
        view.deposit(user, amount) matches Ok(after) ==> after.users[user].unlock_time
            == view.users[user].unlock_time,
        view.request_withdrawal(user, amount, now) matches Ok(after)
            ==> after.users[user].unlock_time == view.users[user].unlock_time,
{
}

/// A ledger entry is opened once: opening it again is refused, and the
/// entry is not reset.
pub proof fn lemma_opened_once(view: CasinoView, user: Identity)
    requires
        view.wf(),
    ensures
        view.initialize_user(user) matches Ok(after) ==> {
            &&& after.users[user] == UserState::opened(user)
            &&& after.initialize_user(user) == Err::<CasinoView, CasincError>(
                CasincError::AlreadyInitialized,
            )
        },
        view.has_user(user) ==> view.initialize_user(user) == Err::<CasinoView, CasincError>(
            CasincError::AlreadyInitialized,
        ),
{
}

/// No operation removes a ledger entry.
pub proof fn lemma_entries_are_kept(
    view: CasinoView,
    user: Identity,
    who: Identity,
    amount: u64,
    now: i64,
    asserted: Seq<Identity>,
)
    requires
        view.wf(),
        view.has_user(who),
    ensures
        view.initialize_user(user) matches Ok(after) ==> after.has_user(who),
        view.has_user(user) ==> (view.deposit(user, amount) matches Ok(after) ==> after.has_user(
            who,
        )),
        view.has_user(user) ==> (view.place_bet(user, amount, now) matches Ok(after)
            ==> after.has_user(who)),
        view.has_user(user) ==> (view.request_withdrawal(user, amount, now) matches Ok(after)
            ==> after.has_user(who)),
        view.has_request(user) ==> (view.approve_withdrawal(user, asserted) matches Ok(after)
            ==> after.has_user(who)),
        view.retire_withdrawal(Payout { user, amount }) matches Ok(after) ==> after.has_user(who),
{
}

/// What is paid out is what was asked for. Once a request for `amount` is
/// made, an approval by enough signers makes exactly that amount due to
/// that user, whatever the user's balances have become since: the amount is
/// taken from the winnings when the request is made, and not looked at
/// again.
pub proof fn lemma_requested_amount_is_paid(
    view: CasinoView,
    user: Identity,
    amount: u64,
    now: i64,
    asserted: Seq<Identity>,
)
    requires
        view.wf(),
        view.has_user(user),
    ensures
        view.request_withdrawal(user, amount, now) matches Ok(requested) ==> {
            &&& requested.users[user].winnings + amount == view.users[user].winnings
            &&& requested.execute_withdrawal(user) == Err::<Payout, CasincError>(
                CasincError::WithdrawalNotApproved,
            )
            &&& (requested.approve_withdrawal(user, asserted) matches Ok(approved)
                ==> approved.execute_withdrawal(user) == Ok::<Payout, CasincError>(
                Payout { user, amount },
            ))
        },
{
}

} // verus!
