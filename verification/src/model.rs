//! The ledger as a mathematical value, and each operation as a function on
//! such values.
//!
//! An operation that is refused gives the reason in place of a new state:
//! the state is then the one before.

use vstd::prelude::*;
use crate::error::CasincError;
use crate::identity::Identity;
use crate::ledger::UserState;
use crate::params::GameParameters;
use crate::withdrawal::{Payout, WithdrawalRequest};

verus! {

/// Whether every ledger entry is filed under the user it belongs to.
pub open spec fn entries_filed(users: Map<Identity, UserState>) -> bool {
    forall|user: Identity| #[trigger] users.contains_key(user) ==> users[user].user == user
}

/// Whether every withdrawal request is filed under the user it belongs to.
pub open spec fn requests_filed(requests: Map<Identity, WithdrawalRequest>) -> bool {
    forall|user: Identity| #[trigger] requests.contains_key(user) ==> requests[user].user == user
}

/// The state of the house: its configuration, one ledger entry for each
/// user, and at most one withdrawal request in flight for each user.
#[verifier::ext_equal]
pub struct CasinoView {
    pub params: GameParameters,
    pub users: Map<Identity, UserState>,
    pub requests: Map<Identity, WithdrawalRequest>,
}

impl CasinoView {
    /// Whether the state is one that the operations can reach: the
    /// configuration is well formed, every entry and every request is filed
    /// under the user it belongs to, and only users with an entry have a
    /// request.
    pub open spec fn wf(self) -> bool {
        &&& self.params.wf()
        &&& entries_filed(self.users)
        &&& requests_filed(self.requests)
        &&& self.requests.dom().subset_of(self.users.dom())
    }

    /// The state right after set-up: no user, no request.
    pub open spec fn fresh(params: GameParameters) -> CasinoView {
        CasinoView { params, users: Map::empty(), requests: Map::empty() }
    }

    /// Whether `user` has a ledger entry.
    pub open spec fn has_user(self, user: Identity) -> bool {
        self.users.contains_key(user)
    }

    /// Whether `user` has a withdrawal request that is not retired.
    pub open spec fn has_request(self, user: Identity) -> bool {
        self.requests.contains_key(user)
    }

    /// The state with `state` as the entry of its user.
    pub open spec fn with_user(self, state: UserState) -> CasinoView {
        CasinoView {
            params: self.params,
            users: self.users.insert(state.user, state),
            requests: self.requests,
        }
    }

    /// The state with `request` as the request of its user.
    pub open spec fn with_request(self, request: WithdrawalRequest) -> CasinoView {
        CasinoView {
            params: self.params,
            users: self.users,
            requests: self.requests.insert(request.user, request),
        }
    }

    /// The state with no request of `user`.
    pub open spec fn without_request(self, user: Identity) -> CasinoView {
        CasinoView { params: self.params, users: self.users, requests: self.requests.remove(user) }
    }

    /// Opening an entry for `user`: refused if there is one.
    pub open spec fn initialize_user(self, user: Identity) -> Result<CasinoView, CasincError> {
        if self.has_user(user) {
            Err(CasincError::AlreadyInitialized)
        } else {
            Ok(self.with_user(UserState::opened(user)))
        }
    }

    /// Depositing `amount` for `user`.
    pub open spec fn deposit(self, user: Identity, amount: u64) -> Result<CasinoView, CasincError>
        recommends
            self.has_user(user),
    {
        match self.users[user].after_deposit(amount) {
            Ok(state) => Ok(self.with_user(state)),
            Err(e) => Err(e),
        }
    }

    /// `user` betting `bet` at time `now`.
    pub open spec fn place_bet(
        self,
        user: Identity,
        bet: u64,
        now: i64,
    ) -> Result<CasinoView, CasincError>
        recommends
            self.has_user(user),
    {
        match self.users[user].after_bet(self.params, bet, now) {
            Ok(state) => Ok(self.with_user(state)),
            Err(e) => Err(e),
        }
    }

    /// `user` asking at time `now` to withdraw `amount` of the winnings.
    ///
    /// The lock is tested first, then the winnings, then whether a request
    /// is already in flight.
    pub open spec fn request_withdrawal(
        self,
        user: Identity,
        amount: u64,
        now: i64,
    ) -> Result<CasinoView, CasincError>
        recommends
            self.has_user(user),
    {
        match self.users[user].after_request(amount, now) {
            Ok(state) => if self.has_request(user) {
                Err(CasincError::DuplicateRequest)
            } else {
                Ok(self.with_user(state).with_request(WithdrawalRequest::pending(state.user, amount)))
            },
            Err(e) => Err(e),
        }
    }

    /// The `asserted` signers approving the request of `user`.
    pub open spec fn approve_withdrawal(
        self,
        user: Identity,
        asserted: Seq<Identity>,
    ) -> Result<CasinoView, CasincError>
        recommends
            self.has_request(user),
    {
        match self.requests[user].after_approval(self.params, asserted) {
            Ok(request) => Ok(self.with_request(request)),
            Err(e) => Err(e),
        }
    }

    /// What executing the request of `user` pays: nothing unless there is a
    /// request and it is approved.
    pub open spec fn execute_withdrawal(self, user: Identity) -> Result<Payout, CasincError> {
        if self.has_request(user) {
            self.requests[user].due()
        } else {
            Err(CasincError::WithdrawalNotApproved)
        }
    }

    /// Retiring the request that `payout` was made for: refused unless that
    /// request is there, approved, and of the amount paid.
    pub open spec fn retire_withdrawal(self, payout: Payout) -> Result<CasinoView, CasincError> {
        if self.execute_withdrawal(payout.user) == Ok::<Payout, CasincError>(payout) {
            Ok(self.without_request(payout.user))
        } else {
            Err(CasincError::WithdrawalNotApproved)
        }
    }
}

} // verus!
