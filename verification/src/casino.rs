//! The ledger itself: the state of the house and the operations on it.
//!
//! Every operation reads and writes the entries of one user only, and
//! decides whether it is refused before it writes anything.

use vstd::prelude::*;
use crate::approval::signer_count;
use crate::error::CasincError;
use crate::identity::Identity;
use crate::ledger::UserState;
use crate::model::CasinoView;
use crate::params::{valid_quorum, GameParameters};
use crate::table::Table;
use crate::withdrawal::{Payout, WithdrawalRequest};

verus! {

/// The state of the house: the configuration, the ledger entries and the
/// withdrawal requests in flight.
///
/// To contracts it is the `CasinoView` that `view` gives, and every value of
/// this type is well formed in the sense of `CasinoView::wf`. Holding the
/// value mutably is what serialises the operations on it.
pub struct Casino {
    params: GameParameters,
    users: Table<UserState>,
    requests: Table<WithdrawalRequest>,
}

impl View for Casino {
    type V = CasinoView;

    closed spec fn view(&self) -> CasinoView {
        CasinoView { params: self.params, users: self.users@, requests: self.requests@ }
    }
}

impl Casino {
    #[verifier::type_invariant]
    spec fn inv(self) -> bool {
        self@.wf()
    }

    /// Files `state` as the entry of its user.
    fn set_user(&mut self, state: UserState)
        ensures
            final(self)@ == old(self)@.with_user(state),
    {
        proof {
            use_type_invariant(&*self);
        }
        let mut requests = Table::new();
        let mut users = Table::new();
        std::mem::swap(&mut requests, &mut self.requests);
        std::mem::swap(&mut users, &mut self.users);
        users.put(state.user, state);
        self.users = users;
        self.requests = requests;
    }

    /// Files `request` as the request of its user.
    fn set_request(&mut self, request: WithdrawalRequest)
        requires
            old(self)@.has_user(request.user),
        ensures
            final(self)@ == old(self)@.with_request(request),
    {
        proof {
            use_type_invariant(&*self);
        }
        let mut requests = Table::new();
        std::mem::swap(&mut requests, &mut self.requests);
        requests.put(request.user, request);
        self.requests = requests;
    }

    /// Takes the request of `user` out of the files.
    fn drop_request(&mut self, user: &Identity)
        ensures
            final(self)@ == old(self)@.without_request(*user),
    {
        proof {
            use_type_invariant(&*self);
        }
        let mut requests = Table::new();
        std::mem::swap(&mut requests, &mut self.requests);
        requests.take(user);
        self.requests = requests;
    }

    /// The configuration.
    pub fn params(&self) -> (params: &GameParameters)
        ensures
            *params == self@.params,
            self@.wf(),
    {
        proof {
            use_type_invariant(self);
        }
        &self.params
    }

    /// Whether `user` has a ledger entry.
    pub fn has_user(&self, user: &Identity) -> (r: bool)
        ensures
            r == self@.has_user(*user),
    {
        self.users.contains(user)
    }

    /// Whether `user` has a withdrawal request in flight.
    pub fn has_request(&self, user: &Identity) -> (r: bool)
        ensures
            r == self@.has_request(*user),
    {
        self.requests.contains(user)
    }

    /// The ledger entry of `user`, if the user has one.
    pub fn user_state(&self, user: &Identity) -> (state: Option<UserState>)
        ensures
            self@.wf(),
            state == (if self@.has_user(*user) {
                Some(self@.users[*user])
            } else {
                None
            }),
    {
        proof {
            use_type_invariant(self);
        }
        match self.users.get(user) {
            Some(state) => Some(*state),
            None => None,
        }
    }

    /// The withdrawal request of `user` that is in flight, if there is one.
    pub fn withdrawal_request(&self, user: &Identity) -> (request: Option<WithdrawalRequest>)
        ensures
            self@.wf(),
            request == (if self@.has_request(*user) {
                Some(self@.requests[*user])
            } else {
                None
            }),
    {
        proof {
            use_type_invariant(self);
        }
        match self.requests.get(user) {
            Some(request) => Some(*request),
            None => None,
        }
    }
}

/// Sets the house up with its configuration: no user yet, no request.
pub fn initialize(
    multiplier: u64,
    withdrawal_delay: i64,
    admins: Vec<Identity>,
    threshold: u8,
) -> (casino: Casino)
    requires
        valid_quorum(admins@, threshold),
    ensures
        casino@.wf(),
        casino@.users == Map::<Identity, UserState>::empty(),
        casino@.requests == Map::<Identity, WithdrawalRequest>::empty(),
        casino@.params.multiplier == multiplier,
        casino@.params.withdrawal_delay == withdrawal_delay,
        casino@.params.admins@ == admins@,
        casino@.params.threshold == threshold,
{
    Casino {
        params: GameParameters::new(multiplier, withdrawal_delay, admins, threshold),
        users: Table::new(),
        requests: Table::new(),
    }
}

/// Opens the ledger entry of `user`, with nothing in it.
///
/// `AlreadyInitialized` if the user has an entry: it is left as it is.
pub fn initialize_user(casino: &mut Casino, user: Identity) -> (r: Result<(), CasincError>)
    ensures
        final(casino)@.wf(),
        match old(casino)@.initialize_user(user) {
            Ok(state) => r is Ok && final(casino)@ == state,
            Err(e) => r == Err::<(), CasincError>(e) && final(casino)@ == old(casino)@,
        },
{
    proof {
        use_type_invariant(&*casino);
    }
    if casino.users.contains(&user) {
        return Err(CasincError::AlreadyInitialized);
    }
    casino.set_user(UserState::new(user));
    Ok(())
}

/// Adds `amount` to the deposit of `user`.
///
/// `ArithmeticOverflow` if the deposit would not fit. The user must have a
/// ledger entry, which `Casino::has_user` tells.
pub fn deposit(casino: &mut Casino, user: &Identity, amount: u64) -> (r: Result<(), CasincError>)
    requires
        old(casino)@.has_user(*user),
    ensures
        final(casino)@.wf(),
        match old(casino)@.deposit(*user, amount) {
            Ok(state) => r is Ok && final(casino)@ == state,
            Err(e) => r == Err::<(), CasincError>(e) && final(casino)@ == old(casino)@,
        },
        r is Ok <==> old(casino)@.users[*user].deposit + amount <= u64::MAX,
        r is Ok ==> final(casino)@.users[*user].deposit == old(casino)@.users[*user].deposit
            + amount,
        r is Err ==> r == Err::<(), CasincError>(CasincError::ArithmeticOverflow),
        final(casino)@.users[*user].deposit >= old(casino)@.users[*user].deposit,
{
    proof {
        use_type_invariant(&*casino);
    }
    let mut state = casino.user_state(user).unwrap();
    match state.deposit(amount) {
        Ok(()) => {
            casino.set_user(state);
            Ok(())
        },
        Err(e) => Err(e),
    }
}

/// Places a bet of `bet_amount` for `user` at time `now` and settles it at
/// once: the bet leaves the deposit, its payout joins the winnings, and the
/// winnings are locked until `now` plus the withdrawal delay.
///
/// `InsufficientFunds` if the bet exceeds the deposit; `ArithmeticOverflow`
/// if the payout, the winnings or the unlock time would not fit. The user
/// must have a ledger entry.
pub fn place_bet(
    casino: &mut Casino,
    user: &Identity,
    bet_amount: u64,
    now: i64,
) -> (r: Result<(), CasincError>)
    requires
        old(casino)@.has_user(*user),
    ensures
        final(casino)@.wf(),
        match old(casino)@.place_bet(*user, bet_amount, now) {
            Ok(state) => r is Ok && final(casino)@ == state,
            Err(e) => r == Err::<(), CasincError>(e) && final(casino)@ == old(casino)@,
        },
        bet_amount > old(casino)@.users[*user].deposit ==> r == Err::<(), CasincError>(
            CasincError::InsufficientFunds,
        ),
        r is Err ==> final(casino)@ == old(casino)@,
        r is Ok ==> {
            let before = old(casino)@.users[*user];
            let after = final(casino)@.users[*user];
            &&& after.deposit == before.deposit - bet_amount
            &&& after.winnings == before.winnings + bet_amount * old(casino)@.params.multiplier
            &&& after.unlock_time == now + old(casino)@.params.withdrawal_delay
        },
{
    proof {
        use_type_invariant(&*casino);
    }
    let mut state = casino.user_state(user).unwrap();
    match state.place_bet(&casino.params, bet_amount, now) {
        Ok(()) => {
            casino.set_user(state);
            Ok(())
        },
        Err(e) => Err(e),
    }
}

/// Sets `amount` of the winnings of `user` aside in a withdrawal request,
/// not yet approved.
///
/// `WithdrawalLocked` if `now` is before the unlock time; else
/// `InsufficientWinnings` if `amount` exceeds the winnings; else
/// `DuplicateRequest` if the user has a request in flight. The user must
/// have a ledger entry.
pub fn request_withdrawal(
    casino: &mut Casino,
    user: &Identity,
    amount: u64,
    now: i64,
) -> (r: Result<(), CasincError>)
    requires
        old(casino)@.has_user(*user),
    ensures
        final(casino)@.wf(),
        match old(casino)@.request_withdrawal(*user, amount, now) {
            Ok(state) => r is Ok && final(casino)@ == state,
            Err(e) => r == Err::<(), CasincError>(e) && final(casino)@ == old(casino)@,
        },
        now < old(casino)@.users[*user].unlock_time ==> r == Err::<(), CasincError>(
            CasincError::WithdrawalLocked,
        ),
        now >= old(casino)@.users[*user].unlock_time && amount > old(casino)@.users[*user].winnings
            ==> r == Err::<(), CasincError>(CasincError::InsufficientWinnings),
        r is Err ==> final(casino)@ == old(casino)@,
        r is Ok ==> {
            &&& !old(casino)@.has_request(*user)
            &&& final(casino)@.users[*user].winnings == old(casino)@.users[*user].winnings - amount
            &&& final(casino)@.has_request(*user)
            &&& final(casino)@.requests[*user] == WithdrawalRequest::pending(*user, amount)
        },
{
    proof {
        use_type_invariant(&*casino);
    }
    let mut state = casino.user_state(user).unwrap();
    match state.request_withdrawal(amount, now) {
        Ok(request) => {
            if casino.requests.contains(user) {
                return Err(CasincError::DuplicateRequest);
            }
            casino.set_user(state);
            casino.set_request(request);
            Ok(())
        },
        Err(e) => Err(e),
    }
}

/// Approves the withdrawal request of `user` if the distinct administrators
/// among `asserted` reach the threshold.
///
/// `NotEnoughSigners` if they do not: the request stays as it was.
/// Approving an approved request changes nothing. The user must have a
/// request in flight, which `Casino::has_request` tells. That each asserted
/// signer did sign is for the caller to have established.
pub fn approve_withdrawal(
    casino: &mut Casino,
    user: &Identity,
    asserted: &Vec<Identity>,
) -> (r: Result<(), CasincError>)
    requires
        old(casino)@.has_request(*user),
    ensures
        final(casino)@.wf(),
        match old(casino)@.approve_withdrawal(*user, asserted@) {
            Ok(state) => r is Ok && final(casino)@ == state,
            Err(e) => r == Err::<(), CasincError>(e) && final(casino)@ == old(casino)@,
        },
        r is Ok <==> signer_count(old(casino)@.params.admins@, asserted@)
            >= old(casino)@.params.threshold,
        r is Err ==> r == Err::<(), CasincError>(CasincError::NotEnoughSigners) && final(casino)@
            == old(casino)@,
        final(casino)@.has_request(*user),
        final(casino)@.requests[*user].approved == (old(casino)@.requests[*user].approved
            || r is Ok),
        final(casino)@.requests[*user].amount == old(casino)@.requests[*user].amount,
{
    proof {
        use_type_invariant(&*casino);
    }
    let mut request = casino.withdrawal_request(user).unwrap();
    match request.approve(&casino.params, asserted) {
        Ok(()) => {
            casino.set_request(request);
            Ok(())
        },
        Err(e) => Err(e),
    }
}

/// Decides what executing the withdrawal request of `user` pays.
///
/// `WithdrawalNotApproved` unless the user has a request and it is approved:
/// then nothing is to be paid. Otherwise the custodian is to make the
/// payout returned, and `retire_withdrawal` is to be called once it has.
/// Until then the request stays in flight, so that a payout that failed can
/// be tried again.
pub fn execute_withdrawal(casino: &Casino, user: &Identity) -> (r: Result<Payout, CasincError>)
    ensures
        casino@.wf(),
        r == casino@.execute_withdrawal(*user),
        r is Ok <==> casino@.has_request(*user) && casino@.requests[*user].approved,
        r is Err ==> r == Err::<Payout, CasincError>(CasincError::WithdrawalNotApproved),
        r is Ok ==> r->Ok_0.user == *user && r->Ok_0.amount == casino@.requests[*user].amount,
{
    proof {
        use_type_invariant(casino);
    }
    match casino.requests.get(user) {
        Some(request) => request.payout(),
        None => Err(CasincError::WithdrawalNotApproved),
    }
}

/// Retires the withdrawal request that `payout` was made for, so that it
/// cannot be executed again.
///
/// `WithdrawalNotApproved` unless executing that user's request calls for
/// exactly this payout: then nothing is retired.
pub fn retire_withdrawal(casino: &mut Casino, payout: &Payout) -> (r: Result<(), CasincError>)
    ensures
        final(casino)@.wf(),
        match old(casino)@.retire_withdrawal(*payout) {
            Ok(state) => r is Ok && final(casino)@ == state,
            Err(e) => r == Err::<(), CasincError>(e) && final(casino)@ == old(casino)@,
        },
        r is Ok ==> !final(casino)@.has_request(payout.user),
        r is Err ==> r == Err::<(), CasincError>(CasincError::WithdrawalNotApproved)
            && final(casino)@ == old(casino)@,
{
    proof {
        use_type_invariant(&*casino);
    }
    match casino.withdrawal_request(&payout.user) {
        Some(request) => {
            if request.approved && request.amount == payout.amount {
                casino.drop_request(&payout.user);
                Ok(())
            } else {
                Err(CasincError::WithdrawalNotApproved)
            }
        },
        None => Err(CasincError::WithdrawalNotApproved),
    }
}

/// Does nothing: the ledger keeps no clock of its own, and is told the time
/// by each operation that needs it.
pub fn advance_clock(_seconds: u64) -> (r: Result<(), CasincError>)
    ensures
        r is Ok,
{
    Ok(())
}

} // verus!
