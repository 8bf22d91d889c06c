//! A user's balances and the rules that move them: depositing, betting, and
//! setting winnings aside for withdrawal.

use vstd::prelude::*;
use crate::error::CasincError;
use crate::identity::Identity;
use crate::params::GameParameters;
use crate::withdrawal::WithdrawalRequest;

verus! {

/// What a user holds with the house.
#[derive(Clone, Copy, Debug, PartialEq, Eq)]
pub struct UserState {
    /// The user the entry belongs to.
    pub user: Identity,
    /// Funds that can be bet.
    pub deposit: u64,
    /// Funds that can be withdrawn once unlocked.
    pub winnings: u64,
    /// The time before which winnings cannot be withdrawn; 0 until the
    /// first bet.
    pub unlock_time: i64,
}

impl UserState {
    /// The entry of a user who has done nothing yet.
    pub open spec fn opened(user: Identity) -> UserState {
        UserState { user, deposit: 0, winnings: 0, unlock_time: 0 }
    }

    /// The entry after depositing `amount`, or why it cannot be deposited.
    pub open spec fn after_deposit(self, amount: u64) -> Result<UserState, CasincError> {
        if self.deposit + amount > u64::MAX {
            Err(CasincError::ArithmeticOverflow)
        } else {
            Ok(
                UserState {
                    user: self.user,
                    deposit: (self.deposit + amount) as u64,
                    winnings: self.winnings,
                    unlock_time: self.unlock_time,
                },
            )
        }
    }

    /// The entry after betting `bet` at time `now`, or why the bet is
    /// refused.
    ///
    /// The bet leaves the deposit, `bet * multiplier` joins the winnings, and
    /// the unlock time becomes `now + withdrawal_delay`, whatever it was.
    pub open spec fn after_bet(
        self,
        params: GameParameters,
        bet: u64,
        now: i64,
    ) -> Result<UserState, CasincError> {
        if bet > self.deposit {
            Err(CasincError::InsufficientFunds)
        } else if self.winnings + bet * params.multiplier > u64::MAX
            || now + params.withdrawal_delay > i64::MAX
            || now + params.withdrawal_delay < i64::MIN {
            Err(CasincError::ArithmeticOverflow)
        } else {
            Ok(
                UserState {
                    user: self.user,
                    deposit: (self.deposit - bet) as u64,
                    winnings: (self.winnings + bet * params.multiplier) as u64,
                    unlock_time: (now + params.withdrawal_delay) as i64,
                },
            )
        }
    }

    /// The entry after setting `amount` of the winnings aside at time `now`,
    /// or why that is refused.
    pub open spec fn after_request(self, amount: u64, now: i64) -> Result<UserState, CasincError> {
        if now < self.unlock_time {
            Err(CasincError::WithdrawalLocked)
        } else if amount > self.winnings {
            Err(CasincError::InsufficientWinnings)
        } else {
            Ok(
                UserState {
                    user: self.user,
                    deposit: self.deposit,
                    winnings: (self.winnings - amount) as u64,
                    unlock_time: self.unlock_time,
                },
            )
        }
    }

    /// The entry of a user who has done nothing yet.
    pub fn new(user: Identity) -> (state: UserState)
        ensures
            state == UserState::opened(user),
    {
        UserState { user, deposit: 0, winnings: 0, unlock_time: 0 }
    }

    /// Adds `amount` to the deposit; `ArithmeticOverflow` if the sum does
    /// not fit.
    pub fn deposit(&mut self, amount: u64) -> (r: Result<(), CasincError>)
        ensures
            match old(self).after_deposit(amount) {
                Ok(state) => r is Ok && *final(self) == state,
                Err(e) => r == Err::<(), CasincError>(e) && *final(self) == *old(self),
            },
            r is Ok <==> old(self).deposit + amount <= u64::MAX,
            r is Ok ==> final(self).deposit == old(self).deposit + amount,
            r is Err ==> r == Err::<(), CasincError>(CasincError::ArithmeticOverflow),
            final(self).deposit >= old(self).deposit,
    {
        match self.deposit.checked_add(amount) {
            Some(sum) => {
                self.deposit = sum;
                Ok(())
            },
            None => Err(CasincError::ArithmeticOverflow),
        }
    }

    /// Places a bet of `bet_amount` at time `now`.
    ///
    /// `InsufficientFunds` if the bet exceeds the deposit;
    /// `ArithmeticOverflow` if the payout, the new winnings or the new unlock
    /// time does not fit. Otherwise the bet is settled at once.
    pub fn place_bet(
        &mut self,
        params: &GameParameters,
        bet_amount: u64,
        now: i64,
    ) -> (r: Result<(), CasincError>)
        ensures
            match old(self).after_bet(*params, bet_amount, now) {
                Ok(state) => r is Ok && *final(self) == state,
                Err(e) => r == Err::<(), CasincError>(e) && *final(self) == *old(self),
            },
            bet_amount > old(self).deposit ==> r == Err::<(), CasincError>(
                CasincError::InsufficientFunds,
            ),
            r is Err ==> *final(self) == *old(self),
            r is Ok ==> {
                &&& final(self).deposit == old(self).deposit - bet_amount
                &&& final(self).winnings == old(self).winnings + bet_amount * params.multiplier
                &&& final(self).unlock_time == now + params.withdrawal_delay
            },
    {
        if self.deposit < bet_amount {
            return Err(CasincError::InsufficientFunds);
        }
        let payout = match bet_amount.checked_mul(params.multiplier) {
            Some(payout) => payout,
            None => {
                return Err(CasincError::ArithmeticOverflow);
            },
        };
        let winnings = match self.winnings.checked_add(payout) {
            Some(winnings) => winnings,
            None => {
                return Err(CasincError::ArithmeticOverflow);
            },
        };
        let unlock_time = match now.checked_add(params.withdrawal_delay) {
            Some(unlock_time) => unlock_time,
            None => {
                return Err(CasincError::ArithmeticOverflow);
            },
        };
        self.deposit = self.deposit - bet_amount;
        self.winnings = winnings;
        self.unlock_time = unlock_time;
        Ok(())
    }

    /// Sets `amount` of the winnings aside in a new withdrawal request.
    ///
    /// `WithdrawalLocked` if `now` is before the unlock time, else
    /// `InsufficientWinnings` if `amount` exceeds the winnings.
    pub fn request_withdrawal(
        &mut self,
        amount: u64,
        now: i64,
    ) -> (r: Result<WithdrawalRequest, CasincError>)
        ensures
            match old(self).after_request(amount, now) {
                Ok(state) => r == Ok::<WithdrawalRequest, CasincError>(
                    WithdrawalRequest::pending(old(self).user, amount),
                ) && *final(self) == state,
                Err(e) => r == Err::<WithdrawalRequest, CasincError>(e) && *final(self) == *old(self),
            },
            now < old(self).unlock_time ==> r == Err::<WithdrawalRequest, CasincError>(
                CasincError::WithdrawalLocked,
            ),
            now >= old(self).unlock_time && amount > old(self).winnings ==> r == Err::<
                WithdrawalRequest,
                CasincError,
            >(CasincError::InsufficientWinnings),
            r is Err ==> *final(self) == *old(self),
            r is Ok ==> final(self).winnings == old(self).winnings - amount,
    {
        if now < self.unlock_time {
            return Err(CasincError::WithdrawalLocked);
        }
        if self.winnings < amount {
            return Err(CasincError::InsufficientWinnings);
        }
        self.winnings = self.winnings - amount;
        Ok(WithdrawalRequest::new(self.user, amount))
    }
}

} // verus!
