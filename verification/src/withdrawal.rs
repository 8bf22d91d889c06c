//! A withdrawal request: winnings set aside for a user until a quorum of
//! administrators approves paying them out.

use vstd::prelude::*;
use crate::approval::signer_count;
use crate::error::CasincError;
use crate::identity::Identity;
use crate::params::GameParameters;

verus! {

/// Winnings that a user has asked to withdraw.
///
/// The amount is fixed when the request is made. Approval only ever goes from
/// `false` to `true`.
#[derive(Clone, Copy, Debug, PartialEq, Eq)]
pub struct WithdrawalRequest {
    /// The user the request belongs to.
    pub user: Identity,
    /// The winnings set aside.
    pub amount: u64,
    /// Whether a quorum has approved the request.
    pub approved: bool,
}

/// An order to the custodian: move `amount` to `user`.
#[derive(Clone, Copy, Debug, PartialEq, Eq)]
pub struct Payout {
    /// Who is paid.
    pub user: Identity,
    /// How much.
    pub amount: u64,
}

impl WithdrawalRequest {
    /// The request as it is made: not yet approved.
    pub open spec fn pending(user: Identity, amount: u64) -> WithdrawalRequest {
        WithdrawalRequest { user, amount, approved: false }
    }

    /// The request after `asserted` have signed for it, or why they do not
    /// suffice.
    pub open spec fn after_approval(
        self,
        params: GameParameters,
        asserted: Seq<Identity>,
    ) -> Result<WithdrawalRequest, CasincError> {
        if params.approves(asserted) {
            Ok(WithdrawalRequest { user: self.user, amount: self.amount, approved: true })
        } else {
            Err(CasincError::NotEnoughSigners)
        }
    }

    /// What executing the request pays, or why it pays nothing.
    pub open spec fn due(self) -> Result<Payout, CasincError> {
        if self.approved {
            Ok(Payout { user: self.user, amount: self.amount })
        } else {
            Err(CasincError::WithdrawalNotApproved)
        }
    }

    /// A request of `user` for `amount`, not yet approved.
    pub fn new(user: Identity, amount: u64) -> (request: WithdrawalRequest)
        ensures
            request == WithdrawalRequest::pending(user, amount),
    {
        WithdrawalRequest { user, amount, approved: false }
    }

    /// Approves the request if the distinct administrators among `asserted`
    /// reach the threshold, and rejects the attempt with `NotEnoughSigners`
    /// if they do not.
    ///
    /// That each asserted signer did sign is for the caller to have
    /// established. Approving an approved request changes nothing.
    pub fn approve(
        &mut self,
        params: &GameParameters,
        asserted: &Vec<Identity>,
    ) -> (r: Result<(), CasincError>)
        ensures
            match old(self).after_approval(*params, asserted@) {
                Ok(request) => r is Ok && *final(self) == request,
                Err(e) => r == Err::<(), CasincError>(e) && *final(self) == *old(self),
            },
            r is Ok <==> signer_count(params.admins@, asserted@) >= params.threshold,
            r is Err ==> r == Err::<(), CasincError>(CasincError::NotEnoughSigners),
            final(self).approved == (old(self).approved || r is Ok),
            final(self).user == old(self).user,
            final(self).amount == old(self).amount,
    {
        if !params.quorum_met(asserted) {
            return Err(CasincError::NotEnoughSigners);
        }
        self.approved = true;
        Ok(())
    }

    /// The payout that executing the request calls for:
    /// `WithdrawalNotApproved` unless the request is approved.
    pub fn payout(&self) -> (r: Result<Payout, CasincError>)
        ensures
            r == self.due(),
            r is Ok <==> self.approved,
            r is Err ==> r == Err::<Payout, CasincError>(CasincError::WithdrawalNotApproved),
            r is Ok ==> r->Ok_0.user == self.user && r->Ok_0.amount == self.amount,
    {
        if !self.approved {
            return Err(CasincError::WithdrawalNotApproved);
        }
        Ok(Payout { user: self.user, amount: self.amount })
    }
}

} // verus!
