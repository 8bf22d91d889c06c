//! The configuration of the game: the payout ratio, the time-lock on
//! winnings, and the administrators with the quorum they form.

use vstd::prelude::*;
use crate::approval::{all_distinct, count_signers, signer_count};
use crate::identity::Identity;

verus! {

/// Whether `threshold` of the `admins` can form a quorum: the administrators
/// are distinct, and the threshold asks for at least one of them and for no
/// more than there are.
pub open spec fn valid_quorum(admins: Seq<Identity>, threshold: u8) -> bool {
    &&& admins.no_duplicates()
    &&& 1 <= threshold <= admins.len()
}

/// The configuration that the ledger is set up with.
#[derive(Debug)]
pub struct GameParameters {
    /// What a bet of one unit pays.
    pub multiplier: u64,
    /// Seconds from a bet until winnings may be withdrawn.
    pub withdrawal_delay: i64,
    /// The administrators who may approve withdrawals.
    pub admins: Vec<Identity>,
    /// How many distinct administrators must sign an approval.
    pub threshold: u8,
}

impl GameParameters {
    /// Whether the administrators and the threshold form a quorum.
    pub open spec fn wf(&self) -> bool {
        valid_quorum(self.admins@, self.threshold)
    }

    /// Whether `asserted` holds enough administrators to approve.
    pub open spec fn approves(&self, asserted: Seq<Identity>) -> bool {
        signer_count(self.admins@, asserted) >= self.threshold
    }

    /// The configuration with these values.
    pub fn new(
        multiplier: u64,
        withdrawal_delay: i64,
        admins: Vec<Identity>,
        threshold: u8,
    ) -> (params: GameParameters)
        requires
            valid_quorum(admins@, threshold),
        ensures
            params.wf(),
            params.multiplier == multiplier,
            params.withdrawal_delay == withdrawal_delay,
            params.admins@ == admins@,
            params.threshold == threshold,
    {
        GameParameters { multiplier, withdrawal_delay, admins, threshold }
    }

    /// Whether `threshold` of the `admins` can form a quorum.
    pub fn is_valid_quorum(admins: &Vec<Identity>, threshold: u8) -> (r: bool)
        ensures
            r == valid_quorum(admins@, threshold),
    {
        1 <= threshold && threshold as usize <= admins.len() && all_distinct(admins)
    }

    /// Whether this configuration is well formed.
    pub fn is_valid(&self) -> (r: bool)
        ensures
            r == self.wf(),
    {
        GameParameters::is_valid_quorum(&self.admins, self.threshold)
    }

    /// Whether the distinct administrators among `asserted` reach the
    /// threshold.
    pub fn quorum_met(&self, asserted: &Vec<Identity>) -> (r: bool)
        ensures
            r == self.approves(asserted@),
    {
        count_signers(&self.admins, asserted) >= self.threshold as usize
    }
}

} // verus!
