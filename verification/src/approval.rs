//! Counting a quorum: which of the administrators are among the parties
//! that a caller asserts have signed.
//!
//! The count is a function of the two lists alone. It is taken over
//! identities, not over list entries: an identity that is listed twice counts
//! once, and one that is no administrator counts for nothing.

use vstd::prelude::*;
use vstd::seq_lib::seq_to_set_is_finite;
use vstd::set_lib::lemma_len_intersect;
use crate::identity::Identity;

verus! {

/// A key that came with a call, and whether that key signed the call.
#[derive(Clone, Copy, Debug, PartialEq, Eq)]
pub struct KeyAssertion {
    /// The key.
    pub key: Identity,
    /// Whether the key signed.
    pub is_signer: bool,
}

/// The keys among `presented` that signed, in the order in which they came.
pub open spec fn asserted_signers(presented: Seq<KeyAssertion>) -> Seq<Identity> {
    presented.filter_map(
        |assertion: KeyAssertion|
            if assertion.is_signer {
                Some(assertion.key)
            } else {
                None
            },
    )
}

/// The number of distinct identities that are both administrators and
/// asserted signers.
pub open spec fn signer_count(admins: Seq<Identity>, asserted: Seq<Identity>) -> nat {
    admins.to_set().intersect(asserted.to_set()).len()
}

/// No more signers are counted than there are administrators, nor than
/// there are asserted signers.
pub proof fn lemma_signer_count_is_bounded(admins: Seq<Identity>, asserted: Seq<Identity>)
    ensures
        signer_count(admins, asserted) <= admins.len(),
        signer_count(admins, asserted) <= asserted.len(),
{
    broadcast use seq_to_set_is_finite;

    admins.lemma_cardinality_of_set();
    asserted.lemma_cardinality_of_set();
    lemma_len_intersect(admins.to_set(), asserted.to_set());
    lemma_len_intersect(asserted.to_set(), admins.to_set());
    assert(admins.to_set().intersect(asserted.to_set()) =~= asserted.to_set().intersect(
        admins.to_set(),
    ));
}

/// Where nobody is asserted to have signed, nobody is counted.
pub proof fn lemma_no_signers(admins: Seq<Identity>)
    ensures
        signer_count(admins, Seq::<Identity>::empty()) == 0,
{
    assert(admins.to_set().intersect(Seq::<Identity>::empty().to_set()) =~= Set::<
        Identity,
    >::empty());
}

/// What one more asserted signer adds to the count: one, if it is an
/// administrator that was not asserted yet; nothing, if it was asserted
/// already or is no administrator.
pub proof fn lemma_one_more_signer(admins: Seq<Identity>, asserted: Seq<Identity>, signer: Identity)
    ensures
        signer_count(admins, asserted.push(signer)) == signer_count(admins, asserted) + (if
            admins.contains(signer) && !asserted.contains(signer) {
            1nat
        } else {
            0nat
        }),
{
    broadcast use seq_to_set_is_finite;

    asserted.lemma_push_to_set_commute(signer);
    let before = admins.to_set().intersect(asserted.to_set());
    let after = admins.to_set().intersect(asserted.push(signer).to_set());
    if admins.contains(signer) && !asserted.contains(signer) {
        assert(after =~= before.insert(signer));
    } else {
        assert(after =~= before);
    }
}

/// Whether `key` is among the first `end` entries of `ids`.
fn listed_before(ids: &Vec<Identity>, end: usize, key: &Identity) -> (r: bool)
    requires
        end <= ids.len(),
    ensures
        r == ids@.take(end as int).contains(*key),
{
    let mut i: usize = 0;
    while i < end
        invariant
            i <= end <= ids.len(),
            forall|k: int| 0 <= k < i ==> ids@[k] != *key,
        decreases end - i,
    {
        if ids[i] == *key {
            assert(ids@.take(end as int)[i as int] == *key);
            return true;
        }
        i += 1;
    }
    false
}

/// Whether `key` is listed in `ids`.
pub fn listed(ids: &Vec<Identity>, key: &Identity) -> (r: bool)
    ensures
        r == ids@.contains(*key),
{
    assert(ids@.take(ids@.len() as int) =~= ids@);
    listed_before(ids, ids.len(), key)
}

/// Whether no identity is listed twice in `ids`.
pub fn all_distinct(ids: &Vec<Identity>) -> (r: bool)
    ensures
        r == ids@.no_duplicates(),
{
    let mut j: usize = 0;
    while j < ids.len()
        invariant
            j <= ids.len(),
            ids@.take(j as int).no_duplicates(),
        decreases ids.len() - j,
    {
        if listed_before(ids, j, &ids[j]) {
            return false;
        }
        j += 1;
    }
    assert(ids@.take(ids@.len() as int) =~= ids@);
    true
}

/// The keys among `presented` that signed: the asserted signers of a call.
pub fn signers_among(presented: &Vec<KeyAssertion>) -> (signers: Vec<Identity>)
    ensures
        signers@ == asserted_signers(presented@),
{
    let mut signers: Vec<Identity> = Vec::new();
    let mut i: usize = 0;
    while i < presented.len()
        invariant
            i <= presented.len(),
            signers@ == asserted_signers(presented@.take(i as int)),
        decreases presented.len() - i,
    {
        proof {
            let next = presented@.take(i + 1);
            assert(next.drop_last() =~= presented@.take(i as int));
        }
        if presented[i].is_signer {
            signers.push(presented[i].key);
        }
        i += 1;
    }
    assert(presented@.take(presented@.len() as int) =~= presented@);
    signers
}

/// Counts the distinct identities that are both in `admins` and in
/// `asserted`.
///
/// Whether an asserted signer did sign is for the caller to have
/// established; this only counts.
pub fn count_signers(admins: &Vec<Identity>, asserted: &Vec<Identity>) -> (n: usize)
    ensures
        n == signer_count(admins@, asserted@),
        n <= admins@.len(),
{
    broadcast use seq_to_set_is_finite;

    let mut n: usize = 0;
    let mut i: usize = 0;
    assert(admins@.take(0).to_set().intersect(asserted@.to_set()) =~= Set::<Identity>::empty());
    while i < admins.len()
        invariant
            i <= admins.len(),
            n <= i,
            n == admins@.take(i as int).to_set().intersect(asserted@.to_set()).len(),
        decreases admins.len() - i,
    {
        let admin = &admins[i];
        let seen = listed_before(admins, i, admin);
        let signed = listed(asserted, admin);
        proof {
            let head = admins@.take(i as int);
            let next = admins@.take(i + 1);
            let signers = asserted@.to_set();
            assert(head.push(*admin) =~= next);
            head.lemma_push_to_set_commute(*admin);
            if seen {
                assert(next.to_set() =~= head.to_set());
            } else if signed {
                assert(next.to_set().intersect(signers) =~= head.to_set().intersect(signers).insert(
                    *admin,
                ));
            } else {
                assert(next.to_set().intersect(signers) =~= head.to_set().intersect(signers));
            }
        }
        if !seen && signed {
            n += 1;
        }
        i += 1;
    }
    assert(admins@.take(admins@.len() as int) =~= admins@);
    n
}

} // verus!
