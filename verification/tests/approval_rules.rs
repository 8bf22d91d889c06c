use casinc::approval::{all_distinct, count_signers, listed, signers_among, KeyAssertion};
use casinc::casino::{
    advance_clock, approve_withdrawal, deposit, execute_withdrawal, initialize, initialize_user,
    place_bet, request_withdrawal, retire_withdrawal, Casino,
};
use casinc::error::CasincError;
use casinc::identity::Identity;
use casinc::params::GameParameters;
use casinc::withdrawal::{Payout, WithdrawalRequest};

fn key(n: u8) -> Identity {
    Identity::new([n; 32])
}

fn with_request(threshold: u8, amount: u64) -> Casino {
    let mut casino = initialize(1, 0, vec![key(1), key(2), key(3)], threshold);
    assert_eq!(initialize_user(&mut casino, key(9)), Ok(()));
    assert_eq!(deposit(&mut casino, &key(9), amount), Ok(()));
    assert_eq!(place_bet(&mut casino, &key(9), amount, 0), Ok(()));
    assert_eq!(request_withdrawal(&mut casino, &key(9), amount, 0), Ok(()));
    casino
}

#[test]
fn identities_are_equal_when_their_bytes_are() {
    let mut bytes = [5u8; 32];
    assert_eq!(Identity::new(bytes), key(5));
    assert!(key(5).same(&Identity::new(bytes)));
    bytes[31] = 6;
    assert_ne!(Identity::new(bytes), key(5));
    assert!(!key(5).same(&Identity::new(bytes)));
    assert_eq!(Identity::new(bytes).to_bytes(), bytes);
    bytes[31] = 5;
    bytes[0] = 0;
    assert!(!(Identity::new(bytes) == key(5)));
}

#[test]
fn listed_finds_what_is_there() {
    let ids = vec![key(1), key(2), key(3)];
    assert!(listed(&ids, &key(1)));
    assert!(listed(&ids, &key(3)));
    assert!(!listed(&ids, &key(4)));
    assert!(!listed(&Vec::new(), &key(1)));
}

#[test]
fn distinctness_is_detected() {
    assert!(all_distinct(&Vec::new()));
    assert!(all_distinct(&vec![key(1)]));
    assert!(all_distinct(&vec![key(1), key(2), key(3)]));
    assert!(!all_distinct(&vec![key(1), key(2), key(1)]));
    assert!(!all_distinct(&vec![key(2), key(2)]));
}

#[test]
fn signers_are_counted_once_each() {
    let admins = vec![key(1), key(2), key(3)];
    assert_eq!(count_signers(&admins, &Vec::new()), 0);
    assert_eq!(count_signers(&admins, &vec![key(2)]), 1);
    assert_eq!(count_signers(&admins, &vec![key(2), key(2), key(2)]), 1);
    assert_eq!(count_signers(&admins, &vec![key(3), key(1)]), 2);
    assert_eq!(count_signers(&admins, &vec![key(3), key(1), key(3), key(2), key(1)]), 3);
}

#[test]
fn strangers_count_for_nothing() {
    let admins = vec![key(1), key(2), key(3)];
    assert_eq!(count_signers(&admins, &vec![key(4), key(5), key(6)]), 0);
    assert_eq!(count_signers(&admins, &vec![key(4), key(1), key(5)]), 1);
    assert_eq!(count_signers(&Vec::new(), &vec![key(1)]), 0);
}

#[test]
fn repeated_administrators_count_once() {
    let admins = vec![key(1), key(1), key(2), key(1)];
    assert_eq!(count_signers(&admins, &vec![key(1)]), 1);
    assert_eq!(count_signers(&admins, &vec![key(1), key(2)]), 2);
}

#[test]
fn a_quorum_needs_distinct_administrators_and_a_threshold_within_them() {
    let admins = vec![key(1), key(2), key(3)];
    assert!(!GameParameters::is_valid_quorum(&admins, 0));
    assert!(GameParameters::is_valid_quorum(&admins, 1));
    assert!(GameParameters::is_valid_quorum(&admins, 3));
    assert!(!GameParameters::is_valid_quorum(&admins, 4));
    assert!(!GameParameters::is_valid_quorum(&Vec::new(), 0));
    assert!(!GameParameters::is_valid_quorum(&Vec::new(), 1));
    assert!(!GameParameters::is_valid_quorum(&vec![key(1), key(1)], 1));
    let params = GameParameters::new(2, 100, admins, 2);
    assert!(params.is_valid());
    let broken = GameParameters { multiplier: 2, withdrawal_delay: 100, admins: vec![key(1)], threshold: 2 };
    assert!(!broken.is_valid());
}

#[test]
fn the_quorum_is_met_at_the_threshold() {
    let params = GameParameters::new(2, 100, vec![key(1), key(2), key(3)], 2);
    assert!(!params.quorum_met(&vec![key(1)]));
    assert!(!params.quorum_met(&vec![key(1), key(1), key(4)]));
    assert!(params.quorum_met(&vec![key(1), key(3)]));
    assert!(params.quorum_met(&vec![key(3), key(2), key(1)]));
}

#[test]
fn too_few_signers_leave_the_request_unapproved() {
    let mut casino = with_request(2, 40);
    assert_eq!(
        approve_withdrawal(&mut casino, &key(9), &vec![key(1), key(1), key(7)]),
        Err(CasincError::NotEnoughSigners)
    );
    assert_eq!(
        casino.withdrawal_request(&key(9)),
        Some(WithdrawalRequest { user: key(9), amount: 40, approved: false })
    );
    assert_eq!(execute_withdrawal(&casino, &key(9)), Err(CasincError::WithdrawalNotApproved));
}

#[test]
fn approving_again_changes_nothing() {
    let mut casino = with_request(2, 40);
    assert_eq!(approve_withdrawal(&mut casino, &key(9), &vec![key(2), key(3)]), Ok(()));
    let approved = casino.withdrawal_request(&key(9));
    assert_eq!(approved, Some(WithdrawalRequest { user: key(9), amount: 40, approved: true }));
    assert_eq!(approve_withdrawal(&mut casino, &key(9), &vec![key(2), key(3)]), Ok(()));
    assert_eq!(casino.withdrawal_request(&key(9)), approved);
    assert_eq!(approve_withdrawal(&mut casino, &key(9), &vec![key(1), key(2)]), Ok(()));
    assert_eq!(casino.withdrawal_request(&key(9)), approved);
}

#[test]
fn an_approval_never_reverts() {
    let mut casino = with_request(3, 40);
    assert_eq!(approve_withdrawal(&mut casino, &key(9), &vec![key(1), key(2), key(3)]), Ok(()));
    assert_eq!(
        approve_withdrawal(&mut casino, &key(9), &vec![key(1)]),
        Err(CasincError::NotEnoughSigners)
    );
    assert_eq!(
        casino.withdrawal_request(&key(9)),
        Some(WithdrawalRequest { user: key(9), amount: 40, approved: true })
    );
}

#[test]
fn a_request_approves_by_itself_as_the_store_does() {
    let params = GameParameters::new(2, 100, vec![key(1), key(2), key(3)], 2);
    let mut request = WithdrawalRequest::new(key(9), 15);
    assert_eq!(request, WithdrawalRequest { user: key(9), amount: 15, approved: false });
    assert_eq!(request.payout(), Err(CasincError::WithdrawalNotApproved));
    assert_eq!(request.approve(&params, &vec![key(3)]), Err(CasincError::NotEnoughSigners));
    assert!(!request.approved);
    assert_eq!(request.approve(&params, &vec![key(3), key(2)]), Ok(()));
    assert_eq!(request, WithdrawalRequest { user: key(9), amount: 15, approved: true });
    assert_eq!(request.payout(), Ok(Payout { user: key(9), amount: 15 }));
}

#[test]
fn nothing_is_paid_without_a_request() {
    let mut casino = initialize(1, 0, vec![key(1)], 1);
    assert_eq!(initialize_user(&mut casino, key(9)), Ok(()));
    assert_eq!(execute_withdrawal(&casino, &key(9)), Err(CasincError::WithdrawalNotApproved));
    assert_eq!(execute_withdrawal(&casino, &key(8)), Err(CasincError::WithdrawalNotApproved));
    assert_eq!(
        retire_withdrawal(&mut casino, &Payout { user: key(9), amount: 0 }),
        Err(CasincError::WithdrawalNotApproved)
    );
}

#[test]
fn a_failed_payout_can_be_tried_again() {
    let mut casino = with_request(1, 40);
    assert_eq!(approve_withdrawal(&mut casino, &key(9), &vec![key(2)]), Ok(()));
    let first = execute_withdrawal(&casino, &key(9));
    let again = execute_withdrawal(&casino, &key(9));
    assert_eq!(first, Ok(Payout { user: key(9), amount: 40 }));
    assert_eq!(again, first);
    assert_eq!(
        casino.withdrawal_request(&key(9)),
        Some(WithdrawalRequest { user: key(9), amount: 40, approved: true })
    );
}

#[test]
fn only_the_payout_that_was_due_retires_the_request() {
    let mut casino = with_request(1, 40);
    assert_eq!(
        retire_withdrawal(&mut casino, &Payout { user: key(9), amount: 40 }),
        Err(CasincError::WithdrawalNotApproved)
    );
    assert_eq!(approve_withdrawal(&mut casino, &key(9), &vec![key(2)]), Ok(()));
    assert_eq!(
        retire_withdrawal(&mut casino, &Payout { user: key(9), amount: 39 }),
        Err(CasincError::WithdrawalNotApproved)
    );
    assert_eq!(
        retire_withdrawal(&mut casino, &Payout { user: key(8), amount: 40 }),
        Err(CasincError::WithdrawalNotApproved)
    );
    assert!(casino.withdrawal_request(&key(9)).is_some());
    assert_eq!(retire_withdrawal(&mut casino, &Payout { user: key(9), amount: 40 }), Ok(()));
    assert_eq!(casino.withdrawal_request(&key(9)), None);
}

#[test]
fn a_retired_request_makes_room_for_the_next() {
    let mut casino = with_request(1, 40);
    assert_eq!(deposit(&mut casino, &key(9), 5), Ok(()));
    assert_eq!(place_bet(&mut casino, &key(9), 5, 0), Ok(()));
    assert_eq!(approve_withdrawal(&mut casino, &key(9), &vec![key(1)]), Ok(()));
    let payout = execute_withdrawal(&casino, &key(9)).unwrap();
    assert_eq!(retire_withdrawal(&mut casino, &payout), Ok(()));
    assert_eq!(execute_withdrawal(&casino, &key(9)), Err(CasincError::WithdrawalNotApproved));
    assert_eq!(request_withdrawal(&mut casino, &key(9), 5, 0), Ok(()));
    assert_eq!(
        casino.withdrawal_request(&key(9)),
        Some(WithdrawalRequest { user: key(9), amount: 5, approved: false })
    );
    assert_eq!(execute_withdrawal(&casino, &key(9)), Err(CasincError::WithdrawalNotApproved));
}

#[test]
fn advancing_the_clock_does_nothing() {
    assert_eq!(advance_clock(0), Ok(()));
    assert_eq!(advance_clock(u64::MAX), Ok(()));
}

#[test]
fn every_rejection_has_its_message() {
    assert_eq!(CasincError::InsufficientFunds.message(), "Insufficient funds");
    assert_eq!(CasincError::WithdrawalLocked.message(), "Withdrawal is still locked");
    assert_eq!(CasincError::NotEnoughSigners.message(), "Not enough admin signers");
    assert_eq!(CasincError::WithdrawalNotApproved.message(), "Withdrawal not approved");
    assert_eq!(CasincError::InsufficientWinnings.message(), "Insufficient winnings");
    assert_eq!(CasincError::AlreadyInitialized.message(), "User is already initialized");
    assert_eq!(CasincError::ArithmeticOverflow.message(), "Arithmetic overflow");
    assert_eq!(
        CasincError::DuplicateRequest.message(),
        "A withdrawal request is already pending"
    );
}

#[test]
fn only_keys_that_signed_are_asserted() {
    let presented = vec![
        KeyAssertion { key: key(1), is_signer: true },
        KeyAssertion { key: key(2), is_signer: false },
        KeyAssertion { key: key(3), is_signer: true },
        KeyAssertion { key: key(1), is_signer: true },
    ];
    assert_eq!(signers_among(&presented), vec![key(1), key(3), key(1)]);
    assert_eq!(signers_among(&Vec::new()), Vec::<Identity>::new());
    let params = GameParameters::new(2, 100, vec![key(1), key(2), key(3)], 2);
    assert!(params.quorum_met(&signers_among(&presented)));
    assert!(!params.quorum_met(&signers_among(&presented[1..3].to_vec())));
}

#[test]
fn the_house_knows_its_users_and_requests() {
    let mut casino = with_request(1, 10);
    assert!(casino.has_user(&key(9)));
    assert!(!casino.has_user(&key(8)));
    assert!(casino.has_request(&key(9)));
    assert!(!casino.has_request(&key(8)));
    assert_eq!(approve_withdrawal(&mut casino, &key(9), &vec![key(3)]), Ok(()));
    let payout = execute_withdrawal(&casino, &key(9)).unwrap();
    assert_eq!(retire_withdrawal(&mut casino, &payout), Ok(()));
    assert!(!casino.has_request(&key(9)));
    assert!(casino.has_user(&key(9)));
}
