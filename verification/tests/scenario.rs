use casinc::casino::{
    approve_withdrawal, deposit, execute_withdrawal, initialize, initialize_user, place_bet,
    request_withdrawal, retire_withdrawal,
};
use casinc::error::CasincError;
use casinc::identity::Identity;
use casinc::withdrawal::{Payout, WithdrawalRequest};

fn id(n: u8) -> Identity {
    Identity::new([n; 32])
}

#[test]
fn bet_lock_request_approve_execute() {
    let admins = vec![id(1), id(2), id(3)];
    let mut casino = initialize(2, 100, admins, 2);
    let user = id(9);
    let now: i64 = 1_000;

    assert_eq!(initialize_user(&mut casino, user), Ok(()));
    assert_eq!(deposit(&mut casino, &user, 500), Ok(()));
    assert_eq!(casino.user_state(&user).unwrap().deposit, 500);

    assert_eq!(place_bet(&mut casino, &user, 200, now), Ok(()));
    let state = casino.user_state(&user).unwrap();
    assert_eq!(state.deposit, 300);
    assert_eq!(state.winnings, 400);
    assert_eq!(state.unlock_time, now + 100);

    assert_eq!(
        request_withdrawal(&mut casino, &user, 400, now + 99),
        Err(CasincError::WithdrawalLocked)
    );
    assert_eq!(casino.user_state(&user).unwrap().winnings, 400);
    assert_eq!(casino.withdrawal_request(&user), None);

    assert_eq!(request_withdrawal(&mut casino, &user, 400, now + 100), Ok(()));
    assert_eq!(casino.user_state(&user).unwrap().winnings, 0);
    assert_eq!(
        casino.withdrawal_request(&user),
        Some(WithdrawalRequest { user, amount: 400, approved: false })
    );

    assert_eq!(approve_withdrawal(&mut casino, &user, &vec![id(1), id(3)]), Ok(()));
    assert_eq!(
        casino.withdrawal_request(&user),
        Some(WithdrawalRequest { user, amount: 400, approved: true })
    );

    let payout = execute_withdrawal(&casino, &user);
    assert_eq!(payout, Ok(Payout { user, amount: 400 }));
    assert_eq!(retire_withdrawal(&mut casino, &payout.unwrap()), Ok(()));
    assert_eq!(casino.withdrawal_request(&user), None);

    assert_eq!(execute_withdrawal(&casino, &user), Err(CasincError::WithdrawalNotApproved));
    assert_eq!(
        retire_withdrawal(&mut casino, &Payout { user, amount: 400 }),
        Err(CasincError::WithdrawalNotApproved)
    );
}
