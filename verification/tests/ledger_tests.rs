use ratio::imbalance::SignedImbalance;
use ratio::ledger::Ledger;
use ratio::types::ExistenceRequirement;
use ratio::types::LedgerError;
use ratio::types::TrackingType;
use ratio::types::WithdrawReason;

const ALICE: u64 = 1;
const BOB: u64 = 2;
const CAROL: u64 = 3;

#[test]
fn balance_is_added_minus_used() {
    let mut l = Ledger::new();
    let t1 = l.deposit_creating(ALICE, 100);
    let t2 = l
        .withdraw(ALICE, 30, WithdrawReason::Fee, ExistenceRequirement::AllowDeath)
        .unwrap();
    assert_eq!(l.entry(ALICE, TrackingType::AddValue), 100);
    assert_eq!(l.entry(ALICE, TrackingType::UseValue), 30);
    assert_eq!(l.total_balance(ALICE), 100 - 30);
    assert_eq!(l.total_balance(CAROL), 0);
    t1.dispose(&mut l);
    t2.dispose(&mut l);
}

#[test]
fn conservation_after_mixed_operations() {
    let mut l = Ledger::new();
    let t1 = l.deposit_creating(ALICE, 500);
    let t2 = l.deposit_creating(BOB, 200);
    assert!(l
        .transfer(ALICE, BOB, 120, ExistenceRequirement::AllowDeath)
        .is_ok());
    let t3 = l
        .withdraw(BOB, 20, WithdrawReason::Fee, ExistenceRequirement::KeepAlive)
        .unwrap();
    let (t4, shortfall) = l.slash(ALICE, 80);
    assert_eq!(shortfall, 0);
    let t5 = l.burn(10);
    let t6 = l.issue(40);
    // Carol has no ledger presence yet: the token comes back unconsumed
    let t6 = l.resolve_into_existing(CAROL, t6).unwrap_err();
    l.resolve_creating(CAROL, t6);
    // consume every outstanding token, then the books must balance
    t1.dispose(&mut l);
    t2.dispose(&mut l);
    t3.dispose(&mut l);
    t4.dispose(&mut l);
    t5.dispose(&mut l);
    let sum = l.total_balance(ALICE) + l.total_balance(BOB) + l.total_balance(CAROL);
    assert_eq!(l.total_issuance(), sum);
}

#[test]
fn failed_transfer_changes_nothing() {
    let mut l = Ledger::new();
    let t1 = l.deposit_creating(ALICE, 50);
    let t2 = l.deposit_creating(BOB, 7);
    let r = l.transfer(ALICE, BOB, 51, ExistenceRequirement::AllowDeath);
    assert_eq!(r, Err(LedgerError::InsufficientBalance));
    assert_eq!(l.total_balance(ALICE), 50);
    assert_eq!(l.total_balance(BOB), 7);
    t1.dispose(&mut l);
    t2.dispose(&mut l);
}

#[test]
fn transfer_moves_exactly_the_amount() {
    let mut l = Ledger::new();
    let t1 = l.deposit_creating(ALICE, 50);
    assert!(l
        .transfer(ALICE, BOB, 20, ExistenceRequirement::AllowDeath)
        .is_ok());
    assert_eq!(l.total_balance(ALICE), 30);
    assert_eq!(l.total_balance(BOB), 20);
    t1.dispose(&mut l);
    assert_eq!(l.total_issuance(), 50);
}

#[test]
fn transfer_to_self_changes_nothing_visible() {
    let mut l = Ledger::new();
    let t1 = l.deposit_creating(ALICE, 50);
    assert!(l
        .transfer(ALICE, ALICE, 20, ExistenceRequirement::AllowDeath)
        .is_ok());
    assert_eq!(l.total_balance(ALICE), 50);
    t1.dispose(&mut l);
}

#[test]
fn deposit_then_dispose_raises_issuance_by_exactly_the_value() {
    let mut l = Ledger::new();
    let token = l.deposit_creating(ALICE, 75);
    assert_eq!(token.peek(), 75);
    assert_eq!(l.total_balance(ALICE), 75);
    assert_eq!(l.total_issuance(), 0);
    token.dispose(&mut l);
    assert_eq!(l.total_issuance(), 75);
}

#[test]
fn issue_then_resolve_matches_deposit_then_dispose() {
    // path one: deposit, then dispose the token
    let mut a = Ledger::new();
    let token = a.deposit_creating(ALICE, 75);
    token.dispose(&mut a);
    // path two: issue, then resolve the token into the account
    let mut b = Ledger::new();
    let token = b.issue(75);
    b.resolve_creating(ALICE, token);
    // both paths must agree on every observable
    assert_eq!(a.total_balance(ALICE), b.total_balance(ALICE));
    assert_eq!(a.total_issuance(), b.total_issuance());
    assert_eq!(
        a.total_supply(TrackingType::AddValue),
        b.total_supply(TrackingType::AddValue)
    );
    assert_eq!(
        a.total_supply(TrackingType::UseValue),
        b.total_supply(TrackingType::UseValue)
    );
}

#[test]
fn resolve_into_missing_account_returns_the_token_unconsumed() {
    let mut l = Ledger::new();
    let t1 = l.deposit_creating(ALICE, 10);
    let token = l.issue(33);
    let supply_before = l.total_supply(TrackingType::AddValue);
    let r = l.resolve_into_existing(BOB, token);
    let returned = r.expect_err("no such account, the token must come back");
    assert_eq!(returned.peek(), 33);
    assert_eq!(l.total_balance(BOB), 0);
    assert_eq!(l.total_balance(ALICE), 10);
    assert_eq!(l.total_supply(TrackingType::AddValue), supply_before);
    returned.dispose(&mut l);
    t1.dispose(&mut l);
}

#[test]
fn slash_beyond_balance_takes_everything_and_reports_the_shortfall() {
    let mut l = Ledger::new();
    let t1 = l.deposit_creating(ALICE, 40);
    let (token, shortfall) = l.slash(ALICE, 100);
    assert_eq!(token.peek(), 40);
    assert_eq!(shortfall, 60);
    assert_eq!(l.total_balance(ALICE), 0);
    token.dispose(&mut l);
    t1.dispose(&mut l);
}

#[test]
fn withdraw_more_than_the_balance_fails_without_mutation() {
    let mut l = Ledger::new();
    let t1 = l.deposit_creating(ALICE, 5);
    let r = l.withdraw(ALICE, 6, WithdrawReason::Transfer, ExistenceRequirement::AllowDeath);
    assert!(matches!(r, Err(LedgerError::InsufficientBalance)));
    assert_eq!(l.total_balance(ALICE), 5);
    t1.dispose(&mut l);
}

#[test]
fn deposit_into_missing_account_fails() {
    let mut l = Ledger::new();
    let r = l.deposit_into_existing(ALICE, 5);
    assert!(matches!(r, Err(LedgerError::AccountNotFound)));
    assert_eq!(l.total_balance(ALICE), 0);
}

#[test]
fn deposit_overflowing_an_entry_fails() {
    let mut l = Ledger::new();
    let t1 = l.deposit_creating(ALICE, u64::MAX - 1);
    let r = l.deposit_into_existing(ALICE, 2);
    assert!(matches!(r, Err(LedgerError::Overflow)));
    assert_eq!(l.total_balance(ALICE), u64::MAX - 1);
    let ok = l.deposit_into_existing(ALICE, 1).unwrap();
    assert_eq!(ok.peek(), 1);
    assert_eq!(l.total_balance(ALICE), u64::MAX);
    ok.dispose(&mut l);
    t1.dispose(&mut l);
}

#[test]
fn transfer_overflowing_the_destination_fails_without_mutation() {
    let mut l = Ledger::new();
    let t1 = l.deposit_creating(ALICE, 10);
    let t2 = l.deposit_creating(BOB, u64::MAX - 5);
    let r = l.transfer(ALICE, BOB, 6, ExistenceRequirement::AllowDeath);
    assert_eq!(r, Err(LedgerError::Overflow));
    assert_eq!(l.total_balance(ALICE), 10);
    assert_eq!(l.total_balance(BOB), u64::MAX - 5);
    t1.dispose(&mut l);
    t2.dispose(&mut l);
}

#[test]
fn infallible_deposit_clips_at_the_entry_headroom() {
    let mut l = Ledger::new();
    let t1 = l.deposit_creating(ALICE, u64::MAX - 3);
    let t2 = l.deposit_creating(ALICE, 10);
    assert_eq!(t2.peek(), 3);
    assert_eq!(l.total_balance(ALICE), u64::MAX);
    t1.dispose(&mut l);
    t2.dispose(&mut l);
}

#[test]
fn settle_withdraws_the_token_magnitude() {
    let mut l = Ledger::new();
    let t1 = l.deposit_creating(ALICE, 90);
    let token = l.burn(0);
    assert_eq!(token.peek(), 0);
    token.dispose(&mut l);
    t1.dispose(&mut l);
    assert_eq!(l.total_issuance(), 90);
    let token = l.burn(25);
    assert_eq!(token.peek(), 25);
    assert_eq!(l.total_issuance(), 65);
    let r = l.settle(ALICE, token, WithdrawReason::Fee, ExistenceRequirement::AllowDeath);
    assert!(r.is_ok());
    assert_eq!(l.total_balance(ALICE), 65);
    assert_eq!(l.total_issuance(), 65);
}

#[test]
fn settle_beyond_the_balance_returns_the_token() {
    let mut l = Ledger::new();
    let t1 = l.deposit_creating(ALICE, 10);
    let t2 = l.deposit_creating(BOB, 100);
    t1.dispose(&mut l);
    t2.dispose(&mut l);
    let token = l.burn(11);
    assert_eq!(token.peek(), 11);
    let r = l.settle(ALICE, token, WithdrawReason::Fee, ExistenceRequirement::AllowDeath);
    let returned = r.expect_err("balance is short, the token must come back");
    assert_eq!(returned.peek(), 11);
    assert_eq!(l.total_balance(ALICE), 10);
    returned.dispose(&mut l);
    assert_eq!(l.total_issuance(), 110);
}

#[test]
fn burn_saturates_at_zero_supply() {
    let mut l = Ledger::new();
    let t1 = l.issue(30);
    let token = l.burn(100);
    assert_eq!(token.peek(), 30);
    assert_eq!(l.total_issuance(), 0);
    token.dispose(&mut l);
    t1.dispose(&mut l);
}

#[test]
fn issue_saturates_at_the_maximum_supply() {
    let mut l = Ledger::new();
    let t1 = l.issue(u64::MAX - 10);
    assert_eq!(t1.peek(), u64::MAX - 10);
    let t2 = l.issue(100);
    assert_eq!(t2.peek(), 10);
    assert_eq!(l.total_issuance(), u64::MAX);
    t1.dispose(&mut l);
    t2.dispose(&mut l);
}

#[test]
fn make_free_balance_be_reaches_the_target_in_both_directions() {
    let mut l = Ledger::new();
    let r = l.make_free_balance_be(ALICE, 120);
    match r {
        SignedImbalance::Positive(t) => {
            assert_eq!(t.peek(), 120);
            t.dispose(&mut l);
        }
        SignedImbalance::Negative(_) => panic!("raising a balance yields a positive token"),
    }
    assert_eq!(l.total_balance(ALICE), 120);
    let r = l.make_free_balance_be(ALICE, 45);
    match r {
        SignedImbalance::Negative(t) => {
            assert_eq!(t.peek(), 75);
            t.dispose(&mut l);
        }
        SignedImbalance::Positive(_) => panic!("lowering a balance yields a negative token"),
    }
    assert_eq!(l.total_balance(ALICE), 45);
    assert_eq!(l.total_issuance(), 45);
}

#[test]
fn forced_balances_also_conserve_once_tokens_are_disposed() {
    let mut l = Ledger::new();
    let up = l.make_free_balance_be(ALICE, 200);
    let down = l.make_free_balance_be(ALICE, 140);
    match up {
        SignedImbalance::Positive(t) => t.dispose(&mut l),
        SignedImbalance::Negative(t) => t.dispose(&mut l),
    }
    match down {
        SignedImbalance::Positive(t) => t.dispose(&mut l),
        SignedImbalance::Negative(t) => t.dispose(&mut l),
    }
    assert_eq!(l.total_balance(ALICE), 140);
    assert_eq!(l.total_issuance(), 140);
}

#[test]
fn free_balance_is_the_whole_combined_balance() {
    let mut l = Ledger::new();
    let t1 = l.deposit_creating(ALICE, 77);
    assert_eq!(l.free_balance(ALICE), l.total_balance(ALICE));
    assert_eq!(l.free_balance(BOB), 0);
    t1.dispose(&mut l);
}

#[test]
fn can_slash_is_strict() {
    let mut l = Ledger::new();
    let t1 = l.deposit_creating(ALICE, 10);
    assert!(l.can_slash(ALICE, 9));
    assert!(!l.can_slash(ALICE, 10));
    assert!(!l.can_slash(BOB, 0));
    t1.dispose(&mut l);
}

#[test]
fn account_entry_fetches_both_entries_in_one_pass() {
    let mut l = Ledger::new();
    let t1 = l.deposit_creating(ALICE, 64);
    let (t2, _) = l.slash(ALICE, 14);
    let e = l.account_entry(ALICE);
    assert_eq!(e.added, 64);
    assert_eq!(e.used, 14);
    let missing = l.account_entry(BOB);
    assert_eq!(missing.added, 0);
    assert_eq!(missing.used, 0);
    t1.dispose(&mut l);
    t2.dispose(&mut l);
}

#[test]
fn minimum_balance_is_the_zero_placeholder() {
    assert_eq!(Ledger::minimum_balance(), 0);
    let l = Ledger::new();
    assert!(l
        .ensure_can_withdraw(ALICE, 10, WithdrawReason::Transfer, 0)
        .is_ok());
}
