use token_vesting::errors::{ErrorCode, TransferOutcome};
use token_vesting::state::{Address, EmployeeAccount};

fn addr(b: u8) -> Address {
    Address::new([b; 32])
}

fn grant(total: u64, start: i64, cliff: i64, end: i64) -> EmployeeAccount {
    EmployeeAccount {
        beneficiary: addr(1),
        vesting_account: addr(2),
        total_allocated: total,
        total_claimed: 0,
        start_time: start,
        end_time: end,
        cliff_time: cliff,
        bump: 255,
    }
}

#[test]
fn claim_before_cliff_fails() {
    let mut g = grant(1000, 0, 100, 1000);
    assert_eq!(g.claimable_amount(50), Err(ErrorCode::CliffNotReached));
    assert_eq!(g.settle_claim(50, TransferOutcome::Completed), Err(ErrorCode::CliffNotReached));
    assert_eq!(g.total_claimed, 0);
}

#[test]
fn claim_midway_pays_proportional_share() {
    let mut g = grant(1000, 0, 100, 1000);
    assert_eq!(g.vested_amount(550), 550);
    assert_eq!(g.claimable_amount(550), Ok(550));
    assert_eq!(g.settle_claim(550, TransferOutcome::Completed), Ok(550));
    assert_eq!(g.total_claimed, 550);
}

#[test]
fn claim_at_end_pays_remainder() {
    let mut g = grant(1000, 0, 100, 1000);
    assert_eq!(g.settle_claim(550, TransferOutcome::Completed), Ok(550));
    assert_eq!(g.vested_amount(1000), 1000);
    assert_eq!(g.settle_claim(1000, TransferOutcome::Completed), Ok(450));
    assert_eq!(g.total_claimed, 1000);
}

#[test]
fn claim_after_full_payout_has_nothing() {
    let mut g = grant(1000, 0, 100, 1000);
    assert_eq!(g.settle_claim(550, TransferOutcome::Completed), Ok(550));
    assert_eq!(g.settle_claim(1000, TransferOutcome::Completed), Ok(450));
    assert_eq!(g.settle_claim(1500, TransferOutcome::Completed), Err(ErrorCode::NothingToClaim));
    assert_eq!(g.total_claimed, 1000);
}

#[test]
fn failed_transfer_leaves_grant_unchanged() {
    let mut g = grant(1000, 0, 100, 1000);
    let escrow_balance: u64 = 400;
    let amount = g.claimable_amount(1000).unwrap();
    assert_eq!(amount, 1000);
    let outcome = if amount <= escrow_balance {
        TransferOutcome::Completed
    } else {
        TransferOutcome::InsufficientFunds
    };
    assert_eq!(g.settle_claim(1000, outcome), Err(ErrorCode::TransferFailure));
    assert_eq!(g.total_claimed, 0);
    assert_eq!(g.settle_claim(1000, TransferOutcome::Unauthorized), Err(ErrorCode::TransferFailure));
    assert_eq!(g.total_claimed, 0);
}

#[test]
fn second_claim_at_same_time_has_nothing() {
    let mut g = grant(1000, 0, 100, 1000);
    assert_eq!(g.settle_claim(700, TransferOutcome::Completed), Ok(700));
    assert_eq!(g.settle_claim(700, TransferOutcome::Completed), Err(ErrorCode::NothingToClaim));
    assert_eq!(g.total_claimed, 700);
}

#[test]
fn claim_exactly_at_cliff_is_allowed() {
    let mut g = grant(1000, 0, 100, 1000);
    assert_eq!(g.settle_claim(100, TransferOutcome::Completed), Ok(100));
    assert_eq!(g.total_claimed, 100);
}

#[test]
fn vested_amount_rounds_down() {
    let g = grant(10, 0, 0, 3);
    assert_eq!(g.vested_amount(1), 3);
    assert_eq!(g.vested_amount(2), 6);
    assert_eq!(g.vested_amount(3), 10);
    assert_eq!(g.vested_amount(-5), 0);
}

#[test]
fn vested_amount_with_negative_start() {
    let g = grant(600, -300, -300, 300);
    assert_eq!(g.vested_amount(0), 300);
    assert_eq!(g.vested_amount(150), 450);
}

#[test]
fn vested_amount_largest_values_do_not_overflow() {
    let g = grant(u64::MAX, i64::MIN, i64::MIN, i64::MAX);
    assert_eq!(g.vested_amount(i64::MAX - 1), u64::MAX - 1);
    assert_eq!(g.vested_amount(i64::MAX), u64::MAX);
    assert_eq!(g.vested_amount(-1), u64::MAX / 2);
}

#[test]
fn claims_sum_to_allocation_with_uneven_steps() {
    let mut g = grant(1001, 10, 10, 17);
    let mut paid: u64 = 0;
    for now in [11i64, 13, 13, 16, 20, 25] {
        if let Ok(amount) = g.settle_claim(now, TransferOutcome::Completed) {
            paid += amount;
        }
        assert!(g.total_claimed <= g.total_allocated);
    }
    assert_eq!(paid, 1001);
    assert_eq!(g.total_claimed, 1001);
}

#[test]
fn claims_never_decrease_total() {
    let mut g = grant(5000, 0, 50, 400);
    let mut last = 0u64;
    for now in [10i64, 60, 60, 61, 200, 399, 400, 1000] {
        let _ = g.settle_claim(now, TransferOutcome::Completed);
        assert!(g.total_claimed >= last);
        assert!(g.total_claimed <= 5000);
        last = g.total_claimed;
    }
    assert_eq!(last, 5000);
}

#[test]
fn malformed_period_cannot_be_claimed() {
    let mut g = grant(1000, 100, 100, 100);
    assert_eq!(g.claimable_amount(200), Err(ErrorCode::CalculationOverflow));
    assert_eq!(g.settle_claim(200, TransferOutcome::Completed), Err(ErrorCode::CalculationOverflow));
    assert_eq!(g.total_claimed, 0);
}

#[test]
fn zero_allocation_has_nothing_to_claim() {
    let g = grant(0, 0, 0, 10);
    assert_eq!(g.claimable_amount(20), Err(ErrorCode::NothingToClaim));
}
