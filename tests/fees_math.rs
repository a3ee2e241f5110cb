use fundr::fees::{
    calculate_management_fee,
    calculate_performance_fee,
    checked_mul_div,
    current_nav,
    NAV_SCALE,
    SECONDS_PER_YEAR,
};
use fundr::{calculate_manager_fee, calculate_platform_fee, Address, FeeSchedule, Fund, FundType, FundrError, UserStake};

fn addr(n: u64) -> Address {
    Address { w0: n, w1: 0, w2: 0, w3: 0 }
}

fn fund_with(total_shares: u64, total_assets: u64) -> Fund {
    let mut f = fundr::create_fund(
        addr(1),
        String::from("Pool"),
        String::new(),
        FundType::Manual,
        FeeSchedule { manager_fee_bps: 0, management_fee_bps: 0, performance_fee_bps: 0 },
        0,
        Vec::new(),
        0,
    )
    .unwrap();
    f.total_shares = total_shares;
    f.total_assets = total_assets;
    f
}

#[test]
fn platform_fee_is_one_percent_rounded_down() {
    assert_eq!(calculate_platform_fee(12_345), Ok(123));
    assert_eq!(calculate_platform_fee(99), Ok(0));
    assert_eq!(calculate_platform_fee(1_000_000), Ok(10_000));
    assert_eq!(calculate_platform_fee(u64::MAX), Ok(u64::MAX / 100));
}

#[test]
fn manager_fee_on_profit() {
    assert_eq!(calculate_manager_fee(990_000, 2000), Ok(198_000));
    assert_eq!(calculate_manager_fee(0, 2000), Ok(0));
    assert_eq!(calculate_manager_fee(9_999, 1), Ok(0));
    assert_eq!(calculate_manager_fee(u64::MAX, 10000), Ok(u64::MAX));
    assert_eq!(calculate_manager_fee(u64::MAX, 10001), Err(FundrError::ArithmeticOverflow));
}

#[test]
fn nav_is_scaled_ratio() {
    assert_eq!(current_nav(0, 0), Ok(NAV_SCALE));
    assert_eq!(current_nav(2_178_000, 1_980_000), Ok(1_100_000));
    assert_eq!(current_nav(500, 1_000), Ok(500_000));
    assert_eq!(current_nav(u64::MAX, 1), Err(FundrError::ArithmeticOverflow));
}

#[test]
fn management_fee_prorated_by_time() {
    assert_eq!(calculate_management_fee(1_000_000, 200, SECONDS_PER_YEAR), Ok(20_000));
    assert_eq!(calculate_management_fee(1_000_000, 200, SECONDS_PER_YEAR / 2), Ok(10_000));
    assert_eq!(calculate_management_fee(1_000_000, 200, 0), Ok(0));
    assert_eq!(calculate_management_fee(1_000_000, 0, SECONDS_PER_YEAR), Ok(0));
    assert_eq!(
        calculate_management_fee(u64::MAX, u16::MAX, u64::MAX),
        Err(FundrError::ArithmeticOverflow)
    );
}

#[test]
fn performance_fee_only_above_mark() {
    assert_eq!(calculate_performance_fee(2_178_000, 1_100_000, 1_000_000, 2000), Ok(43_560));
    assert_eq!(calculate_performance_fee(2_178_000, 1_000_000, 1_000_000, 2000), Ok(0));
    assert_eq!(calculate_performance_fee(2_178_000, 900_000, 1_000_000, 2000), Ok(0));
    assert_eq!(
        calculate_performance_fee(u64::MAX, u64::MAX, 0, 2000),
        Err(FundrError::ArithmeticOverflow)
    );
}

#[test]
fn mul_div_uses_wide_intermediate() {
    assert_eq!(checked_mul_div(u64::MAX, u64::MAX, u64::MAX), Ok(u64::MAX));
    assert_eq!(checked_mul_div(7, 3, 2), Ok(10));
    assert_eq!(checked_mul_div(u64::MAX, 2, 1), Err(FundrError::ArithmeticOverflow));
}

#[test]
fn share_value_of_holding() {
    let f = fund_with(1_980_000, 2_178_000);
    assert_eq!(f.calculate_user_share_value(990_000, f.total_assets), Ok(1_089_000));
    assert_eq!(f.calculate_user_share_value(1, 2_178_000), Ok(1));
    let empty = fund_with(0, 500);
    assert_eq!(empty.calculate_user_share_value(10, 500), Ok(0));
    let small = fund_with(1, 0);
    assert_eq!(small.calculate_user_share_value(u64::MAX, u64::MAX), Err(FundrError::ArithmeticOverflow));
}

#[test]
fn shares_for_deposit_at_nav() {
    let empty = fund_with(0, 0);
    assert_eq!(empty.calculate_shares_for_deposit(990_000, 0), Ok(990_000));
    let f = fund_with(990_000, 990_000);
    assert_eq!(f.calculate_shares_for_deposit(990_000, 990_000), Ok(990_000));
    let up = fund_with(1_000, 2_000);
    assert_eq!(up.calculate_shares_for_deposit(500, 2_000), Ok(250));
    let drained = fund_with(1_000, 0);
    assert_eq!(drained.calculate_shares_for_deposit(500, 0), Ok(500));
    let tiny = fund_with(u64::MAX, 1);
    assert_eq!(tiny.calculate_shares_for_deposit(2, 1), Err(FundrError::ArithmeticOverflow));
}

#[test]
fn profit_against_cost_basis() {
    let mut s = UserStake::new(addr(2), addr(9));
    s.shares = 100;
    s.initial_deposit = 1_000;
    assert_eq!(s.calculate_profit(15), Ok(500));
    assert_eq!(s.calculate_profit(5), Ok(-500));
    assert_eq!(s.calculate_profit(0), Ok(-1_000));
    s.shares = u64::MAX;
    s.initial_deposit = 0;
    assert_eq!(s.calculate_profit(u64::MAX), Err(FundrError::ArithmeticOverflow));
    s.shares = 0;
    s.initial_deposit = u64::MAX;
    assert_eq!(s.calculate_profit(1), Err(FundrError::ArithmeticOverflow));
    s.initial_deposit = 1u64 << 63;
    assert_eq!(s.calculate_profit(1), Ok(i64::MIN));
}
