use fundr::fees::SECONDS_PER_YEAR;
use fundr::ledger::{ensure_token_account_empty, reclaim_rent};
use fundr::{
    collect_fees, create_fund, deposit, initialize_fund, update_fund_mode, withdraw, Address, DepositMade,
    FeeSchedule, Fund, FundType, FundrError, RentReclaimed, TokenAllocation, UserStake, WithdrawalMade,
};

fn addr(n: u64) -> Address {
    Address { w0: n, w1: 0, w2: 0, w3: 0 }
}

fn fees(manager: u16, management: u16, performance: u16) -> FeeSchedule {
    FeeSchedule { manager_fee_bps: manager, management_fee_bps: management, performance_fee_bps: performance }
}

fn new_fund(kind: FundType, schedule: FeeSchedule, min_deposit: u64) -> Fund {
    create_fund(addr(1), String::from("Growth"), String::from("A test pool"), kind, schedule, min_deposit, Vec::new(), 1_000)
        .unwrap()
}

fn stake(n: u64) -> UserStake {
    UserStake::new(addr(n), addr(99))
}

#[test]
fn create_fund_starts_empty_at_nav_one() {
    let f = new_fund(FundType::Manual, fees(500, 100, 2000), 10);
    assert_eq!(f.manager, addr(1));
    assert_eq!(f.name, "Growth");
    assert_eq!(f.total_shares, 0);
    assert_eq!(f.total_assets, 0);
    assert_eq!(f.high_water_mark, 1_000_000);
    assert!(f.is_active);
    assert_eq!(f.created_at, 1_000);
    assert_eq!(f.last_fee_collection, 1_000);
    assert_eq!(f.min_deposit, 10);
}

#[test]
fn create_fund_rejects_each_limit() {
    let mk = |name: String, desc: String, sched: FeeSchedule, allocs: Vec<TokenAllocation>| {
        create_fund(addr(1), name, desc, FundType::Auto, sched, 0, allocs, 0).err()
    };
    assert_eq!(mk("n".repeat(51), String::new(), fees(0, 0, 0), vec![]), Some(FundrError::NameTooLong));
    assert_eq!(mk("n".repeat(50), String::new(), fees(0, 0, 0), vec![]), None);
    assert_eq!(mk("é".repeat(50), String::new(), fees(0, 0, 0), vec![]), None);
    assert_eq!(mk(String::new(), "d".repeat(201), fees(0, 0, 0), vec![]), Some(FundrError::DescriptionTooLong));
    assert_eq!(mk(String::new(), "d".repeat(200), fees(0, 0, 0), vec![]), None);
    assert_eq!(mk(String::new(), String::new(), fees(2001, 0, 0), vec![]), Some(FundrError::ManagerFeeTooHigh));
    assert_eq!(mk(String::new(), String::new(), fees(2000, 0, 2000), vec![]), None);
    assert_eq!(mk(String::new(), String::new(), fees(0, 0, 2001), vec![]), Some(FundrError::ExcessiveFees));
    let many: Vec<TokenAllocation> = (0..11).map(|i| TokenAllocation { mint: addr(i), percentage: 1 }).collect();
    assert_eq!(mk(String::new(), String::new(), fees(0, 0, 0), many), Some(FundrError::TooManyAllocations));
}

#[test]
fn initialize_fund_charges_performance_fee_only() {
    let f = initialize_fund(addr(3), String::from("Perf"), String::new(), 2000, 5, FundType::Manual, 42).unwrap();
    assert_eq!(f.fees, fees(0, 0, 2000));
    assert!(f.allocations.is_empty());
    assert_eq!(f.created_at, 42);
    assert_eq!(f.manager, addr(3));
    let r = initialize_fund(addr(3), String::from("Perf"), String::new(), 2001, 5, FundType::Manual, 42);
    assert_eq!(r.err(), Some(FundrError::ExcessiveFees));
}

#[test]
fn scenario_performance_fee_after_markup() {
    let mut f = new_fund(FundType::Auto, fees(0, 0, 2000), 0);
    let mut a = stake(10);
    let first = deposit(&mut f, &mut a, 1_000_000, 2_000).unwrap();
    assert_eq!(first, DepositMade { amount: 990_000, shares_issued: 990_000, platform_fee: 10_000 });
    assert_eq!(f.total_assets, 990_000);
    assert_eq!(f.total_shares, 990_000);
    assert_eq!(fundr::fees::current_nav(f.total_assets, f.total_shares), Ok(1_000_000));
    let mut b = stake(11);
    let second = deposit(&mut f, &mut b, 1_000_000, 2_000).unwrap();
    assert_eq!(second.amount, 990_000);
    assert_eq!(second.shares_issued, 990_000);
    assert_eq!(fundr::fees::current_nav(f.total_assets, f.total_shares), Ok(1_000_000));
    f.total_assets = 2_178_000;
    f.last_fee_collection = 2_000;
    let c = collect_fees(&mut f, 2_000).unwrap();
    assert_eq!(c.nav, 1_100_000);
    assert_eq!(c.performance_fee, 43_560);
    assert_eq!(c.management_fee, 0);
    assert_eq!(f.high_water_mark, 1_100_000);
    assert_eq!(f.total_assets, 2_178_000 - 43_560);
}

#[test]
fn deposit_sets_stake_entry_price_and_basis() {
    let mut f = new_fund(FundType::Auto, fees(0, 0, 0), 0);
    let mut a = stake(10);
    deposit(&mut f, &mut a, 1_000_000, 7).unwrap();
    assert_eq!(a.shares, 990_000);
    assert_eq!(a.initial_deposit, 990_000);
    assert_eq!(a.entry_price, 1_000_000);
    assert_eq!(a.deposited_at, 7);
    // NAV doubles, then a top-up at the new price.
    f.total_assets = 1_980_000;
    let made = deposit(&mut f, &mut a, 1_000_000, 8).unwrap();
    assert_eq!(made.shares_issued, 495_000);
    assert_eq!(a.shares, 1_485_000);
    assert_eq!(a.initial_deposit, 1_980_000);
    assert_eq!(a.entry_price, 1_980_000u64 * 1_000_000 / 1_485_000);
    assert_eq!(a.deposited_at, 7);
}

#[test]
fn deposit_below_minimum_fails() {
    let mut f = new_fund(FundType::Auto, fees(0, 0, 0), 1_000);
    let mut a = stake(10);
    assert_eq!(deposit(&mut f, &mut a, 999, 0), Err(FundrError::AmountTooSmall));
    assert_eq!(deposit(&mut f, &mut a, 1, 0), Err(FundrError::AmountTooSmall));
    assert!(deposit(&mut f, &mut a, 1_000, 0).is_ok());
    assert_eq!(deposit(&mut f, &mut a, 0, 0), Err(FundrError::InvalidAmount));
}

#[test]
fn inactive_fund_refuses_deposit_and_withdraw() {
    let mut f = new_fund(FundType::Auto, fees(0, 0, 0), 0);
    let mut a = stake(10);
    deposit(&mut f, &mut a, 1_000, 0).unwrap();
    f.is_active = false;
    assert_eq!(deposit(&mut f, &mut a, 1_000, 0), Err(FundrError::FundInactive));
    assert_eq!(withdraw(&mut f, &mut a, 10, u64::MAX).err(), Some(FundrError::FundInactive));
    assert_eq!(a.shares, 990);
}

#[test]
fn deposit_overflow_changes_nothing() {
    let mut f = new_fund(FundType::Auto, fees(0, 0, 0), 0);
    f.total_shares = 1;
    f.total_assets = u64::MAX - 5;
    let mut a = stake(10);
    assert_eq!(deposit(&mut f, &mut a, 1_000, 0), Err(FundrError::ArithmeticOverflow));
    assert_eq!(f.total_shares, 1);
    assert_eq!(f.total_assets, u64::MAX - 5);
    assert_eq!(a.shares, 0);
}

#[test]
fn withdraw_more_than_stake_fails() {
    let mut f = new_fund(FundType::Auto, fees(0, 0, 0), 0);
    let mut a = stake(10);
    deposit(&mut f, &mut a, 1_000, 0).unwrap();
    assert_eq!(withdraw(&mut f, &mut a, 991, 0).err(), Some(FundrError::InsufficientShares));
    assert_eq!(withdraw(&mut f, &mut a, 0, 0).err(), Some(FundrError::InvalidAmount));
    assert_eq!(a.shares, 990);
}

#[test]
fn withdraw_beyond_fund_total_is_overflow() {
    let mut f = new_fund(FundType::Auto, fees(0, 0, 0), 0);
    let mut a = stake(10);
    a.shares = 50;
    a.initial_deposit = 50;
    f.total_shares = 10;
    f.total_assets = 10;
    assert_eq!(withdraw(&mut f, &mut a, 20, 0).err(), Some(FundrError::ArithmeticOverflow));
}

#[test]
fn manual_fund_needs_balance_for_withdrawal() {
    let mut f = new_fund(FundType::Manual, fees(0, 0, 0), 0);
    let mut a = stake(10);
    deposit(&mut f, &mut a, 1_000, 0).unwrap();
    assert_eq!(withdraw(&mut f, &mut a, 990, 989).err(), Some(FundrError::InsufficientFundBalance));
    assert_eq!(a.shares, 990);
    assert_eq!(f.total_shares, 990);
    assert!(withdraw(&mut f, &mut a, 990, 990).is_ok());
}

#[test]
fn round_trip_large_amount() {
    let mut f = new_fund(FundType::Auto, fees(2000, 0, 0), 0);
    let mut a = stake(10);
    let d = deposit(&mut f, &mut a, 1_000_000, 0).unwrap();
    let w = withdraw(&mut f, &mut a, d.shares_issued, 0).unwrap();
    assert_eq!(
        w,
        WithdrawalMade {
            shares_withdrawn: 990_000,
            amount_received: 980_100,
            platform_fee: 9_900,
            manager_fee: 0,
            profit: 0
        }
    );
    assert!(w.amount_received <= 1_000_000);
    assert!(w.amount_received >= 1_000_000 - 2 * d.platform_fee);
    assert_eq!(a.shares, 0);
    assert_eq!(a.initial_deposit, 0);
    assert_eq!(f.total_shares, 0);
    assert_eq!(f.total_assets, 0);
}

#[test]
fn round_trip_small_amounts_never_gain() {
    for amount in [1u64, 2, 50, 99, 100, 150, 199, 12_345] {
        let mut f = new_fund(FundType::Auto, fees(2000, 0, 0), 0);
        let mut a = stake(10);
        let d = deposit(&mut f, &mut a, amount, 0).unwrap();
        let w = withdraw(&mut f, &mut a, d.shares_issued, 0).unwrap();
        assert!(w.amount_received <= amount);
        assert!(w.amount_received + 2 * d.platform_fee >= amount);
    }
    let mut f = new_fund(FundType::Auto, fees(0, 0, 0), 0);
    let mut a = stake(10);
    deposit(&mut f, &mut a, 150, 0).unwrap();
    assert_eq!(withdraw(&mut f, &mut a, 149, 0).unwrap().amount_received, 148);
}

#[test]
fn round_trip_into_existing_pool_pays_back_at_most_amount() {
    let mut f = new_fund(FundType::Auto, fees(2000, 0, 0), 0);
    let mut a = stake(10);
    deposit(&mut f, &mut a, 3_333_333, 0).unwrap();
    f.total_assets += 1_234_567;
    let mut b = stake(11);
    let d = deposit(&mut f, &mut b, 777_777, 0).unwrap();
    let w = withdraw(&mut f, &mut b, d.shares_issued, 0).unwrap();
    assert!(w.amount_received <= 777_777);
    assert_eq!(w.manager_fee, 0);
}

#[test]
fn withdraw_with_profit_pays_manager_fee() {
    let mut f = new_fund(FundType::Auto, fees(2000, 0, 0), 0);
    let mut a = stake(10);
    deposit(&mut f, &mut a, 1_000_000, 0).unwrap();
    f.total_assets = 1_980_000;
    let w = withdraw(&mut f, &mut a, 990_000, 0).unwrap();
    assert_eq!(w.profit, 990_000);
    assert_eq!(w.platform_fee, 19_800);
    assert_eq!(w.manager_fee, 198_000);
    assert_eq!(w.amount_received, 1_762_200);
    // The pool gives up the cost basis only.
    assert_eq!(f.total_assets, 990_000);
    assert_eq!(f.total_shares, 0);
    assert_eq!(a.initial_deposit, 0);
}

#[test]
fn partial_withdraw_reduces_basis_proportionally() {
    let mut f = new_fund(FundType::Auto, fees(0, 0, 0), 0);
    let mut a = stake(10);
    deposit(&mut f, &mut a, 1_000_000, 0).unwrap();
    let w = withdraw(&mut f, &mut a, 495_000, 0).unwrap();
    assert_eq!(w.amount_received, 495_000 - 4_950);
    assert_eq!(a.shares, 495_000);
    assert_eq!(a.initial_deposit, 495_000);
    assert_eq!(f.total_shares, 495_000);
    assert_eq!(f.total_assets, 495_000);
}

#[test]
fn collect_fees_twice_charges_once() {
    let mut f = new_fund(FundType::Auto, fees(0, 100, 2000), 0);
    let mut a = stake(10);
    deposit(&mut f, &mut a, 1_000_000, 1_000).unwrap();
    f.total_assets = 1_089_000;
    let now = 1_000 + SECONDS_PER_YEAR as i64;
    let first = collect_fees(&mut f, now).unwrap();
    assert_eq!(first.management_fee, 10_890);
    assert_eq!(first.performance_fee, 21_780);
    assert_eq!(f.high_water_mark, 1_100_000);
    assert_eq!(f.total_assets, 1_089_000 - 10_890 - 21_780);
    let mark = f.high_water_mark;
    let assets = f.total_assets;
    let second = collect_fees(&mut f, now).unwrap();
    assert_eq!(second.management_fee, 0);
    assert_eq!(second.performance_fee, 0);
    assert_eq!(f.high_water_mark, mark);
    assert_eq!(f.total_assets, assets);
    assert_eq!(f.last_fee_collection, now);
}

#[test]
fn collect_fees_below_mark_keeps_mark_and_advances_clock() {
    let mut f = new_fund(FundType::Auto, fees(0, 0, 2000), 0);
    let mut a = stake(10);
    deposit(&mut f, &mut a, 1_000_000, 0).unwrap();
    f.total_assets = 900_000;
    let c = collect_fees(&mut f, 5_000).unwrap();
    assert_eq!(c.performance_fee, 0);
    assert_eq!(f.high_water_mark, 1_000_000);
    assert_eq!(f.last_fee_collection, 5_000);
    assert_eq!(f.total_assets, 900_000);
}

#[test]
fn high_water_mark_never_decreases_over_operations() {
    let mut f = new_fund(FundType::Auto, fees(1000, 50, 2000), 0);
    let mut a = stake(10);
    let mut marks = vec![f.high_water_mark];
    deposit(&mut f, &mut a, 5_000_000, 0).unwrap();
    marks.push(f.high_water_mark);
    f.total_assets = 6_000_000;
    collect_fees(&mut f, 100).unwrap();
    marks.push(f.high_water_mark);
    withdraw(&mut f, &mut a, 1_000_000, 0).unwrap();
    marks.push(f.high_water_mark);
    f.total_assets /= 2;
    collect_fees(&mut f, 200).unwrap();
    marks.push(f.high_water_mark);
    deposit(&mut f, &mut a, 1_000_000, 300).unwrap();
    marks.push(f.high_water_mark);
    assert!(marks.windows(2).all(|w| w[0] <= w[1]));
    assert!(marks[2] > marks[1]);
}

#[test]
fn deposits_do_not_dilute_existing_holders() {
    let mut f = new_fund(FundType::Auto, fees(0, 0, 0), 0);
    let mut a = stake(10);
    deposit(&mut f, &mut a, 1_000_000, 0).unwrap();
    f.total_assets = 1_333_333;
    let held = a.shares;
    let mut value = f.calculate_user_share_value(held, f.total_assets).unwrap();
    for (i, amount) in [7u64, 1_000, 99_999, 3_000_000, 1].iter().enumerate() {
        let mut s = stake(20 + i as u64);
        let before_ratio = (f.total_assets as u128) * 1_000_000 / (f.total_shares as u128);
        deposit(&mut f, &mut s, *amount, 0).unwrap();
        let after_ratio = (f.total_assets as u128) * 1_000_000 / (f.total_shares as u128);
        assert!(after_ratio >= before_ratio);
        let now_value = f.calculate_user_share_value(held, f.total_assets).unwrap();
        assert!(now_value >= value);
        value = now_value;
    }
}

#[test]
fn fund_mode_can_be_switched() {
    let mut f = new_fund(FundType::Manual, fees(0, 0, 0), 0);
    update_fund_mode(&mut f, FundType::Auto);
    assert_eq!(f.fund_type, FundType::Auto);
}

#[test]
fn only_manager_is_authorized() {
    let f = new_fund(FundType::Manual, fees(0, 0, 0), 0);
    assert_eq!(f.authorize(addr(1)), Ok(()));
    assert_eq!(f.authorize(addr(2)), Err(FundrError::Unauthorized));
}

#[test]
fn rent_reclaim_rules() {
    assert_eq!(
        reclaim_rent(890_880, 5_000, 890_880),
        Ok(RentReclaimed { reclaimed: 890_880, vault_lamports: 895_880 })
    );
    assert_eq!(reclaim_rent(0, 5, 890_880), Ok(RentReclaimed { reclaimed: 0, vault_lamports: 5 }));
    assert_eq!(reclaim_rent(890_881, 5_000, 890_880), Err(FundrError::AccountNotEmpty));
    assert_eq!(reclaim_rent(10, u64::MAX - 5, 890_880), Err(FundrError::ArithmeticOverflow));
}

#[test]
fn token_account_must_be_empty_to_close() {
    assert_eq!(ensure_token_account_empty(0), Ok(()));
    assert_eq!(ensure_token_account_empty(1), Err(FundrError::TokenAccountNotEmpty));
}
