use death_protocol::accrual::accrue;
use death_protocol::errors::ProtocolError;
use death_protocol::staking::{StakingState, UserStakeInfo};

fn pool(apy: u64) -> StakingState {
    StakingState {
        authority: 7,
        current_apy: apy,
        min_stake: 10,
        max_stake: 1000,
        emergency_cooldown: 604_800,
        paused: false,
        total_staked: 0,
        total_rewards_distributed: 0,
        last_apy_update: 0,
        next_apy_update: 86_400,
    }
}

#[test]
fn accrues_nothing_for_zero_elapsed() {
    assert_eq!(accrue(1_000, 500, 0), Ok(0));
}

#[test]
fn accrues_nothing_for_negative_elapsed() {
    assert_eq!(accrue(1_000, 500, -86_400), Ok(0));
}

#[test]
fn accrues_nothing_on_zero_balance() {
    assert_eq!(accrue(0, 500, 31_536_000), Ok(0));
}

#[test]
fn accrues_nothing_under_zero_rate() {
    assert_eq!(accrue(1_000, 0, 31_536_000), Ok(0));
}

#[test]
fn tenure_bonus_excluded_at_thirty_days() {
    // 1000 * 500 * 2_592_000 / (31_536_000 * 100) = 410, no bonus at the
    // threshold itself.
    assert_eq!(accrue(1_000, 500, 30 * 86_400), Ok(410));
}

#[test]
fn tenure_bonus_included_past_thirty_days() {
    // One second past the threshold the +10% bonus term applies:
    // base 410 plus 41.
    assert_eq!(accrue(1_000, 500, 30 * 86_400 + 1), Ok(451));
}

#[test]
fn full_year_matches_formula() {
    // 100 * 500 * 31_536_000 / (31_536_000 * 100) = 500 base units over a
    // full year; the tenure bonus adds a further tenth.
    let base = 100u128 * 500 * 31_536_000 / (31_536_000 * 100);
    assert_eq!(base, 500);
    assert_eq!(accrue(100, 500, 31_536_000), Ok(550));
}

#[test]
fn reward_is_monotone_in_elapsed_time() {
    let mut previous = 0u64;
    for days in [1i64, 10, 29, 30, 31, 60, 180, 365, 730] {
        let r = accrue(12_345, 700, days * 86_400).unwrap();
        assert!(r >= previous);
        previous = r;
    }
}

#[test]
fn truncates_toward_zero() {
    // 999 * 1 * 1 / 3_153_600_000 truncates to zero: a principal never
    // receives more than entitled.
    assert_eq!(accrue(999, 1, 1), Ok(0));
}

#[test]
fn overflow_is_rejected() {
    assert_eq!(
        accrue(u64::MAX, u64::MAX, i64::MAX),
        Err(ProtocolError::Overflow)
    );
}

#[test]
fn user_record_accrues_from_its_timestamp() {
    let user = UserStakeInfo {
        owner: 1,
        staked_amount: 1_000,
        last_stake_timestamp: 100,
        rewards_tally: 0,
        rewards_claimed: 0,
        tier: 0,
        delegated_stake: 0,
        auto_compound: false,
        withdrawal_pending: false,
        withdrawal_amount: 0,
        last_emergency_withdraw: 0,
    };
    assert_eq!(user.calculate_rewards(100 + 30 * 86_400, 500), Ok(410));
    assert_eq!(user.calculate_rewards(50, 500), Ok(0));
}

#[test]
fn pool_method_uses_current_rate() {
    let p = pool(500);
    assert_eq!(p.calculate_rewards(1_000, 30 * 86_400), Ok(410));
    assert_eq!(p.calculate_rewards(1_000, -5), Ok(0));
}
