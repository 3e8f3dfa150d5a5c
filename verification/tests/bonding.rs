use death_protocol::bonding::{claim_bond, create_bond, BondPosition, BondType, BondingState};
use death_protocol::errors::ProtocolError;

#[test]
fn bond_type_codes_cover_the_closed_set() {
    assert_eq!(BondType::from_code(0), Ok(BondType::Short));
    assert_eq!(BondType::from_code(1), Ok(BondType::Medium));
    assert_eq!(BondType::from_code(2), Ok(BondType::Long));
    assert_eq!(BondType::from_code(3), Err(ProtocolError::InvalidBondType));
    assert_eq!(
        BondType::from_code(255),
        Err(ProtocolError::InvalidBondType)
    );
}

#[test]
fn bond_class_parameters() {
    assert_eq!(BondType::Short.duration(), 7 * 86_400);
    assert_eq!(BondType::Medium.duration(), 30 * 86_400);
    assert_eq!(BondType::Long.duration(), 90 * 86_400);
    assert_eq!(BondType::Short.reward_bps(), 200);
    assert_eq!(BondType::Medium.reward_bps(), 500);
    assert_eq!(BondType::Long.reward_bps(), 1200);
}

#[test]
fn create_bond_locks_principal_until_maturity() {
    let mut vault = BondingState { total_bonded: 0 };
    let bond = create_bond(&mut vault, 1, BondType::Short, 1_000, 5_000).unwrap();
    assert_eq!(bond.owner, 1);
    assert_eq!(bond.amount, 1_000);
    assert_eq!(bond.creation_time, 5_000);
    assert_eq!(bond.maturation_time, 5_000 + 7 * 86_400);
    assert!(!bond.claimed);
    assert_eq!(vault.total_bonded, 1_000);
}

#[test]
fn create_bond_rejects_zero_amount() {
    let mut vault = BondingState { total_bonded: 0 };
    assert_eq!(
        create_bond(&mut vault, 1, BondType::Short, 0, 5_000),
        Err(ProtocolError::InvalidBondAmount)
    );
    assert_eq!(vault.total_bonded, 0);
}

#[test]
fn claim_before_maturity_is_rejected() {
    let mut vault = BondingState { total_bonded: 0 };
    let mut bond = create_bond(&mut vault, 1, BondType::Medium, 1_000, 0).unwrap();
    assert_eq!(
        claim_bond(&mut bond, &mut vault, 30 * 86_400 - 1),
        Err(ProtocolError::BondNotMature)
    );
    assert!(!bond.claimed);
    assert_eq!(vault.total_bonded, 1_000);
}

#[test]
fn claim_pays_principal_plus_class_reward() {
    let mut vault = BondingState { total_bonded: 0 };
    let mut bond = create_bond(&mut vault, 1, BondType::Long, 1_000, 0).unwrap();
    let payout = claim_bond(&mut bond, &mut vault, 90 * 86_400).unwrap();
    // 1000 * 1200 / 10_000 = 120 reward on the Long class.
    assert_eq!(payout, 1_000 + 120);
    assert!(bond.claimed);
    assert_eq!(vault.total_bonded, 0);
}

#[test]
fn claim_twice_pays_exactly_once() {
    let mut vault = BondingState { total_bonded: 0 };
    let mut bond = create_bond(&mut vault, 1, BondType::Short, 500, 0).unwrap();
    // 500 * 200 / 10_000 = 10 reward on the Short class.
    assert_eq!(claim_bond(&mut bond, &mut vault, 7 * 86_400), Ok(510));
    assert_eq!(
        claim_bond(&mut bond, &mut vault, 7 * 86_400 + 1),
        Err(ProtocolError::BondAlreadyClaimed)
    );
    assert!(bond.claimed);
    assert_eq!(vault.total_bonded, 0);
}

#[test]
fn bond_reward_truncates_toward_zero() {
    let mut vault = BondingState { total_bonded: 0 };
    let mut bond = create_bond(&mut vault, 1, BondType::Short, 49, 0).unwrap();
    // 49 * 200 / 10_000 truncates to 0.
    assert_eq!(claim_bond(&mut bond, &mut vault, 7 * 86_400), Ok(49));
}

#[test]
fn claim_payout_overflow_is_rejected() {
    let mut vault = BondingState { total_bonded: u64::MAX };
    let mut bond = BondPosition {
        owner: 1,
        bond_type: BondType::Long,
        amount: u64::MAX,
        creation_time: 0,
        maturation_time: 0,
        claimed: false,
    };
    assert_eq!(
        claim_bond(&mut bond, &mut vault, 1),
        Err(ProtocolError::Overflow)
    );
    assert!(!bond.claimed);
    assert_eq!(vault.total_bonded, u64::MAX);
}
