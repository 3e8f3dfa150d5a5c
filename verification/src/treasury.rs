//! The treasury: multisig-gated, cooldown-gated, limit-capped
//! disbursement of pooled funds.

use vstd::prelude::*;

use crate::errors::ProtocolError;

verus! {

/// Treasury record, created once at bootstrap.
#[derive(Clone, Copy, Debug, PartialEq, Eq, Structural)]
pub struct TreasuryState {
    pub authority: u64,
    pub withdrawal_limit: u64,
    pub required_signatures: u8,
    pub total_balance: u64,
    pub cooldown_period: i64,
    pub last_withdrawal: i64,
    pub total_distributed: u64,
}

/// Whether a withdrawal is accepted: enough co-signers, inside the
/// per-call limit, past the cooldown, covered by the balance, and the
/// running distributed total still representable.
pub open spec fn treasury_withdraw_ok(t: TreasuryState, amount: u64, signer_count: usize, now: i64) -> bool {
    &&& signer_count >= t.required_signatures
    &&& amount <= t.withdrawal_limit
    &&& now - t.last_withdrawal >= t.cooldown_period
    &&& amount <= t.total_balance
    &&& t.total_distributed + amount <= u64::MAX
}

/// The kind a rejected withdrawal fails with, by the first violated check.
pub open spec fn treasury_withdraw_err(t: TreasuryState, amount: u64, signer_count: usize, now: i64) -> ProtocolError {
    if signer_count < t.required_signatures {
        ProtocolError::InsufficientSignatures
    } else if amount > t.withdrawal_limit {
        ProtocolError::WithdrawalLimitExceeded
    } else if now - t.last_withdrawal < t.cooldown_period {
        ProtocolError::CooldownPeriodActive
    } else if amount > t.total_balance {
        ProtocolError::InsufficientBalance
    } else {
        ProtocolError::Overflow
    }
}

/// Disburses `amount` from the treasury.
///
/// The balance decreases by exactly the disbursed amount, and only a call
/// that passed every gate changes the record at all. The transfer to the
/// destination is the caller's to perform.
pub fn treasury_withdraw(treasury: &mut TreasuryState, amount: u64, signer_count: usize, now: i64) -> (r: Result<(), ProtocolError>)
    ensures
        treasury_withdraw_ok(*old(treasury), amount, signer_count, now) ==> {
            &&& r == Ok::<(), ProtocolError>(())
            &&& *final(treasury) == (TreasuryState {
                total_balance: (old(treasury).total_balance - amount) as u64,
                last_withdrawal: now,
                total_distributed: (old(treasury).total_distributed + amount) as u64,
                ..*old(treasury)
            })
        },
        !treasury_withdraw_ok(*old(treasury), amount, signer_count, now) ==> {
            &&& r == Err::<(), ProtocolError>(
                treasury_withdraw_err(*old(treasury), amount, signer_count, now),
            )
            &&& *final(treasury) == *old(treasury)
        },
{
    if signer_count < treasury.required_signatures as usize {
        return Err(ProtocolError::InsufficientSignatures);
    }
    if amount > treasury.withdrawal_limit {
        return Err(ProtocolError::WithdrawalLimitExceeded);
    }
    let since_last: i128 = (now as i128) - (treasury.last_withdrawal as i128);
    if since_last < treasury.cooldown_period as i128 {
        return Err(ProtocolError::CooldownPeriodActive);
    }
    if amount > treasury.total_balance {
        return Err(ProtocolError::InsufficientBalance);
    }
    if amount > u64::MAX - treasury.total_distributed {
        return Err(ProtocolError::Overflow);
    }
    treasury.total_balance = treasury.total_balance - amount;
    treasury.last_withdrawal = now;
    treasury.total_distributed = treasury.total_distributed + amount;
    Ok(())
}

} // verus!
