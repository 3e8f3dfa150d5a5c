use death_protocol::errors::ProtocolError;
use death_protocol::queue::{
    join_withdrawal_queue, process_withdrawal_queue, WithdrawalRequest, WithdrawalState,
};
use death_protocol::staking::UserStakeInfo;

const AUTHORITY: u64 = 7;

fn fresh_queue() -> WithdrawalState {
    WithdrawalState {
        authority: AUTHORITY,
        requests: Vec::new(),
        queue_head: 0,
        queue_tail: 0,
        total_queued: 0,
        paused: false,
        last_process_time: 0,
    }
}

fn staker(owner: u64, staked: u64) -> UserStakeInfo {
    UserStakeInfo {
        owner,
        staked_amount: staked,
        last_stake_timestamp: 0,
        rewards_tally: 0,
        rewards_claimed: 0,
        tier: 0,
        delegated_stake: 0,
        auto_compound: false,
        withdrawal_pending: false,
        withdrawal_amount: 0,
        last_emergency_withdraw: 0,
    }
}

#[test]
fn enqueue_appends_and_marks_pending() {
    let mut queue = fresh_queue();
    let mut user = staker(1, 500);
    assert_eq!(join_withdrawal_queue(&mut queue, &mut user, 200, 50), Ok(()));
    assert_eq!(queue.queue_tail, 1);
    assert_eq!(queue.queue_head, 0);
    assert_eq!(queue.total_queued, 200);
    assert_eq!(queue.requests.len(), 1);
    assert_eq!(queue.requests[0].user, 1);
    assert_eq!(queue.requests[0].amount, 200);
    assert_eq!(queue.requests[0].request_time, 50);
    assert!(!queue.requests[0].processed);
    assert!(user.withdrawal_pending);
    assert_eq!(user.withdrawal_amount, 200);
}

#[test]
fn enqueue_rejects_while_paused() {
    let mut queue = fresh_queue();
    queue.paused = true;
    let mut user = staker(1, 500);
    assert_eq!(
        join_withdrawal_queue(&mut queue, &mut user, 200, 50),
        Err(ProtocolError::ProtocolPaused)
    );
    assert_eq!(queue.queue_tail, 0);
    assert!(!user.withdrawal_pending);
}

#[test]
fn enqueue_rejects_more_than_staked() {
    let mut queue = fresh_queue();
    let mut user = staker(1, 100);
    assert_eq!(
        join_withdrawal_queue(&mut queue, &mut user, 101, 50),
        Err(ProtocolError::InsufficientStake)
    );
    assert_eq!(queue.total_queued, 0);
}

#[test]
fn batch_pays_in_strict_enqueue_order() {
    let mut queue = fresh_queue();
    for owner in 1..=3u64 {
        let mut user = staker(owner, 1_000);
        assert_eq!(
            join_withdrawal_queue(&mut queue, &mut user, 100 * owner, owner as i64),
            Ok(())
        );
    }
    let paid = process_withdrawal_queue(&mut queue, AUTHORITY, 99).unwrap();
    assert_eq!(paid.len(), 3);
    assert_eq!(paid[0].user, 1);
    assert_eq!(paid[0].amount, 100);
    assert_eq!(paid[1].user, 2);
    assert_eq!(paid[1].amount, 200);
    assert_eq!(paid[2].user, 3);
    assert_eq!(paid[2].amount, 300);
    assert!(paid.iter().all(|r| r.processed));
    assert_eq!(queue.queue_head, 3);
    assert_eq!(queue.total_queued, 0);
    assert_eq!(queue.last_process_time, 99);
}

#[test]
fn batch_is_capped_and_resumes_where_it_stopped() {
    let mut queue = fresh_queue();
    for owner in 1..=12u64 {
        let mut user = staker(owner, 1_000);
        assert_eq!(
            join_withdrawal_queue(&mut queue, &mut user, 10, owner as i64),
            Ok(())
        );
    }
    let first = process_withdrawal_queue(&mut queue, AUTHORITY, 50).unwrap();
    assert_eq!(first.len(), 10);
    assert_eq!(first[0].user, 1);
    assert_eq!(first[9].user, 10);
    assert_eq!(queue.queue_head, 10);
    assert_eq!(queue.total_queued, 20);
    // The next batch never re-pays a processed request: it picks up at
    // the head cursor, in enqueue order.
    let second = process_withdrawal_queue(&mut queue, AUTHORITY, 60).unwrap();
    assert_eq!(second.len(), 2);
    assert_eq!(second[0].user, 11);
    assert_eq!(second[1].user, 12);
    assert_eq!(queue.queue_head, 12);
    assert_eq!(queue.total_queued, 0);
    // And once everything is paid, a further batch pays nothing.
    let third = process_withdrawal_queue(&mut queue, AUTHORITY, 70).unwrap();
    assert_eq!(third.len(), 0);
    assert_eq!(queue.total_queued, 0);
}

#[test]
fn process_requires_the_authority() {
    let mut queue = fresh_queue();
    let mut user = staker(1, 500);
    assert_eq!(join_withdrawal_queue(&mut queue, &mut user, 100, 1), Ok(()));
    assert_eq!(
        process_withdrawal_queue(&mut queue, 99, 50),
        Err(ProtocolError::InvalidAuthority)
    );
    assert_eq!(queue.queue_head, 0);
    assert_eq!(queue.total_queued, 100);
}

#[test]
fn add_request_extends_the_tail() {
    let mut queue = fresh_queue();
    let request = WithdrawalRequest {
        user: 4,
        amount: 25,
        request_time: 9,
        processed: false,
    };
    assert_eq!(queue.add_request(request), Ok(()));
    assert_eq!(queue.queue_tail, 1);
    assert_eq!(queue.total_queued, 25);
    assert_eq!(queue.requests[0].user, 4);
}

#[test]
fn clean_processed_drops_only_the_paid_prefix() {
    let mut queue = fresh_queue();
    for owner in 1..=12u64 {
        let mut user = staker(owner, 1_000);
        assert_eq!(
            join_withdrawal_queue(&mut queue, &mut user, 10, owner as i64),
            Ok(())
        );
    }
    let _ = process_withdrawal_queue(&mut queue, AUTHORITY, 50).unwrap();
    assert_eq!(queue.requests.len(), 12);
    queue.clean_processed();
    assert_eq!(queue.requests.len(), 2);
    assert_eq!(queue.requests[0].user, 11);
    assert_eq!(queue.requests[1].user, 12);
    // Cursors and the queued total are untouched by compaction.
    assert_eq!(queue.queue_head, 10);
    assert_eq!(queue.queue_tail, 12);
    assert_eq!(queue.total_queued, 20);
    // The remaining requests are still paid in order.
    let rest = process_withdrawal_queue(&mut queue, AUTHORITY, 60).unwrap();
    assert_eq!(rest.len(), 2);
    assert_eq!(rest[0].user, 11);
    assert_eq!(rest[1].user, 12);
}
