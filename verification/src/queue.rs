//! The withdrawal queue: a FIFO sequence of pending requests with
//! monotonically increasing head and tail cursors and bounded-batch
//! processing.
//!
//! Cursors count requests ever enqueued; the vector holds the requests
//! not yet dropped by compaction, so the request at vector index `i` has
//! absolute position `first_index() + i`. A request is processed exactly
//! when its absolute position lies before the head cursor.

use vstd::prelude::*;

use crate::errors::ProtocolError;
use crate::staking::UserStakeInfo;

verus! {

/// Most requests one batch pays out.
pub const MAX_BATCH_SIZE: usize = 10;

/// One pending withdrawal request.
#[derive(Clone, Copy, Debug, PartialEq, Eq, Structural)]
pub struct WithdrawalRequest {
    pub user: u64,
    pub amount: u64,
    pub request_time: i64,
    pub processed: bool,
}

/// The queue record.
#[derive(Clone, Debug)]
pub struct WithdrawalState {
    pub authority: u64,
    pub requests: Vec<WithdrawalRequest>,
    pub queue_head: u64,
    pub queue_tail: u64,
    pub total_queued: u64,
    pub paused: bool,
    pub last_process_time: i64,
}

/// Sum of the amounts of the requests not yet processed.
pub open spec fn sum_unprocessed(s: Seq<WithdrawalRequest>) -> int
    decreases s.len(),
{
    if s.len() == 0 {
        0
    } else {
        sum_unprocessed(s.drop_last()) + if s.last().processed {
            0
        } else {
            s.last().amount as int
        }
    }
}

impl WithdrawalState {
    /// Absolute position of the first request still held in the vector.
    pub open spec fn first_index(self) -> int {
        self.queue_tail - self.requests@.len()
    }

    /// Well-formedness: cursors in order, the processed requests exactly
    /// the prefix before the head cursor, and the queued total exactly
    /// the sum of the unprocessed amounts.
    pub open spec fn wf(self) -> bool {
        &&& 0 <= self.first_index()
        &&& self.first_index() <= self.queue_head <= self.queue_tail
        &&& forall|i: int|
            0 <= i < self.requests@.len() ==> (self.requests@[i].processed <==> self.first_index()
                + i < self.queue_head)
        &&& self.total_queued == sum_unprocessed(self.requests@)
    }
}

/// No queue owes a negative total.
pub proof fn lemma_sum_unprocessed_nonneg(s: Seq<WithdrawalRequest>)
    ensures
        sum_unprocessed(s) >= 0,
    decreases s.len(),
{
    if s.len() > 0 {
        lemma_sum_unprocessed_nonneg(s.drop_last());
    }
}

/// Appending a request adds its amount to the unprocessed total exactly
/// when it is unprocessed.
pub proof fn lemma_sum_unprocessed_push(s: Seq<WithdrawalRequest>, r: WithdrawalRequest)
    ensures
        sum_unprocessed(s.push(r)) == sum_unprocessed(s) + if r.processed {
            0int
        } else {
            r.amount as int
        },
{
    assert(s.push(r).drop_last() =~= s);
}

/// Marking one unprocessed request processed removes exactly its amount
/// from the unprocessed total.
pub proof fn lemma_sum_unprocessed_mark(s: Seq<WithdrawalRequest>, i: int)
    requires
        0 <= i < s.len(),
        !s[i].processed,
    ensures
        sum_unprocessed(
            s.update(i, (WithdrawalRequest { processed: true, ..s[i] })),
        ) == sum_unprocessed(s) - s[i].amount,
    decreases s.len(),
{
    let t = s.update(i, (WithdrawalRequest { processed: true, ..s[i] }));
    if i == s.len() - 1 {
        assert(t.drop_last() =~= s.drop_last());
    } else {
        assert(t.drop_last() =~= s.drop_last().update(
            i,
            (WithdrawalRequest { processed: true, ..s[i] }),
        ));
        lemma_sum_unprocessed_mark(s.drop_last(), i);
    }
}

/// Sum of the amounts of a batch of requests.
pub open spec fn sum_amounts(s: Seq<WithdrawalRequest>) -> int
    decreases s.len(),
{
    if s.len() == 0 {
        0
    } else {
        sum_amounts(s.drop_last()) + s.last().amount
    }
}

/// Appending a request adds its amount to the batch total.
pub proof fn lemma_sum_amounts_push(s: Seq<WithdrawalRequest>, r: WithdrawalRequest)
    ensures
        sum_amounts(s.push(r)) == sum_amounts(s) + r.amount,
{
    assert(s.push(r).drop_last() =~= s);
}

/// A queue whose requests are all processed owes nothing.
proof fn lemma_sum_unprocessed_all_processed(s: Seq<WithdrawalRequest>)
    requires
        forall|i: int| 0 <= i < s.len() ==> s[i].processed,
    ensures
        sum_unprocessed(s) == 0,
    decreases s.len(),
{
    if s.len() > 0 {
        lemma_sum_unprocessed_all_processed(s.drop_last());
    }
}

/// Dropping a fully-processed prefix leaves the unprocessed total
/// unchanged.
proof fn lemma_sum_unprocessed_suffix(s: Seq<WithdrawalRequest>, c: int)
    requires
        0 <= c <= s.len(),
        forall|i: int| 0 <= i < c ==> s[i].processed,
    ensures
        sum_unprocessed(s.subrange(c, s.len() as int)) == sum_unprocessed(s),
    decreases s.len(),
{
    if c == s.len() {
        lemma_sum_unprocessed_all_processed(s);
        assert(s.subrange(c, s.len() as int) =~= Seq::<WithdrawalRequest>::empty());
    } else {
        assert(s.subrange(c, s.len() as int).drop_last() =~= s.drop_last().subrange(
            c,
            s.len() - 1,
        ));
        lemma_sum_unprocessed_suffix(s.drop_last(), c);
        assert(s.subrange(c, s.len() as int).last() == s.last());
    }
}

/// In a well-formed queue every processed request stands strictly before
/// every unprocessed one: requests are paid in enqueue order, and no
/// later request is ever paid before an earlier unprocessed one.
pub proof fn lemma_fifo_order(q: WithdrawalState, i: int, j: int)
    requires
        q.wf(),
        0 <= i < q.requests@.len(),
        0 <= j < q.requests@.len(),
        q.requests@[i].processed,
        !q.requests@[j].processed,
    ensures
        i < j,
{
}

/// A request, marked paid.
pub open spec fn mark_processed(r: WithdrawalRequest) -> WithdrawalRequest {
    WithdrawalRequest { processed: true, ..r }
}

/// How many requests the next batch pays: every request from the head
/// cursor on, capped at the batch size.
pub open spec fn batch_len(q: WithdrawalState) -> int {
    if q.queue_tail - q.queue_head < MAX_BATCH_SIZE {
        q.queue_tail - q.queue_head
    } else {
        MAX_BATCH_SIZE as int
    }
}

/// Vector index of the request under the head cursor.
pub open spec fn head_offset(q: WithdrawalState) -> int {
    q.queue_head - q.first_index()
}

/// What one batch does to a well-formed queue: the first `batch_len`
/// requests at the head cursor — and no others — are paid, in enqueue
/// order; the head advances one slot per paid request; the queued total
/// drops by exactly the amounts paid out.
pub open spec fn batch_post(
    q0: WithdrawalState,
    q1: WithdrawalState,
    paid: Seq<WithdrawalRequest>,
    now: i64,
) -> bool {
    &&& q1.wf()
    &&& q1.queue_tail == q0.queue_tail
    &&& q1.authority == q0.authority
    &&& q1.paused == q0.paused
    &&& q1.last_process_time == now
    &&& q1.queue_head == q0.queue_head + batch_len(q0)
    &&& q1.requests@.len() == q0.requests@.len()
    &&& paid.len() == batch_len(q0)
    &&& forall|j: int|
        0 <= j < paid.len() ==> paid[j] == mark_processed(q0.requests@[head_offset(q0) + j])
    &&& forall|i: int|
        0 <= i < q1.requests@.len() ==> q1.requests@[i] == (if head_offset(q0) <= i < head_offset(
            q0,
        ) + batch_len(q0) {
            mark_processed(q0.requests@[i])
        } else {
            q0.requests@[i]
        })
    &&& q1.total_queued == q0.total_queued - sum_amounts(paid)
}

impl WithdrawalState {
    /// An empty queue under the given authority, as bootstrap creates
    /// it: no requests, cursors at zero, nothing queued.
    pub fn new(authority: u64) -> (q: WithdrawalState)
        ensures
            q.wf(),
            q.authority == authority,
            q.requests@ == Seq::<WithdrawalRequest>::empty(),
            q.queue_head == 0,
            q.queue_tail == 0,
            q.total_queued == 0,
            q.paused == false,
            q.last_process_time == 0,
    {
        WithdrawalState {
            authority,
            requests: Vec::new(),
            queue_head: 0,
            queue_tail: 0,
            total_queued: 0,
            paused: false,
            last_process_time: 0,
        }
    }

    /// Appends a fresh request, advancing the tail cursor and the queued
    /// total. Rejects only on arithmetic overflow, and then changes
    /// nothing.
    pub fn add_request(&mut self, request: WithdrawalRequest) -> (r: Result<(), ProtocolError>)
        requires
            old(self).wf(),
            !request.processed,
        ensures
            final(self).wf(),
            old(self).queue_tail + 1 <= u64::MAX && old(self).total_queued + request.amount
                <= u64::MAX ==> {
                &&& r == Ok::<(), ProtocolError>(())
                &&& final(self).requests@ == old(self).requests@.push(request)
                &&& final(self).queue_tail == old(self).queue_tail + 1
                &&& final(self).total_queued == old(self).total_queued + request.amount
                &&& final(self).queue_head == old(self).queue_head
                &&& final(self).paused == old(self).paused
                &&& final(self).authority == old(self).authority
                &&& final(self).last_process_time == old(self).last_process_time
            },
            !(old(self).queue_tail + 1 <= u64::MAX && old(self).total_queued + request.amount
                <= u64::MAX) ==> {
                &&& r == Err::<(), ProtocolError>(ProtocolError::Overflow)
                &&& *final(self) == *old(self)
            },
    {
        if self.queue_tail == u64::MAX {
            return Err(ProtocolError::Overflow);
        }
        if request.amount > u64::MAX - self.total_queued {
            return Err(ProtocolError::Overflow);
        }
        proof {
            lemma_sum_unprocessed_push(self.requests@, request);
        }
        self.requests.push(request);
        self.queue_tail = self.queue_tail + 1;
        self.total_queued = self.total_queued + request.amount;
        Ok(())
    }

    /// Pays out up to `MAX_BATCH_SIZE` requests in strict FIFO order,
    /// starting at the head cursor.
    ///
    /// Returns the paid requests, in enqueue order, each marked
    /// processed; the caller transfers each returned amount to its
    /// requester. A request already processed lies before the head
    /// cursor of a well-formed queue and is never paid again.
    pub fn process_batch(&mut self, current_time: i64) -> (paid: Vec<WithdrawalRequest>)
        requires
            old(self).wf(),
        ensures
            batch_post(*old(self), *final(self), paid@, current_time),
    {
        let ghost q0 = *self;
        let pending64: u64 = self.queue_tail - self.queue_head;
        let count: usize = if pending64 < MAX_BATCH_SIZE as u64 {
            pending64 as usize
        } else {
            MAX_BATCH_SIZE
        };
        let head_rel: usize = self.requests.len() - (self.queue_tail - self.queue_head) as usize;
        let mut paid: Vec<WithdrawalRequest> = Vec::new();
        let mut j: usize = 0;
        while j < count
            invariant
                q0.wf(),
                0 <= j <= count,
                count == batch_len(q0),
                head_rel == head_offset(q0),
                head_rel + count <= self.requests@.len(),
                self.requests@.len() <= usize::MAX,
                self.requests@.len() == q0.requests@.len(),
                self.queue_tail == q0.queue_tail,
                self.queue_head == q0.queue_head,
                self.paused == q0.paused,
                self.authority == q0.authority,
                self.last_process_time == q0.last_process_time,
                paid@.len() == j,
                forall|jj: int|
                    0 <= jj < j ==> paid@[jj] == mark_processed(q0.requests@[head_rel + jj]),
                forall|i: int|
                    0 <= i < self.requests@.len() ==> self.requests@[i] == (if head_rel <= i
                        < head_rel + j {
                        mark_processed(q0.requests@[i])
                    } else {
                        q0.requests@[i]
                    }),
                self.total_queued == sum_unprocessed(self.requests@),
                self.total_queued == q0.total_queued - sum_amounts(paid@),
            decreases count - j,
        {
            let idx = head_rel + j;
            let request = self.requests[idx];
            proof {
                assert(q0.first_index() + idx >= q0.queue_head);
                assert(!request.processed);
                lemma_sum_unprocessed_mark(self.requests@, idx as int);
                lemma_sum_unprocessed_nonneg(
                    self.requests@.update(idx as int, mark_processed(request)),
                );
                lemma_sum_amounts_push(paid@, mark_processed(request));
            }
            let marked = WithdrawalRequest {
                user: request.user,
                amount: request.amount,
                request_time: request.request_time,
                processed: true,
            };
            self.requests[idx] = marked;
            self.total_queued = self.total_queued - request.amount;
            paid.push(marked);
            j = j + 1;
        }
        self.queue_head = self.queue_head + count as u64;
        self.last_process_time = current_time;
        paid
    }

    /// Drops the fully-processed prefix the head cursor has moved past.
    /// Cursors and the queued total are untouched; only the storage
    /// shrinks.
    pub fn clean_processed(&mut self)
        requires
            old(self).wf(),
        ensures
            final(self).wf(),
            final(self).requests@ == old(self).requests@.subrange(
                head_offset(*old(self)),
                old(self).requests@.len() as int,
            ),
            final(self).queue_head == old(self).queue_head,
            final(self).queue_tail == old(self).queue_tail,
            final(self).total_queued == old(self).total_queued,
            final(self).paused == old(self).paused,
            final(self).authority == old(self).authority,
            final(self).last_process_time == old(self).last_process_time,
    {
        let ghost q0 = *self;
        let head_rel: usize = self.requests.len() - (self.queue_tail - self.queue_head) as usize;
        let mut kept: Vec<WithdrawalRequest> = Vec::new();
        let mut i: usize = head_rel;
        while i < self.requests.len()
            invariant
                q0.wf(),
                head_rel <= i <= self.requests@.len(),
                head_rel == head_offset(q0),
                *self == q0,
                kept@ == q0.requests@.subrange(head_rel as int, i as int),
            decreases self.requests@.len() - i,
        {
            let request = self.requests[i];
            kept.push(request);
            proof {
                assert(kept@ =~= q0.requests@.subrange(head_rel as int, i + 1));
            }
            i = i + 1;
        }
        proof {
            lemma_sum_unprocessed_suffix(q0.requests@, head_rel as int);
        }
        self.requests = kept;
    }
}

/// Whether a queued withdrawal is accepted: the queue live, the amount
/// covered by the principal's stake, and the cursors and totals still
/// in range.
pub open spec fn join_queue_ok(q: WithdrawalState, user: UserStakeInfo, amount: u64) -> bool {
    &&& !q.paused
    &&& amount <= user.staked_amount
    &&& q.queue_tail + 1 <= u64::MAX
    &&& q.total_queued + amount <= u64::MAX
}

/// The kind a rejected queued withdrawal fails with.
pub open spec fn join_queue_err(q: WithdrawalState, user: UserStakeInfo, amount: u64) -> ProtocolError {
    if q.paused {
        ProtocolError::ProtocolPaused
    } else if amount > user.staked_amount {
        ProtocolError::InsufficientStake
    } else {
        ProtocolError::Overflow
    }
}

/// Queues a withdrawal request for a principal.
///
/// Appends the request at the tail cursor and marks the principal's
/// record withdrawal-pending. No value moves until a batch pays the
/// request out.
pub fn join_withdrawal_queue(
    queue: &mut WithdrawalState,
    user: &mut UserStakeInfo,
    amount: u64,
    now: i64,
) -> (r: Result<(), ProtocolError>)
    requires
        old(queue).wf(),
    ensures
        final(queue).wf(),
        join_queue_ok(*old(queue), *old(user), amount) ==> {
            &&& r == Ok::<(), ProtocolError>(())
            &&& final(queue).requests@ == old(queue).requests@.push(
                (WithdrawalRequest { user: old(user).owner, amount, request_time: now, processed: false }),
            )
            &&& final(queue).queue_tail == old(queue).queue_tail + 1
            &&& final(queue).total_queued == old(queue).total_queued + amount
            &&& final(queue).queue_head == old(queue).queue_head
            &&& final(queue).paused == old(queue).paused
            &&& final(queue).authority == old(queue).authority
            &&& final(queue).last_process_time == old(queue).last_process_time
            &&& *final(user) == (UserStakeInfo {
                withdrawal_pending: true,
                withdrawal_amount: amount,
                ..*old(user)
            })
        },
        !join_queue_ok(*old(queue), *old(user), amount) ==> {
            &&& r == Err::<(), ProtocolError>(join_queue_err(*old(queue), *old(user), amount))
            &&& *final(queue) == *old(queue)
            &&& *final(user) == *old(user)
        },
{
    if queue.paused {
        return Err(ProtocolError::ProtocolPaused);
    }
    if amount > user.staked_amount {
        return Err(ProtocolError::InsufficientStake);
    }
    let request = WithdrawalRequest { user: user.owner, amount, request_time: now, processed: false };
    match queue.add_request(request) {
        Ok(()) => {},
        Err(e) => {
            return Err(e);
        },
    }
    user.withdrawal_pending = true;
    user.withdrawal_amount = amount;
    Ok(())
}

/// Pays out the next batch of queued withdrawals, authority-gated.
///
/// On success the returned requests are exactly the next `batch_len`
/// requests at the head cursor, in enqueue order; the caller transfers
/// each amount to its requester.
pub fn process_withdrawal_queue(queue: &mut WithdrawalState, authority: u64, now: i64) -> (r:
    Result<Vec<WithdrawalRequest>, ProtocolError>)
    requires
        old(queue).wf(),
    ensures
        final(queue).wf(),
        authority == old(queue).authority ==> ({
            &&& r matches Ok(paid)
            &&& (r matches Ok(paid) ==> batch_post(*old(queue), *final(queue), paid@, now))
        }),
        authority != old(queue).authority ==> {
            &&& r matches Err(e) && e == ProtocolError::InvalidAuthority
            &&& *final(queue) == *old(queue)
        },
{
    if authority != queue.authority {
        return Err(ProtocolError::InvalidAuthority);
    }
    Ok(queue.process_batch(now))
}

} // verus!
