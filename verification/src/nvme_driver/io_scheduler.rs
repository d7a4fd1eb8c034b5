//! I/O request scheduling: priorities, requests, the no-op, round-robin,
//! CPU-affinity, priority and deadline schedulers, and request merging.
use vstd::prelude::*;
use std::collections::VecDeque;
use std::time::{Duration, Instant};
use super::time::{instant_after, instant_checked_add, instant_plus, later_than, now};

verus! {

broadcast use {vstd::seq_lib::group_to_multiset_ensures, vstd::multiset::group_multiset_axioms};

/// I/O request priority levels.
#[derive(Debug, Clone, Copy, PartialEq, Eq, PartialOrd, Ord, Structural)]
pub enum IoPriority {
    /// Background I/O (lowest priority).
    Background,
    /// Normal I/O.
    Normal,
    /// High priority I/O.
    High,
    /// Real-time I/O (highest priority).
    Realtime,
}

impl Default for IoPriority {
    fn default() -> (p: Self)
        ensures
            p == IoPriority::Normal,
    {
        IoPriority::Normal
    }
}

/// The numeric level of a priority (0 for background to 3 for real-time).
pub open spec fn priority_level(p: IoPriority) -> u8 {
    match p {
        IoPriority::Background => 0,
        IoPriority::Normal => 1,
        IoPriority::High => 2,
        IoPriority::Realtime => 3,
    }
}

impl IoPriority {
    /// The numeric level of the priority.
    pub fn level(&self) -> (l: u8)
        ensures
            l == priority_level(*self),
    {
        match self {
            IoPriority::Background => 0,
            IoPriority::Normal => 1,
            IoPriority::High => 2,
            IoPriority::Realtime => 3,
        }
    }
}

/// I/O request type.
#[derive(Debug, Clone, Copy, PartialEq, Eq, Structural)]
pub enum IoType {
    Read,
    Write,
    Flush,
    Discard,
}

/// A pending I/O request.
#[derive(Debug)]
pub struct IoRequest {
    /// Unique request id.
    pub id: u64,
    /// Request type.
    pub io_type: IoType,
    /// Priority level.
    pub priority: IoPriority,
    /// Deadline for completion.
    pub deadline: Option<Instant>,
    /// Namespace id.
    pub ns_id: u32,
    /// Starting LBA.
    pub lba: u64,
    /// Number of blocks.
    pub blocks: u16,
    /// Data buffer address.
    pub data: usize,
    /// Data size.
    pub size: usize,
    /// Time the request was queued.
    pub queued_at: Instant,
    /// Assigned queue, if any.
    pub queue_hint: Option<usize>,
}

/// The request fields a constructor sets, all but the queueing time.
pub open spec fn fresh_request(r: IoRequest, id: u64, io_type: IoType, ns_id: u32, lba: u64, blocks: u16, data: usize, size: usize) -> bool {
    &&& r.id == id
    &&& r.io_type == io_type
    &&& r.priority == IoPriority::Normal
    &&& r.deadline is None
    &&& r.ns_id == ns_id
    &&& r.lba == lba
    &&& r.blocks == blocks
    &&& r.data == data
    &&& r.size == size
    &&& r.queue_hint is None
}

impl IoRequest {
    /// A normal-priority read queued now.
    pub fn read(id: u64, ns_id: u32, lba: u64, blocks: u16, data: usize, size: usize) -> (r: Self)
        ensures
            fresh_request(r, id, IoType::Read, ns_id, lba, blocks, data, size),
    {
        IoRequest {
            id,
            io_type: IoType::Read,
            priority: IoPriority::Normal,
            deadline: None,
            ns_id,
            lba,
            blocks,
            data,
            size,
            queued_at: now(),
            queue_hint: None,
        }
    }

    /// A normal-priority write queued now.
    pub fn write(id: u64, ns_id: u32, lba: u64, blocks: u16, data: usize, size: usize) -> (r: Self)
        ensures
            fresh_request(r, id, IoType::Write, ns_id, lba, blocks, data, size),
    {
        IoRequest {
            id,
            io_type: IoType::Write,
            priority: IoPriority::Normal,
            deadline: None,
            ns_id,
            lba,
            blocks,
            data,
            size,
            queued_at: now(),
            queue_hint: None,
        }
    }

    /// The same request with priority `priority`.
    pub fn with_priority(self, priority: IoPriority) -> (r: Self)
        ensures
            r == (IoRequest { priority, ..self }),
    {
        let mut r = self;
        r.priority = priority;
        r
    }

    /// The same request due `deadline` after the instant `t`; a point past
    /// what the clock can represent leaves the request without a deadline.
    pub fn with_deadline_from(self, t: Instant, deadline: Duration) -> (r: Self)
        ensures
            r == (IoRequest { deadline: instant_plus(t, deadline), ..self }),
    {
        let mut r = self;
        r.deadline = instant_checked_add(t, deadline);
        r
    }

    /// The same request due `deadline` from now (see `with_deadline_from`;
    /// the clock's reading is not known here).
    pub fn with_deadline(self, deadline: Duration) -> (r: Self)
        ensures
            exists|t: Instant| r == (IoRequest { deadline: #[trigger] instant_plus(t, deadline), ..self }),
    {
        let t = now();
        let r = self.with_deadline_from(t, deadline);
        assert(r == (IoRequest { deadline: instant_plus(t, deadline), ..self }));
        r
    }

    /// The same request with queue hint `queue`.
    pub fn with_queue_hint(self, queue: usize) -> (r: Self)
        ensures
            r == (IoRequest { queue_hint: Some(queue), ..self }),
    {
        let mut r = self;
        r.queue_hint = Some(queue);
        r
    }
}

/// A scheduler of I/O requests.
pub trait IoScheduler {
    /// The scheduler's invariant.
    spec fn inv(&self) -> bool;

    /// Submits a request.
    fn submit(&mut self, request: IoRequest)
        requires
            old(self).inv(),
        ensures
            final(self).inv(),
    ;

    /// The next request to dispatch.
    fn next(&mut self) -> (r: Option<IoRequest>)
        requires
            old(self).inv(),
        ensures
            final(self).inv(),
    ;

    /// The number of pending requests.
    fn pending_count(&self) -> usize
        requires
            self.inv(),
    ;

    /// Takes out the requests whose deadline has passed.
    fn check_deadlines(&mut self) -> (v: Vec<IoRequest>)
        requires
            old(self).inv(),
        ensures
            final(self).inv(),
    ;
}

/// No-op scheduler: requests go straight to the queues.
pub struct NoopScheduler;

impl IoScheduler for NoopScheduler {
    open spec fn inv(&self) -> bool {
        true
    }

    /// Drops the request.
    fn submit(&mut self, request: IoRequest) {
    }

    /// Nothing is ever pending.
    fn next(&mut self) -> (r: Option<IoRequest>)
        ensures
            r is None,
    {
        None
    }

    fn pending_count(&self) -> (n: usize)
        ensures
            n == 0,
    {
        0
    }

    fn check_deadlines(&mut self) -> (v: Vec<IoRequest>)
        ensures
            v@.len() == 0,
    {
        Vec::new()
    }
}

/// Sum of the lengths of `qs`.
pub open spec fn total_len(qs: Seq<Seq<IoRequest>>) -> nat
    decreases qs.len(),
{
    if qs.len() == 0 {
        0
    } else {
        total_len(qs.drop_last()) + qs.last().len()
    }
}

/// `n` capped at `usize::MAX`.
pub open spec fn cap_usize(n: nat) -> usize {
    if n > usize::MAX {
        usize::MAX
    } else {
        n as usize
    }
}

/// The queue the `t`-th pick after position `current` looks at: the
/// position counter wraps in `usize`.
pub open spec fn rr_queue(current: usize, t: int, n: int) -> int {
    ((current + t) % (usize::MAX as int + 1)) % n
}

/// A `usize` is its own residue modulo `usize::MAX + 1`.
proof fn lemma_usize_mod(c: usize)
    ensures
        (c as int) % (usize::MAX as int + 1) == c as int,
{
    vstd::arithmetic::div_mod::lemma_small_mod(c as nat, (usize::MAX as int + 1) as nat);
}

/// Wrapping increment of a position taken modulo `usize::MAX + 1`.
proof fn lemma_wrap_step(c: usize, t: nat)
    ensures
        (((c + t) % (usize::MAX as int + 1)) as usize).wrapping_add(1) == ((c + t + 1) % (usize::MAX as int + 1)) as usize,
{
    let m = usize::MAX as int + 1;
    let x = (c + t) % m;
    vstd::arithmetic::div_mod::lemma_add_mod_noop(c + t, 1, m);
    vstd::arithmetic::div_mod::lemma_small_mod(1, m as nat);
    assert(0 <= x < m) by {
        vstd::arithmetic::div_mod::lemma_mod_bound(c + t, m);
    }
    if x + 1 < m {
        vstd::arithmetic::div_mod::lemma_small_mod((x + 1) as nat, m as nat);
    } else {
        vstd::arithmetic::div_mod::lemma_mod_self_0(m);
    }
}

/// The contents of a list of request queues, oldest first.
pub open spec fn queue_contents(qs: Seq<VecDeque<IoRequest>>) -> Seq<Seq<IoRequest>> {
    qs.map_values(|q: VecDeque<IoRequest>| q@)
}

/// `num_queues` empty queues.
fn empty_queues(num_queues: usize) -> (qs: Vec<VecDeque<IoRequest>>)
    ensures
        queue_contents(qs@).len() == num_queues,
        forall|i: int| 0 <= i < num_queues ==> #[trigger] queue_contents(qs@)[i].len() == 0,
{
    let mut queues: Vec<VecDeque<IoRequest>> = Vec::new();
    let mut i: usize = 0;
    while i < num_queues
        invariant
            0 <= i <= num_queues,
            queues@.len() == i,
            forall|j: int| 0 <= j < i ==> #[trigger] queues@[j]@.len() == 0,
        decreases num_queues - i,
    {
        queues.push(VecDeque::new());
        i = i + 1;
    }
    queues
}

/// Moves request `r` to the back of queue `idx`.
fn queue_push(qs: &mut Vec<VecDeque<IoRequest>>, idx: usize, r: IoRequest)
    requires
        idx < old(qs)@.len(),
    ensures
        queue_contents(final(qs)@) == queue_contents(old(qs)@).update(
            idx as int,
            queue_contents(old(qs)@)[idx as int].push(r),
        ),
{
    let mut q = qs.remove(idx);
    q.push_back(r);
    qs.insert(idx, q);
    assert(queue_contents(qs@) =~= queue_contents(old(qs)@).update(
        idx as int,
        queue_contents(old(qs)@)[idx as int].push(r),
    ));
}

/// Takes the front of queue `idx`.
fn queue_pop(qs: &mut Vec<VecDeque<IoRequest>>, idx: usize) -> (r: Option<IoRequest>)
    requires
        idx < old(qs)@.len(),
    ensures
        ({
            let before = queue_contents(old(qs)@);
            if before[idx as int].len() == 0 {
                r is None && queue_contents(final(qs)@) == before
            } else {
                r == Some(before[idx as int][0]) && queue_contents(final(qs)@) == before.update(
                    idx as int,
                    before[idx as int].drop_first(),
                )
            }
        }),
{
    let ghost before = queue_contents(qs@);
    let mut q = qs.remove(idx);
    let r = q.pop_front();
    qs.insert(idx, q);
    assert(queue_contents(qs@) =~= before.update(idx as int, q@));
    proof {
        if before[idx as int].len() == 0 {
            assert(q@ =~= before[idx as int]);
            assert(queue_contents(qs@) =~= before);
        }
    }
    r
}

/// The number of queued requests (capped at `usize::MAX`).
fn queue_total(qs: &Vec<VecDeque<IoRequest>>) -> (n: usize)
    ensures
        n == cap_usize(total_len(queue_contents(qs@))),
{
    let ghost c = queue_contents(qs@);
    let mut total: usize = 0;
    let mut i: usize = 0;
    while i < qs.len()
        invariant
            c == queue_contents(qs@),
            0 <= i <= c.len(),
            total == cap_usize(total_len(c.take(i as int))),
        decreases c.len() - i,
    {
        assert(c.take(i as int + 1).drop_last() =~= c.take(i as int));
        assert(c.take(i as int + 1).last() == c[i as int]);
        total = total.saturating_add(qs[i].len());
        i = i + 1;
    }
    assert(c.take(c.len() as int) =~= c);
    total
}

/// Whether request `r` has a deadline that instant `t` is later than.
pub open spec fn expired_at(r: IoRequest, t: Instant) -> bool {
    match r.deadline {
        Some(d) => later_than(t, d),
        None => false,
    }
}

/// Requests still in time at `t`.
pub open spec fn keep_pred(t: Instant) -> spec_fn(IoRequest) -> bool {
    |r: IoRequest| !expired_at(r, t)
}

/// Requests past their deadline at `t`.
pub open spec fn expired_pred(t: Instant) -> spec_fn(IoRequest) -> bool {
    |r: IoRequest| expired_at(r, t)
}

/// The queues one after another.
pub open spec fn flatten(qs: Seq<Seq<IoRequest>>) -> Seq<IoRequest>
    decreases qs.len(),
{
    if qs.len() == 0 {
        Seq::empty()
    } else {
        flatten(qs.drop_last()) + qs.last()
    }
}

/// Splitting queues at clock reading `t`: each queue keeps, in order, its
/// requests still in time; the expired ones come out queue by queue, in
/// order.
pub open spec fn split_at_clock(qs: Seq<Seq<IoRequest>>, t: Instant) -> (Seq<Seq<IoRequest>>, Seq<IoRequest>) {
    (
        qs.map_values(|q: Seq<IoRequest>| q.filter(keep_pred(t))),
        flatten(qs.map_values(|q: Seq<IoRequest>| q.filter(expired_pred(t)))),
    )
}

/// Takes out, queue by queue and in order, the requests whose deadline the
/// instant `time_now` is later than; the others stay in order.
pub fn take_expired_at(qs: &mut Vec<VecDeque<IoRequest>>, time_now: Instant) -> (v: Vec<IoRequest>)
    ensures
        (queue_contents(final(qs)@), v@) == split_at_clock(queue_contents(old(qs)@), time_now),
        final(qs)@.len() == old(qs)@.len(),
        total_len(queue_contents(final(qs)@)) + v@.len() == total_len(queue_contents(old(qs)@)),
        forall|i: int| 0 <= i < v@.len() ==> (#[trigger] v@[i]).deadline is Some,
{
    let ghost c0 = queue_contents(qs@);
    let ghost keep = keep_pred(time_now);
    let ghost exp = expired_pred(time_now);
    let ghost fk = |q: Seq<IoRequest>| q.filter(keep);
    let ghost fe = |q: Seq<IoRequest>| q.filter(exp);
    let mut expired: Vec<IoRequest> = Vec::new();
    let n = qs.len();
    let mut qi: usize = 0;
    while qi < n
        invariant
            n == qs@.len(),
            n == old(qs)@.len(),
            c0 == queue_contents(old(qs)@),
            keep == keep_pred(time_now),
            exp == expired_pred(time_now),
            fk == (|q: Seq<IoRequest>| q.filter(keep)),
            fe == (|q: Seq<IoRequest>| q.filter(exp)),
            0 <= qi <= n,
            forall|i: int| 0 <= i < qi ==> #[trigger] queue_contents(qs@)[i] == c0[i].filter(keep),
            forall|i: int| qi <= i < n ==> #[trigger] queue_contents(qs@)[i] == c0[i],
            expired@ == flatten(c0.map_values(fe).take(qi as int)),
            total_len(queue_contents(qs@)) + expired@.len() == total_len(queue_contents(old(qs)@)),
            forall|i: int| 0 <= i < expired@.len() ==> (#[trigger] expired@[i]).deadline is Some,
        decreases n - qi,
    {
        let ghost cur = queue_contents(qs@);
        assert(queue_contents(qs@)[qi as int] == c0[qi as int]);
        assert(qs@[qi as int]@ == cur[qi as int]);
        let mut q = qs.remove(qi);
        let mut kept: VecDeque<IoRequest> = VecDeque::new();
        let ghost e0 = expired@;
        let ghost q0 = q@;
        assert(q0 == c0[qi as int]);
        let ghost mut k: int = 0;
        while q.len() > 0
            invariant
                keep == keep_pred(time_now),
                exp == expired_pred(time_now),
                0 <= k <= q0.len(),
                q@ == q0.subrange(k, q0.len() as int),
                kept@ == q0.take(k).filter(keep),
                expired@ == e0 + q0.take(k).filter(exp),
                forall|i: int| 0 <= i < e0.len() ==> (#[trigger] e0[i]).deadline is Some,
                forall|i: int| 0 <= i < expired@.len() ==> (#[trigger] expired@[i]).deadline is Some,
            decreases q@.len(),
        {
            let r = q.pop_front().unwrap();
            proof {
                assert(r == q0[k]);
                q0.take(k).lemma_filter_push(r, keep);
                q0.take(k).lemma_filter_push(r, exp);
                assert(q0.take(k + 1) =~= q0.take(k).push(r));
                assert(q@ =~= q0.subrange(k + 1, q0.len() as int));
            }
            let past = match &r.deadline {
                Some(d) => instant_after(&time_now, d),
                None => false,
            };
            assert(past == expired_at(r, time_now));
            if past {
                expired.push(r);
            } else {
                kept.push_back(r);
            }
            proof {
                k = k + 1;
            }
        }
        assert(k == q0.len());
        assert(q0.take(k) =~= q0);
        qs.insert(qi, kept);
        proof {
            assert(queue_contents(qs@) =~= cur.update(qi as int, kept@));
            lemma_total_len_update(cur, qi as int, kept@);
            q0.lemma_filter_len(keep);
            q0.lemma_filter_len(exp);
            lemma_filter_split_len(q0, time_now);
            let m = c0.map_values(fe);
            assert(m.take(qi + 1).drop_last() =~= m.take(qi as int));
            assert(m.take(qi + 1).last() == q0.filter(exp));
        }
        qi = qi + 1;
    }
    proof {
        let m = c0.map_values(fe);
        assert(m.take(n as int) =~= m);
        assert(queue_contents(qs@) =~= c0.map_values(fk));
    }
    expired
}

/// Filtering a queue by a predicate and by its negation keeps every request
/// once.
proof fn lemma_filter_split_len(q: Seq<IoRequest>, t: Instant)
    ensures
        q.filter(keep_pred(t)).len() + q.filter(expired_pred(t)).len() == q.len(),
    decreases q.len(),
{
    if q.len() > 0 {
        let init = q.drop_last();
        lemma_filter_split_len(init, t);
        assert(init.push(q.last()) =~= q);
        init.lemma_filter_push(q.last(), keep_pred(t));
        init.lemma_filter_push(q.last(), expired_pred(t));
    }
}

/// Takes out, queue by queue and in order, the requests whose deadline has
/// passed by the clock's reading now (see `take_expired_at`); which have
/// passed depends on that reading, not known here.
fn take_expired(qs: &mut Vec<VecDeque<IoRequest>>) -> (v: Vec<IoRequest>)
    ensures
        exists|t: Instant| #[trigger] split_at_clock(queue_contents(old(qs)@), t) == (queue_contents(final(qs)@), v@),
        final(qs)@.len() == old(qs)@.len(),
        total_len(queue_contents(final(qs)@)) + v@.len() == total_len(queue_contents(old(qs)@)),
        forall|i: int| 0 <= i < v@.len() ==> (#[trigger] v@[i]).deadline is Some,
{
    let t = now();
    let v = take_expired_at(qs, t);
    assert(split_at_clock(queue_contents(old(qs)@), t) == (queue_contents(qs@), v@));
    v
}

/// Round-robin scheduler: submissions and picks each take the next queue in
/// turn.
pub struct RoundRobinScheduler {
    queues: Vec<VecDeque<IoRequest>>,
    current: usize,
}

impl RoundRobinScheduler {
    /// The queues' contents, oldest first.
    pub closed spec fn queues_spec(&self) -> Seq<Seq<IoRequest>> {
        queue_contents(self.queues@)
    }

    /// The turn counter.
    pub closed spec fn current_spec(&self) -> usize {
        self.current
    }

    /// `num_queues` empty queues, starting at queue 0.
    pub fn new(num_queues: usize) -> (s: Self)
        ensures
            s.queues_spec().len() == num_queues,
            forall|i: int| 0 <= i < num_queues ==> #[trigger] s.queues_spec()[i].len() == 0,
            s.current_spec() == 0,
    {
RoundRobinScheduler { queues: empty_queues(num_queues), current: 0 }
    }

}

/// The first queue of the round-robin scan from `current` that holds a
/// request: the number of queues looked at before it, if any within `n`.
pub open spec fn rr_first_nonempty(qs: Seq<Seq<IoRequest>>, current: usize, t: int) -> bool {
    &&& 0 <= t < qs.len()
    &&& qs[rr_queue(current, t, qs.len() as int)].len() > 0
    &&& forall|u: int| 0 <= u < t ==> #[trigger] qs[rr_queue(current, u, qs.len() as int)].len() == 0
}

impl IoScheduler for RoundRobinScheduler {
    open spec fn inv(&self) -> bool {
        self.queues_spec().len() > 0
    }

    /// Appends the request to the queue whose turn it is.
    fn submit(&mut self, request: IoRequest)
        ensures
            ({
                let n = old(self).queues_spec().len() as int;
                let idx = rr_queue(old(self).current_spec(), 0, n);
                &&& final(self).queues_spec() == old(self).queues_spec().update(
                    idx,
                    old(self).queues_spec()[idx].push(request),
                )
                &&& final(self).current_spec() == old(self).current_spec().wrapping_add(1)
            }),
    {
        let n = self.queues.len();
        let idx = self.current % n;
        proof {
            lemma_usize_mod(self.current);
        }
        self.current = self.current.wrapping_add(1);
        queue_push(&mut self.queues, idx, request);
    }

    /// Scans the queues in turn from the current one, taking the front of
    /// the first that holds a request; every queue looked at uses up a turn.
    fn next(&mut self) -> (r: Option<IoRequest>)
        ensures
            ({
                let qs = old(self).queues_spec();
                let c = old(self).current_spec();
                let n = qs.len() as int;
                if exists|t: int| rr_first_nonempty(qs, c, t) {
                    let t = choose|t: int| rr_first_nonempty(qs, c, t);
                    let idx = rr_queue(c, t, n);
                    &&& r == Some(qs[idx][0])
                    &&& final(self).queues_spec() == qs.update(idx, qs[idx].drop_first())
                    &&& final(self).current_spec() == ((c + t + 1) % (usize::MAX as int + 1)) as usize
                } else {
                    &&& r is None
                    &&& final(self).queues_spec() == qs
                    &&& final(self).current_spec() == ((c + n) % (usize::MAX as int + 1)) as usize
                }
            }),
    {
        let n = self.queues.len();
        let ghost qs = self.queues_spec();
        let ghost c = self.current;
        let mut t: usize = 0;
        proof {
            lemma_usize_mod(c);
        }
        while t < n
            invariant
                n == qs.len(),
                n > 0,
                qs == old(self).queues_spec(),
                c == old(self).current,
                0 <= t <= n,
                self.queues_spec() == qs,
                self.current == ((c + t) % (usize::MAX as int + 1)) as usize,
                forall|u: int| 0 <= u < t ==> #[trigger] qs[rr_queue(c, u, n as int)].len() == 0,
            decreases n - t,
        {
            let idx = self.current % n;
            assert(idx == rr_queue(c, t as int, n as int));
            proof {
                lemma_wrap_step(c, t as nat);
            }
            self.current = self.current.wrapping_add(1);
            match queue_pop(&mut self.queues, idx) {
                Some(r) => {
                    proof {
                        assert(rr_first_nonempty(qs, c, t as int));
                        let w = choose|w: int| rr_first_nonempty(qs, c, w);
                        if w < t as int {
                            assert(qs[rr_queue(c, w, n as int)].len() == 0);
                        } else if (t as int) < w {
                            assert(qs[rr_queue(c, t as int, n as int)].len() == 0);
                        }
                        assert(w == t as int);
                        assert(r == qs[idx as int][0]);
                        assert(self.queues_spec() == qs.update(idx as int, qs[idx as int].drop_first()));
                        assert(self.current == ((c + t + 1) % (usize::MAX as int + 1)) as usize);
                    }
                    return Some(r);
                },
                None => {},
            }
            t = t + 1;
        }
        proof {
            if exists|w: int| rr_first_nonempty(qs, c, w) {
                let w = choose|w: int| rr_first_nonempty(qs, c, w);
                assert(qs[rr_queue(c, w, n as int)].len() == 0);
            }
        }
        None
    }

    /// The number of queued requests (capped at `usize::MAX`).
    fn pending_count(&self) -> (n: usize)
        ensures
            n == cap_usize(total_len(self.queues_spec())),
    {
        queue_total(&self.queues)
    }

    /// Takes out, queue by queue and in order, the requests whose deadline
    /// is earlier than now; the others stay in order (see `split_at_clock`;
    /// the clock's reading is not known here).
    fn check_deadlines(&mut self) -> (v: Vec<IoRequest>)
        ensures
            final(self).queues_spec().len() == old(self).queues_spec().len(),
            total_len(final(self).queues_spec()) + v@.len() == total_len(old(self).queues_spec()),
            forall|i: int| 0 <= i < v@.len() ==> (#[trigger] v@[i]).deadline is Some,
            final(self).current_spec() == old(self).current_spec(),
            exists|t: Instant| #[trigger] split_at_clock(old(self).queues_spec(), t) == (final(self).queues_spec(), v@),
    {
        take_expired(&mut self.queues)
    }
}

/// The queue `t` steps after `start` among `n` queues.
pub open spec fn ring_step(start: int, t: int, n: int) -> int {
    (start + t) % n
}

/// The first queue, scanning from `start`, that holds a request: `t` steps
/// after `start`.
pub open spec fn first_nonempty_from(qs: Seq<Seq<IoRequest>>, start: int, t: int) -> bool {
    &&& 0 <= t < qs.len()
    &&& qs[ring_step(start, t, qs.len() as int)].len() > 0
    &&& forall|u: int| 0 <= u < t ==> #[trigger] qs[ring_step(start, u, qs.len() as int)].len() == 0
}

/// CPU-affinity scheduler: a request goes to its hinted queue, else to the
/// queue of the submitting CPU; a CPU serves its own queue first and then
/// takes work from the queues after it.
pub struct CpuAffinityScheduler {
    queues: Vec<VecDeque<IoRequest>>,
    cpu: usize,
}

impl CpuAffinityScheduler {
    /// The queues' contents, oldest first.
    pub closed spec fn queues_spec(&self) -> Seq<Seq<IoRequest>> {
        queue_contents(self.queues@)
    }

    /// The number the platform reports for the calling CPU.
    pub closed spec fn cpu_spec(&self) -> usize {
        self.cpu
    }

    /// `num_queues` empty queues; the calling CPU is taken to be 0 until
    /// told otherwise.
    pub fn new(num_queues: usize) -> (s: Self)
        ensures
            s.queues_spec().len() == num_queues,
            forall|i: int| 0 <= i < num_queues ==> #[trigger] s.queues_spec()[i].len() == 0,
            s.cpu_spec() == 0,
    {
        CpuAffinityScheduler { queues: empty_queues(num_queues), cpu: 0 }
    }

    /// Records the number of the CPU that submits and dispatches from now on.
    pub fn set_current_cpu(&mut self, cpu: usize)
        ensures
            final(self).queues_spec() == old(self).queues_spec(),
            final(self).cpu_spec() == cpu,
    {
        self.cpu = cpu;
    }

    /// The queue of the calling CPU.
    pub fn current_cpu_queue(&self) -> (q: usize)
        requires
            self.queues_spec().len() > 0,
        ensures
            q == (self.cpu_spec() as int) % (self.queues_spec().len() as int),
    {
        self.cpu % self.queues.len()
    }
}

impl IoScheduler for CpuAffinityScheduler {
    open spec fn inv(&self) -> bool {
        self.queues_spec().len() > 0
    }

    /// Appends the request to its hinted queue (modulo the number of
    /// queues), else to the calling CPU's queue.
    fn submit(&mut self, request: IoRequest)
        ensures
            ({
                let qs = old(self).queues_spec();
                let idx = match request.queue_hint {
                    Some(h) => (h as int) % (qs.len() as int),
                    None => (old(self).cpu_spec() as int) % (qs.len() as int),
                };
                final(self).queues_spec() == qs.update(idx, qs[idx].push(request))
            }),
            final(self).cpu_spec() == old(self).cpu_spec(),
    {
        let n = self.queues.len();
        let idx = match request.queue_hint {
            Some(h) => h % n,
            None => self.current_cpu_queue(),
        };
        queue_push(&mut self.queues, idx, request);
    }

    /// The front of the calling CPU's queue, else of the first queue after
    /// it (wrapping) that holds a request.
    fn next(&mut self) -> (r: Option<IoRequest>)
        ensures
            ({
                let qs = old(self).queues_spec();
                let n = qs.len() as int;
                let start = (old(self).cpu_spec() as int) % n;
                if exists|t: int| first_nonempty_from(qs, start, t) {
                    let t = choose|t: int| first_nonempty_from(qs, start, t);
                    let idx = ring_step(start, t, n);
                    r == Some(qs[idx][0]) && final(self).queues_spec() == qs.update(idx, qs[idx].drop_first())
                } else {
                    r is None && final(self).queues_spec() == qs
                }
            }),
            final(self).cpu_spec() == old(self).cpu_spec(),
    {
        let n = self.queues.len();
        let start = self.current_cpu_queue();
        let ghost qs = self.queues_spec();
        let mut t: usize = 0;
        while t < n
            invariant
                n == qs.len(),
                n > 0,
                start < n,
                qs == old(self).queues_spec(),
                start as int == (old(self).cpu_spec() as int) % (n as int),
                self.cpu == old(self).cpu,
                0 <= t <= n,
                self.queues_spec() == qs,
                forall|u: int| 0 <= u < t ==> #[trigger] qs[ring_step(start as int, u, n as int)].len() == 0,
            decreases n - t,
        {
            let idx = if t < n - start { start + t } else { t - (n - start) };
            proof {
                if t < n - start {
                    vstd::arithmetic::div_mod::lemma_small_mod((start + t) as nat, n as nat);
                } else {
                    vstd::arithmetic::div_mod::lemma_small_mod((t - (n - start)) as nat, n as nat);
                    vstd::arithmetic::div_mod::lemma_mod_add_multiples_vanish((t - (n - start)) as int, n as int);
                }
                assert(idx == ring_step(start as int, t as int, n as int));
            }
            match queue_pop(&mut self.queues, idx) {
                Some(r) => {
                    proof {
                        assert(first_nonempty_from(qs, start as int, t as int));
                        let w = choose|w: int| first_nonempty_from(qs, start as int, w);
                        if w < t as int {
                            assert(qs[ring_step(start as int, w, n as int)].len() == 0);
                        } else if (t as int) < w {
                            assert(qs[ring_step(start as int, t as int, n as int)].len() == 0);
                        }
                    }
                    return Some(r);
                },
                None => {},
            }
            t = t + 1;
        }
        proof {
            if exists|w: int| first_nonempty_from(qs, start as int, w) {
                let w = choose|w: int| first_nonempty_from(qs, start as int, w);
                assert(qs[ring_step(start as int, w, n as int)].len() == 0);
            }
        }
        None
    }

    /// The number of queued requests (capped at `usize::MAX`).
    fn pending_count(&self) -> (n: usize)
        ensures
            n == cap_usize(total_len(self.queues_spec())),
    {
        queue_total(&self.queues)
    }

    /// Takes out, queue by queue and in order, the requests whose deadline
    /// is earlier than now (see `take_expired`).
    fn check_deadlines(&mut self) -> (v: Vec<IoRequest>)
        ensures
            final(self).queues_spec().len() == old(self).queues_spec().len(),
            total_len(final(self).queues_spec()) + v@.len() == total_len(old(self).queues_spec()),
            forall|i: int| 0 <= i < v@.len() ==> (#[trigger] v@[i]).deadline is Some,
            final(self).cpu_spec() == old(self).cpu_spec(),
            exists|t: Instant| #[trigger] split_at_clock(old(self).queues_spec(), t) == (final(self).queues_spec(), v@),
    {
        take_expired(&mut self.queues)
    }
}

/// Priority scheduler: high and real-time requests first, then normal,
/// then background.
pub struct PriorityScheduler {
    high: VecDeque<IoRequest>,
    normal: VecDeque<IoRequest>,
    background: VecDeque<IoRequest>,
    high_served: u64,
    normal_served: u64,
}

/// The class a priority is queued in: 0 high (real-time too), 1 normal,
/// 2 background.
pub open spec fn priority_class(p: IoPriority) -> int {
    match p {
        IoPriority::Realtime | IoPriority::High => 0,
        IoPriority::Normal => 1,
        IoPriority::Background => 2,
    }
}

impl PriorityScheduler {
    /// The high, normal and background queues, oldest first.
    pub closed spec fn classes(&self) -> (Seq<IoRequest>, Seq<IoRequest>, Seq<IoRequest>) {
        (self.high@, self.normal@, self.background@)
    }

    /// Requests served from the high and normal queues (wrapping counts).
    pub closed spec fn served(&self) -> (u64, u64) {
        (self.high_served, self.normal_served)
    }

    /// Empty queues, nothing served.
    pub fn new() -> (s: Self)
        ensures
            s.classes() == (Seq::<IoRequest>::empty(), Seq::<IoRequest>::empty(), Seq::<IoRequest>::empty()),
            s.served() == (0u64, 0u64),
    {
        PriorityScheduler {
            high: VecDeque::new(),
            normal: VecDeque::new(),
            background: VecDeque::new(),
            high_served: 0,
            normal_served: 0,
        }
    }
}

impl IoScheduler for PriorityScheduler {
    open spec fn inv(&self) -> bool {
        true
    }

    /// Appends the request to the queue of its class.
    fn submit(&mut self, request: IoRequest)
        ensures
            ({
                let (h, n, b) = old(self).classes();
                final(self).classes() == if priority_class(request.priority) == 0 {
                    (h.push(request), n, b)
                } else if priority_class(request.priority) == 1 {
                    (h, n.push(request), b)
                } else {
                    (h, n, b.push(request))
                }
            }),
            final(self).served() == old(self).served(),
    {
        match request.priority {
            IoPriority::Realtime | IoPriority::High => self.high.push_back(request),
            IoPriority::Normal => self.normal.push_back(request),
            IoPriority::Background => self.background.push_back(request),
        }
    }

    /// The front of the high queue, else of the normal queue, else of the
    /// background queue; requests served from the high and normal queues
    /// are counted (wrapping).
    fn next(&mut self) -> (r: Option<IoRequest>)
        ensures
            ({
                let (h, n, b) = old(self).classes();
                let (hs, ns) = old(self).served();
                if h.len() > 0 {
                    r == Some(h[0]) && final(self).classes() == (h.drop_first(), n, b)
                        && final(self).served() == (hs.wrapping_add(1), ns)
                } else if n.len() > 0 {
                    r == Some(n[0]) && final(self).classes() == (h, n.drop_first(), b)
                        && final(self).served() == (hs, ns.wrapping_add(1))
                } else if b.len() > 0 {
                    r == Some(b[0]) && final(self).classes() == (h, n, b.drop_first())
                        && final(self).served() == (hs, ns)
                } else {
                    r is None && final(self).classes() == (h, n, b) && final(self).served() == (hs, ns)
                }
            }),
    {
        if let Some(req) = self.high.pop_front() {
            self.high_served = self.high_served.wrapping_add(1);
            return Some(req);
        }
        let high_count = self.high_served;
        let normal_count = self.normal_served;
        let starving = normal_count > 0 && match normal_count.checked_mul(4) {
            Some(limit) => high_count > limit,
            None => false,
        };
        if starving {
            if let Some(req) = self.normal.pop_front() {
                self.normal_served = self.normal_served.wrapping_add(1);
                return Some(req);
            }
        }
        if let Some(req) = self.normal.pop_front() {
            self.normal_served = self.normal_served.wrapping_add(1);
            return Some(req);
        }
        self.background.pop_front()
    }

    /// The number of queued requests (capped at `usize::MAX`).
    fn pending_count(&self) -> (c: usize)
        ensures
            c == cap_usize(self.classes().0.len() + self.classes().1.len() + self.classes().2.len()),
    {
        self.high.len().saturating_add(self.normal.len()).saturating_add(self.background.len())
    }

    /// The priority scheduler does not use deadlines.
    fn check_deadlines(&mut self) -> (v: Vec<IoRequest>)
        ensures
            v@.len() == 0,
            final(self).classes() == old(self).classes(),
            final(self).served() == old(self).served(),
    {
        Vec::new()
    }
}

/// Whether `a` is dispatched before `b`: the earlier deadline first, a
/// request with a deadline before one without, and among requests without
/// one, lower priority first and then the higher LBA.
pub open spec fn goes_before(a: IoRequest, b: IoRequest) -> bool {
    match a.deadline {
        Some(da) => match b.deadline {
            Some(db) => later_than(db, da),
            None => true,
        },
        None => match b.deadline {
            Some(_) => false,
            None => priority_level(a.priority) < priority_level(b.priority) || (a.priority == b.priority
                && a.lba > b.lba),
        },
    }
}

/// Whether `a` is dispatched before `b` (see `goes_before`). Where both
/// have deadlines the comparison also gives the clock order's laws for the
/// two deadlines.
fn dispatched_before(a: &IoRequest, b: &IoRequest) -> (r: bool)
    ensures
        r == goes_before(*a, *b),
        r ==> !goes_before(*b, *a),
        forall|c: IoRequest| #![trigger goes_before(c, *a)] r && goes_before(c, *a) ==> goes_before(c, *b),
{
    match &a.deadline {
        Some(da) => match &b.deadline {
            Some(db) => instant_after(db, da),
            None => true,
        },
        None => match &b.deadline {
            Some(_) => false,
            None => {
                let pa = a.priority.level();
                let pb = b.priority.level();
                pa < pb || (pa == pb && a.lba > b.lba)
            },
        },
    }
}

/// The position of a request that no other pending request goes before.
fn pick_next(v: &Vec<IoRequest>) -> (i: usize)
    requires
        v@.len() > 0,
    ensures
        i < v@.len(),
        forall|j: int| 0 <= j < v@.len() && j != i ==> !goes_before(#[trigger] v@[j], v@[i as int]),
{
    let mut best: usize = 0;
    let mut i: usize = 1;
    while i < v.len()
        invariant
            0 <= best < i <= v@.len(),
            forall|j: int| 0 <= j < i && j != best ==> !goes_before(#[trigger] v@[j], v@[best as int]),
        decreases v@.len() - i,
    {
        if dispatched_before(&v[i], &v[best]) {
            proof {
                assert forall|j: int| 0 <= j < i + 1 && j != i implies !goes_before(#[trigger] v@[j], v@[i as int]) by {
                    if j != best && goes_before(v@[j], v@[i as int]) {
                        assert(goes_before(v@[j], v@[best as int]));
                    }
                }
            }
            best = i;
        }
        i = i + 1;
    }
    best
}

/// `all` split at clock reading `t`: `kept` holds the requests still in
/// time, `gone` those past their deadline, together all of `all`.
pub open spec fn split_by_clock(all: Seq<IoRequest>, kept: Seq<IoRequest>, gone: Seq<IoRequest>, t: Instant) -> bool {
    &&& kept.to_multiset().add(gone.to_multiset()) == all.to_multiset()
    &&& forall|i: int| 0 <= i < kept.len() ==> !expired_at(#[trigger] kept[i], t)
    &&& forall|i: int| 0 <= i < gone.len() ==> expired_at(#[trigger] gone[i], t)
}

/// `b` is `a` but for its deadline.
pub open spec fn same_but_deadline(a: IoRequest, b: IoRequest) -> bool {
    b == (IoRequest { deadline: b.deadline, ..a })
}

/// Deadline scheduler: earliest deadline first; requests submitted without
/// a deadline get the default one.
pub struct DeadlineScheduler {
    heap: Vec<IoRequest>,
    default_deadline: Duration,
    batch_size: usize,
}

impl DeadlineScheduler {
    /// The pending requests (in no particular order).
    pub closed spec fn pending(&self) -> Seq<IoRequest> {
        self.heap@
    }

    /// The default deadline and the batch size it was made with.
    pub closed spec fn settings(&self) -> (Duration, usize) {
        (self.default_deadline, self.batch_size)
    }

    /// An empty scheduler.
    pub fn new(default_deadline: Duration, batch_size: usize) -> (s: Self)
        ensures
            s.pending().len() == 0,
            s.settings() == (default_deadline, batch_size),
    {
        DeadlineScheduler { heap: Vec::new(), default_deadline, batch_size }
    }
}

impl IoScheduler for DeadlineScheduler {
    open spec fn inv(&self) -> bool {
        true
    }

    /// Adds the request; one without a deadline is given the default
    /// deadline from now (none where the clock cannot represent it).
    fn submit(&mut self, request: IoRequest)
        ensures
            final(self).pending().len() == old(self).pending().len() + 1,
            final(self).pending().drop_last() == old(self).pending(),
            same_but_deadline(request, final(self).pending().last()),
            request.deadline is Some ==> final(self).pending().last() == request,
            final(self).settings() == old(self).settings(),
    {
        let mut request = request;
        if request.deadline.is_none() {
            request.deadline = instant_checked_add(now(), self.default_deadline);
        }
        self.heap.push(request);
    }

    /// Takes out a request that no pending request goes before (see
    /// `goes_before`): among requests with deadlines one with the earliest
    /// deadline; `None` when nothing is pending.
    fn next(&mut self) -> (r: Option<IoRequest>)
        ensures
            old(self).pending().len() == 0 ==> r is None && final(self).pending() == old(self).pending(),
            old(self).pending().len() > 0 ==> exists|i: int|
                #![trigger old(self).pending()[i]]
                {
                    &&& 0 <= i < old(self).pending().len()
                    &&& r == Some(old(self).pending()[i])
                    &&& final(self).pending() == old(self).pending().remove(i)
                    &&& forall|j: int| 0 <= j < old(self).pending().len() && j != i ==> !goes_before(
                        #[trigger] old(self).pending()[j],
                        old(self).pending()[i],
                    )
                },
            final(self).settings() == old(self).settings(),
    {
        if self.heap.len() == 0 {
            return None;
        }
        let i = pick_next(&self.heap);
        let r = self.heap.remove(i);
        Some(r)
    }

    /// The number of pending requests.
    fn pending_count(&self) -> (n: usize)
        ensures
            n == self.pending().len(),
    {
        self.heap.len()
    }

    /// Takes out, in dispatch order, the requests whose deadline is earlier
    /// than now; the others stay (see `split_by_clock`; the clock's reading
    /// is not known here).
    fn check_deadlines(&mut self) -> (v: Vec<IoRequest>)
        ensures
            final(self).pending().to_multiset().add(v@.to_multiset()) == old(self).pending().to_multiset(),
            forall|i: int| 0 <= i < v@.len() ==> (#[trigger] v@[i]).deadline is Some,
            final(self).settings() == old(self).settings(),
            exists|t: Instant| #[trigger] split_by_clock(old(self).pending(), final(self).pending(), v@, t),
            forall|i: int, j: int| 0 <= i < j < v@.len() ==> !goes_before(#[trigger] v@[j], #[trigger] v@[i]),
    {
        let time_now = now();
        let mut heap: Vec<IoRequest> = Vec::new();
        std::mem::swap(&mut heap, &mut self.heap);
        let ghost all = heap@.to_multiset();
        let mut temp: Vec<IoRequest> = Vec::new();
        let mut expired: Vec<IoRequest> = Vec::new();
        while heap.len() > 0
            invariant
                heap@.to_multiset().add(temp@.to_multiset()).add(expired@.to_multiset()) == all,
                forall|i: int| 0 <= i < expired@.len() ==> (#[trigger] expired@[i]).deadline is Some,
                forall|i: int| 0 <= i < temp@.len() ==> !expired_at(#[trigger] temp@[i], time_now),
                forall|i: int| 0 <= i < expired@.len() ==> expired_at(#[trigger] expired@[i], time_now),
                forall|i: int, j: int| 0 <= i < j < expired@.len() ==> !goes_before(#[trigger] expired@[j], #[trigger] expired@[i]),
                forall|i: int, j: int| 0 <= i < expired@.len() && 0 <= j < heap@.len() ==> !goes_before(#[trigger] heap@[j], #[trigger] expired@[i]),
            decreases heap@.len(),
        {
            let i = pick_next(&heap);
            let ghost before = heap@;
            let ghost t0 = temp@;
            let ghost e0 = expired@;
            let dr = heap.remove(i);
            proof {
                assert(before.contains(dr)) by {
                    assert(before[i as int] == dr);
                }
                assert(heap@ == before.remove(i as int));
                vstd::seq_lib::to_multiset_remove(before, i as int);
                assert(before.to_multiset() =~= heap@.to_multiset().insert(dr));
            }
            let past = match &dr.deadline {
                Some(d) => instant_after(&time_now, d),
                None => false,
            };
            assert(past == expired_at(dr, time_now));
            assert forall|k: int, j: int| 0 <= k < e0.len() && 0 <= j < heap@.len() implies !goes_before(#[trigger] heap@[j], #[trigger] e0[k]) by {
                if j < i {
                    assert(heap@[j] == before[j]);
                } else {
                    assert(heap@[j] == before[j + 1]);
                }
            }
            assert forall|j: int| 0 <= j < heap@.len() implies !goes_before(#[trigger] heap@[j], dr) by {
                if j < i {
                    assert(heap@[j] == before[j]);
                } else {
                    assert(heap@[j] == before[j + 1]);
                }
            }
            if past {
                expired.push(dr);
                assert(expired@.to_multiset() == e0.to_multiset().insert(dr));
                assert(expired@ == e0.push(dr));
                assert forall|k: int, j: int| 0 <= k < j < expired@.len() implies !goes_before(#[trigger] expired@[j], #[trigger] expired@[k]) by {
                    if j == e0.len() {
                        assert(before[i as int] == dr);
                        assert(e0[k] == expired@[k]);
                    } else {
                        assert(e0[k] == expired@[k] && e0[j] == expired@[j]);
                    }
                }
                assert forall|k: int, j: int| 0 <= k < expired@.len() && 0 <= j < heap@.len() implies !goes_before(#[trigger] heap@[j], #[trigger] expired@[k]) by {
                    if k < e0.len() {
                        assert(e0[k] == expired@[k]);
                    }
                }
            } else {
                temp.push(dr);
                assert(temp@.to_multiset() == t0.to_multiset().insert(dr));
            }
            assert(heap@.to_multiset().add(temp@.to_multiset()).add(expired@.to_multiset()) =~= all);
        }
        assert(heap@.to_multiset() =~= vstd::multiset::Multiset::empty());
        let ghost kept = temp@;
        assert(kept.to_multiset().add(expired@.to_multiset()) =~= old(self).pending().to_multiset());
        self.heap = temp;
        assert(self.pending() == kept);
        assert(split_by_clock(old(self).pending(), self.pending(), expired@, time_now));
        expired
    }
}

/// A batch as plain values.
pub struct BatchView {
    pub requests: Seq<IoRequest>,
    pub io_type: IoType,
    pub start_lba: u64,
    pub total_blocks: int,
    pub total_size: int,
}

/// A batch of adjacent requests of one direction.
#[derive(Debug)]
pub struct IoBatch {
    /// Batched requests (same direction, adjacent LBAs).
    pub requests: Vec<IoRequest>,
    /// Batch type.
    pub io_type: IoType,
    /// Starting LBA.
    pub start_lba: u64,
    /// Total blocks.
    pub total_blocks: u32,
    /// Total size.
    pub total_size: usize,
}

/// The batch holding only `r`.
pub open spec fn single_batch(r: IoRequest) -> BatchView {
    BatchView { requests: seq![r], io_type: r.io_type, start_lba: r.lba, total_blocks: r.blocks as int, total_size: r.size as int }
}

/// `b` with `r` added.
pub open spec fn batch_plus(b: BatchView, r: IoRequest) -> BatchView {
    BatchView {
        requests: b.requests.push(r),
        total_blocks: b.total_blocks + r.blocks,
        total_size: b.total_size + r.size,
        ..b
    }
}

/// Whether `r` may join `b`: same direction, starting where `b` ends, and
/// within `max_size` bytes.
pub open spec fn batch_accepts(b: BatchView, r: IoRequest, max_size: usize) -> bool {
    r.io_type == b.io_type && r.lba == b.start_lba + b.total_blocks && b.total_size + r.size <= max_size
}

impl IoBatch {
    /// The batch as plain values.
    pub open spec fn view_of(&self) -> BatchView {
        BatchView {
            requests: self.requests@,
            io_type: self.io_type,
            start_lba: self.start_lba,
            total_blocks: self.total_blocks as int,
            total_size: self.total_size as int,
        }
    }

    /// The batch holding only `request`.
    pub fn new(request: IoRequest) -> (b: Self)
        ensures
            b.view_of() == single_batch(request),
    {
        let io_type = request.io_type;
        let start_lba = request.lba;
        let total_blocks = request.blocks as u32;
        let total_size = request.size;
        let mut requests: Vec<IoRequest> = Vec::new();
        requests.push(request);
        let b = IoBatch { requests, io_type, start_lba, total_blocks, total_size };
        assert(b.view_of().requests =~= seq![request]);
        b
    }

    /// Whether `request` may join the batch (see `batch_accepts`).
    pub fn try_add(&self, request: &IoRequest, max_size: usize) -> (ok: bool)
        requires
            request.io_type == self.io_type ==> self.start_lba + self.total_blocks <= u64::MAX,
            request.io_type == self.io_type && request.lba == self.start_lba + self.total_blocks
                ==> self.total_size + request.size <= usize::MAX,
        ensures
            ok == batch_accepts(self.view_of(), *request, max_size),
    {
        if request.io_type != self.io_type {
            return false;
        }
        let expected_lba = self.start_lba + self.total_blocks as u64;
        if request.lba != expected_lba {
            return false;
        }
        if self.total_size + request.size > max_size {
            return false;
        }
        true
    }

    /// Adds `request` to the batch.
    pub fn add(&mut self, request: IoRequest)
        requires
            old(self).total_blocks + request.blocks <= u32::MAX,
            old(self).total_size + request.size <= usize::MAX,
        ensures
            final(self).view_of() == batch_plus(old(self).view_of(), request),
    {
        self.total_blocks = self.total_blocks + request.blocks as u32;
        self.total_size = self.total_size + request.size;
        self.requests.push(request);
    }
}

/// The sort key of a request: namespace, then LBA.
pub open spec fn key_le(a: IoRequest, b: IoRequest) -> bool {
    a.ns_id < b.ns_id || (a.ns_id == b.ns_id && a.lba <= b.lba)
}

/// `pos` is where a stable sort puts `r` into the sorted `s`: after every
/// request whose key is at most its own.
pub open spec fn is_sorted_pos(s: Seq<IoRequest>, r: IoRequest, pos: int) -> bool {
    &&& 0 <= pos <= s.len()
    &&& forall|j: int| 0 <= j < pos ==> key_le(#[trigger] s[j], r)
    &&& pos == s.len() || !key_le(s[pos], r)
}

/// The requests of `s` stably sorted by namespace, then LBA.
pub open spec fn sorted_requests(s: Seq<IoRequest>) -> Seq<IoRequest>
    decreases s.len(),
{
    if s.len() == 0 {
        Seq::empty()
    } else {
        let t = sorted_requests(s.drop_last());
        t.insert(choose|p: int| is_sorted_pos(t, s.last(), p), s.last())
    }
}

/// The batches made from sorted requests, and the batch still open.
pub open spec fn greedy_batches(s: Seq<IoRequest>, max_size: usize, max_reqs: usize) -> (Seq<BatchView>, Option<BatchView>)
    decreases s.len(),
{
    if s.len() == 0 {
        (Seq::empty(), None)
    } else {
        let (done, cur) = greedy_batches(s.drop_last(), max_size, max_reqs);
        let r = s.last();
        match cur {
            Some(b) => if b.requests.len() < max_reqs && batch_accepts(b, r, max_size) {
                (done, Some(batch_plus(b, r)))
            } else {
                (done.push(b), Some(single_batch(r)))
            },
            None => (done, Some(single_batch(r))),
        }
    }
}

/// Batching stays within the integer widths: each end address compared
/// fits in `u64`, each size sum compared fits in `usize`, each block count
/// added fits in `u32`.
pub open spec fn greedy_fits(s: Seq<IoRequest>, max_size: usize, max_reqs: usize) -> bool
    decreases s.len(),
{
    if s.len() == 0 {
        true
    } else {
        let r = s.last();
        &&& greedy_fits(s.drop_last(), max_size, max_reqs)
        &&& match greedy_batches(s.drop_last(), max_size, max_reqs).1 {
            Some(b) => b.requests.len() < max_reqs ==> {
                &&& r.io_type == b.io_type ==> b.start_lba + b.total_blocks <= u64::MAX
                &&& r.io_type == b.io_type && r.lba == b.start_lba + b.total_blocks ==> b.total_size + r.size <= usize::MAX
                &&& batch_accepts(b, r, max_size) ==> b.total_blocks + r.blocks <= u32::MAX
            },
            None => true,
        }
    }
}

/// The batches `merge` makes.
pub open spec fn merged_batches(s: Seq<IoRequest>, max_size: usize, max_reqs: usize) -> Seq<BatchView> {
    let (done, cur) = greedy_batches(s, max_size, max_reqs);
    match cur {
        Some(b) => done.push(b),
        None => done,
    }
}

/// Request merger for coalescing adjacent I/O.
pub struct RequestMerger {
    max_merge_size: usize,
    max_batch_requests: usize,
}

impl RequestMerger {
    /// The size limit and request limit of a batch.
    pub closed spec fn limits(&self) -> (usize, usize) {
        (self.max_merge_size, self.max_batch_requests)
    }

    /// A merger with these limits.
    pub fn new(max_merge_size: usize, max_batch_requests: usize) -> (m: Self)
        ensures
            m.limits() == (max_merge_size, max_batch_requests),
    {
        RequestMerger { max_merge_size, max_batch_requests }
    }

    /// Sorts the requests by namespace and LBA (stably) and groups runs of
    /// adjacent same-direction requests into batches within the limits.
    pub fn merge(&self, requests: Vec<IoRequest>) -> (v: Vec<IoBatch>)
        requires
            greedy_fits(sorted_requests(requests@), self.limits().0, self.limits().1),
        ensures
            v@.map_values(|b: IoBatch| b.view_of()) == merged_batches(
                sorted_requests(requests@),
                self.limits().0,
                self.limits().1,
            ),
    {
        let sorted = sort_requests(requests);
        let ghost s = sorted@;
        let mut rest = sorted;
        let mut batches: Vec<IoBatch> = Vec::new();
        let mut current: Option<IoBatch> = None;
        let ghost mut k: int = 0;
        while rest.len() > 0
            invariant
                0 <= k <= s.len(),
                rest@ == s.subrange(k, s.len() as int),
                greedy_fits(s, self.max_merge_size, self.max_batch_requests),
                batches@.map_values(|b: IoBatch| b.view_of()) == greedy_batches(s.take(k), self.max_merge_size, self.max_batch_requests).0,
                match current {
                    Some(b) => greedy_batches(s.take(k), self.max_merge_size, self.max_batch_requests).1 == Some(b.view_of()),
                    None => greedy_batches(s.take(k), self.max_merge_size, self.max_batch_requests).1 is None,
                },
            decreases rest@.len(),
        {
            let request = rest.remove(0);
            proof {
                assert(s.take(k + 1).drop_last() =~= s.take(k));
                assert(s.take(k + 1).last() == request);
                lemma_greedy_fits_prefix(s, self.max_merge_size, self.max_batch_requests, k + 1);
            }
            let ghost before = batches@.map_values(|b: IoBatch| b.view_of());
            match current {
                Some(mut batch) => {
                    if batch.requests.len() < self.max_batch_requests && batch.try_add(&request, self.max_merge_size) {
                        batch.add(request);
                        current = Some(batch);
                    } else {
                        let ghost bv = batch.view_of();
                        batches.push(batch);
                        assert(batches@.map_values(|b: IoBatch| b.view_of()) =~= before.push(bv));
                        current = Some(IoBatch::new(request));
                    }
                },
                None => {
                    current = Some(IoBatch::new(request));
                },
            }
            proof {
                k = k + 1;
                assert(rest@ =~= s.subrange(k, s.len() as int));
            }
        }
        assert(s.take(k) =~= s);
        match current {
            Some(batch) => {
                let ghost before = batches@.map_values(|b: IoBatch| b.view_of());
                let ghost bv = batch.view_of();
                batches.push(batch);
                assert(batches@.map_values(|b: IoBatch| b.view_of()) =~= before.push(bv));
            },
            None => {},
        }
        batches
    }
}

/// Fitting batches of a sequence fit for each prefix.
proof fn lemma_greedy_fits_prefix(s: Seq<IoRequest>, max_size: usize, max_reqs: usize, k: int)
    requires
        0 <= k <= s.len(),
        greedy_fits(s, max_size, max_reqs),
    ensures
        greedy_fits(s.take(k), max_size, max_reqs),
    decreases s.len() - k,
{
    if k == s.len() {
        assert(s.take(k) =~= s);
    } else {
        lemma_greedy_fits_prefix(s, max_size, max_reqs, k + 1);
        assert(s.take(k + 1).drop_last() =~= s.take(k));
    }
}

/// The stable insertion position is unique.
proof fn lemma_sorted_pos_unique(s: Seq<IoRequest>, r: IoRequest, a: int, b: int)
    requires
        is_sorted_pos(s, r, a),
        is_sorted_pos(s, r, b),
    ensures
        a == b,
{
    if a < b {
        assert(key_le(s[a], r));
    } else if b < a {
        assert(key_le(s[b], r));
    }
}

/// Stable insertion sort by namespace, then LBA.
fn sort_requests(requests: Vec<IoRequest>) -> (v: Vec<IoRequest>)
    ensures
        v@ == sorted_requests(requests@),
{
    let ghost input = requests@;
    let mut src = requests;
    let mut out: Vec<IoRequest> = Vec::new();
    let ghost mut k: int = 0;
    while src.len() > 0
        invariant
            0 <= k <= input.len(),
            src@ == input.subrange(k, input.len() as int),
            out@ == sorted_requests(input.take(k)),
        decreases src@.len(),
    {
        let r = src.remove(0);
        let mut pos: usize = 0;
        while pos < out.len() && (out[pos].ns_id < r.ns_id || (out[pos].ns_id == r.ns_id && out[pos].lba <= r.lba))
            invariant
                0 <= pos <= out@.len(),
                forall|j: int| 0 <= j < pos ==> key_le(#[trigger] out@[j], r),
            decreases out@.len() - pos,
        {
            pos = pos + 1;
        }
        proof {
            assert(is_sorted_pos(out@, r, pos as int));
            assert(input.take(k + 1).drop_last() =~= input.take(k));
            assert(input.take(k + 1).last() == r);
            let c = choose|p: int| is_sorted_pos(out@, r, p);
            lemma_sorted_pos_unique(out@, r, pos as int, c);
        }
        out.insert(pos, r);
        proof {
            k = k + 1;
            assert(src@ =~= input.subrange(k, input.len() as int));
        }
    }
    assert(input.take(k) =~= input);
    out
}

/// Replacing one queue changes the total by the difference of lengths.
proof fn lemma_total_len_update(qs: Seq<Seq<IoRequest>>, i: int, q: Seq<IoRequest>)
    requires
        0 <= i < qs.len(),
    ensures
        total_len(qs.update(i, q)) + qs[i].len() == total_len(qs) + q.len(),
    decreases qs.len(),
{
    let u = qs.update(i, q);
    if i == qs.len() - 1 {
        assert(u.drop_last() =~= qs.drop_last());
    } else {
        lemma_total_len_update(qs.drop_last(), i, q);
        assert(u.drop_last() =~= qs.drop_last().update(i, q));
    }
}

} // verus!
