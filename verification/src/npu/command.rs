//! NPU command queue: priority-ordered pending commands, the commands in
//! flight, and a bounded record of completions.
use vstd::prelude::*;
use std::collections::VecDeque;

verus! {

/// Activation functions.
#[derive(Debug, Clone, Copy, PartialEq, Eq, Structural)]
pub enum ActivationFunc {
    ReLU,
    Sigmoid,
    Tanh,
    GeLU,
    SiLU,
    Softmax,
}

/// Command types.
#[derive(Debug, Clone, Copy, PartialEq, Eq, Structural)]
pub enum CommandType {
    /// Copy data to device.
    CopyToDevice { src: usize, dst: u32, size: usize },
    /// Copy data from device.
    CopyFromDevice { src: u32, dst: usize, size: usize },
    /// Execute inference.
    Inference { model_id: u32, input: u32, output: u32 },
    /// Matrix multiply.
    MatMul { a: u32, b: u32, c: u32, m: u32, n: u32, k: u32 },
    /// Convolution.
    Conv2d { input: u32, kernel: u32, output: u32 },
    /// Activation function.
    Activation { buffer: u32, func: ActivationFunc },
    /// Sync/barrier.
    Barrier,
}

/// Command status.
#[derive(Debug, Clone, Copy, PartialEq, Eq, Structural)]
pub enum CommandStatus {
    Pending,
    Running,
    Completed,
    Failed(u32),
}

/// NPU command.
#[derive(Debug, Clone, Copy, PartialEq, Eq, Structural)]
pub struct Command {
    pub id: u64,
    pub cmd_type: CommandType,
    pub priority: u32,
    pub status: CommandStatus,
}

impl Command {
    /// A pending command of priority 0 and id 0.
    pub fn new(cmd_type: CommandType) -> (c: Self)
        ensures
            c == (Command { id: 0, cmd_type, priority: 0, status: CommandStatus::Pending }),
    {
        Command { id: 0, cmd_type, priority: 0, status: CommandStatus::Pending }
    }

    /// The same command with priority `priority`.
    pub fn with_priority(self, priority: u32) -> (c: Self)
        ensures
            c == (Command { priority, ..self }),
    {
        let mut c = self;
        c.priority = priority;
        c
    }
}

/// Pending commands are ordered by priority, highest first.
pub open spec fn by_priority(s: Seq<Command>) -> bool {
    forall|i: int, j: int| 0 <= i < j < s.len() ==> #[trigger] s[i].priority >= #[trigger] s[j].priority
}

/// `pos` is where a command of priority `p` goes: after every command of
/// priority at least `p`, before the first of lower priority.
pub open spec fn is_insert_pos(s: Seq<Command>, p: u32, pos: int) -> bool {
    &&& 0 <= pos <= s.len()
    &&& forall|j: int| 0 <= j < pos ==> #[trigger] s[j].priority >= p
    &&& pos == s.len() || s[pos].priority < p
}

/// The insertion position of priority `p` in `s`.
pub open spec fn insert_pos(s: Seq<Command>, p: u32) -> int {
    choose|pos: int| is_insert_pos(s, p, pos)
}

/// There is exactly one insertion position.
pub proof fn lemma_insert_pos_unique(s: Seq<Command>, p: u32, a: int, b: int)
    requires
        is_insert_pos(s, p, a),
        is_insert_pos(s, p, b),
    ensures
        a == b,
{
    if a < b {
        assert(s[a].priority >= p);
    } else if b < a {
        assert(s[b].priority >= p);
    }
}

/// Status of the first completion record for `id`, if any.
pub open spec fn first_completion(c: Seq<(u64, CommandStatus)>, id: u64) -> Option<CommandStatus>
    decreases c.len(),
{
    if c.len() == 0 {
        None
    } else if c[0].0 == id {
        Some(c[0].1)
    } else {
        first_completion(c.drop_first(), id)
    }
}

/// Whether some command of `s` has id `id`.
pub open spec fn has_id(s: Seq<Command>, id: u64) -> bool {
    exists|i: int| 0 <= i < s.len() && #[trigger] s[i].id == id
}

/// The completion record after appending one: past 1000 records, the oldest
/// 500 are dropped.
pub open spec fn trimmed(c: Seq<(u64, CommandStatus)>) -> Seq<(u64, CommandStatus)> {
    if c.len() > 1000 {
        c.subrange(500, c.len() as int)
    } else {
        c
    }
}

/// Whether a status is final (neither pending nor running).
pub open spec fn is_final(s: CommandStatus) -> bool {
    s != CommandStatus::Pending && s != CommandStatus::Running
}

/// No two commands of `s` share an id.
pub open spec fn ids_unique(s: Seq<Command>) -> bool {
    forall|i: int, j: int| 0 <= i < j < s.len() ==> #[trigger] s[i].id != #[trigger] s[j].id
}

/// Every command of `s` has an id from 1 up to (not including) `n`.
pub open spec fn ids_below(s: Seq<Command>, n: u64) -> bool {
    forall|i: int| 0 <= i < s.len() ==> 1 <= #[trigger] s[i].id < n
}

/// No command of `a` shares an id with one of `b`.
pub open spec fn ids_apart(a: Seq<Command>, b: Seq<Command>) -> bool {
    forall|i: int, j: int| 0 <= i < a.len() && 0 <= j < b.len() ==> #[trigger] a[i].id != #[trigger] b[j].id
}

/// Taking the commands of id `id` out of a list of distinct ids keeps the
/// ids distinct, keeps only commands of the list, and removes one command
/// exactly when the list has one of that id.
proof fn lemma_filter_out_id(s: Seq<Command>, id: u64, pred: spec_fn(Command) -> bool)
    requires
        ids_unique(s),
        pred == (|c: Command| c.id != id),
    ensures
        ids_unique(s.filter(pred)),
        forall|k: int| 0 <= k < s.filter(pred).len() ==> s.contains(#[trigger] s.filter(pred)[k]),
        has_id(s, id) ==> s.filter(pred).len() + 1 == s.len(),
        !has_id(s, id) ==> s.filter(pred).len() == s.len(),
    decreases s.len(),
{
    reveal(Seq::filter);
    if s.len() > 0 {
        let sp = s.drop_last();
        let last = s.last();
        assert(ids_unique(sp)) by {
            assert forall|i: int, j: int| 0 <= i < j < sp.len() implies #[trigger] sp[i].id != #[trigger] sp[j].id by {
                assert(sp[i] == s[i] && sp[j] == s[j]);
            }
        }
        lemma_filter_out_id(sp, id, pred);
        let fp = sp.filter(pred);
        let f = s.filter(pred);
        assert forall|k: int| 0 <= k < fp.len() implies #[trigger] fp[k].id != last.id by {
            assert(sp.contains(fp[k]));
            let j = choose|j: int| 0 <= j < sp.len() && sp[j] == fp[k];
            assert(s[j] == sp[j]);
            assert(s[s.len() - 1] == last);
        }
        if pred(last) {
            assert(f == fp.push(last));
            assert forall|i: int, j: int| 0 <= i < j < f.len() implies #[trigger] f[i].id != #[trigger] f[j].id by {
                assert(f[i] == fp[i]);
                if j < fp.len() {
                    assert(f[j] == fp[j]);
                }
            }
            assert forall|k: int| 0 <= k < f.len() implies s.contains(#[trigger] f[k]) by {
                if k < fp.len() {
                    assert(f[k] == fp[k]);
                    assert(sp.contains(fp[k]));
                    let j = choose|j: int| 0 <= j < sp.len() && sp[j] == fp[k];
                    assert(s[j] == sp[j]);
                } else {
                    assert(s[s.len() - 1] == last);
                }
            }
            if has_id(s, id) {
                let w = choose|w: int| 0 <= w < s.len() && #[trigger] s[w].id == id;
                assert(w != s.len() - 1);
                assert(sp[w].id == id);
            }
            if has_id(sp, id) {
                let w = choose|w: int| 0 <= w < sp.len() && #[trigger] sp[w].id == id;
                assert(s[w].id == id);
            }
        } else {
            assert(f == fp);
            assert forall|k: int| 0 <= k < f.len() implies s.contains(#[trigger] f[k]) by {
                assert(sp.contains(fp[k]));
                let j = choose|j: int| 0 <= j < sp.len() && sp[j] == fp[k];
                assert(s[j] == sp[j]);
            }
            assert(s[s.len() - 1].id == id);
            if has_id(sp, id) {
                let w = choose|w: int| 0 <= w < sp.len() && #[trigger] sp[w].id == id;
                assert(s[w].id == id);
                assert(s[w].id == s[s.len() - 1].id);
            }
        }
    }
}

/// Filtering with a predicate every element meets keeps the sequence.
proof fn lemma_filter_all_kept(s: Seq<Command>, pred: spec_fn(Command) -> bool)
    requires
        forall|k: int| 0 <= k < s.len() ==> pred(#[trigger] s[k]),
    ensures
        s.filter(pred) == s,
    decreases s.len(),
{
    reveal(Seq::filter);
    if s.len() > 0 {
        let sp = s.drop_last();
        assert forall|k: int| 0 <= k < sp.len() implies pred(#[trigger] sp[k]) by {
            assert(sp[k] == s[k]);
        }
        lemma_filter_all_kept(sp, pred);
        assert(pred(s[s.len() - 1]));
        assert(sp.push(s.last()) =~= s);
    }
}

/// No completion record of `c` is for `id`.
pub open spec fn no_record(c: Seq<(u64, CommandStatus)>, id: u64) -> bool {
    forall|i: int| 0 <= i < c.len() ==> #[trigger] c[i].0 != id
}

/// With no record for `id` there is no completion for it.
proof fn lemma_no_record_none(c: Seq<(u64, CommandStatus)>, id: u64)
    requires
        no_record(c, id),
    ensures
        first_completion(c, id) is None,
    decreases c.len(),
{
    if c.len() > 0 {
        assert(c[0].0 != id);
        assert forall|i: int| 0 <= i < c.drop_first().len() implies #[trigger] c.drop_first()[i].0 != id by {
            assert(c.drop_first()[i] == c[i + 1]);
        }
        lemma_no_record_none(c.drop_first(), id);
    }
}

/// A record appended for an id with none before is its completion, also
/// once old records are trimmed.
proof fn lemma_record_appended(c: Seq<(u64, CommandStatus)>, id: u64, st: CommandStatus)
    requires
        no_record(c, id),
    ensures
        first_completion(c.push((id, st)), id) == Some(st),
        first_completion(trimmed(c.push((id, st))), id) == Some(st),
    decreases c.len(),
{
    if c.len() > 0 {
        assert(c.push((id, st)).drop_first() =~= c.drop_first().push((id, st)));
        assert forall|i: int| 0 <= i < c.drop_first().len() implies #[trigger] c.drop_first()[i].0 != id by {
            assert(c.drop_first()[i] == c[i + 1]);
        }
        assert(c.push((id, st))[0] == c[0]);
        lemma_record_appended(c.drop_first(), id, st);
    } else {
        assert(c.push((id, st))[0] == (id, st));
    }
    let d = c.push((id, st));
    if d.len() > 1000 {
        let e = c.subrange(500, c.len() as int);
        assert(d.subrange(500, d.len() as int) =~= e.push((id, st)));
        assert forall|i: int| 0 <= i < e.len() implies #[trigger] e[i].0 != id by {
            assert(e[i] == c[i + 500]);
        }
        lemma_record_appended(e, id, st);
    }
}

/// Command queue.
pub struct CommandQueue {
    /// Pending commands, highest priority first.
    pending: VecDeque<Command>,
    /// In-flight commands.
    in_flight: Vec<Command>,
    /// Completed commands (for status lookup).
    completed: Vec<(u64, CommandStatus)>,
    /// Next command id.
    next_id: u64,
    /// Queue capacity.
    capacity: usize,
}

impl CommandQueue {
    /// Pending commands, in the order they will be dequeued.
    pub closed spec fn pending_seq(&self) -> Seq<Command> {
        self.pending@
    }

    /// Commands handed out and not completed, in dequeue order.
    pub closed spec fn in_flight_seq(&self) -> Seq<Command> {
        self.in_flight@
    }

    /// Completion records, oldest first.
    pub closed spec fn completed_seq(&self) -> Seq<(u64, CommandStatus)> {
        self.completed@
    }

    /// The id the next submitted command gets.
    pub closed spec fn next_id_spec(&self) -> u64 {
        self.next_id
    }

    /// Status of command `id` as `get_status` reports it.
    pub open spec fn status_spec(&self, id: u64) -> Option<CommandStatus> {
        match first_completion(self.completed_seq(), id) {
            Some(s) => Some(s),
            None => if has_id(self.in_flight_seq(), id) {
                Some(CommandStatus::Running)
            } else if has_id(self.pending_seq(), id) {
                Some(CommandStatus::Pending)
            } else {
                None
            },
        }
    }

    /// The queue's invariant: pending commands stay ordered by priority.
    pub closed spec fn wf(&self) -> bool {
        by_priority(self.pending@)
    }

    /// The completion records are for ids already handed out and for no
    /// pending or in-flight command.
    pub open spec fn records_ok(&self) -> bool {
        &&& forall|i: int| 0 <= i < self.completed_seq().len() ==> #[trigger] self.completed_seq()[i].0 < self.next_id_spec()
        &&& forall|i: int, j: int| 0 <= i < self.completed_seq().len() && 0 <= j < self.pending_seq().len()
            ==> #[trigger] self.completed_seq()[i].0 != #[trigger] self.pending_seq()[j].id
        &&& forall|i: int, j: int| 0 <= i < self.completed_seq().len() && 0 <= j < self.in_flight_seq().len()
            ==> #[trigger] self.completed_seq()[i].0 != #[trigger] self.in_flight_seq()[j].id
    }

    /// The ids handed out so far are fresh: pending and in-flight commands
    /// have distinct ids, from 1 up to (not including) the next id.
    pub open spec fn ids_ok(&self) -> bool {
        &&& self.next_id_spec() >= 1
        &&& ids_unique(self.pending_seq())
        &&& ids_unique(self.in_flight_seq())
        &&& ids_apart(self.pending_seq(), self.in_flight_seq())
        &&& ids_below(self.pending_seq(), self.next_id_spec())
        &&& ids_below(self.in_flight_seq(), self.next_id_spec())
    }

    /// An empty queue; ids start at 1.
    pub fn new(capacity: usize) -> (q: Self)
        ensures
            q.wf(),
            q.pending_seq() == Seq::<Command>::empty(),
            q.in_flight_seq() == Seq::<Command>::empty(),
            q.completed_seq() == Seq::<(u64, CommandStatus)>::empty(),
            q.next_id_spec() == 1,
            q.ids_ok(),
    {
        CommandQueue {
            pending: VecDeque::with_capacity(capacity),
            in_flight: Vec::new(),
            completed: Vec::new(),
            next_id: 1,
            capacity,
        }
    }

    /// Submits a command: it gets the next id and pending status, and goes
    /// after every pending command of at least its priority. Returns the id.
    pub fn submit(&mut self, cmd: Command) -> (id: u64)
        requires
            old(self).wf(),
        ensures
            final(self).wf(),
            id == old(self).next_id_spec(),
            final(self).next_id_spec() == old(self).next_id_spec().wrapping_add(1),
            final(self).pending_seq() == old(self).pending_seq().insert(
                insert_pos(old(self).pending_seq(), cmd.priority),
                Command { id, status: CommandStatus::Pending, ..cmd },
            ),
            final(self).in_flight_seq() == old(self).in_flight_seq(),
            final(self).completed_seq() == old(self).completed_seq(),
            old(self).ids_ok() && old(self).next_id_spec() < u64::MAX ==> final(self).ids_ok(),
            old(self).ids_ok() && old(self).records_ok() && old(self).next_id_spec() < u64::MAX ==> {
                &&& final(self).records_ok()
                &&& final(self).status_spec(id) == Some(CommandStatus::Pending)
            },
    {
        let id = self.next_id;
        self.next_id = self.next_id.wrapping_add(1);
        let mut c = cmd;
        c.id = id;
        c.status = CommandStatus::Pending;
        let ghost s = self.pending@;
        let mut pos: usize = 0;
        while pos < self.pending.len() && self.pending[pos].priority >= c.priority
            invariant
                s == self.pending@,
                0 <= pos <= s.len(),
                forall|j: int| 0 <= j < pos ==> #[trigger] s[j].priority >= c.priority,
            decreases s.len() - pos,
        {
            pos = pos + 1;
        }
        proof {
            assert(is_insert_pos(s, c.priority, pos as int));
            lemma_insert_pos_unique(s, c.priority, pos as int, insert_pos(s, c.priority));
        }
        self.pending.insert(pos, c);
        proof {
            let t = self.pending@;
            assert(t =~= s.insert(pos as int, c));
            assert forall|i: int, j: int| 0 <= i < j < t.len() implies #[trigger] t[i].priority
                >= #[trigger] t[j].priority by {
                if i < pos && j > pos {
                    assert(s[i].priority >= c.priority);
                    assert(pos < s.len() ==> s[pos as int].priority < c.priority);
                    assert(s[i].priority >= s[j - 1].priority);
                } else if i == pos && j > pos {
                    assert(s[pos as int].priority >= s[j - 1].priority);
                } else if j == pos {
                    assert(s[i].priority >= c.priority);
                } else if i > pos {
                    assert(s[i - 1].priority >= s[j - 1].priority);
                } else {
                    assert(s[i].priority >= s[j].priority);
                }
            }
            if old(self).ids_ok() && id < u64::MAX {
                let fl = self.in_flight@;
                assert forall|i: int| 0 <= i < t.len() implies 1 <= #[trigger] t[i].id < self.next_id by {
                    if i > pos {
                        assert(t[i] == s[i - 1]);
                    } else if i < pos {
                        assert(t[i] == s[i]);
                    } else {
                        assert(t[i] == c);
                    }
                }
                assert forall|i: int, j: int| 0 <= i < j < t.len() implies #[trigger] t[i].id != #[trigger] t[j].id by {
                    if i < pos && j > pos {
                        assert(t[i] == s[i] && t[j] == s[j - 1]);
                    } else if i < pos && j < pos {
                        assert(t[i] == s[i] && t[j] == s[j]);
                    } else if i > pos {
                        assert(t[i] == s[i - 1] && t[j] == s[j - 1]);
                    } else if i == pos {
                        assert(t[j] == s[j - 1]);
                    } else {
                        assert(t[i] == s[i]);
                    }
                }
                assert forall|i: int, j: int| 0 <= i < t.len() && 0 <= j < fl.len() implies #[trigger] t[i].id != #[trigger] fl[j].id by {
                    if i > pos {
                        assert(t[i] == s[i - 1]);
                    } else if i < pos {
                        assert(t[i] == s[i]);
                    }
                }
                assert forall|i: int| 0 <= i < fl.len() implies 1 <= #[trigger] fl[i].id < self.next_id by {
                }
                if old(self).records_ok() {
                    let cs = self.completed@;
                    assert forall|i: int, j: int| 0 <= i < cs.len() && 0 <= j < t.len() implies #[trigger] cs[i].0 != #[trigger] t[j].id by {
                        assert(old(self).completed_seq()[i].0 < old(self).next_id_spec());
                        if j > pos {
                            assert(t[j] == s[j - 1]);
                            assert(old(self).completed_seq()[i].0 != old(self).pending_seq()[j - 1].id);
                        } else if j < pos {
                            assert(t[j] == s[j]);
                            assert(old(self).completed_seq()[i].0 != old(self).pending_seq()[j].id);
                        } else {
                            assert(t[j] == c);
                        }
                    }
                    assert forall|i: int| 0 <= i < cs.len() implies #[trigger] cs[i].0 != id by {
                        assert(old(self).completed_seq()[i].0 < old(self).next_id_spec());
                    }
                    assert(no_record(cs, id));
                    lemma_no_record_none(cs, id);
                    assert(t[pos as int] == c);
                    assert(t[pos as int].id == id);
                    assert(has_id(t, id));
                    if has_id(fl, id) {
                        let w = choose|w: int| 0 <= w < fl.len() && #[trigger] fl[w].id == id;
                        assert(fl[w].id < id);
                    }
                }
            }
        }
        id
    }

    /// Takes the first pending command, marks it running and records it as
    /// in flight.
    pub fn dequeue(&mut self) -> (r: Option<Command>)
        requires
            old(self).wf(),
        ensures
            final(self).wf(),
            final(self).next_id_spec() == old(self).next_id_spec(),
            final(self).completed_seq() == old(self).completed_seq(),
            old(self).pending_seq().len() == 0 ==> r is None && final(self).pending_seq()
                == old(self).pending_seq() && final(self).in_flight_seq() == old(
                self,
            ).in_flight_seq(),
            old(self).pending_seq().len() > 0 ==> {
                let c = Command { status: CommandStatus::Running, ..old(self).pending_seq()[0] };
                &&& r == Some(c)
                &&& final(self).pending_seq() == old(self).pending_seq().drop_first()
                &&& final(self).in_flight_seq() == old(self).in_flight_seq().push(c)
            },
            old(self).ids_ok() ==> final(self).ids_ok(),
            old(self).ids_ok() && old(self).records_ok() ==> final(self).records_ok() && (r matches Some(c)
                ==> final(self).status_spec(c.id) == Some(CommandStatus::Running)),
    {
        match self.pending.pop_front() {
            Some(cmd) => {
                let mut c = cmd;
                c.status = CommandStatus::Running;
                self.in_flight.push(c);
                proof {
                    assert forall|i: int, j: int|
                        0 <= i < j < self.pending@.len() implies #[trigger] self.pending@[i].priority
                        >= #[trigger] self.pending@[j].priority by {
                        assert(old(self).pending@[i + 1].priority >= old(self).pending@[j
                            + 1].priority);
                    }
                    if old(self).ids_ok() {
                        let op = old(self).pending@;
                        let ofl = old(self).in_flight@;
                        let p = self.pending@;
                        let fl = self.in_flight@;
                        assert(op[0] == cmd);
                        assert forall|i: int| 0 <= i < p.len() implies 1 <= #[trigger] p[i].id < self.next_id by {
                            assert(p[i] == op[i + 1]);
                        }
                        assert forall|i: int, j: int| 0 <= i < j < p.len() implies #[trigger] p[i].id != #[trigger] p[j].id by {
                            assert(p[i] == op[i + 1] && p[j] == op[j + 1]);
                        }
                        assert forall|i: int| 0 <= i < fl.len() implies 1 <= #[trigger] fl[i].id < self.next_id by {
                            if i < ofl.len() {
                                assert(fl[i] == ofl[i]);
                            }
                        }
                        assert forall|i: int, j: int| 0 <= i < j < fl.len() implies #[trigger] fl[i].id != #[trigger] fl[j].id by {
                            assert(fl[i] == ofl[i]);
                            if j < ofl.len() {
                                assert(fl[j] == ofl[j]);
                            } else {
                                assert(ofl[i].id != op[0].id);
                            }
                        }
                        assert forall|i: int, j: int| 0 <= i < p.len() && 0 <= j < fl.len() implies #[trigger] p[i].id != #[trigger] fl[j].id by {
                            assert(p[i] == op[i + 1]);
                            if j < ofl.len() {
                                assert(fl[j] == ofl[j]);
                            } else {
                                assert(op[0].id != op[i + 1].id);
                            }
                        }
                        if old(self).records_ok() {
                            let cs = self.completed@;
                            assert forall|i: int, j: int| 0 <= i < cs.len() && 0 <= j < p.len() implies #[trigger] cs[i].0 != #[trigger] p[j].id by {
                                assert(p[j] == op[j + 1]);
                                assert(old(self).completed_seq()[i].0 != old(self).pending_seq()[j + 1].id);
                            }
                            assert forall|i: int, j: int| 0 <= i < cs.len() && 0 <= j < fl.len() implies #[trigger] cs[i].0 != #[trigger] fl[j].id by {
                                if j < ofl.len() {
                                    assert(fl[j] == ofl[j]);
                                    assert(old(self).completed_seq()[i].0 != old(self).in_flight_seq()[j].id);
                                } else {
                                    assert(old(self).completed_seq()[i].0 != old(self).pending_seq()[0].id);
                                }
                            }
                            assert forall|i: int| 0 <= i < cs.len() implies #[trigger] cs[i].0 != c.id by {
                                assert(old(self).completed_seq()[i].0 != old(self).pending_seq()[0].id);
                            }
                            assert(no_record(cs, c.id));
                            lemma_no_record_none(cs, c.id);
                            assert forall|i: int| 0 <= i < cs.len() implies #[trigger] cs[i].0 < self.next_id by {
                                assert(old(self).completed_seq()[i].0 < old(self).next_id_spec());
                            }
                            assert(fl[fl.len() - 1] == c);
                            assert(fl[fl.len() - 1].id == c.id);
                            assert(has_id(fl, c.id));
                            assert(self.records_ok());
                            assert(self.status_spec(c.id) == Some(CommandStatus::Running));
                        }
                    }
                }
                Some(c)
            },
            None => None,
        }
    }

    /// Marks command `id` complete: it leaves the in-flight list and its
    /// status is recorded; past 1000 records the oldest 500 are dropped.
    pub fn complete(&mut self, id: u64, status: CommandStatus)
        requires
            old(self).wf(),
        ensures
            final(self).wf(),
            final(self).pending_seq() == old(self).pending_seq(),
            final(self).next_id_spec() == old(self).next_id_spec(),
            final(self).in_flight_seq() == old(self).in_flight_seq().filter(
                |c: Command| c.id != id,
            ),
            final(self).completed_seq() == trimmed(old(self).completed_seq().push((id, status))),
            old(self).ids_ok() ==> final(self).ids_ok(),
            old(self).ids_ok() && has_id(old(self).in_flight_seq(), id) ==> final(self).in_flight_seq().len() + 1
                == old(self).in_flight_seq().len(),
            old(self).ids_ok() && !has_id(old(self).in_flight_seq(), id) ==> final(self).in_flight_seq()
                == old(self).in_flight_seq(),
            old(self).ids_ok() && old(self).records_ok() && has_id(old(self).in_flight_seq(), id) ==> {
                &&& final(self).records_ok()
                &&& final(self).status_spec(id) == Some(status)
            },
    {
        let ghost fl = self.in_flight@;
        let ghost pred = |c: Command| c.id != id;
        let mut kept: Vec<Command> = Vec::new();
        let mut i: usize = 0;
        while i < self.in_flight.len()
            invariant
                fl == self.in_flight@,
                pred == (|c: Command| c.id != id),
                0 <= i <= fl.len(),
                kept@ == fl.subrange(0, i as int).filter(pred),
            decreases fl.len() - i,
        {
            let c = self.in_flight[i];
            proof {
                fl.subrange(0, i as int).lemma_filter_push(c, pred);
                assert(fl.subrange(0, i as int + 1) =~= fl.subrange(0, i as int).push(c));
            }
            if c.id != id {
                kept.push(c);
            }
            i = i + 1;
        }
        assert(fl.subrange(0, fl.len() as int) =~= fl);
        proof {
            if old(self).ids_ok() {
                lemma_filter_out_id(fl, id, pred);
                let f = fl.filter(pred);
                let p = self.pending@;
                assert forall|k: int| 0 <= k < f.len() implies 1 <= #[trigger] f[k].id < self.next_id by {
                    assert(fl.contains(f[k]));
                }
                assert forall|i: int, k: int| 0 <= i < p.len() && 0 <= k < f.len() implies #[trigger] p[i].id != #[trigger] f[k].id by {
                    assert(fl.contains(f[k]));
                    let j = choose|j: int| 0 <= j < fl.len() && fl[j] == f[k];
                    assert(p[i].id != fl[j].id);
                }
                if old(self).records_ok() && has_id(fl, id) {
                    let cs = old(self).completed@;
                    let w = choose|w: int| 0 <= w < fl.len() && #[trigger] fl[w].id == id;
                    assert forall|i: int| 0 <= i < cs.len() implies #[trigger] cs[i].0 != id by {
                        assert(old(self).completed_seq()[i].0 != old(self).in_flight_seq()[w].id);
                    }
                    lemma_record_appended(cs, id, status);
                    let cs2 = trimmed(cs.push((id, status)));
                    assert forall|i: int| 0 <= i < cs2.len() implies (#[trigger] cs2[i]).0 < self.next_id && (cs2[i].0 == id || exists|k: int| 0 <= k < cs.len() && cs[k] == cs2[i]) by {
                        let d = cs.push((id, status));
                        assert(fl[w].id < self.next_id);
                        if d.len() > 1000 {
                            assert(cs2[i] == d[i + 500]);
                            if i + 500 < cs.len() {
                                assert(d[i + 500] == cs[i + 500]);
                                assert(old(self).completed_seq()[i + 500].0 < old(self).next_id_spec());
                            }
                        } else if i < cs.len() {
                            assert(d[i] == cs[i]);
                            assert(old(self).completed_seq()[i].0 < old(self).next_id_spec());
                        }
                    }
                    assert forall|i: int, j: int| 0 <= i < cs2.len() && 0 <= j < p.len() implies #[trigger] cs2[i].0 != #[trigger] p[j].id by {
                        if cs2[i].0 != id {
                            let k = choose|k: int| 0 <= k < cs.len() && cs[k] == cs2[i];
                            assert(old(self).completed_seq()[k].0 != old(self).pending_seq()[j].id);
                        } else {
                            assert(old(self).pending_seq()[j].id != old(self).in_flight_seq()[w].id);
                        }
                    }
                    assert forall|i: int, k: int| 0 <= i < cs2.len() && 0 <= k < f.len() implies #[trigger] cs2[i].0 != #[trigger] f[k].id by {
                        assert(fl.contains(f[k]));
                        let j = choose|j: int| 0 <= j < fl.len() && fl[j] == f[k];
                        if cs2[i].0 != id {
                            let m = choose|m: int| 0 <= m < cs.len() && cs[m] == cs2[i];
                            assert(old(self).completed_seq()[m].0 != old(self).in_flight_seq()[j].id);
                        } else {
                            assert(pred(f[k]));
                        }
                    }
                    assert(!has_id(f, id)) by {
                        if has_id(f, id) {
                            let v = choose|v: int| 0 <= v < f.len() && #[trigger] f[v].id == id;
                            assert(pred(f[v]));
                        }
                    }
                }
                if !has_id(fl, id) {
                    assert forall|k: int| 0 <= k < fl.len() implies pred(#[trigger] fl[k]) by {
                        if fl[k].id == id {
                            assert(has_id(fl, id));
                        }
                    }
                    lemma_filter_all_kept(fl, pred);
                }
            }
        }
        self.in_flight = kept;
        self.completed.push((id, status));
        if self.completed.len() > 1000 {
            let tail = self.completed.split_off(500);
            self.completed = tail;
        }
    }

    /// Where `wait` stands for command `id`: its final status when there is
    /// nothing to wait for (`Failed(1)` for an unknown id), or `None` while
    /// it is pending or running and the caller has to wait for the next
    /// completion before asking again.
    pub fn wait(&self, id: u64) -> (r: Option<CommandStatus>)
        ensures
            match self.status_spec(id) {
                Some(s) => if is_final(s) {
                    r == Some(s)
                } else {
                    r is None
                },
                None => r == Some(CommandStatus::Failed(1)),
            },
    {
        match self.get_status(id) {
            Some(s) => {
                if s != CommandStatus::Pending && s != CommandStatus::Running {
                    Some(s)
                } else {
                    None
                }
            },
            None => Some(CommandStatus::Failed(1)),
        }
    }

    /// Status of command `id`: its first completion record, else running if
    /// in flight, else pending if queued, else unknown.
    pub fn get_status(&self, id: u64) -> (r: Option<CommandStatus>)
        ensures
            r == self.status_spec(id),
    {
        let mut i: usize = 0;
        assert(self.completed@.subrange(0, self.completed@.len() as int) =~= self.completed@);
        while i < self.completed.len()
            invariant
                0 <= i <= self.completed@.len(),
                first_completion(self.completed@, id) == first_completion(
                    self.completed@.subrange(i as int, self.completed@.len() as int),
                    id,
                ),
            decreases self.completed@.len() - i,
        {
            let (cid, st) = self.completed[i];
            let ghost rest = self.completed@.subrange(i as int, self.completed@.len() as int);
            assert(rest[0] == self.completed@[i as int]);
            if cid == id {
                return Some(st);
            }
            assert(rest.drop_first() =~= self.completed@.subrange(
                i as int + 1,
                self.completed@.len() as int,
            ));
            i = i + 1;
        }
        assert(self.completed@.subrange(i as int, self.completed@.len() as int).len() == 0);
        let mut j: usize = 0;
        while j < self.in_flight.len()
            invariant
                first_completion(self.completed@, id) is None,
                0 <= j <= self.in_flight@.len(),
                forall|k: int| 0 <= k < j ==> #[trigger] self.in_flight@[k].id != id,
            decreases self.in_flight@.len() - j,
        {
            if self.in_flight[j].id == id {
                assert(has_id(self.in_flight@, id));
                return Some(CommandStatus::Running);
            }
            j = j + 1;
        }
        let mut k: usize = 0;
        while k < self.pending.len()
            invariant
                0 <= k <= self.pending@.len(),
                first_completion(self.completed@, id) is None,
                !has_id(self.in_flight@, id),
                forall|m: int| 0 <= m < k ==> #[trigger] self.pending@[m].id != id,
            decreases self.pending@.len() - k,
        {
            if self.pending[k].id == id {
                assert(has_id(self.pending@, id));
                return Some(CommandStatus::Pending);
            }
            k = k + 1;
        }
        None
    }

    /// Number of pending commands.
    pub fn pending_count(&self) -> (n: usize)
        ensures
            n == self.pending_seq().len(),
    {
        self.pending.len()
    }

    /// Number of in-flight commands.
    pub fn in_flight_count(&self) -> (n: usize)
        ensures
            n == self.in_flight_seq().len(),
    {
        self.in_flight.len()
    }
}

} // verus!
