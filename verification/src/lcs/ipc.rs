//! In-process IPC of the compatibility layer: pipes and emulated Unix
//! sockets, and the process status record read from `/proc`.
use vstd::prelude::*;
use std::collections::HashMap;
use std::collections::VecDeque;
use super::errno::LinuxErrno;

verus! {

broadcast use vstd::std_specs::hash::group_hash_axioms;

/// Process status from `/proc/[pid]/status`.
#[derive(Debug)]
pub struct ProcStatus {
    pub name: String,
    pub state: char,
    pub pid: u32,
    pub ppid: u32,
    pub uid: u32,
    pub gid: u32,
    pub vm_size: u64,
    pub vm_rss: u64,
    pub threads: u32,
}

impl Default for ProcStatus {
    fn default() -> (s: Self)
        ensures
            s.name@ == Seq::<char>::empty(),
            s.state == '\0',
            s.pid == 0 && s.ppid == 0 && s.uid == 0 && s.gid == 0,
            s.vm_size == 0 && s.vm_rss == 0 && s.threads == 0,
    {
        ProcStatus {
            name: String::new(),
            state: '\0',
            pid: 0,
            ppid: 0,
            uid: 0,
            gid: 0,
            vm_size: 0,
            vm_rss: 0,
            threads: 0,
        }
    }
}

/// Capacity of a pipe in bytes.
pub const PIPE_CAPACITY: usize = 65536;

/// A pipe as plain values.
pub struct PipeView {
    pub data: Seq<u8>,
    pub capacity: usize,
    pub closed_read: bool,
    pub closed_write: bool,
}

/// Writing `d` to a pipe: refused once the read end is closed; otherwise as
/// much of `d` as fits is appended. Returns the result and the pipe after.
pub open spec fn pipe_write(p: PipeView, d: Seq<u8>) -> (Result<usize, LinuxErrno>, PipeView) {
    if p.closed_read {
        (Err(LinuxErrno::EPIPE), p)
    } else {
        let room = p.capacity - p.data.len();
        let n: int = if d.len() <= room { d.len() as int } else { room };
        (Ok(n as usize), PipeView { data: p.data + d.subrange(0, n as int), ..p })
    }
}

/// Reading up to `max` bytes from a pipe: an empty pipe is at end of file
/// once the write end is closed and would block otherwise; else the oldest
/// bytes come out. Returns the result, the bytes read, and the pipe after.
pub open spec fn pipe_read(p: PipeView, max: nat) -> (Result<usize, LinuxErrno>, Seq<u8>, PipeView) {
    if p.data.len() == 0 {
        if p.closed_write {
            (Ok(0usize), Seq::empty(), p)
        } else {
            (Err(LinuxErrno::EAGAIN), Seq::empty(), p)
        }
    } else {
        let n = if max <= p.data.len() { max } else { p.data.len() };
        (Ok(n as usize), p.data.subrange(0, n as int), PipeView { data: p.data.subrange(n as int, p.data.len() as int), ..p })
    }
}

struct PipeBuffer {
    data: VecDeque<u8>,
    capacity: usize,
    closed_read: bool,
    closed_write: bool,
}

impl PipeBuffer {
    closed spec fn view_of(&self) -> PipeView {
        PipeView {
            data: self.data@,
            capacity: self.capacity,
            closed_read: self.closed_read,
            closed_write: self.closed_write,
        }
    }
}

/// Pipe IPC: pipes by id; a pipe's read end is its (even) id, its write end
/// the id plus one.
pub struct PipeIpc {
    next_id: usize,
    pipes: HashMap<usize, PipeBuffer>,
}

impl PipeIpc {
    /// The pipes by id.
    pub closed spec fn pipes_spec(&self) -> Map<usize, PipeView> {
        self.pipes@.map_values(|p: PipeBuffer| p.view_of())
    }

    /// The id the next pipe gets.
    pub closed spec fn next_id_spec(&self) -> usize {
        self.next_id
    }

    /// The invariant: every pipe has the capacity of `PIPE_CAPACITY` and
    /// holds no more than that.
    pub open spec fn wf(&self) -> bool {
        forall|id: usize| #[trigger] self.pipes_spec().contains_key(id) ==> {
            &&& self.pipes_spec()[id].capacity == PIPE_CAPACITY
            &&& self.pipes_spec()[id].data.len() <= self.pipes_spec()[id].capacity
        }
    }

    /// No pipes; ids start at 0.
    pub fn new() -> (p: Self)
        ensures
            p.wf(),
            p.pipes_spec() == Map::<usize, PipeView>::empty(),
            p.next_id_spec() == 0,
    {
        let p = PipeIpc { next_id: 0, pipes: HashMap::new() };
        assert(p.pipes_spec() =~= Map::<usize, PipeView>::empty());
        p
    }

    /// Creates an empty pipe of 64 KiB; returns (read end, write end).
    pub fn create_pipe(&mut self) -> (r: (usize, usize))
        requires
            old(self).wf(),
            old(self).next_id_spec() + 2 <= usize::MAX,
        ensures
            final(self).wf(),
            r == (old(self).next_id_spec(), (old(self).next_id_spec() + 1) as usize),
            final(self).next_id_spec() == old(self).next_id_spec() + 2,
            final(self).pipes_spec() == old(self).pipes_spec().insert(
                r.0,
                PipeView { data: Seq::empty(), capacity: PIPE_CAPACITY, closed_read: false, closed_write: false },
            ),
    {
        let id = self.next_id;
        self.next_id = self.next_id + 2;
        let buf = PipeBuffer {
            data: VecDeque::with_capacity(PIPE_CAPACITY),
            capacity: PIPE_CAPACITY,
            closed_read: false,
            closed_write: false,
        };
        self.pipes.insert(id, buf);
        assert(self.pipes_spec() =~= old(self).pipes_spec().insert(
            id,
            PipeView { data: Seq::empty(), capacity: PIPE_CAPACITY, closed_read: false, closed_write: false },
        ));
        (id, id + 1)
    }

    /// Writes to the pipe whose write end is `write_end`: `EBADF` for no
    /// such pipe, else as `pipe_write`.
    pub fn write(&mut self, write_end: usize, data: &[u8]) -> (r: Result<usize, LinuxErrno>)
        requires
            old(self).wf(),
            write_end >= 1,
        ensures
            final(self).wf(),
            final(self).next_id_spec() == old(self).next_id_spec(),
            ({
                let id = (write_end - 1) as usize;
                if !old(self).pipes_spec().contains_key(id) {
                    r == Err::<usize, LinuxErrno>(LinuxErrno::EBADF) && final(self).pipes_spec() == old(self).pipes_spec()
                } else {
                    let w = pipe_write(old(self).pipes_spec()[id], data@);
                    r == w.0 && final(self).pipes_spec() == old(self).pipes_spec().insert(id, w.1)
                }
            }),
    {
        let pipe_id = write_end - 1;
        let mut pipe = match self.pipes.remove(&pipe_id) {
            Some(p) => p,
            None => {
                assert(self.pipes_spec() =~= old(self).pipes_spec());
                return Err(LinuxErrno::EBADF);
            },
        };
        assert(old(self).pipes_spec().contains_key(pipe_id));
        if pipe.closed_read {
            self.pipes.insert(pipe_id, pipe);
            assert(self.pipes_spec() =~= old(self).pipes_spec());
            return Err(LinuxErrno::EPIPE);
        }
        let available = pipe.capacity - pipe.data.len();
        let to_write = if data.len() <= available { data.len() } else { available };
        let ghost d0 = pipe.data@;
        let mut i: usize = 0;
        while i < to_write
            invariant
                0 <= i <= to_write,
                to_write <= data@.len(),
                pipe.data@ == d0 + data@.subrange(0, i as int),
                pipe.capacity == old(self).pipes_spec()[pipe_id].capacity,
                pipe.closed_read == old(self).pipes_spec()[pipe_id].closed_read,
                pipe.closed_write == old(self).pipes_spec()[pipe_id].closed_write,
            decreases to_write - i,
        {
            pipe.data.push_back(data[i]);
            assert(pipe.data@ =~= d0 + data@.subrange(0, i as int + 1));
            i = i + 1;
        }
        self.pipes.insert(pipe_id, pipe);
        assert(self.pipes_spec() =~= old(self).pipes_spec().insert(
            pipe_id,
            pipe_write(old(self).pipes_spec()[pipe_id], data@).1,
        ));
        Ok(to_write)
    }

    /// Reads from the pipe whose read end is `read_end` into `buf`: `EBADF`
    /// for no such pipe, else as `pipe_read` with the buffer's length; the
    /// bytes read fill the front of `buf`.
    pub fn read(&mut self, read_end: usize, buf: &mut [u8]) -> (r: Result<usize, LinuxErrno>)
        requires
            old(self).wf(),
        ensures
            final(self).wf(),
            final(self).next_id_spec() == old(self).next_id_spec(),
            final(buf)@.len() == old(buf)@.len(),
            !old(self).pipes_spec().contains_key(read_end) ==> r == Err::<usize, LinuxErrno>(LinuxErrno::EBADF)
                && final(self).pipes_spec() == old(self).pipes_spec() && final(buf)@ == old(buf)@,
            old(self).pipes_spec().contains_key(read_end) ==> {
                let rd = pipe_read(old(self).pipes_spec()[read_end], old(buf)@.len());
                &&& r == rd.0
                &&& final(self).pipes_spec() == old(self).pipes_spec().insert(read_end, rd.2)
                &&& final(buf)@ == rd.1 + old(buf)@.subrange(rd.1.len() as int, old(buf)@.len() as int)
            },
    {
        let mut pipe = match self.pipes.remove(&read_end) {
            Some(p) => p,
            None => {
                assert(self.pipes_spec() =~= old(self).pipes_spec());
                return Err(LinuxErrno::EBADF);
            },
        };
        if pipe.data.len() == 0 {
            let closed = pipe.closed_write;
            self.pipes.insert(read_end, pipe);
            assert(self.pipes_spec() =~= old(self).pipes_spec().insert(read_end, old(self).pipes_spec()[read_end]));
            assert(buf@ =~= Seq::<u8>::empty() + old(buf)@.subrange(0, old(buf)@.len() as int));
            if closed {
                return Ok(0);
            }
            return Err(LinuxErrno::EAGAIN);
        }
        let to_read = if buf.len() <= pipe.data.len() { buf.len() } else { pipe.data.len() };
        let ghost d0 = pipe.data@;
        let ghost b0 = buf@;
        let mut i: usize = 0;
        while i < to_read
            invariant
                0 <= i <= to_read,
                to_read <= d0.len(),
                to_read <= b0.len(),
                buf@.len() == b0.len(),
                pipe.data@ == d0.subrange(i as int, d0.len() as int),
                forall|j: int| 0 <= j < i ==> #[trigger] buf@[j] == d0[j],
                forall|j: int| i <= j < b0.len() ==> #[trigger] buf@[j] == b0[j],
                pipe.capacity == old(self).pipes_spec()[read_end].capacity,
                pipe.closed_read == old(self).pipes_spec()[read_end].closed_read,
                pipe.closed_write == old(self).pipes_spec()[read_end].closed_write,
            decreases to_read - i,
        {
            let b = match pipe.data.pop_front() {
                Some(b) => b,
                None => 0,
            };
            buf[i] = b;
            assert(pipe.data@ =~= d0.subrange(i as int + 1, d0.len() as int));
            i = i + 1;
        }
        self.pipes.insert(read_end, pipe);
        let ghost rd = pipe_read(old(self).pipes_spec()[read_end], b0.len());
        assert(self.pipes_spec() =~= old(self).pipes_spec().insert(read_end, rd.2));
        assert(buf@ =~= rd.1 + b0.subrange(rd.1.len() as int, b0.len() as int));
        Ok(to_read)
    }

    /// Closes a pipe end (even: read end, odd: write end of the pipe below);
    /// a pipe with both ends closed goes away. Always succeeds.
    pub fn close(&mut self, end: usize) -> (r: Result<(), LinuxErrno>)
        requires
            old(self).wf(),
        ensures
            r is Ok,
            final(self).wf(),
            final(self).next_id_spec() == old(self).next_id_spec(),
            ({
                let id = if end % 2 == 0 { end } else { (end - 1) as usize };
                if !old(self).pipes_spec().contains_key(id) {
                    final(self).pipes_spec() == old(self).pipes_spec()
                } else {
                    let p = old(self).pipes_spec()[id];
                    let q = if end % 2 == 0 {
                        PipeView { closed_read: true, ..p }
                    } else {
                        PipeView { closed_write: true, ..p }
                    };
                    if q.closed_read && q.closed_write {
                        final(self).pipes_spec() == old(self).pipes_spec().remove(id)
                    } else {
                        final(self).pipes_spec() == old(self).pipes_spec().insert(id, q)
                    }
                }
            }),
    {
        let pipe_id = if end % 2 == 0 { end } else { end - 1 };
        let mut pipe = match self.pipes.remove(&pipe_id) {
            Some(p) => p,
            None => {
                assert(self.pipes_spec() =~= old(self).pipes_spec());
                return Ok(());
            },
        };
        if end % 2 == 0 {
            pipe.closed_read = true;
        } else {
            pipe.closed_write = true;
        }
        if pipe.closed_read && pipe.closed_write {
            assert(self.pipes_spec() =~= old(self).pipes_spec().remove(pipe_id));
        } else {
            self.pipes.insert(pipe_id, pipe);
            assert(self.pipes_spec() =~= old(self).pipes_spec().insert(pipe_id, pipe.view_of()));
        }
        Ok(())
    }
}

impl Default for PipeIpc {
    fn default() -> (p: Self)
        ensures
            p.wf(),
            p.pipes_spec() == Map::<usize, PipeView>::empty(),
            p.next_id_spec() == 0,
    {
        Self::new()
    }
}

/// What a reader gets back of a write: bytes written to an empty pipe
/// whose read end is open come out of the next read, in order, when they
/// fit in the pipe and the reader's buffer.
pub proof fn lemma_pipe_write_then_read(p: PipeView, d: Seq<u8>, max: nat)
    requires
        p.data.len() == 0,
        !p.closed_read,
        0 < d.len() <= p.capacity,
        d.len() <= max,
    ensures
        pipe_write(p, d).0 == Ok::<usize, LinuxErrno>(d.len() as usize),
        pipe_read(pipe_write(p, d).1, max).0 == Ok::<usize, LinuxErrno>(d.len() as usize),
        pipe_read(pipe_write(p, d).1, max).1 == d,
        pipe_read(pipe_write(p, d).1, max).2.data.len() == 0,
{
    let q = pipe_write(p, d).1;
    assert(q.data =~= d);
    assert(q.data.subrange(0, d.len() as int) =~= d);
}

/// Bytes leave a pipe in the order they entered: after any write, the
/// pipe's contents are the old contents followed by what was taken.
pub proof fn lemma_pipe_fifo(p: PipeView, d: Seq<u8>)
    requires
        !p.closed_read,
        p.data.len() <= p.capacity,
    ensures
        pipe_write(p, d).1.data.subrange(0, p.data.len() as int) == p.data,
        pipe_write(p, d).1.data.len() <= p.capacity,
{
    let q = pipe_write(p, d).1;
    assert(q.data.subrange(0, p.data.len() as int) =~= p.data);
}

/// A Unix socket as plain values.
pub struct SockView {
    pub id: usize,
    pub path: Seq<char>,
    pub listening: bool,
    pub connected: bool,
}

/// `i` is where the socket bound to `path` sits.
pub open spec fn sock_at(s: Seq<SockView>, path: Seq<char>, i: int) -> bool {
    0 <= i < s.len() && s[i].path == path
}

/// Whether a socket is bound to `path`.
pub open spec fn has_sock(s: Seq<SockView>, path: Seq<char>) -> bool {
    exists|i: int| sock_at(s, path, i)
}

/// No two sockets share a path.
pub open spec fn paths_unique(s: Seq<SockView>) -> bool {
    forall|i: int, j: int| 0 <= i < s.len() && 0 <= j < s.len() && i != j ==> #[trigger] s[i].path != #[trigger] s[j].path
}

struct UnixSocket {
    id: usize,
    path: String,
    listening: bool,
    connected: bool,
    read_buffer: VecDeque<u8>,
    write_buffer: VecDeque<u8>,
}

impl UnixSocket {
    closed spec fn view_of(&self) -> SockView {
        SockView { id: self.id, path: self.path@, listening: self.listening, connected: self.connected }
    }
}

/// Unix socket emulation: sockets bound to paths, one per path.
pub struct UnixSocketClient {
    sockets: Vec<UnixSocket>,
    next_id: usize,
}

impl UnixSocketClient {
    /// The bound sockets.
    pub closed spec fn sockets_spec(&self) -> Seq<SockView> {
        self.sockets@.map_values(|u: UnixSocket| u.view_of())
    }

    /// The id the next socket gets.
    pub closed spec fn next_id_spec(&self) -> usize {
        self.next_id
    }

    /// The invariant: one socket per path.
    pub open spec fn wf(&self) -> bool {
        paths_unique(self.sockets_spec())
    }

    /// No sockets; ids start at 0.
    pub fn new() -> (c: Self)
        ensures
            c.wf(),
            c.sockets_spec() == Seq::<SockView>::empty(),
            c.next_id_spec() == 0,
    {
        let c = UnixSocketClient { sockets: Vec::new(), next_id: 0 };
        assert(c.sockets_spec() =~= Seq::<SockView>::empty());
        c
    }

    /// A new socket id.
    pub fn socket(&mut self) -> (id: usize)
        requires
            old(self).next_id_spec() < usize::MAX,
        ensures
            id == old(self).next_id_spec(),
            final(self).next_id_spec() == id + 1,
            final(self).sockets_spec() == old(self).sockets_spec(),
    {
        let id = self.next_id;
        self.next_id = id + 1;
        id
    }

    /// Finds the socket bound to `path`.
    fn find(&self, path: &String) -> (r: Option<usize>)
        ensures
            r is None <==> !has_sock(self.sockets_spec(), path@),
            r matches Some(i) ==> sock_at(self.sockets_spec(), path@, i as int),
    {
        let mut i: usize = 0;
        while i < self.sockets.len()
            invariant
                0 <= i <= self.sockets@.len(),
                forall|j: int| 0 <= j < i ==> #[trigger] self.sockets_spec()[j].path != path@,
            decreases self.sockets@.len() - i,
        {
            if self.sockets[i].path == *path {
                assert(sock_at(self.sockets_spec(), path@, i as int));
                return Some(i);
            }
            i = i + 1;
        }
        None
    }

    /// Binds socket `id` to `path`, replacing a socket bound there before.
    pub fn bind(&mut self, id: usize, path: &str) -> (r: Result<(), LinuxErrno>)
        requires
            old(self).wf(),
        ensures
            r is Ok,
            final(self).wf(),
            final(self).next_id_spec() == old(self).next_id_spec(),
            ({
                let v = SockView { id, path: path@, listening: false, connected: false };
                &&& has_sock(old(self).sockets_spec(), path@) ==> exists|i: int| sock_at(old(self).sockets_spec(), path@, i)
                    && final(self).sockets_spec() == old(self).sockets_spec().update(i, v)
                &&& !has_sock(old(self).sockets_spec(), path@) ==> final(self).sockets_spec() == old(self).sockets_spec().push(v)
            }),
    {
        let owned = path.to_owned();
        let sock = UnixSocket {
            id,
            path: path.to_owned(),
            listening: false,
            connected: false,
            read_buffer: VecDeque::new(),
            write_buffer: VecDeque::new(),
        };
        let ghost v = sock.view_of();
        match self.find(&owned) {
            Some(i) => {
                self.sockets.set(i, sock);
                assert(self.sockets_spec() =~= old(self).sockets_spec().update(i as int, v));
                assert(sock_at(old(self).sockets_spec(), path@, i as int));
                let ghost o = old(self).sockets_spec();
                let ghost n = self.sockets_spec();
                assert forall|a: int, b: int| 0 <= a < n.len() && 0 <= b < n.len() && a != b implies #[trigger] n[a].path
                    != #[trigger] n[b].path by {
                    if a == i as int {
                        assert(o[b].path != o[i as int].path);
                    } else if b == i as int {
                        assert(o[a].path != o[i as int].path);
                    } else {
                        assert(o[a].path != o[b].path);
                    }
                }
            },
            None => {
                self.sockets.push(sock);
                assert(self.sockets_spec() =~= old(self).sockets_spec().push(v));
                let ghost o = old(self).sockets_spec();
                let ghost n = self.sockets_spec();
                assert forall|a: int, b: int| 0 <= a < n.len() && 0 <= b < n.len() && a != b implies #[trigger] n[a].path
                    != #[trigger] n[b].path by {
                    if a == o.len() {
                        assert(!sock_at(o, path@, b));
                    } else if b == o.len() {
                        assert(!sock_at(o, path@, a));
                    } else {
                        assert(o[a].path != o[b].path);
                    }
                }
            },
        }
        Ok(())
    }

    /// Marks the socket bound to `path` as listening; `EBADF` for no such
    /// socket.
    pub fn listen(&mut self, path: &str) -> (r: Result<(), LinuxErrno>)
        requires
            old(self).wf(),
        ensures
            final(self).wf(),
            final(self).next_id_spec() == old(self).next_id_spec(),
            !has_sock(old(self).sockets_spec(), path@) ==> r == Err::<(), LinuxErrno>(LinuxErrno::EBADF)
                && final(self).sockets_spec() == old(self).sockets_spec(),
            has_sock(old(self).sockets_spec(), path@) ==> r is Ok && exists|i: int| sock_at(old(self).sockets_spec(), path@, i)
                && final(self).sockets_spec() == old(self).sockets_spec().update(
                i,
                SockView { listening: true, ..old(self).sockets_spec()[i] },
            ),
    {
        let owned = path.to_owned();
        match self.find(&owned) {
            Some(i) => {
                let mut sock = self.sockets.remove(i);
                sock.listening = true;
                self.sockets.insert(i, sock);
                assert(self.sockets_spec() =~= old(self).sockets_spec().update(
                    i as int,
                    SockView { listening: true, ..old(self).sockets_spec()[i as int] },
                ));
                Ok(())
            },
            None => Err(LinuxErrno::EBADF),
        }
    }

    /// Connects to the socket bound to `path`, giving the connection a new
    /// socket id; `ENOENT` for no such socket.
    pub fn connect(&mut self, path: &str) -> (r: Result<usize, LinuxErrno>)
        requires
            has_sock(old(self).sockets_spec(), path@) ==> old(self).next_id_spec() < usize::MAX,
        ensures
            final(self).sockets_spec() == old(self).sockets_spec(),
            has_sock(old(self).sockets_spec(), path@) ==> r == Ok::<usize, LinuxErrno>(old(self).next_id_spec())
                && final(self).next_id_spec() == old(self).next_id_spec() + 1,
            !has_sock(old(self).sockets_spec(), path@) ==> r == Err::<usize, LinuxErrno>(LinuxErrno::ENOENT)
                && final(self).next_id_spec() == old(self).next_id_spec(),
    {
        let owned = path.to_owned();
        match self.find(&owned) {
            Some(_) => Ok(self.socket()),
            None => Err(LinuxErrno::ENOENT),
        }
    }
}

impl Default for UnixSocketClient {
    fn default() -> (c: Self)
        ensures
            c.wf(),
            c.sockets_spec() == Seq::<SockView>::empty(),
            c.next_id_spec() == 0,
    {
        Self::new()
    }
}

/// How a scheme file is opened for Linux open flags.
#[derive(Debug, Clone, Copy, PartialEq, Eq, Structural)]
pub struct OpenRequest {
    pub read: bool,
    pub write: bool,
    pub create: bool,
    pub truncate: bool,
    pub append: bool,
}

/// The open request of Linux `flags`: readable unless write-only, writable
/// unless read-only, and creating, truncating or appending as the flag bits
/// say.
pub open spec fn open_request_spec(flags: i32) -> OpenRequest {
    OpenRequest {
        read: (flags & 3) != 1,
        write: (flags & 3) != 0,
        create: (flags & 0o100) != 0,
        truncate: (flags & 0o1000) != 0,
        append: (flags & 0o2000) != 0,
    }
}

/// The open request of Linux `flags` (see `open_request_spec`).
pub fn open_request_of(flags: i32) -> (r: OpenRequest)
    ensures
        r == open_request_spec(flags),
{
    OpenRequest {
        read: (flags & 3) != 1,
        write: (flags & 3) != 0,
        create: (flags & 0o100) != 0,
        truncate: (flags & 0o1000) != 0,
        append: (flags & 0o2000) != 0,
    }
}

} // verus!
