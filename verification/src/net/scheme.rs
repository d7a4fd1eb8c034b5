//! The `network` scheme's handles: which path opens what, who may open,
//! what each handle answers to reading an address, writing, `fpath` and
//! `fstat`, and when pacing lets a packet go.
use vstd::prelude::*;
use std::collections::BTreeMap;
use vstd::string::StrSliceExecFns;

verus! {

broadcast use {vstd::std_specs::btree::group_btree_axioms, vstd::laws_cmp::group_laws_cmp};

/// Bad file descriptor.
pub const EBADF: i32 = 9;

/// Permission denied.
pub const EACCES: i32 = 13;

/// Invalid argument.
pub const EINVAL: i32 = 22;

/// The mode bits of a regular file.
pub const MODE_FILE: u16 = 0x8000;

/// What a handle of the scheme reads and writes.
#[derive(Debug, Clone, Copy, PartialEq, Eq, Structural)]
pub enum NetHandle {
    /// Raw packet data.
    Data,
    /// The MAC address.
    Mac,
    /// The IPv4 address.
    Ipv4,
    /// The link-local IPv6 address.
    Ipv6,
    /// The global IPv6 address.
    Ipv6Global,
    /// The unique local IPv6 address.
    Ipv6UniqueLocal,
    /// Congestion control metrics as text.
    Bbr,
    /// Congestion control metrics as a 64-byte record.
    BbrRaw,
}

/// The path a handle is opened with.
pub open spec fn handle_path(h: NetHandle) -> Seq<char> {
    match h {
        NetHandle::Data => ""@,
        NetHandle::Mac => "mac"@,
        NetHandle::Ipv4 => "ipv4"@,
        NetHandle::Ipv6 => "ipv6"@,
        NetHandle::Ipv6Global => "ipv6_global"@,
        NetHandle::Ipv6UniqueLocal => "ipv6_unique_local"@,
        NetHandle::Bbr => "bbr"@,
        NetHandle::BbrRaw => "bbr_raw"@,
    }
}

/// The path of a handle.
pub fn path_of(h: NetHandle) -> (s: &'static str)
    ensures
        s@ == handle_path(h),
{
    match h {
        NetHandle::Data => "",
        NetHandle::Mac => "mac",
        NetHandle::Ipv4 => "ipv4",
        NetHandle::Ipv6 => "ipv6",
        NetHandle::Ipv6Global => "ipv6_global",
        NetHandle::Ipv6UniqueLocal => "ipv6_unique_local",
        NetHandle::Bbr => "bbr",
        NetHandle::BbrRaw => "bbr_raw",
    }
}

/// Whether two texts are equal.
fn same_text(a: &str, b: &str) -> (r: bool)
    ensures
        r == (a@ == b@),
{
    let n = a.unicode_len();
    if b.unicode_len() != n {
        return false;
    }
    let mut i: usize = 0;
    while i < n
        invariant
            n == a@.len(),
            n == b@.len(),
            0 <= i <= n,
            forall|j: int| 0 <= j < i ==> a@[j] == b@[j],
        decreases n - i,
    {
        if a.get_char(i) != b.get_char(i) {
            return false;
        }
        i = i + 1;
    }
    assert(a@ =~= b@);
    true
}

/// The handle a path opens: the handle whose path it is.
pub open spec fn handle_named(path: Seq<char>) -> Option<NetHandle> {
    if path == handle_path(NetHandle::Data) {
        Some(NetHandle::Data)
    } else if path == handle_path(NetHandle::Mac) {
        Some(NetHandle::Mac)
    } else if path == handle_path(NetHandle::Ipv4) {
        Some(NetHandle::Ipv4)
    } else if path == handle_path(NetHandle::Ipv6) {
        Some(NetHandle::Ipv6)
    } else if path == handle_path(NetHandle::Ipv6Global) {
        Some(NetHandle::Ipv6Global)
    } else if path == handle_path(NetHandle::Ipv6UniqueLocal) {
        Some(NetHandle::Ipv6UniqueLocal)
    } else if path == handle_path(NetHandle::Bbr) {
        Some(NetHandle::Bbr)
    } else if path == handle_path(NetHandle::BbrRaw) {
        Some(NetHandle::BbrRaw)
    } else {
        None
    }
}

/// The handle a path opens, if it names one.
pub fn handle_for_path(path: &str) -> (r: Option<NetHandle>)
    ensures
        r == handle_named(path@),
{
    if same_text(path, path_of(NetHandle::Data)) {
        Some(NetHandle::Data)
    } else if same_text(path, path_of(NetHandle::Mac)) {
        Some(NetHandle::Mac)
    } else if same_text(path, path_of(NetHandle::Ipv4)) {
        Some(NetHandle::Ipv4)
    } else if same_text(path, path_of(NetHandle::Ipv6)) {
        Some(NetHandle::Ipv6)
    } else if same_text(path, path_of(NetHandle::Ipv6Global)) {
        Some(NetHandle::Ipv6Global)
    } else if same_text(path, path_of(NetHandle::Ipv6UniqueLocal)) {
        Some(NetHandle::Ipv6UniqueLocal)
    } else if same_text(path, path_of(NetHandle::Bbr)) {
        Some(NetHandle::Bbr)
    } else if same_text(path, path_of(NetHandle::BbrRaw)) {
        Some(NetHandle::BbrRaw)
    } else {
        None
    }
}

/// The size `fstat` reports for a handle (0 for data and text).
pub open spec fn handle_size(h: NetHandle) -> u64 {
    match h {
        NetHandle::Data | NetHandle::Bbr => 0,
        NetHandle::Mac => 6,
        NetHandle::Ipv4 => 4,
        NetHandle::Ipv6 | NetHandle::Ipv6Global | NetHandle::Ipv6UniqueLocal => 16,
        NetHandle::BbrRaw => 64,
    }
}

/// The mode `fstat` reports for a handle: a file, owner read-write-execute
/// for data, owner read-only otherwise.
pub open spec fn handle_mode(h: NetHandle) -> u16 {
    if h == NetHandle::Data {
        (MODE_FILE | 0o700u16) as u16
    } else {
        (MODE_FILE | 0o400u16) as u16
    }
}

/// The scheme's open handles.
pub struct NetworkHandles {
    next_id: usize,
    handles: BTreeMap<usize, NetHandle>,
}

impl NetworkHandles {
    /// The open handles by id.
    pub closed spec fn handles_spec(&self) -> Map<usize, NetHandle> {
        self.handles@
    }

    /// The last id given out.
    pub closed spec fn last_id(&self) -> usize {
        self.next_id
    }

    /// No handle open; ids start at 1.
    pub fn new() -> (t: Self)
        ensures
            t.handles_spec() == Map::<usize, NetHandle>::empty(),
            t.last_id() == 0,
    {
        NetworkHandles { next_id: 0, handles: BTreeMap::new() }
    }

    /// The last id given out (0 before any).
    pub fn last_opened(&self) -> (n: usize)
        ensures
            n == self.last_id(),
    {
        self.next_id
    }

    /// Opens `path` for a caller with user id `uid`: only root may open; the
    /// path must name a handle. The answer is the new id and whether the
    /// handle is positioned (all but raw data).
    pub fn open(&mut self, path: &str, uid: u32) -> (r: Result<(usize, bool), i32>)
        requires
            old(self).last_id() < usize::MAX,
        ensures
            uid != 0 ==> r == Err::<(usize, bool), i32>(EACCES) && *final(self) == *old(self),
            uid == 0 && handle_named(path@) is None ==> r == Err::<(usize, bool), i32>(EINVAL)
                && *final(self) == *old(self),
            uid == 0 && handle_named(path@) is Some ==> {
                let id = (old(self).last_id() + 1) as usize;
                let h = handle_named(path@).unwrap();
                &&& r == Ok::<(usize, bool), i32>((id, h != NetHandle::Data))
                &&& final(self).last_id() == id
                &&& final(self).handles_spec() == old(self).handles_spec().insert(id, h)
            },
    {
        if uid != 0 {
            return Err(EACCES);
        }
        let h = match handle_for_path(path) {
            Some(h) => h,
            None => {
                return Err(EINVAL);
            },
        };
        self.next_id = self.next_id + 1;
        self.handles.insert(self.next_id, h);
        Ok((self.next_id, h != NetHandle::Data))
    }

    /// The handle with id `id`.
    pub fn get(&self, id: usize) -> (r: Result<NetHandle, i32>)
        ensures
            self.handles_spec().contains_key(id) ==> r == Ok::<NetHandle, i32>(self.handles_spec()[id]),
            !self.handles_spec().contains_key(id) ==> r == Err::<NetHandle, i32>(EBADF),
    {
        match self.handles.get(&id) {
            Some(h) => Ok(*h),
            None => Err(EBADF),
        }
    }

    /// Forgets a closed handle.
    pub fn on_close(&mut self, id: usize)
        ensures
            final(self).handles_spec() == old(self).handles_spec().remove(id),
            final(self).last_id() == old(self).last_id(),
    {
        self.handles.remove(&id);
    }

    /// Whether a write may go to handle `id`: only raw data takes writes.
    pub fn check_write(&self, id: usize) -> (r: Result<(), i32>)
        ensures
            !self.handles_spec().contains_key(id) ==> r == Err::<(), i32>(EBADF),
            self.handles_spec().contains_key(id) && self.handles_spec()[id] == NetHandle::Data ==> r is Ok,
            self.handles_spec().contains_key(id) && self.handles_spec()[id] != NetHandle::Data
                ==> r == Err::<(), i32>(EINVAL),
    {
        match self.handles.get(&id) {
            Some(h) => if *h == NetHandle::Data {
                Ok(())
            } else {
                Err(EINVAL)
            },
            None => Err(EBADF),
        }
    }

    /// The mode and size `fstat` reports for handle `id`.
    pub fn fstat(&self, id: usize) -> (r: Result<(u16, u64), i32>)
        ensures
            !self.handles_spec().contains_key(id) ==> r == Err::<(u16, u64), i32>(EBADF),
            self.handles_spec().contains_key(id) ==> {
                let h = self.handles_spec()[id];
                r == Ok::<(u16, u64), i32>((handle_mode(h), handle_size(h)))
            },
    {
        let h = match self.handles.get(&id) {
            Some(h) => *h,
            None => {
                return Err(EBADF);
            },
        };
        let size: u64 = match h {
            NetHandle::Data | NetHandle::Bbr => 0,
            NetHandle::Mac => 6,
            NetHandle::Ipv4 => 4,
            NetHandle::Ipv6 | NetHandle::Ipv6Global | NetHandle::Ipv6UniqueLocal => 16,
            NetHandle::BbrRaw => 64,
        };
        let mode: u16 = if h == NetHandle::Data { MODE_FILE | 0o700 } else { MODE_FILE | 0o400 };
        Ok((mode, size))
    }

    /// Writes `<scheme>:<path>` into `buf` as far as it fits; the answer is
    /// the number of bytes written.
    pub fn fpath(&self, id: usize, scheme_name: &[u8], buf: &mut [u8]) -> (r: Result<usize, i32>)
        ensures
            !self.handles_spec().contains_key(id) ==> r == Err::<usize, i32>(EBADF) && final(buf)@ == old(buf)@,
            self.handles_spec().contains_key(id) ==> {
                let full = scheme_name@ + seq![58u8] + ascii_bytes(handle_path(self.handles_spec()[id]));
                let n = if full.len() <= old(buf)@.len() { full.len() } else { old(buf)@.len() };
                &&& r == Ok::<usize, i32>(n as usize)
                &&& final(buf)@ == full.take(n as int) + old(buf)@.skip(n as int)
            },
    {
        let h = match self.handles.get(&id) {
            Some(h) => *h,
            None => {
                return Err(EBADF);
            },
        };
        let mut full: Vec<u8> = Vec::new();
        let mut j: usize = 0;
        while j < scheme_name.len()
            invariant
                0 <= j <= scheme_name@.len(),
                full@ == scheme_name@.take(j as int),
            decreases scheme_name@.len() - j,
        {
            full.push(scheme_name[j]);
            assert(full@ =~= scheme_name@.take(j as int + 1));
            j = j + 1;
        }
        assert(full@ =~= scheme_name@);
        full.push(58);
        let path = path_bytes(h);
        let ghost before = full@;
        let mut k: usize = 0;
        while k < path.len()
            invariant
                0 <= k <= path@.len(),
                full@ == before + path@.take(k as int),
            decreases path@.len() - k,
        {
            full.push(path[k]);
            assert(full@ =~= before + path@.take(k as int + 1));
            k = k + 1;
        }
        assert(full@ =~= before + path@);
        let n = if full.len() <= buf.len() { full.len() } else { buf.len() };
        let mut i: usize = 0;
        while i < n
            invariant
                0 <= i <= n,
                n <= full@.len(),
                n <= buf@.len(),
                buf@.len() == old(buf)@.len(),
                forall|t: int| 0 <= t < i ==> buf@[t] == full@[t],
                forall|t: int| i <= t < buf@.len() ==> buf@[t] == old(buf)@[t],
            decreases n - i,
        {
            buf[i] = full[i];
            i = i + 1;
        }
        assert(buf@ =~= full@.take(n as int) + old(buf)@.skip(n as int));
        Ok(n)
    }
}

/// The bytes of an ASCII text.
pub open spec fn ascii_bytes(s: Seq<char>) -> Seq<u8> {
    s.map_values(|c: char| c as u8)
}

/// The path of a handle as bytes.
fn path_bytes(h: NetHandle) -> (v: Vec<u8>)
    ensures
        v@ == ascii_bytes(handle_path(h)),
{
    let s = path_of(h);
    let n = s.unicode_len();
    let mut v: Vec<u8> = Vec::new();
    let mut i: usize = 0;
    proof {
        reveal_strlit("");
        reveal_strlit("mac");
        reveal_strlit("ipv4");
        reveal_strlit("ipv6");
        reveal_strlit("ipv6_global");
        reveal_strlit("ipv6_unique_local");
        reveal_strlit("bbr");
        reveal_strlit("bbr_raw");
    }
    assert(forall|j: int| 0 <= j < s@.len() ==> (s@[j] as u32) < 128);
    while i < n
        invariant
            n == s@.len(),
            0 <= i <= n,
            forall|j: int| 0 <= j < s@.len() ==> (s@[j] as u32) < 128,
            v@ == ascii_bytes(s@).take(i as int),
        decreases n - i,
    {
        let c = s.get_char(i);
        v.push(c as u8);
        assert(v@ =~= ascii_bytes(s@).take(i as int + 1));
        i = i + 1;
    }
    assert(v@ =~= ascii_bytes(s@));
    v
}

/// Copies an address (or metrics record) from byte `offset` into `buf`;
/// the answer is the number of bytes copied.
pub fn read_from(data: &[u8], offset: usize, buf: &mut [u8]) -> (n: usize)
    requires
        offset <= data@.len(),
    ensures
        n == if old(buf)@.len() <= data@.len() - offset { old(buf)@.len() as int } else { data@.len() - offset },
        final(buf)@ == data@.subrange(offset as int, offset + n) + old(buf)@.skip(n as int),
{
    let rest = data.len() - offset;
    let n = if buf.len() <= rest { buf.len() } else { rest };
    let mut i: usize = 0;
    while i < n
        invariant
            0 <= i <= n,
            n <= buf@.len(),
            offset + n <= data.len(),
            buf@.len() == old(buf)@.len(),
            forall|t: int| 0 <= t < i ==> buf@[t] == data@[offset + t],
            forall|t: int| i <= t < buf@.len() ==> buf@[t] == old(buf)@[t],
        decreases n - i,
    {
        buf[i] = data[offset + i];
        i = i + 1;
    }
    assert(buf@ =~= data@.subrange(offset as int, offset + n) + old(buf)@.skip(n as int));
    n
}

/// Copies metrics from byte `offset` into `buf`; nothing past the end.
pub fn read_metrics_from(data: &[u8], offset: usize, buf: &mut [u8]) -> (n: usize)
    ensures
        offset >= data@.len() ==> n == 0 && final(buf)@ == old(buf)@,
        offset < data@.len() ==> {
            &&& n == if old(buf)@.len() <= data@.len() - offset { old(buf)@.len() as int } else { data@.len() - offset }
            &&& final(buf)@ == data@.subrange(offset as int, offset + n) + old(buf)@.skip(n as int)
        },
{
    if offset >= data.len() {
        return 0;
    }
    read_from(data, offset, buf)
}

/// Whether pacing lets a packet go at `now_us`: always without a rate yet,
/// else once the inter-packet gap `delay_us` since the last send is over.
pub fn may_send(pacing_rate: u64, delay_us: u64, now_us: u64, last_send_us: u64) -> (b: bool)
    requires
        pacing_rate != 0 ==> last_send_us + delay_us <= u64::MAX,
    ensures
        b == (pacing_rate == 0 || now_us >= last_send_us + delay_us),
{
    if pacing_rate == 0 {
        return true;
    }
    now_us >= last_send_us + delay_us
}

} // verus!
