//! The GPU scheme backend: contexts opened by path, batch submission, and
//! the partition table that keeps contexts apart.
use vstd::prelude::*;
use vstd::string::StrSliceExecFns;
use std::collections::BTreeMap;
use std::sync::Arc;
use crate::inteld::context::{Context, ContextParams, CONTEXT_POLICY_REG, spec_validate_submission};
use crate::inteld::device::IntelDevice;
use crate::inteld::execbuf::{ExecBuffer, submit};
use crate::inteld::mmio::MmioWrite;
use crate::inteld::partition::{GpuPartition, PartitionTable, spec_add_partition};

verus! {

broadcast use {vstd::std_specs::btree::group_btree_axioms, vstd::laws_cmp::group_laws_cmp};

/// The pieces of a path between `/` separators, empty pieces included.
pub open spec fn split_slash(s: Seq<char>) -> Seq<Seq<char>>
    decreases s.len(),
{
    if s.len() == 0 {
        seq![Seq::<char>::empty()]
    } else {
        let rest = split_slash(s.drop_last());
        if s.last() == '/' {
            rest.push(Seq::<char>::empty())
        } else {
            rest.update(rest.len() - 1, rest.last().push(s.last()))
        }
    }
}

/// The value of a digit in `radix` (10 or 16), if it is one.
pub open spec fn digit_value(c: char, radix: u64) -> Option<u64> {
    if '0' <= c <= '9' && (c as u64) - ('0' as u64) < radix {
        Some(((c as u64) - ('0' as u64)) as u64)
    } else if radix == 16 && 'a' <= c <= 'f' {
        Some(((c as u64) - ('a' as u64) + 10) as u64)
    } else if radix == 16 && 'A' <= c <= 'F' {
        Some(((c as u64) - ('A' as u64) + 10) as u64)
    } else {
        None
    }
}

/// Whether every character of `s` is a digit in `radix`.
pub open spec fn all_digits(s: Seq<char>, radix: u64) -> bool {
    forall|i: int| 0 <= i < s.len() ==> (#[trigger] digit_value(s[i], radix)) is Some
}

/// The number the digits of `s` spell in `radix`.
pub open spec fn digits_value(s: Seq<char>, radix: u64) -> nat
    decreases s.len(),
{
    if s.len() == 0 {
        0
    } else {
        (digits_value(s.drop_last(), radix) * radix + digit_value(s.last(), radix).unwrap()) as nat
    }
}

/// Text parsed as an unsigned 64-bit number in `radix`, as the standard
/// library parses it: an optional `+`, then at least one digit, and a value
/// that fits.
pub open spec fn parse_u64_spec(s: Seq<char>, radix: u64) -> Option<u64> {
    let body = if s.len() > 0 && s[0] == '+' { s.drop_first() } else { s };
    if body.len() == 0 || !all_digits(body, radix) || digits_value(body, radix) > u64::MAX {
        None
    } else {
        Some(digits_value(body, radix) as u64)
    }
}

/// The value of a longer digit string is at least that of its prefix.
proof fn lemma_digits_value_prefix(s: Seq<char>, radix: u64, k: int)
    requires
        2 <= radix <= 16,
        0 <= k <= s.len(),
        all_digits(s, radix),
    ensures
        digits_value(s.take(k), radix) <= digits_value(s, radix),
    decreases s.len() - k,
{
    if k < s.len() {
        lemma_digits_value_prefix(s, radix, k + 1);
        let t = s.take(k + 1);
        assert(t.drop_last() =~= s.take(k));
        assert(digit_value(t.last(), radix) is Some) by {
            assert(t.last() == s[k]);
        }
        let v = digits_value(s.take(k), radix);
        assert(v * radix >= v) by (nonlinear_arith)
            requires
                radix >= 2,
        ;
        assert(digits_value(t, radix) == (v * radix + digit_value(t.last(), radix).unwrap()) as nat);
    } else {
        assert(s.take(k) =~= s);
    }
}

/// Parses a decimal or hexadecimal unsigned number as the standard library
/// does.
pub(crate) fn parse_u64(s: &Vec<char>, radix: u64) -> (r: Option<u64>)
    requires
        radix == 10 || radix == 16,
    ensures
        r == parse_u64_spec(s@, radix),
{
    let n = s.len();
    let start: usize = if n > 0 && s[0] == '+' { 1 } else { 0 };
    let ghost body = if s@.len() > 0 && s@[0] == '+' { s@.drop_first() } else { s@ };
    assert(body =~= s@.subrange(start as int, n as int));
    if start == n {
        return None;
    }
    let mut acc: u64 = 0;
    let mut i: usize = start;
    while i < n
        invariant
            start <= i <= n,
            n == s@.len(),
            radix == 10 || radix == 16,
            body == s@.subrange(start as int, n as int),
            body == (if s@.len() > 0 && s@[0] == '+' { s@.drop_first() } else { s@ }),
            all_digits(body.take(i - start), radix),
            acc == digits_value(body.take(i - start), radix),
        decreases n - i,
    {
        let c = s[i];
        let ghost k = (i - start) as int;
        assert(body.take(k + 1).drop_last() =~= body.take(k));
        assert(body.take(k + 1).last() == c);
        let d: u64 = if '0' <= c && c <= '9' && (c as u64) - ('0' as u64) < radix {
            (c as u64) - ('0' as u64)
        } else if radix == 16 && 'a' <= c && c <= 'f' {
            (c as u64) - ('a' as u64) + 10
        } else if radix == 16 && 'A' <= c && c <= 'F' {
            (c as u64) - ('A' as u64) + 10
        } else {
            assert(!all_digits(body, radix)) by {
                assert(body[k] == c);
            }
            return None;
        };
        assert(digit_value(c, radix) == Some(d));
        assert(all_digits(body.take(k + 1), radix)) by {
            assert forall|j: int| 0 <= j < k + 1 implies (#[trigger] digit_value(body.take(k + 1)[j], radix)) is Some by {
                if j < k {
                    assert(body.take(k + 1)[j] == body.take(k)[j]);
                }
            }
        }
        let next = match acc.checked_mul(radix) {
            Some(m) => m.checked_add(d),
            None => None,
        };
        assert(digits_value(body.take(k + 1), radix) == acc * radix + d);
        match next {
            Some(v) => {
                acc = v;
            },
            None => {
                proof {
                    if all_digits(body, radix) {
                        lemma_digits_value_prefix(body, radix, k + 1);
                    }
                }
                return None;
            },
        }
        i = i + 1;
    }
    assert(body.take(n - start) =~= body);
    Some(acc)
}

/// Splits a path at `/`.
pub(crate) fn split_path(path: &str) -> (parts: Vec<Vec<char>>)
    ensures
        parts@.len() == split_slash(path@).len(),
        forall|i: int| 0 <= i < parts@.len() ==> #[trigger] parts@[i]@ == split_slash(path@)[i],
{
    let n = path.unicode_len();
    let mut parts: Vec<Vec<char>> = Vec::new();
    parts.push(Vec::new());
    let mut i: usize = 0;
    assert(path@.take(0).len() == 0);
    while i < n
        invariant
            n == path@.len(),
            0 <= i <= n,
            parts@.len() == split_slash(path@.take(i as int)).len(),
            parts@.len() > 0,
            forall|j: int| 0 <= j < parts@.len() ==> #[trigger] parts@[j]@ == split_slash(path@.take(i as int))[j],
        decreases n - i,
    {
        let c = path.get_char(i);
        let ghost before = path@.take(i as int);
        assert(path@.take(i as int + 1).drop_last() =~= before);
        assert(path@.take(i as int + 1).last() == c);
        if c == '/' {
            parts.push(Vec::new());
        } else {
            let last = parts.len() - 1;
            let mut piece = parts.remove(last);
            piece.push(c);
            parts.push(piece);
        }
        i = i + 1;
    }
    assert(path@.take(n as int) =~= path@);
    parts
}

/// Whether a piece reads `word`.
fn piece_is(piece: &Vec<char>, word: &str) -> (b: bool)
    ensures
        b == (piece@ == word@),
{
    let n = word.unicode_len();
    if piece.len() != n {
        return false;
    }
    let mut i: usize = 0;
    while i < n
        invariant
            n == word@.len(),
            n == piece@.len(),
            0 <= i <= n,
            forall|j: int| 0 <= j < i ==> piece@[j] == word@[j],
        decreases n - i,
    {
        if piece[i] != word.get_char(i) {
            return false;
        }
        i = i + 1;
    }
    assert(piece@ =~= word@);
    true
}

/// The core mask a path asks for: `/vcore/<mask>` in hexadecimal, else in
/// decimal; all cores otherwise.
pub open spec fn path_core_mask(parts: Seq<Seq<char>>) -> u64 {
    if parts.len() >= 3 && parts[1] == "vcore"@ {
        match parse_u64_spec(parts[2], 16) {
            Some(m) => m,
            None => match parse_u64_spec(parts[2], 10) {
                Some(m) => m,
                None => 0xFFFF_FFFF_FFFF_FFFFu64,
            },
        }
    } else {
        0xFFFF_FFFF_FFFF_FFFFu64
    }
}

/// The VRAM megabytes a path asks for: `.../vram/<MiB>` in decimal.
pub open spec fn path_vram_mb(parts: Seq<Seq<char>>) -> Option<u64> {
    if parts.len() >= 5 && parts[3] == "vram"@ {
        parse_u64_spec(parts[4], 10)
    } else {
        None
    }
}

/// The VRAM bytes a path asks for (0 when it asks for none).
pub open spec fn path_vram_bytes(parts: Seq<Seq<char>>) -> int {
    match path_vram_mb(parts) {
        Some(mb) => mb * 1024 * 1024,
        None => 0,
    }
}

/// The GPU scheme backend.
pub struct IntelGalBackend {
    device: Arc<IntelDevice>,
    contexts: BTreeMap<usize, Arc<Context>>,
    next_id: usize,
    partition_table: PartitionTable,
}

impl IntelGalBackend {
    /// Open contexts by id.
    pub closed spec fn contexts_spec(&self) -> Map<usize, Arc<Context>> {
        self.contexts@
    }

    /// The id the next context gets.
    pub closed spec fn next_id_spec(&self) -> usize {
        self.next_id
    }

    /// The partition table.
    pub closed spec fn partitions(&self) -> PartitionTable {
        self.partition_table
    }

    /// The backend's invariant: a well-formed partition table.
    pub open spec fn wf(&self) -> bool {
        self.partitions().wf()
    }

    /// A backend over `device` with no contexts and a 4 GiB partition table.
    pub fn new(device: Arc<IntelDevice>) -> (b: Self)
        ensures
            b.wf(),
            b.contexts_spec() == Map::<usize, Arc<Context>>::empty(),
            b.next_id_spec() == 0,
            b.partitions().partitions_spec() == Seq::<GpuPartition>::empty(),
            b.partitions().total_vram_spec() == 4 * 1024 * 1024 * 1024,
    {
        let partition_table = PartitionTable::new(4 * 1024 * 1024 * 1024);
        IntelGalBackend { device, contexts: BTreeMap::new(), next_id: 0, partition_table }
    }

    /// Announces the scheme.
    pub fn register(&self) -> (r: Result<(), &'static str>)
        ensures
            r is Ok,
    {
        Ok(())
    }

    /// Opens a context for `path` (`/vcore/<mask>/vram/<MiB>`, either part
    /// optional): the context gets the next id, the path's core mask and
    /// VRAM size at VRAM offset 0, and a partition is requested for it.
    /// Returns the id and the register write that applies the core mask.
    pub fn open(&mut self, path: &str) -> (r: (usize, MmioWrite))
        requires
            old(self).wf(),
            old(self).next_id_spec() < usize::MAX,
            path_vram_bytes(split_slash(path@)) <= u64::MAX,
        ensures
            final(self).wf(),
            ({
                let parts = split_slash(path@);
                let id = old(self).next_id_spec();
                let mask = path_core_mask(parts);
                let vram = path_vram_bytes(parts) as u64;
                &&& r.0 == id
                &&& r.1 == (MmioWrite { offset: CONTEXT_POLICY_REG, value: mask as u32 })
                &&& final(self).next_id_spec() == id + 1
                &&& final(self).contexts_spec().dom() == old(self).contexts_spec().dom().insert(id)
                &&& final(self).contexts_spec()[id].id == id as u32
                &&& final(self).contexts_spec()[id].params == (ContextParams { core_mask: mask, priority: 0 })
                &&& final(self).contexts_spec()[id].vram_start == 0
                &&& final(self).contexts_spec()[id].vram_size == vram
                &&& forall|k: usize| k != id && #[trigger] old(self).contexts_spec().contains_key(k)
                    ==> final(self).contexts_spec()[k] == old(self).contexts_spec()[k]
                &&& {
                    let p = GpuPartition { id, vram_start: 0, vram_size: vram, core_mask: mask };
                    ||| final(self).partitions().partitions_spec() == old(self).partitions().partitions_spec().push(p)
                    ||| final(self).partitions().partitions_spec() == old(self).partitions().partitions_spec()
                }
            }),
            final(self).partitions().total_vram_spec() == old(self).partitions().total_vram_spec(),
    {
        let parts = split_path(path);
        let ghost sp = split_slash(path@);
        let mut core_mask: u64 = 0xFFFF_FFFF_FFFF_FFFF;
        if parts.len() >= 3 && piece_is(&parts[1], "vcore") {
            match parse_u64(&parts[2], 16) {
                Some(mask) => {
                    core_mask = mask;
                },
                None => match parse_u64(&parts[2], 10) {
                    Some(mask) => {
                        core_mask = mask;
                    },
                    None => {},
                },
            }
        }
        assert(core_mask == path_core_mask(sp));
        let mut vram_size: u64 = 0;
        if parts.len() >= 5 && piece_is(&parts[3], "vram") {
            match parse_u64(&parts[4], 10) {
                Some(size_mb) => {
                    vram_size = size_mb * 1024 * 1024;
                },
                None => {},
            }
        }
        assert(vram_size == path_vram_bytes(sp));
        let id = self.next_id;
        self.next_id = id + 1;
        let params = ContextParams { core_mask, priority: 0 };
        let vram_start: u64 = 0;
        let context = Arc::new(Context::new(id as u32, params, vram_start, vram_size));
        let write = context.apply_mask();
        let _ = self.partition_table.add_partition(GpuPartition { id, vram_start, vram_size, core_mask });
        self.contexts.insert(id, context);
        (id, write)
    }

    /// Submits a batch on context `id`: `ENOENT` for no such context,
    /// `EINVAL` when the batch (empty, at offset 0) is outside the context's
    /// VRAM or the context has no cores; otherwise the register write to
    /// perform and the bytes taken.
    pub fn write(&self, id: usize, buf: &[u8]) -> (r: Result<(usize, MmioWrite), GalError>)
        ensures
            !self.contexts_spec().contains_key(id) ==> r == Err::<(usize, MmioWrite), GalError>(GalError::NoSuchContext),
            self.contexts_spec().contains_key(id) ==> {
                let c = self.contexts_spec()[id];
                if spec_validate_submission(c.vram_start, c.vram_size, 0, 0) is Err || c.params.core_mask == 0 {
                    r == Err::<(usize, MmioWrite), GalError>(GalError::Invalid)
                } else {
                    r == Ok::<(usize, MmioWrite), GalError>(
                        (buf@.len() as usize, MmioWrite { offset: CONTEXT_POLICY_REG, value: c.params.core_mask as u32 }),
                    )
                }
            },
    {
        let context = match self.contexts.get(&id) {
            Some(c) => c,
            None => {
                return Err(GalError::NoSuchContext);
            },
        };
        let batch_start: u64 = 0;
        let batch_len: u64 = 0;
        match context.validate_submission(batch_start, batch_len) {
            Ok(()) => {},
            Err(_) => {
                return Err(GalError::Invalid);
            },
        }
        let eb = ExecBuffer { batch_start_offset: batch_start, batch_len };
        match submit(context, &self.device, &eb) {
            Ok(w) => Ok((buf.len(), w)),
            Err(_) => Err(GalError::Invalid),
        }
    }

    /// Closes context `id`: the context and every partition with its id go.
    pub fn on_close(&mut self, id: usize)
        requires
            old(self).wf(),
        ensures
            final(self).wf(),
            final(self).contexts_spec() == old(self).contexts_spec().remove(id),
            final(self).partitions().partitions_spec() == old(self).partitions().partitions_spec().filter(
                |q: GpuPartition| q.id != id,
            ),
            final(self).next_id_spec() == old(self).next_id_spec(),
    {
        self.contexts.remove(&id);
        self.partition_table.remove_partition(id);
    }
}

/// Errors of the GPU scheme backend.
#[derive(Debug, Clone, Copy, PartialEq, Eq, Structural)]
pub enum GalError {
    /// No context with that id (`ENOENT`).
    NoSuchContext,
    /// The request is invalid (`EINVAL`).
    Invalid,
}

} // verus!
