//! ELF loader for Linux binaries: parses 64-bit little-endian ELF images and
//! builds the auxiliary vector for process startup.
pub mod pt_type;
pub mod pf_flags;
pub mod bytes;

use vstd::prelude::*;
use vstd::utf8::{valid_utf8, decode_utf8};
use vstd::slice::{slice_subrange, slice_to_vec};
use crate::lcs::errno::LinuxErrno;
use crate::lcs::elf_loader::bytes::{le16, le32, le64, read_u16_le, read_u32_le, read_u64_le};
use crate::lcs::elf_loader::pt_type::{PT_LOAD, PT_INTERP};

verus! {

/// Loaded ELF information.
#[derive(Debug)]
pub struct LoadedElf {
    /// Entry point address.
    pub entry_point: u64,
    /// Program headers.
    pub program_headers: Vec<ProgramHeader>,
    /// Interpreter path (for dynamic executables).
    pub interpreter: Option<String>,
    /// Is PIE (position independent executable).
    pub is_pie: bool,
    /// Preferred load address.
    pub load_addr: u64,
    /// Total memory size needed.
    pub mem_size: u64,
    /// ELF data.
    pub data: Vec<u8>,
}

/// Program header.
#[derive(Debug, Clone, Copy)]
pub struct ProgramHeader {
    /// Segment type.
    pub p_type: u32,
    /// Segment flags.
    pub p_flags: u32,
    /// Offset in file.
    pub p_offset: u64,
    /// Virtual address.
    pub p_vaddr: u64,
    /// Physical address.
    pub p_paddr: u64,
    /// Size in file.
    pub p_filesz: u64,
    /// Size in memory.
    pub p_memsz: u64,
    /// Alignment.
    pub p_align: u64,
}

/// ELF class of 64-bit images.
pub const ELFCLASS64: u8 = 2;
/// Little-endian data encoding.
pub const ELFDATA2LSB: u8 = 1;
/// Executable file type.
pub const ET_EXEC: u16 = 2;
/// Shared object (position independent) file type.
pub const ET_DYN: u16 = 3;
/// x86-64 machine type, the only one accepted.
pub const EM_X86_64: u16 = 62;
/// AArch64 machine type.
pub const EM_AARCH64: u16 = 183;
/// Size of one 64-bit program header entry that is read.
pub const PHDR_SIZE: usize = 56;

/// The ELF file header checks: size, magic, class, encoding, machine, type.
pub open spec fn elf_header_valid(d: Seq<u8>) -> bool {
    &&& d.len() >= 64
    &&& d[0] == 0x7f && d[1] == 0x45 && d[2] == 0x4c && d[3] == 0x46
    &&& d[4] == ELFCLASS64
    &&& d[5] == ELFDATA2LSB
    &&& le16(d, 18) == EM_X86_64
    &&& (le16(d, 16) == ET_EXEC || le16(d, 16) == ET_DYN)
}

/// Number of program headers (`e_phnum`).
pub open spec fn ph_count(d: Seq<u8>) -> int {
    le16(d, 56)
}

/// Byte offset of program header `i`: `e_phoff + i * e_phentsize`.
pub open spec fn ph_offset(d: Seq<u8>, i: int) -> int {
    ((le64(d, 32) as u64) as usize) as int + i * le16(d, 54)
}

/// The program header decoded at byte offset `o`.
pub open spec fn spec_program_header(d: Seq<u8>, o: int) -> ProgramHeader {
    ProgramHeader {
        p_type: le32(d, o) as u32,
        p_flags: le32(d, o + 4) as u32,
        p_offset: le64(d, o + 8) as u64,
        p_vaddr: le64(d, o + 16) as u64,
        p_paddr: le64(d, o + 24) as u64,
        p_filesz: le64(d, o + 32) as u64,
        p_memsz: le64(d, o + 40) as u64,
        p_align: le64(d, o + 48) as u64,
    }
}

/// The first `n` program header entries lie inside the image.
pub open spec fn entries_fit(d: Seq<u8>, n: int) -> bool {
    forall|i: int| 0 <= i < n ==> #[trigger] ph_offset(d, i) + 56 <= d.len()
}

/// The first `n` program headers of the image.
pub open spec fn spec_headers(d: Seq<u8>, n: int) -> Seq<ProgramHeader> {
    Seq::new(n as nat, |i: int| spec_program_header(d, ph_offset(d, i)))
}

/// End of the interpreter path segment, as a byte index.
pub open spec fn interp_end(h: ProgramHeader) -> int {
    (((h.p_offset + h.p_filesz) as u64) as usize) as int
}

/// Start of the interpreter path segment, as a byte index.
pub open spec fn interp_start(h: ProgramHeader) -> int {
    (h.p_offset as usize) as int
}

/// Reading header `h` overflows an address computation or slices the image
/// out of order.
pub open spec fn header_traps(d: Seq<u8>, h: ProgramHeader) -> bool {
    ||| h.p_type == PT_LOAD && h.p_vaddr + h.p_memsz > u64::MAX
    ||| h.p_type == PT_INTERP && h.p_offset + h.p_filesz > u64::MAX
    ||| h.p_type == PT_INTERP && interp_end(h) <= d.len() && (interp_end(h) == 0
        || interp_start(h) > interp_end(h) - 1)
}

/// Entry `i` of the program header table is reached by the parser and makes
/// an index computation overflow or a header traps.
pub open spec fn entry_traps(d: Seq<u8>, i: int) -> bool {
    ||| ph_offset(d, i) + 56 > usize::MAX
    ||| ph_offset(d, i) + 56 <= d.len() && header_traps(d, spec_program_header(d, ph_offset(d, i)))
}

/// Parsing the image would overflow an index or address computation, or
/// slice the interpreter path out of order (the inputs on which parsing
/// cannot proceed).
pub open spec fn elf_parse_traps(d: Seq<u8>) -> bool {
    elf_header_valid(d) && exists|i: int|
        0 <= i < ph_count(d) && entries_fit(d, i) && #[trigger] entry_traps(d, i)
}

/// The image is accepted: its header is valid and every program header lies
/// inside it.
pub open spec fn elf_accepts(d: Seq<u8>) -> bool {
    elf_header_valid(d) && entries_fit(d, ph_count(d))
}

/// Lowest virtual address of the loadable segments among `hs`, `u64::MAX`
/// when there is none below it.
pub open spec fn min_load_vaddr(hs: Seq<ProgramHeader>) -> u64
    decreases hs.len(),
{
    if hs.len() == 0 {
        u64::MAX
    } else {
        let rest = min_load_vaddr(hs.drop_last());
        let h = hs.last();
        if h.p_type == PT_LOAD && h.p_vaddr < rest {
            h.p_vaddr
        } else {
            rest
        }
    }
}

/// Highest end address (`vaddr + memsz`) of the loadable segments among
/// `hs`, 0 when there is none.
pub open spec fn max_load_end(hs: Seq<ProgramHeader>) -> u64
    decreases hs.len(),
{
    if hs.len() == 0 {
        0
    } else {
        let rest = max_load_end(hs.drop_last());
        let h = hs.last();
        if h.p_type == PT_LOAD && h.p_vaddr + h.p_memsz > rest {
            (h.p_vaddr + h.p_memsz) as u64
        } else {
            rest
        }
    }
}

/// The interpreter path: the text of the last `PT_INTERP` segment among `hs`
/// that lies inside the image and is valid UTF-8, without its final byte.
pub open spec fn interpreter_of(d: Seq<u8>, hs: Seq<ProgramHeader>) -> Option<Seq<char>>
    decreases hs.len(),
{
    if hs.len() == 0 {
        None
    } else {
        let rest = interpreter_of(d, hs.drop_last());
        let h = hs.last();
        if h.p_type == PT_INTERP && interp_end(h) <= d.len() && valid_utf8(
            d.subrange(interp_start(h), interp_end(h) - 1),
        ) {
            Some(decode_utf8(d.subrange(interp_start(h), interp_end(h) - 1)))
        } else {
            rest
        }
    }
}

/// The text of an optional string.
pub open spec fn opt_string_view(o: Option<String>) -> Option<Seq<char>> {
    match o {
        Some(s) => Some(s@),
        None => None,
    }
}

/// Preferred load address of an accepted image.
pub open spec fn spec_load_addr(d: Seq<u8>) -> u64 {
    let m = min_load_vaddr(spec_headers(d, ph_count(d)));
    if m == u64::MAX {
        0
    } else {
        m
    }
}

/// Memory size of an accepted image: from the load address to the highest
/// segment end.
pub open spec fn spec_mem_size(d: Seq<u8>) -> u64 {
    let end = max_load_end(spec_headers(d, ph_count(d)));
    if end > spec_load_addr(d) {
        (end - spec_load_addr(d)) as u64
    } else {
        0
    }
}

/// What parsing an accepted image yields.
pub open spec fn elf_parsed_as(d: Seq<u8>, e: LoadedElf) -> bool {
    &&& e.entry_point == le64(d, 24)
    &&& e.program_headers@ == spec_headers(d, ph_count(d))
    &&& opt_string_view(e.interpreter) == interpreter_of(d, spec_headers(d, ph_count(d)))
    &&& e.is_pie == (le16(d, 16) == ET_DYN)
    &&& e.load_addr == spec_load_addr(d)
    &&& e.mem_size == spec_mem_size(d)
    &&& e.data@ == d
}

/// Decode a byte string as UTF-8 text.
///
/// Calls `std::str::from_utf8`; the contract claims that it succeeds exactly
/// on valid UTF-8 and then yields the decoded characters.
#[verifier::external_body]
fn utf8_to_string(bytes: &[u8]) -> (r: Option<String>)
    ensures
        r is Some <==> valid_utf8(bytes@),
        r matches Some(s) ==> s@ == decode_utf8(bytes@),
{
    match std::str::from_utf8(bytes) {
        Ok(s) => Some(s.to_string()),
        Err(_) => None,
    }
}

/// Load an ELF image held in memory.
pub fn load_elf_from_memory(data: &[u8]) -> (r: Result<LoadedElf, LinuxErrno>)
    requires
        !elf_parse_traps(data@),
    ensures
        r is Ok <==> elf_accepts(data@),
        r matches Err(e) ==> e == LinuxErrno::ENOEXEC,
        r matches Ok(e) ==> elf_parsed_as(data@, e),
{
    parse_elf(data)
}

/// The checks made on the first 64 bytes of a file before it is run:
/// magic, 64-bit class, executable or shared-object type.
pub open spec fn elf_file_header_ok(h: Seq<u8>) -> bool {
    &&& h[0] == 0x7f && h[1] == 0x45 && h[2] == 0x4c && h[3] == 0x46
    &&& h[4] == ELFCLASS64
    &&& (le16(h, 16) == ET_EXEC || le16(h, 16) == ET_DYN)
}

/// Checks the 64-byte file header of an ELF image (read by the caller):
/// `ENOEXEC` unless it passes `elf_file_header_ok`.
pub fn validate_elf_header(header: &[u8; 64]) -> (r: Result<(), LinuxErrno>)
    ensures
        r is Ok <==> elf_file_header_ok(header@),
        r matches Err(e) ==> e == LinuxErrno::ENOEXEC,
{
    if header[0] != 0x7f || header[1] != 0x45 || header[2] != 0x4c || header[3] != 0x46 {
        return Err(LinuxErrno::ENOEXEC);
    }
    if header[4] != ELFCLASS64 {
        return Err(LinuxErrno::ENOEXEC);
    }
    let e_type = read_u16_le(header, 16);
    if e_type != ET_EXEC && e_type != ET_DYN {
        return Err(LinuxErrno::ENOEXEC);
    }
    Ok(())
}

/// Whether program header `ph` traps (see `header_traps`).
fn header_would_trap(data: &[u8], ph: &ProgramHeader) -> (b: bool)
    ensures
        b == header_traps(data@, *ph),
{
    if ph.p_type == PT_LOAD && ph.p_vaddr.checked_add(ph.p_memsz).is_none() {
        return true;
    }
    if ph.p_type == PT_INTERP {
        match ph.p_offset.checked_add(ph.p_filesz) {
            None => {
                return true;
            },
            Some(sum) => {
                let end = sum as usize;
                let start = ph.p_offset as usize;
                if end <= data.len() && (end == 0 || start > end - 1) {
                    return true;
                }
            },
        }
    }
    false
}

/// Whether parsing `data` would trap (see `elf_parse_traps`): the test a
/// caller makes before `load_elf_from_memory`.
pub fn parse_would_trap(data: &[u8]) -> (b: bool)
    ensures
        b == elf_parse_traps(data@),
{
    let ghost d = data@;
    if data.len() < 64 {
        return false;
    }
    if data[0] != 0x7f || data[1] != 0x45 || data[2] != 0x4c || data[3] != 0x46 {
        return false;
    }
    if data[4] != ELFCLASS64 || data[5] != ELFDATA2LSB {
        return false;
    }
    let e_type = read_u16_le(data, 16);
    let e_machine = read_u16_le(data, 18);
    if e_machine != EM_X86_64 || (e_type != ET_EXEC && e_type != ET_DYN) {
        return false;
    }
    assert(elf_header_valid(d));
    let e_phoff = read_u64_le(data, 32);
    let e_phentsize = read_u16_le(data, 54);
    let e_phnum = read_u16_le(data, 56);
    let base: usize = e_phoff as usize;
    let mut i: usize = 0;
    while i < e_phnum as usize
        invariant
            d == data@,
            elf_header_valid(d),
            e_phoff as int == le64(d, 32),
            e_phentsize as int == le16(d, 54),
            e_phnum as int == ph_count(d),
            base as int == ((le64(d, 32) as u64) as usize) as int,
            0 <= i <= e_phnum,
            entries_fit(d, i as int),
            forall|j: int| 0 <= j < i ==> !#[trigger] entry_traps(d, j),
        decreases e_phnum - i,
    {
        assert((i as u128) * (e_phentsize as u128) <= 0xffff * 0xffff) by (nonlinear_arith)
            requires
                i < 0x10000,
                e_phentsize < 0x10000,
        ;
        let o: u128 = base as u128 + (i as u128) * (e_phentsize as u128);
        assert(o == ph_offset(d, i as int));
        if o + 56 > usize::MAX as u128 {
            assert(entry_traps(d, i as int));
            return true;
        }
        let offset = o as usize;
        if offset + 56 > data.len() {
            assert forall|j: int| 0 <= j < ph_count(d) && entries_fit(d, j) implies !#[trigger] entry_traps(d, j) by {
                if j > i {
                    assert(ph_offset(d, i as int) + 56 > d.len());
                }
            }
            return false;
        }
        let ph = ProgramHeader {
            p_type: read_u32_le(data, offset),
            p_flags: read_u32_le(data, offset + 4),
            p_offset: read_u64_le(data, offset + 8),
            p_vaddr: read_u64_le(data, offset + 16),
            p_paddr: read_u64_le(data, offset + 24),
            p_filesz: read_u64_le(data, offset + 32),
            p_memsz: read_u64_le(data, offset + 40),
            p_align: read_u64_le(data, offset + 48),
        };
        assert(ph == spec_program_header(d, ph_offset(d, i as int)));
        if header_would_trap(data, &ph) {
            assert(entry_traps(d, i as int));
            return true;
        }
        assert(!entry_traps(d, i as int));
        proof {
            assert forall|j: int| 0 <= j < i as int + 1 implies #[trigger] ph_offset(d, j) + 56 <= d.len() by {
                if j < i as int {
                    assert(entries_fit(d, i as int));
                }
            }
        }
        i = i + 1;
    }
    assert forall|j: int| 0 <= j < ph_count(d) && entries_fit(d, j) implies !#[trigger] entry_traps(d, j) by {}
    false
}

/// Parse ELF data.
fn parse_elf(data: &[u8]) -> (r: Result<LoadedElf, LinuxErrno>)
    requires
        !elf_parse_traps(data@),
    ensures
        r is Ok <==> elf_accepts(data@),
        r matches Err(e) ==> e == LinuxErrno::ENOEXEC,
        r matches Ok(e) ==> elf_parsed_as(data@, e),
{
    let ghost d = data@;
    if data.len() < 64 {
        return Err(LinuxErrno::ENOEXEC);
    }
    if data[0] != 0x7f || data[1] != 0x45 || data[2] != 0x4c || data[3] != 0x46 {
        return Err(LinuxErrno::ENOEXEC);
    }
    if data[4] != ELFCLASS64 {
        return Err(LinuxErrno::ENOEXEC);
    }
    if data[5] != ELFDATA2LSB {
        return Err(LinuxErrno::ENOEXEC);
    }
    let e_type = read_u16_le(data, 16);
    let e_machine = read_u16_le(data, 18);
    if e_machine != EM_X86_64 {
        return Err(LinuxErrno::ENOEXEC);
    }
    let is_pie = e_type == ET_DYN;
    if e_type != ET_EXEC && e_type != ET_DYN {
        return Err(LinuxErrno::ENOEXEC);
    }
    assert(elf_header_valid(d));
    let e_entry = read_u64_le(data, 24);
    let e_phoff = read_u64_le(data, 32);
    let e_phentsize = read_u16_le(data, 54);
    let e_phnum = read_u16_le(data, 56);

    let mut program_headers: Vec<ProgramHeader> = Vec::new();
    let mut interpreter: Option<String> = None;
    let mut load_addr: u64 = u64::MAX;
    let mut mem_end: u64 = 0;

    let mut i: usize = 0;
    while i < e_phnum as usize
        invariant
            d == data@,
            elf_header_valid(d),
            !elf_parse_traps(d),
            e_phoff as int == le64(d, 32),
            e_phentsize as int == le16(d, 54),
            e_phnum as int == ph_count(d),
            0 <= i <= e_phnum,
            entries_fit(d, i as int),
            program_headers@ == spec_headers(d, i as int),
            load_addr == min_load_vaddr(program_headers@),
            mem_end == max_load_end(program_headers@),
            opt_string_view(interpreter) == interpreter_of(d, program_headers@),
        decreases e_phnum - i,
    {
        assert(!entry_traps(d, i as int));
        let ghost o = ph_offset(d, i as int);
        assert(i as int * (e_phentsize as int) <= o);
        assert(i as int * (e_phentsize as int) <= usize::MAX) by (nonlinear_arith)
            requires
                i as int * (e_phentsize as int) <= o,
                o + 56 <= usize::MAX,
        ;
        let offset = e_phoff as usize + i * (e_phentsize as usize);
        assert(offset == o);
        if offset + 56 > data.len() {
            assert(!elf_accepts(d)) by {
                assert(ph_offset(d, i as int) + 56 > d.len());
            }
            return Err(LinuxErrno::ENOEXEC);
        }
        let p_type = read_u32_le(data, offset);
        let p_flags = read_u32_le(data, offset + 4);
        let p_offset = read_u64_le(data, offset + 8);
        let p_vaddr = read_u64_le(data, offset + 16);
        let p_paddr = read_u64_le(data, offset + 24);
        let p_filesz = read_u64_le(data, offset + 32);
        let p_memsz = read_u64_le(data, offset + 40);
        let p_align = read_u64_le(data, offset + 48);
        let ph = ProgramHeader {
            p_type,
            p_flags,
            p_offset,
            p_vaddr,
            p_paddr,
            p_filesz,
            p_memsz,
            p_align,
        };
        assert(ph == spec_program_header(d, o));
        assert(!header_traps(d, ph));

        if p_type == PT_LOAD {
            if p_vaddr < load_addr {
                load_addr = p_vaddr;
            }
            let end = p_vaddr + p_memsz;
            if end > mem_end {
                mem_end = end;
            }
        }
        if p_type == PT_INTERP {
            let start = p_offset as usize;
            let end = (p_offset + p_filesz) as usize;
            if end <= data.len() {
                let path_bytes = slice_subrange(data, start, end - 1);
                let decoded = utf8_to_string(path_bytes);
                match decoded {
                    Some(path) => {
                        interpreter = Some(path);
                    },
                    None => {},
                }
            }
        }
        let ghost prev = program_headers@;
        program_headers.push(ph);
        proof {
            assert(program_headers@.drop_last() == prev);
            assert(program_headers@ =~= spec_headers(d, i as int + 1));
            assert forall|j: int| 0 <= j < i as int + 1 implies #[trigger] ph_offset(d, j) + 56
                <= d.len() by {
                if j < i as int {
                    assert(entries_fit(d, i as int));
                }
            }
        }
        i = i + 1;
    }
    if load_addr == u64::MAX {
        load_addr = 0;
    }
    let mem_size = if mem_end > load_addr {
        mem_end - load_addr
    } else {
        0
    };
    let copy = slice_to_vec(data);
    Ok(
        LoadedElf {
            entry_point: e_entry,
            program_headers,
            interpreter,
            is_pie,
            load_addr,
            mem_size,
            data: copy,
        },
    )
}

/// Auxiliary vector entry types for ELF loading.
#[derive(Debug, Clone, Copy, PartialEq, Eq, Structural)]
pub enum AuxvType {
    /// Entry type 0.
    AtNull,
    /// Entry type 1.
    AtIgnore,
    /// Entry type 2.
    AtExecfd,
    /// Entry type 3.
    AtPhdr,
    /// Entry type 4.
    AtPhent,
    /// Entry type 5.
    AtPhnum,
    /// Entry type 6.
    AtPagesz,
    /// Entry type 7.
    AtBase,
    /// Entry type 8.
    AtFlags,
    /// Entry type 9.
    AtEntry,
    /// Entry type 10.
    AtNotelf,
    /// Entry type 11.
    AtUid,
    /// Entry type 12.
    AtEuid,
    /// Entry type 13.
    AtGid,
    /// Entry type 14.
    AtEgid,
    /// Entry type 15.
    AtPlatform,
    /// Entry type 16.
    AtHwcap,
    /// Entry type 17.
    AtClktck,
    /// Entry type 23.
    AtSecure,
    /// Entry type 24.
    AtBasePlatform,
    /// Entry type 25.
    AtRandom,
    /// Entry type 26.
    AtHwcap2,
    /// Entry type 31.
    AtExecfn,
    /// Entry type 32.
    AtSysinfo,
    /// Entry type 33.
    AtSysinfoEhdr,
}

/// The numeric tag of an auxiliary vector entry type.
pub open spec fn spec_auxv_tag(t: AuxvType) -> u64 {
    match t {
        AuxvType::AtNull => 0,
        AuxvType::AtIgnore => 1,
        AuxvType::AtExecfd => 2,
        AuxvType::AtPhdr => 3,
        AuxvType::AtPhent => 4,
        AuxvType::AtPhnum => 5,
        AuxvType::AtPagesz => 6,
        AuxvType::AtBase => 7,
        AuxvType::AtFlags => 8,
        AuxvType::AtEntry => 9,
        AuxvType::AtNotelf => 10,
        AuxvType::AtUid => 11,
        AuxvType::AtEuid => 12,
        AuxvType::AtGid => 13,
        AuxvType::AtEgid => 14,
        AuxvType::AtPlatform => 15,
        AuxvType::AtHwcap => 16,
        AuxvType::AtClktck => 17,
        AuxvType::AtSecure => 23,
        AuxvType::AtBasePlatform => 24,
        AuxvType::AtRandom => 25,
        AuxvType::AtHwcap2 => 26,
        AuxvType::AtExecfn => 31,
        AuxvType::AtSysinfo => 32,
        AuxvType::AtSysinfoEhdr => 33,
    }
}

impl AuxvType {
    /// The numeric tag of this entry type.
    pub fn value(&self) -> (v: u64)
        ensures
            v == spec_auxv_tag(*self),
    {
        match self {
            AuxvType::AtNull => 0,
            AuxvType::AtIgnore => 1,
            AuxvType::AtExecfd => 2,
            AuxvType::AtPhdr => 3,
            AuxvType::AtPhent => 4,
            AuxvType::AtPhnum => 5,
            AuxvType::AtPagesz => 6,
            AuxvType::AtBase => 7,
            AuxvType::AtFlags => 8,
            AuxvType::AtEntry => 9,
            AuxvType::AtNotelf => 10,
            AuxvType::AtUid => 11,
            AuxvType::AtEuid => 12,
            AuxvType::AtGid => 13,
            AuxvType::AtEgid => 14,
            AuxvType::AtPlatform => 15,
            AuxvType::AtHwcap => 16,
            AuxvType::AtClktck => 17,
            AuxvType::AtSecure => 23,
            AuxvType::AtBasePlatform => 24,
            AuxvType::AtRandom => 25,
            AuxvType::AtHwcap2 => 26,
            AuxvType::AtExecfn => 31,
            AuxvType::AtSysinfo => 32,
            AuxvType::AtSysinfoEhdr => 33,
        }
    }
}

/// The auxiliary vector handed to a new process: program header address and
/// geometry, page size, interpreter base, entry point, credentials (uid and
/// gid 1000), random bytes address and clock tick rate, ended by `AT_NULL`.
pub open spec fn spec_auxv(elf: LoadedElf, base_addr: u64, phdr_addr: u64, random_addr: u64) -> Seq<(u64, u64)> {
    seq![
        (3u64, phdr_addr),
        (4u64, 56u64),
        (5u64, elf.program_headers@.len() as u64),
        (6u64, 4096u64),
        (7u64, base_addr),
        (8u64, 0u64),
        (9u64, elf.entry_point),
        (11u64, 1000u64),
        (12u64, 1000u64),
        (13u64, 1000u64),
        (14u64, 1000u64),
        (23u64, 0u64),
        (25u64, random_addr),
        (17u64, 100u64),
        (0u64, 0u64),
    ]
}

/// Build the auxiliary vector for process startup.
pub fn build_auxv(elf: &LoadedElf, base_addr: u64, phdr_addr: u64, random_addr: u64) -> (auxv: Vec<(u64, u64)>)
    ensures
        auxv@ == spec_auxv(*elf, base_addr, phdr_addr, random_addr),
{
    let mut auxv: Vec<(u64, u64)> = Vec::new();
    auxv.push((AuxvType::AtPhdr.value(), phdr_addr));
    auxv.push((AuxvType::AtPhent.value(), 56));
    auxv.push((AuxvType::AtPhnum.value(), elf.program_headers.len() as u64));
    auxv.push((AuxvType::AtPagesz.value(), 4096));
    auxv.push((AuxvType::AtBase.value(), base_addr));
    auxv.push((AuxvType::AtFlags.value(), 0));
    auxv.push((AuxvType::AtEntry.value(), elf.entry_point));
    auxv.push((AuxvType::AtUid.value(), 1000));
    auxv.push((AuxvType::AtEuid.value(), 1000));
    auxv.push((AuxvType::AtGid.value(), 1000));
    auxv.push((AuxvType::AtEgid.value(), 1000));
    auxv.push((AuxvType::AtSecure.value(), 0));
    auxv.push((AuxvType::AtRandom.value(), random_addr));
    auxv.push((AuxvType::AtClktck.value(), 100));
    auxv.push((AuxvType::AtNull.value(), 0));
    assert(auxv@ =~= spec_auxv(*elf, base_addr, phdr_addr, random_addr));
    auxv
}

/// Every loadable segment starts at or above the lowest load address, and
/// unless it is `u64::MAX` that address is the start of one of them.
proof fn lemma_min_load_vaddr(hs: Seq<ProgramHeader>)
    ensures
        forall|i: int| 0 <= i < hs.len() && #[trigger] hs[i].p_type == PT_LOAD ==> min_load_vaddr(hs) <= hs[i].p_vaddr,
        min_load_vaddr(hs) == u64::MAX || exists|j: int|
            0 <= j < hs.len() && #[trigger] hs[j].p_type == PT_LOAD && hs[j].p_vaddr == min_load_vaddr(hs),
    decreases hs.len(),
{
    if hs.len() > 0 {
        let init = hs.drop_last();
        lemma_min_load_vaddr(init);
        assert forall|i: int| 0 <= i < hs.len() && #[trigger] hs[i].p_type == PT_LOAD implies min_load_vaddr(hs) <= hs[i].p_vaddr by {
            if i < hs.len() - 1 {
                assert(init[i] == hs[i]);
            } else {
                assert(hs[i] == hs.last());
            }
        }
        if min_load_vaddr(hs) != u64::MAX {
            if min_load_vaddr(hs) == min_load_vaddr(init) {
                let j = choose|j: int| 0 <= j < init.len() && #[trigger] init[j].p_type == PT_LOAD && init[j].p_vaddr == min_load_vaddr(init);
                assert(hs[j] == init[j]);
            } else {
                assert(hs[hs.len() - 1] == hs.last());
            }
        }
    }
}

/// Every loadable segment (whose end fits in 64 bits) ends at or below the
/// highest load end, and when there is a loadable segment one of them ends
/// there.
proof fn lemma_max_load_end(hs: Seq<ProgramHeader>)
    requires
        forall|i: int| 0 <= i < hs.len() && #[trigger] hs[i].p_type == PT_LOAD ==> hs[i].p_vaddr + hs[i].p_memsz <= u64::MAX,
    ensures
        forall|i: int| 0 <= i < hs.len() && #[trigger] hs[i].p_type == PT_LOAD ==> hs[i].p_vaddr + hs[i].p_memsz <= max_load_end(hs),
        (exists|i: int| 0 <= i < hs.len() && #[trigger] hs[i].p_type == PT_LOAD) ==> exists|j: int|
            0 <= j < hs.len() && #[trigger] hs[j].p_type == PT_LOAD && hs[j].p_vaddr + hs[j].p_memsz == max_load_end(hs),
        !(exists|i: int| 0 <= i < hs.len() && #[trigger] hs[i].p_type == PT_LOAD) ==> max_load_end(hs) == 0,
    decreases hs.len(),
{
    if hs.len() > 0 {
        let init = hs.drop_last();
        assert forall|i: int| 0 <= i < init.len() && #[trigger] init[i].p_type == PT_LOAD implies init[i].p_vaddr + init[i].p_memsz <= u64::MAX by {
            assert(init[i] == hs[i]);
        }
        lemma_max_load_end(init);
        let last = hs.len() - 1;
        assert(hs[last] == hs.last());
        assert forall|i: int| 0 <= i < hs.len() && #[trigger] hs[i].p_type == PT_LOAD implies hs[i].p_vaddr + hs[i].p_memsz <= max_load_end(hs) by {
            if i < last {
                assert(init[i] == hs[i]);
            }
        }
        if exists|i: int| 0 <= i < hs.len() && #[trigger] hs[i].p_type == PT_LOAD {
            if exists|i: int| 0 <= i < init.len() && #[trigger] init[i].p_type == PT_LOAD {
                let j = choose|j: int| 0 <= j < init.len() && #[trigger] init[j].p_type == PT_LOAD && init[j].p_vaddr + init[j].p_memsz == max_load_end(init);
                assert(hs[j] == init[j]);
            } else {
                let i = choose|i: int| 0 <= i < hs.len() && #[trigger] hs[i].p_type == PT_LOAD;
                if i < last {
                    assert(init[i] == hs[i]);
                }
            }
        } else {
            assert(!(hs.last().p_type == PT_LOAD));
            if exists|i: int| 0 <= i < init.len() && #[trigger] init[i].p_type == PT_LOAD {
                let i = choose|i: int| 0 <= i < init.len() && #[trigger] init[i].p_type == PT_LOAD;
                assert(hs[i] == init[i]);
            }
        }
    }
}

/// The loaded range of an accepted image covers its loadable segments
/// exactly: the load address is at or below the start of every loadable
/// segment and is the start of one of them (unless every one starts at
/// `u64::MAX`), the range ends at or after the end of every loadable
/// segment and at the end of one of them, and with no loadable segment the
/// address and size are 0.
pub proof fn lemma_load_range_covers_segments(d: Seq<u8>, e: LoadedElf)
    requires
        elf_accepts(d),
        !elf_parse_traps(d),
        elf_parsed_as(d, e),
    ensures
        ({
            let hs = e.program_headers@;
            &&& forall|i: int| 0 <= i < hs.len() && #[trigger] hs[i].p_type == PT_LOAD ==> {
                &&& e.load_addr <= hs[i].p_vaddr
                &&& hs[i].p_vaddr + hs[i].p_memsz <= e.load_addr + e.mem_size
            }
            &&& (exists|i: int| 0 <= i < hs.len() && #[trigger] hs[i].p_type == PT_LOAD && hs[i].p_vaddr < u64::MAX)
                ==> exists|j: int| 0 <= j < hs.len() && #[trigger] hs[j].p_type == PT_LOAD && e.load_addr == hs[j].p_vaddr
            &&& (exists|i: int| 0 <= i < hs.len() && #[trigger] hs[i].p_type == PT_LOAD)
                ==> exists|j: int| 0 <= j < hs.len() && #[trigger] hs[j].p_type == PT_LOAD
                    && hs[j].p_vaddr + hs[j].p_memsz == e.load_addr + e.mem_size
            &&& !(exists|i: int| 0 <= i < hs.len() && #[trigger] hs[i].p_type == PT_LOAD) ==> e.load_addr == 0
                && e.mem_size == 0
        }),
{
    let n = ph_count(d);
    let hs = e.program_headers@;
    assert(hs == spec_headers(d, n));
    assert forall|i: int| 0 <= i < hs.len() && #[trigger] hs[i].p_type == PT_LOAD implies hs[i].p_vaddr + hs[i].p_memsz <= u64::MAX by {
        assert(hs[i] == spec_program_header(d, ph_offset(d, i)));
        assert(entries_fit(d, i)) by {
            assert forall|k: int| 0 <= k < i implies #[trigger] ph_offset(d, k) + 56 <= d.len() by {
                assert(ph_offset(d, k) + 56 <= d.len());
            }
        }
        assert(ph_offset(d, i) + 56 <= d.len());
        if hs[i].p_vaddr + hs[i].p_memsz > u64::MAX {
            assert(entry_traps(d, i));
            assert(elf_parse_traps(d));
        }
    }
    lemma_min_load_vaddr(hs);
    lemma_max_load_end(hs);
    let m = min_load_vaddr(hs);
    let end = max_load_end(hs);
    assert(e.load_addr == if m == u64::MAX { 0 } else { m });
    if exists|i: int| 0 <= i < hs.len() && #[trigger] hs[i].p_type == PT_LOAD && hs[i].p_vaddr < u64::MAX {
        let i = choose|i: int| 0 <= i < hs.len() && #[trigger] hs[i].p_type == PT_LOAD && hs[i].p_vaddr < u64::MAX;
        assert(m <= hs[i].p_vaddr);
    }
    if exists|i: int| 0 <= i < hs.len() && #[trigger] hs[i].p_type == PT_LOAD {
        let i = choose|i: int| 0 <= i < hs.len() && #[trigger] hs[i].p_type == PT_LOAD;
        assert(hs[i].p_vaddr + hs[i].p_memsz <= end);
        assert(e.load_addr <= hs[i].p_vaddr);
        assert(e.load_addr + e.mem_size == end);
    }
}

/// Each entry of the auxiliary vector carries what its tag names: the
/// program header address under `AT_PHDR`, the interpreter base under
/// `AT_BASE`, the entry point under `AT_ENTRY`, the random bytes address
/// under `AT_RANDOM` and the header count under `AT_PHNUM`, with 56-byte
/// headers, 4096-byte pages, 100 clock ticks, ids 1000 and no flags or
/// secure mode; each of the first five tags occurs, no tag occurs twice,
/// and the vector ends with `AT_NULL`.
pub proof fn lemma_auxv_entries_carry_their_arguments(
    elf: LoadedElf,
    base_addr: u64,
    phdr_addr: u64,
    random_addr: u64,
)
    ensures
        ({
            let a = spec_auxv(elf, base_addr, phdr_addr, random_addr);
            &&& forall|i: int| 0 <= i < a.len() && #[trigger] a[i].0 == spec_auxv_tag(AuxvType::AtBase) ==> a[i].1 == base_addr
            &&& forall|i: int| 0 <= i < a.len() && #[trigger] a[i].0 == spec_auxv_tag(AuxvType::AtPhdr) ==> a[i].1 == phdr_addr
            &&& forall|i: int| 0 <= i < a.len() && #[trigger] a[i].0 == spec_auxv_tag(AuxvType::AtEntry) ==> a[i].1 == elf.entry_point
            &&& forall|i: int| 0 <= i < a.len() && #[trigger] a[i].0 == spec_auxv_tag(AuxvType::AtRandom) ==> a[i].1 == random_addr
            &&& forall|i: int| 0 <= i < a.len() && #[trigger] a[i].0 == spec_auxv_tag(AuxvType::AtPhnum) ==> a[i].1
                == elf.program_headers@.len() as u64
            &&& forall|i: int| 0 <= i < a.len() && #[trigger] a[i].0 == spec_auxv_tag(AuxvType::AtPhent) ==> a[i].1 == 56
            &&& forall|i: int| 0 <= i < a.len() && #[trigger] a[i].0 == spec_auxv_tag(AuxvType::AtPagesz) ==> a[i].1 == 4096
            &&& forall|i: int| 0 <= i < a.len() && #[trigger] a[i].0 == spec_auxv_tag(AuxvType::AtClktck) ==> a[i].1 == 100
            &&& forall|i: int| 0 <= i < a.len() && (#[trigger] a[i].0 == spec_auxv_tag(AuxvType::AtUid)
                || a[i].0 == spec_auxv_tag(AuxvType::AtEuid) || a[i].0 == spec_auxv_tag(AuxvType::AtGid)
                || a[i].0 == spec_auxv_tag(AuxvType::AtEgid)) ==> a[i].1 == 1000
            &&& forall|i: int| 0 <= i < a.len() && (#[trigger] a[i].0 == spec_auxv_tag(AuxvType::AtFlags)
                || a[i].0 == spec_auxv_tag(AuxvType::AtSecure)) ==> a[i].1 == 0
            &&& forall|t: AuxvType| #![trigger spec_auxv_tag(t)]
                (t == AuxvType::AtBase || t == AuxvType::AtPhdr || t == AuxvType::AtEntry || t == AuxvType::AtRandom
                    || t == AuxvType::AtPhnum) ==> exists|i: int| 0 <= i < a.len() && #[trigger] a[i].0 == spec_auxv_tag(t)
            &&& forall|i: int, j: int| 0 <= i < j < a.len() ==> #[trigger] a[i].0 != #[trigger] a[j].0
            &&& a.len() > 0 && a.last() == (spec_auxv_tag(AuxvType::AtNull), 0u64)
        }),
{
    let a = spec_auxv(elf, base_addr, phdr_addr, random_addr);
    assert(a[0].0 == 3 && a[2].0 == 5 && a[4].0 == 7 && a[6].0 == 9 && a[12].0 == 25);
}

} // verus!
