//! A byte buffer mapped at a fixed address, and the reads the parsers make on it.
use vstd::prelude::*;
use vstd::utf8::{decode_utf8, valid_utf8};

verus! {

/// Integer values of the widths the parsers read.
#[derive(Clone, Copy, Debug, PartialEq, Eq, Structural)]
pub enum Integer {
    U8(u8),
    U16(u16),
    U32(u32),
    U64(u64),
    USize(usize),
}

/// UTF-16 decoding of `units`: a high surrogate followed by a low one forms
/// one character; any other surrogate becomes U+FFFD, and decoding goes on
/// with the unit after it.
pub open spec fn utf16_lossy(units: Seq<u16>) -> Seq<char>
    decreases units.len(),
{
    if units.len() == 0 {
        Seq::empty()
    } else {
        let u = units[0] as u32;
        if 0xd800 <= u < 0xdc00 && units.len() >= 2 && 0xdc00 <= units[1] < 0xe000 {
            let c = (0x10000 + (u - 0xd800) * 0x400 + (units[1] as u32 - 0xdc00)) as u32;
            seq![c as char] + utf16_lossy(units.subrange(2, units.len() as int))
        } else if 0xd800 <= u < 0xe000 {
            seq!['\u{fffd}'] + utf16_lossy(units.subrange(1, units.len() as int))
        } else {
            seq![u as char] + utf16_lossy(units.subrange(1, units.len() as int))
        }
    }
}

/// What `String::from_utf8_lossy` makes of a sequence of bytes.
pub uninterp spec fn utf8_lossy(bytes: Seq<u8>) -> Seq<char>;

/// Relies on `String::from_utf16_lossy`: decodes UTF-16, putting U+FFFD
/// in place of each unpaired surrogate; it never fails.
#[verifier::external_body]
fn decode_utf16_lossy(units: &[u16]) -> (r: String)
    ensures
        r@ == utf16_lossy(units@),
{
    String::from_utf16_lossy(units)
}

/// Relies on `String::from_utf8_lossy`: decodes UTF-8, putting U+FFFD in
/// place of each invalid sequence, so valid UTF-8 decodes as such; it never fails.
#[verifier::external_body]
pub(crate) fn decode_utf8_lossy(bytes: &[u8]) -> (r: String)
    ensures
        r@ == utf8_lossy(bytes@),
        valid_utf8(bytes@) ==> r@ == decode_utf8(bytes@),
{
    String::from_utf8_lossy(bytes).into_owned()
}

/// Relies on `String::from_utf8`: it succeeds exactly on valid UTF-8,
/// and then holds the decoded characters.
#[verifier::external_body]
pub(crate) fn decode_utf8_strict(bytes: Vec<u8>) -> (r: Option<String>)
    ensures
        r is Some <==> valid_utf8(bytes@),
        r matches Some(s) ==> s@ == decode_utf8(bytes@),
{
    String::from_utf8(bytes).ok()
}

/// Decodes UTF-16 code units to text; a unit that forms no code point
/// becomes the replacement character.
pub fn utf16_to_str(utf: &[u16]) -> (r: String)
    ensures
        r@ == utf16_lossy(utf@),
{
    decode_utf16_lossy(utf)
}

/// Bytes read out of memory.
pub struct MemSlice<T> {
    pub stub: Vec<T>,
}

impl PartialEq for MemSlice<u8> {
    fn eq(&self, other: &Self) -> (r: bool) {
        if self.stub.len() != other.stub.len() {
            return false;
        }
        let mut i: usize = 0;
        while i < self.stub.len()
            invariant
                self.stub@.len() == other.stub@.len(),
                i <= self.stub@.len(),
                forall|j: int| 0 <= j < i ==> self.stub@[j] == other.stub@[j],
            decreases self.stub@.len() - i,
        {
            if self.stub[i] != other.stub[i] {
                return false;
            }
            i = i + 1;
        }
        assert(self.stub@ =~= other.stub@);
        true
    }
}

impl vstd::std_specs::cmp::PartialEqSpecImpl for MemSlice<u8> {
    open spec fn obeys_eq_spec() -> bool {
        true
    }

    open spec fn eq_spec(&self, other: &Self) -> bool {
        self.stub@ == other.stub@
    }
}

impl Eq for MemSlice<u8> {
}

/// Reads `size` bytes from `addr` on.
pub fn read_mem(mem: &Memory, addr: usize, size: usize) -> (r: MemSlice<u8>)
    requires
        mem.wf(),
        mem.readable(addr as int, size as int),
    ensures
        r.stub@ == mem.range(addr as int, size as nat),
{
    let mut stub: Vec<u8> = Vec::new();
    let mut idx: usize = 0;
    while idx < size
        invariant
            mem.wf(),
            mem.readable(addr as int, size as int),
            idx <= size,
            stub@ =~= mem.range(addr as int, idx as nat),
        decreases size - idx,
    {
        stub.push(mem.read_u8(addr + idx));
        idx = idx + 1;
    }
    MemSlice { stub }
}

/// The bytes of an address range: `bytes[i]` is the byte at address `base + i`.
pub struct Memory {
    pub base: usize,
    pub bytes: Vec<u8>,
}

impl Memory {
    /// The mapped range ends inside the address space.
    pub open spec fn wf(&self) -> bool {
        self.base + self.bytes@.len() <= usize::MAX
    }

    /// `n` bytes from `addr` on are mapped.
    pub open spec fn readable(&self, addr: int, n: int) -> bool {
        &&& self.base <= addr
        &&& 0 <= n
        &&& addr + n <= self.base + self.bytes@.len()
    }

    /// The byte at `addr`.
    pub open spec fn byte(&self, addr: int) -> u8 {
        self.bytes@[addr - self.base]
    }

    /// Little-endian 16-bit value at `addr`.
    pub open spec fn le16(&self, addr: int) -> int {
        self.byte(addr) + 256 * self.byte(addr + 1)
    }

    /// Little-endian 32-bit value at `addr`.
    pub open spec fn le32(&self, addr: int) -> int {
        self.le16(addr) + 65536 * self.le16(addr + 2)
    }

    /// Little-endian 64-bit value at `addr`.
    pub open spec fn le64(&self, addr: int) -> int {
        self.le32(addr) + 4294967296 * self.le32(addr + 4)
    }

    /// The `n` bytes from `addr` on.
    pub open spec fn range(&self, addr: int, n: nat) -> Seq<u8> {
        Seq::new(n, |j: int| self.byte(addr + j))
    }

    /// Exactly `n` non-zero bytes from `addr` on, then a zero byte.
    pub open spec fn cstr8_len_is(&self, addr: int, n: nat) -> bool {
        &&& self.readable(addr, n + 1 as int)
        &&& self.byte(addr + n) == 0
        &&& forall|j: int| 0 <= j < n ==> #[trigger] self.byte(addr + j) != 0
    }

    /// A zero byte ends the bytes from `addr` on inside the mapped range.
    pub open spec fn cstr8_terminated(&self, addr: int) -> bool {
        exists|n: nat| self.cstr8_len_is(addr, n)
    }

    /// The number of bytes before the first zero byte from `addr` on.
    pub open spec fn cstr8_len(&self, addr: int) -> nat {
        choose|n: nat| self.cstr8_len_is(addr, n)
    }

    /// The bytes before the first zero byte from `addr` on.
    pub open spec fn cstr8(&self, addr: int) -> Seq<u8> {
        self.range(addr, self.cstr8_len(addr))
    }

    /// The `n` 16-bit units from `addr` on.
    pub open spec fn units(&self, addr: int, n: nat) -> Seq<u16> {
        Seq::new(n, |j: int| self.le16(addr + 2 * j) as u16)
    }

    /// Exactly `n` non-zero 16-bit units from `addr` on, then a zero unit.
    pub open spec fn cstr16_len_is(&self, addr: int, n: nat) -> bool {
        &&& self.readable(addr, 2 * n + 2 as int)
        &&& self.le16(addr + 2 * n) == 0
        &&& forall|j: int| 0 <= j < n ==> #[trigger] self.le16(addr + 2 * j) != 0
    }

    /// A zero unit ends the 16-bit units from `addr` on inside the mapped range.
    pub open spec fn cstr16_terminated(&self, addr: int) -> bool {
        exists|n: nat| self.cstr16_len_is(addr, n)
    }

    /// The number of units before the first zero unit from `addr` on.
    pub open spec fn cstr16_len(&self, addr: int) -> nat {
        choose|n: nat| self.cstr16_len_is(addr, n)
    }

    /// The units before the first zero unit from `addr` on.
    pub open spec fn cstr16(&self, addr: int) -> Seq<u16> {
        self.units(addr, self.cstr16_len(addr))
    }

    /// Reads bytes from `addr` on up to the first zero byte; returns them and their count.
    pub fn read_null_u8(&self, addr: usize) -> (r: (Vec<u8>, usize))
        requires
            self.wf(),
            self.cstr8_terminated(addr as int),
        ensures
            r.0@ == self.cstr8(addr as int),
            r.1 == self.cstr8_len(addr as int),
    {
        let ghost n = self.cstr8_len(addr as int);
        let mut chunks: Vec<u8> = Vec::new();
        let mut idx: usize = 0;
        loop
            invariant
                self.wf(),
                self.cstr8_len_is(addr as int, n),
                idx <= n,
                chunks@ =~= self.range(addr as int, idx as nat),
            ensures
                idx == n,
                chunks@ =~= self.range(addr as int, n),
            decreases n - idx,
        {
            let chunk = self.read_u8(addr + idx);
            if chunk == 0 {
                break;
            }
            chunks.push(chunk);
            idx = idx + 1;
        }
        (chunks, idx)
    }

    /// Reads 16-bit units from `addr` on up to the first zero unit; returns them and their count.
    pub fn read_null_u16(&self, addr: usize) -> (r: (Vec<u16>, usize))
        requires
            self.wf(),
            self.cstr16_terminated(addr as int),
        ensures
            r.0@ == self.cstr16(addr as int),
            r.1 == self.cstr16_len(addr as int),
    {
        let ghost n = self.cstr16_len(addr as int);
        let mut chunks: Vec<u16> = Vec::new();
        let mut idx: usize = 0;
        loop
            invariant
                self.wf(),
                self.cstr16_len_is(addr as int, n),
                idx <= n,
                chunks@ =~= self.units(addr as int, idx as nat),
            ensures
                idx == n,
                chunks@ =~= self.units(addr as int, n),
            decreases n - idx,
        {
            let chunk = self.read_u16(addr + 2 * idx);
            if chunk == 0 {
                break;
            }
            chunks.push(chunk);
            idx = idx + 1;
        }
        (chunks, idx)
    }

    /// Reads the byte at `addr`.
    pub fn read_u8(&self, addr: usize) -> (r: u8)
        requires
            self.readable(addr as int, 1),
        ensures
            r == self.byte(addr as int),
    {
        self.bytes[addr - self.base]
    }

    /// Reads a little-endian `u16` at `addr`.
    pub fn read_u16(&self, addr: usize) -> (r: u16)
        requires
            self.wf(),
            self.readable(addr as int, 2),
        ensures
            r == self.le16(addr as int),
    {
        let lo = self.read_u8(addr) as u16;
        let hi = self.read_u8(addr + 1) as u16;
        lo + hi * 256
    }

    /// Reads a little-endian `u32` at `addr`.
    pub fn read_u32(&self, addr: usize) -> (r: u32)
        requires
            self.wf(),
            self.readable(addr as int, 4),
        ensures
            r == self.le32(addr as int),
    {
        let lo = self.read_u16(addr) as u32;
        let hi = self.read_u16(addr + 2) as u32;
        lo + hi * 65536
    }

    /// A 64-bit word at `addr` is mapped and its value fits in `usize`.
    pub open spec fn word_at(&self, addr: int) -> bool {
        self.readable(addr, 8) && self.le64(addr) <= usize::MAX
    }

    /// Reads a little-endian 64-bit address at `addr`.
    pub fn read_usize(&self, addr: usize) -> (r: usize)
        requires
            self.wf(),
            self.word_at(addr as int),
        ensures
            r == self.le64(addr as int),
    {
        let lo = self.read_u32(addr) as u64;
        let hi = self.read_u32(addr + 4) as u64;
        let v: u64 = lo + hi * 4294967296;
        v as usize
    }
}

} // verus!
