//! Export-table resolution over an image mapped in memory.
use vstd::prelude::*;
use vstd::utf8::{decode_utf8, valid_utf8};
use crate::err::{ErrState, PEErr};
use crate::memory::{Memory, utf8_lossy, decode_utf8_lossy, decode_utf8_strict};

verus! {

/// Offset of the identifying byte in a generated system-call stub.
pub const SYSCALL_TAG_OFFSET: usize = 4;

/// Name of an image whose name is unknown.
pub open spec fn unnamed() -> Seq<char> {
    "Unnamed PE"@
}

/// The name of an image: none yet, or a text.
#[derive(Debug, PartialEq)]
pub enum PEName {
    Empty,
    Is(String),
}

impl View for PEName {
    type V = Option<Seq<char>>;

    open spec fn view(&self) -> Option<Seq<char>> {
        match self {
            PEName::Empty => None,
            PEName::Is(s) => Some(s@),
        }
    }
}

/// Offset of the optional header from the image base `base`.
pub open spec fn optional_header_offset(mem: &Memory, base: int) -> int {
    mem.le32(base + 0x3c) + 0x4 + 0x14
}

/// RVA of the export directory; zero when the image exports nothing.
pub open spec fn export_rva(mem: &Memory, base: int) -> int {
    mem.le32(base + optional_header_offset(mem, base) + 0x70)
}

/// A 32-bit field of the export directory at `dir`.
pub open spec fn dir_field(mem: &Memory, dir: int, field: int) -> int {
    mem.le32(dir + field)
}

/// Address of entry `i` of the name table.
pub open spec fn name_entry_addr(mem: &Memory, base: int, dir: int, i: int) -> int {
    base + dir_field(mem, dir, 0x20) + 4 * i
}

/// Address of the name of export `i`.
pub open spec fn name_addr(mem: &Memory, base: int, dir: int, i: int) -> int {
    base + mem.le32(name_entry_addr(mem, base, dir, i))
}

/// Address of entry `i` of the name ordinal table.
pub open spec fn ordinal_entry_addr(mem: &Memory, base: int, dir: int, i: int) -> int {
    base + dir_field(mem, dir, 0x24) + 2 * i
}

/// Address of the entry for `ordinal` in the function table.
pub open spec fn function_entry_addr(mem: &Memory, base: int, dir: int, ordinal_base: int, ordinal: int) -> int {
    base + dir_field(mem, dir, 0x1c) + 4 * (ordinal - ordinal_base)
}

/// Address of the image's declared name.
pub open spec fn declared_name_addr(mem: &Memory, base: int, dir: int) -> int {
    base + dir_field(mem, dir, 0xc)
}

/// Everything the constructor reads for export `i` is mapped.
pub open spec fn export_entry_ok(mem: &Memory, base: int, dir: int, i: int) -> bool {
    &&& mem.readable(name_entry_addr(mem, base, dir, i), 4)
    &&& mem.cstr8_terminated(name_addr(mem, base, dir, i))
    &&& mem.readable(ordinal_entry_addr(mem, base, dir, i), 2)
}

/// Everything the constructor reads from the image at `base` is mapped;
/// `named` tells whether the caller supplies the image's name.
pub open spec fn image_ok(mem: &Memory, base: int, named: bool) -> bool {
    let dir = base + export_rva(mem, base);
    &&& mem.wf()
    &&& mem.readable(base, 0x40)
    &&& mem.readable(base + optional_header_offset(mem, base) + 0x70, 4)
    &&& export_rva(mem, base) != 0 ==> {
        &&& mem.readable(dir, 0x28)
        &&& forall|i: int| 0 <= i < dir_field(mem, dir, 0x18) ==> #[trigger] export_entry_ok(mem, base, dir, i)
        &&& !named ==> mem.cstr8_terminated(declared_name_addr(mem, base, dir))
    }
}

/// What the resolver holds, as mathematical values.
pub ghost struct PEImageView {
    pub base_addr: int,
    pub optional_header_offset: int,
    pub export_directory_offset: int,
    pub export_directory_addr: int,
    pub ordinal_base: int,
    pub name: Option<Seq<char>>,
    pub names: Seq<Seq<char>>,
    pub ordinals: Seq<int>,
}

/// The name found in the export directory, if it is valid UTF-8.
pub open spec fn declared_name(mem: &Memory, base: int, dir: int) -> Option<Seq<char>> {
    let bytes = mem.cstr8(declared_name_addr(mem, base, dir));
    if valid_utf8(bytes) {
        Some(decode_utf8(bytes))
    } else {
        None
    }
}

/// The resolver built from the image at `base`, given the caller's name for it.
pub open spec fn parsed(mem: &Memory, base: int, name: Option<Seq<char>>) -> PEImageView {
    let rva = export_rva(mem, base);
    let dir = base + rva;
    let ordinal_base = mem.byte(dir + 0x10) as int;
    let count: nat = if rva == 0 { 0 } else { dir_field(mem, dir, 0x18) as nat };
    PEImageView {
        base_addr: base,
        optional_header_offset: optional_header_offset(mem, base),
        export_directory_offset: rva,
        export_directory_addr: dir,
        ordinal_base,
        name: if rva != 0 && name is None { declared_name(mem, base, dir) } else { name },
        names: Seq::new(count, |i: int| utf8_lossy(mem.cstr8(name_addr(mem, base, dir, i)))),
        ordinals: Seq::new(count, |i: int| mem.le16(ordinal_entry_addr(mem, base, dir, i)) + ordinal_base),
    }
}

/// The name reported for the resolver `v`.
pub open spec fn reported_name(v: PEImageView) -> Seq<char> {
    if v.name is Some {
        v.name.unwrap()
    } else {
        unnamed()
    }
}

/// When no name is supplied and the name declared in the export directory
/// is not valid UTF-8, the image is reported under the default name.
pub proof fn lemma_invalid_name_is_unnamed(mem: &Memory, base: int)
    requires
        !valid_utf8(mem.cstr8(declared_name_addr(mem, base, base + export_rva(mem, base)))),
    ensures
        parsed(mem, base, None).name is None,
        reported_name(parsed(mem, base, None)) == unnamed(),
{
}

/// Index of the first entry of `names` equal to `name`, or -1.
pub open spec fn first_index(names: Seq<Seq<char>>, name: Seq<char>) -> int {
    if exists|i: int| is_first(names, name, i) {
        choose|i: int| is_first(names, name, i)
    } else {
        -1
    }
}

/// `i` is the first position of `name` in `names`.
pub open spec fn is_first(names: Seq<Seq<char>>, name: Seq<char>, i: int) -> bool {
    &&& 0 <= i < names.len()
    &&& names[i] == name
    &&& forall|j: int| 0 <= j < i ==> names[j] != name
}

/// No two entries of `names` are equal.
pub open spec fn unique(names: Seq<Seq<char>>) -> bool {
    forall|i: int, j: int| 0 <= i < names.len() && 0 <= j < names.len() && i != j ==> names[i] != names[j]
}

/// A name occurs at one first position at most.
pub proof fn lemma_is_first_unique(names: Seq<Seq<char>>, name: Seq<char>, i: int, j: int)
    requires
        is_first(names, name, i),
        is_first(names, name, j),
    ensures
        i == j,
{
}

/// Looking up a name of an export table without duplicates gives its own
/// position, and looking up a name that is not in it gives -1.
pub proof fn lemma_find_index_by_name(names: Seq<Seq<char>>, i: int, missing: Seq<char>)
    requires
        unique(names),
        0 <= i < names.len(),
        forall|j: int| 0 <= j < names.len() ==> names[j] != missing,
    ensures
        first_index(names, names[i]) == i,
        first_index(names, missing) == -1,
{
    assert(is_first(names, names[i], i));
    let k = first_index(names, names[i]);
    lemma_is_first_unique(names, names[i], i, k);
}

/// The resolver for an image mapped in memory: its base address, where its
/// export directory is, and the names and ordinals of its exports.
#[derive(Debug)]
pub struct PEImage {
    pub base_addr: usize,
    name: PEName,
    optional_header_offset: usize,
    export_directory_offset: u32,
    export_directory_addr: usize,
    exp_dir_base: usize,
    fnames: Vec<String>,
    fnames_ordinals: Vec<usize>,
}

impl View for PEImage {
    type V = PEImageView;

    closed spec fn view(&self) -> PEImageView {
        PEImageView {
            base_addr: self.base_addr as int,
            optional_header_offset: self.optional_header_offset as int,
            export_directory_offset: self.export_directory_offset as int,
            export_directory_addr: self.export_directory_addr as int,
            ordinal_base: self.exp_dir_base as int,
            name: self.name@,
            names: self.fnames@.map_values(|s: String| s@),
            ordinals: self.fnames_ordinals@.map_values(|o: usize| o as int),
        }
    }
}

impl PEImage {
    /// Names and ordinals run in parallel, and the export directory lies at
    /// its offset from the base.
    pub open spec fn wf(&self) -> bool {
        &&& self@.names.len() == self@.ordinals.len()
        &&& self@.names.len() <= isize::MAX
        &&& self@.export_directory_addr == self@.base_addr + self@.export_directory_offset
        &&& self@.export_directory_offset == 0 ==> self@.names.len() == 0
    }

    /// A 32-bit field of the export directory; zero when there is no directory.
    pub open spec fn dir_value(&self, mem: &Memory, field: int) -> int {
        if self@.export_directory_offset == 0 {
            0
        } else {
            dir_field(mem, self@.export_directory_addr, field)
        }
    }

    /// The export directory fields are mapped in `mem`.
    pub open spec fn dir_readable(&self, mem: &Memory) -> bool {
        mem.wf() && mem.readable(self@.export_directory_addr, 0x28)
    }

    /// Address of the entry for `ordinal` in the function table.
    pub open spec fn function_entry(&self, mem: &Memory, ordinal: int) -> int {
        function_entry_addr(mem, self@.base_addr, self@.export_directory_addr, self@.ordinal_base, ordinal)
    }

    /// Absolute address of the function with `ordinal`.
    pub open spec fn function_address(&self, mem: &Memory, ordinal: int) -> int {
        self@.base_addr + mem.le32(self.function_entry(mem, ordinal))
    }

    /// `ordinal` is at least the ordinal base, its function table entry is
    /// mapped, and the function's address fits in `usize`.
    pub open spec fn ordinal_ok(&self, mem: &Memory, ordinal: int) -> bool {
        &&& ordinal >= self@.ordinal_base
        &&& mem.readable(self.function_entry(mem, ordinal), 4)
        &&& self.function_address(mem, ordinal) <= usize::MAX
    }

    /// The resolver for the image at `addr`, named after its export directory.
    pub fn new(mem: &Memory, addr: usize) -> (r: PEImage)
        requires
            image_ok(mem, addr as int, false),
        ensures
            r.wf(),
            r@ == parsed(mem, addr as int, None),
    {
        PEImage::from(mem, addr, PEName::Empty)
    }

    /// The resolver for the image at `base_addr`; `name` is its name if known.
    pub fn from(mem: &Memory, base_addr: usize, name: PEName) -> (r: PEImage)
        requires
            image_ok(mem, base_addr as int, name is Is),
        ensures
            r.wf(),
            r@ == parsed(mem, base_addr as int, name@),
    {
        let mut pe = PEImage {
            base_addr,
            name,
            optional_header_offset: 0,
            export_directory_offset: 0,
            export_directory_addr: 0,
            exp_dir_base: 0,
            fnames: Vec::new(),
            fnames_ordinals: Vec::new(),
        };
        pe.init(mem);
        pe
    }

    /// Reads the headers and captures the names and ordinals of all exports.
    fn init(&mut self, mem: &Memory)
        requires
            image_ok(mem, old(self).base_addr as int, old(self).name is Is),
            old(self).fnames@.len() == 0,
            old(self).fnames_ordinals@.len() == 0,
        ensures
            final(self).wf(),
            final(self)@ == parsed(mem, old(self).base_addr as int, old(self).name@),
    {
        let ghost base = self.base_addr as int;
        let ghost want = parsed(mem, base, self.name@);
        // the file header follows the signature at the offset stored at 0x3c
        let file_header: usize = mem.read_u32(self.base_addr + 0x3c) as usize + 0x4;
        self.optional_header_offset = file_header + 0x14;
        self.export_directory_offset = mem.read_u32(self.base_addr + self.optional_header_offset + 0x70);
        self.export_directory_addr = self.base_addr + self.export_directory_offset as usize;
        self.exp_dir_base = mem.read_u8(self.export_directory_addr + 0x10) as usize;
        let ghost dir = self.export_directory_addr as int;
        let count = self.number_of_names(mem);
        assert(forall|i: int| 0 <= i < count ==> #[trigger] export_entry_ok(mem, base, dir, i));
        proof {
            if count > 0 {
                assert(export_entry_ok(mem, base, dir, count - 1));
                assert(usize::MAX == 2 * isize::MAX + 1);
            }
        }
        let mut idx: u32 = 0;
        while idx < count
            invariant
                image_ok(mem, base, self.name is Is),
                self.base_addr == base,
                self.export_directory_addr == dir,
                dir == base + export_rva(mem, base),
                self.export_directory_offset == export_rva(mem, base),
                self.exp_dir_base == want.ordinal_base,
                self.exp_dir_base < 256,
                self.optional_header_offset == want.optional_header_offset,
                self.name@ == old(self).name@,
                want == parsed(mem, base, old(self).name@),
                self.dir_readable(mem),
                count == want.names.len(),
                count == want.ordinals.len(),
                count > 0 ==> self.export_directory_offset != 0,
                forall|i: int| 0 <= i < count ==> #[trigger] export_entry_ok(mem, base, dir, i),
                idx <= count,
                self.fnames@.len() == idx,
                self.fnames_ordinals@.len() == idx,
                forall|j: int| 0 <= j < idx ==> #[trigger] self.fnames@[j]@ == want.names[j],
                forall|j: int| 0 <= j < idx ==> #[trigger] self.fnames_ordinals@[j] as int == want.ordinals[j],
            decreases count - idx,
        {
            assert(export_entry_ok(mem, base, dir, idx as int));
            let name = self.fname_from_index(mem, idx as usize);
            let ordinal = self.ford_from_index(mem, idx as usize) + self.exp_dir_base;
            assert(name@ == want.names[idx as int]);
            assert(ordinal as int == want.ordinals[idx as int]);
            self.fnames.push(name);
            self.fnames_ordinals.push(ordinal);
            idx = idx + 1;
        }
        assert(self@.names =~= want.names);
        assert(self@.ordinals =~= want.ordinals);
        if self.export_directory_offset != 0 && matches!(self.name, PEName::Empty) {
            self.name = match self.set_export_name(mem) {
                Ok(name) => name,
                Err(_) => PEName::Empty,
            };
        }
    }

    /// Address of the export directory.
    pub fn get_export_directory_ptr(&self) -> (r: usize)
        requires
            self.wf(),
        ensures
            r == self@.export_directory_addr,
    {
        self.export_directory_addr
    }

    /// The image's name as its export directory declares it.
    fn set_export_name(&self, mem: &Memory) -> (r: Result<PEName, PEErr>)
        requires
            self.wf(),
            self.dir_readable(mem),
            mem.cstr8_terminated(declared_name_addr(mem, self@.base_addr, self@.export_directory_addr)),
        ensures
            r is Ok <==> declared_name(mem, self@.base_addr, self@.export_directory_addr) is Some,
            r matches Ok(n) ==> n@ == declared_name(mem, self@.base_addr, self@.export_directory_addr),
            r matches Err(e) ==> e.status == ErrState::Failure
                && e.message@ == "Failed to decode the name from export directory (UTF8 fail)"@,
    {
        let name_offset = mem.read_u32(self.export_directory_addr + 0xc);
        let name_addr = self.base_addr + name_offset as usize;
        let (name, _) = mem.read_null_u8(name_addr);
        match decode_utf8_strict(name) {
            Some(name) => Ok(PEName::Is(name)),
            None => Err(PEErr::failure("Failed to decode the name from export directory (UTF8 fail)")),
        }
    }

    /// The image's name, or "Unnamed PE" when it has none.
    pub fn get_name(&self) -> (r: Result<String, PEErr>)
        ensures
            r matches Ok(s) && s@ == reported_name(self@),
    {
        let ret = match &self.name {
            PEName::Empty => "Unnamed PE".to_owned(),
            PEName::Is(n) => n.clone(),
        };
        Ok(ret)
    }

    /// Names the image `new_name`.
    pub fn set_name(&mut self, new_name: &str)
        ensures
            final(self)@ == (PEImageView { name: Some(new_name@), ..old(self)@ }),
    {
        self.name = PEName::Is(new_name.to_owned());
    }

    /// Number of exported functions; zero when the image exports nothing.
    pub fn number_of_func(&self, mem: &Memory) -> (r: u32)
        requires
            self.dir_readable(mem),
        ensures
            r == (if self@.export_directory_offset == 0 { 0 } else { dir_field(mem, self@.export_directory_addr, 0x14) }),
    {
        if self.export_directory_offset == 0 {
            return 0;
        }
        mem.read_u32(self.export_directory_addr + 0x14)
    }

    /// Number of exported names; zero when the image exports nothing.
    pub fn number_of_names(&self, mem: &Memory) -> (r: u32)
        requires
            self.dir_readable(mem),
        ensures
            r == (if self@.export_directory_offset == 0 { 0 } else { dir_field(mem, self@.export_directory_addr, 0x18) }),
    {
        if self.export_directory_offset == 0 {
            return 0;
        }
        mem.read_u32(self.export_directory_addr + 0x18)
    }

    /// RVA of the function address table; zero when the image exports nothing.
    pub fn funcs_offset(&self, mem: &Memory) -> (r: usize)
        requires
            self.dir_readable(mem),
        ensures
            r == self.dir_value(mem, 0x1c),
    {
        if self.export_directory_offset == 0 {
            return 0;
        }
        mem.read_u32(self.export_directory_addr + 0x1c) as usize
    }

    /// RVA of the name table; zero when the image exports nothing.
    pub fn names_offset(&self, mem: &Memory) -> (r: usize)
        requires
            self.dir_readable(mem),
        ensures
            r == self.dir_value(mem, 0x20),
    {
        if self.export_directory_offset == 0 {
            return 0;
        }
        mem.read_u32(self.export_directory_addr + 0x20) as usize
    }

    /// RVA of the name ordinal table; zero when the image exports nothing.
    pub fn ordinals_offset(&self, mem: &Memory) -> (r: usize)
        requires
            self.dir_readable(mem),
        ensures
            r == self.dir_value(mem, 0x24),
    {
        if self.export_directory_offset == 0 {
            return 0;
        }
        mem.read_u32(self.export_directory_addr + 0x24) as usize
    }

    /// Absolute address of the function address table; zero when the image
    /// exports nothing.
    pub fn funcs_addr(&self, mem: &Memory) -> (r: usize)
        requires
            self.dir_readable(mem),
            self@.base_addr + self.dir_value(mem, 0x1c) <= usize::MAX,
        ensures
            r == (if self@.export_directory_offset == 0 { 0 } else { self@.base_addr + self.dir_value(mem, 0x1c) }),
    {
        if self.export_directory_offset == 0 {
            return 0;
        }
        self.base_addr + self.funcs_offset(mem)
    }

    /// Name of export `index`, read from the name table; bytes that are not
    /// UTF-8 become replacement characters.
    pub fn fname_from_index(&self, mem: &Memory, index: usize) -> (r: String)
        requires
            self.dir_readable(mem),
            self@.export_directory_offset != 0,
            export_entry_ok(mem, self@.base_addr, self@.export_directory_addr, index as int),
        ensures
            r@ == utf8_lossy(mem.cstr8(name_addr(mem, self@.base_addr, self@.export_directory_addr, index as int))),
    {
        let entry = self.base_addr + self.names_offset(mem) + index * 4;
        let name_addr = self.base_addr + mem.read_u32(entry) as usize;
        let (name, _) = mem.read_null_u8(name_addr);
        decode_utf8_lossy(name.as_slice())
    }

    /// Entry `index` of the name ordinal table, before the ordinal base is added.
    pub fn ford_from_index(&self, mem: &Memory, index: usize) -> (r: usize)
        requires
            self.dir_readable(mem),
            self@.export_directory_offset != 0,
            mem.readable(ordinal_entry_addr(mem, self@.base_addr, self@.export_directory_addr, index as int), 2),
        ensures
            r == mem.le16(ordinal_entry_addr(mem, self@.base_addr, self@.export_directory_addr, index as int)),
    {
        let ord_addr = self.base_addr + self.ordinals_offset(mem);
        mem.read_u16(ord_addr + 2 * index) as usize
    }

    /// Absolute address of the function with ordinal `ord`.
    pub fn faddr_from_ord(&self, mem: &Memory, ord: usize) -> (r: usize)
        requires
            self.dir_readable(mem),
            self@.export_directory_offset != 0,
            self.ordinal_ok(mem, ord as int),
        ensures
            r == self.function_address(mem, ord as int),
    {
        let rva = self.rva_from_ord(mem, ord);
        self.base_addr + rva
    }

    /// RVA of the function with ordinal `ord`: its entry in the function
    /// table, counted from the ordinal base.
    pub fn rva_from_ord(&self, mem: &Memory, ord: usize) -> (r: usize)
        requires
            self.dir_readable(mem),
            self@.export_directory_offset != 0,
            ord >= self@.ordinal_base,
            mem.readable(self.function_entry(mem, ord as int), 4),
        ensures
            r == mem.le32(self.function_entry(mem, ord as int)),
    {
        let table = self.base_addr + self.funcs_offset(mem);
        mem.read_u32(table + (ord - self.exp_dir_base) * 4) as usize
    }

    /// Position of the first export named `fname`, or -1.
    pub fn idx_from_name(&self, fname: &str) -> (r: isize)
        requires
            self.wf(),
        ensures
            r == first_index(self@.names, fname@),
    {
        let target = fname.to_owned();
        let mut idx: isize = 0;
        while (idx as usize) < self.fnames.len()
            invariant
                self.wf(),
                target@ == fname@,
                0 <= idx <= self@.names.len(),
                forall|j: int| 0 <= j < idx ==> self@.names[j] != fname@,
            decreases self@.names.len() - idx,
        {
            if self.fnames[idx as usize] == target {
                proof {
                    assert(is_first(self@.names, fname@, idx as int));
                    lemma_is_first_unique(self@.names, fname@, idx as int, first_index(self@.names, fname@));
                }
                return idx;
            }
            idx = idx + 1;
        }
        -1
    }

    /// The byte at `offset` past the start of the function named `fname`;
    /// fails when no export has that name.
    pub fn tag_byte_from_name(&self, mem: &Memory, fname: &str, offset: usize) -> (r: Result<usize, PEErr>)
        requires
            self.wf(),
            self.dir_readable(mem),
            first_index(self@.names, fname@) >= 0 ==> {
                let o = self@.ordinals[first_index(self@.names, fname@)];
                &&& self.ordinal_ok(mem, o)
                &&& mem.readable(self.function_address(mem, o) + offset, 1)
            },
        ensures
            r is Err <==> first_index(self@.names, fname@) == -1,
            r matches Ok(v) ==> v == mem.byte(
                self.function_address(mem, self@.ordinals[first_index(self@.names, fname@)]) + offset,
            ),
            r matches Err(e) ==> e.status == ErrState::Failure
                && e.message@ == "Can't find index for the requested name"@,
    {
        let idx = self.idx_from_name(fname);
        if idx < 0 {
            return Err(PEErr::failure("Can't find index for the requested name"));
        }
        let ord = self.fnames_ordinals[idx as usize];
        let faddr = self.faddr_from_ord(mem, ord);
        Ok(mem.read_u8(faddr + offset) as usize)
    }

    /// The system-call number in the stub of the function named `fname`:
    /// the byte four bytes past its start. Fails when no export has that name.
    pub fn syscall_from_name(&self, mem: &Memory, fname: &str) -> (r: Result<usize, PEErr>)
        requires
            self.wf(),
            self.dir_readable(mem),
            first_index(self@.names, fname@) >= 0 ==> {
                let o = self@.ordinals[first_index(self@.names, fname@)];
                &&& self.ordinal_ok(mem, o)
                &&& mem.readable(self.function_address(mem, o) + SYSCALL_TAG_OFFSET, 1)
            },
        ensures
            r is Err <==> first_index(self@.names, fname@) == -1,
            r matches Ok(v) ==> v == mem.byte(
                self.function_address(mem, self@.ordinals[first_index(self@.names, fname@)]) + SYSCALL_TAG_OFFSET,
            ),
            r matches Err(e) ==> e.status == ErrState::Failure
                && e.message@ == "Can't find index for the requested name"@,
    {
        self.tag_byte_from_name(mem, fname, SYSCALL_TAG_OFFSET)
    }
}

/// Each ordinal captured for an export, less the ordinal base, is the raw
/// entry of the name ordinal table, so the function it resolves to is the
/// one that entry selects in the function table.
pub proof fn lemma_ordinal_resolves(mem: &Memory, base: int, name: Option<Seq<char>>, i: int)
    requires
        0 <= i < parsed(mem, base, name).ordinals.len(),
    ensures
        ({
            let v = parsed(mem, base, name);
            let dir = v.export_directory_addr;
            let raw = mem.le16(ordinal_entry_addr(mem, base, dir, i));
            &&& v.ordinals[i] - v.ordinal_base == raw
            &&& v.ordinals[i] >= v.ordinal_base
            &&& function_entry_addr(mem, base, dir, v.ordinal_base, v.ordinals[i])
                == base + dir_field(mem, dir, 0x1c) + 4 * raw
        }),
{
    let v = parsed(mem, base, name);
    let dir = v.export_directory_addr;
    assert(mem.le16(ordinal_entry_addr(mem, base, dir, i)) >= 0);
}

/// Walks the captured ordinals of an image in order, with their positions.
pub struct PEImageIntoIterator<'a> {
    pe: &'a PEImage,
    ord_idx: usize,
}

impl<'a> PEImageIntoIterator<'a> {
    /// The resolver walked.
    pub closed spec fn image(&self) -> PEImageView {
        self.pe@
    }

    /// Number of pairs already produced.
    pub closed spec fn position(&self) -> int {
        self.ord_idx as int
    }

    /// The position lies within the ordinals.
    pub open spec fn wf(&self) -> bool {
        0 <= self.position() <= self.image().ordinals.len()
    }

    /// The next ordinal and its position, or `None` once all were produced.
    pub fn next(&mut self) -> (r: Option<(usize, usize)>)
        requires
            old(self).wf(),
        ensures
            final(self).wf(),
            final(self).image() == old(self).image(),
            old(self).position() == old(self).image().ordinals.len() ==> r is None
                && final(self).position() == old(self).position(),
            old(self).position() < old(self).image().ordinals.len() ==> r == Some(
                (old(self).image().ordinals[old(self).position()] as usize, old(self).position() as usize),
            ) && final(self).position() == old(self).position() + 1,
    {
        if self.ord_idx == self.pe.fnames_ordinals.len() {
            return None;
        }
        let ord = self.ord_idx;
        self.ord_idx = self.ord_idx + 1;
        Some((self.pe.fnames_ordinals[ord], ord))
    }
}

impl PEImage {
    /// An iterator over the captured ordinals, from the first.
    pub fn iter(&self) -> (r: PEImageIntoIterator<'_>)
        ensures
            r.wf(),
            r.image() == self@,
            r.position() == 0,
    {
        PEImageIntoIterator { pe: self, ord_idx: 0 }
    }
}

} // verus!
