//! The loader's module lists: circular doubly linked lists of module
//! records, walked from their header.
use vstd::prelude::*;
use crate::err::{ErrState, PEErr};
use crate::memory::{Memory, utf16_lossy, utf16_to_str};
use crate::pe::first_index;

verus! {

/// A loaded module, as captured from its loader record.
#[derive(Clone, Debug)]
pub struct Module {
    pub name: String,
    pub full_name: String,
    pub dll_base: usize,
    pub entry_point: usize,
    pub size_of_image: usize,
}

/// A module as mathematical values.
pub ghost struct ModuleView {
    pub name: Seq<char>,
    pub full_name: Seq<char>,
    pub dll_base: int,
    pub entry_point: int,
    pub size_of_image: int,
}

impl View for Module {
    type V = ModuleView;

    open spec fn view(&self) -> ModuleView {
        ModuleView {
            name: self.name@,
            full_name: self.full_name@,
            dll_base: self.dll_base as int,
            entry_point: self.entry_point as int,
            size_of_image: self.size_of_image as int,
        }
    }
}

/// Address of the record field at `field` for the link at `node`, whose
/// link field lies `offset` bytes into the record.
pub open spec fn field_addr(node: int, offset: int, field: int) -> int {
    node + field - offset
}

/// The value of the record field at `field`.
pub open spec fn field(mem: &Memory, node: int, offset: int, field: int) -> int {
    mem.le64(field_addr(node, offset, field))
}

/// The fields of the record and the two names they point to are mapped.
pub open spec fn record_ok(mem: &Memory, node: int, offset: int) -> bool {
    &&& mem.word_at(field_addr(node, offset, 0x30))
    &&& mem.word_at(field_addr(node, offset, 0x38))
    &&& mem.word_at(field_addr(node, offset, 0x40))
    &&& mem.word_at(field_addr(node, offset, 0x50))
    &&& mem.word_at(field_addr(node, offset, 0x60))
    &&& mem.cstr16_terminated(field(mem, node, offset, 0x50))
    &&& mem.cstr16_terminated(field(mem, node, offset, 0x60))
}

/// The module recorded for the link at `node`.
pub open spec fn module_at(mem: &Memory, node: int, offset: int) -> ModuleView {
    ModuleView {
        name: utf16_lossy(mem.cstr16(field(mem, node, offset, 0x60))),
        full_name: utf16_lossy(mem.cstr16(field(mem, node, offset, 0x50))),
        dll_base: field(mem, node, offset, 0x30),
        entry_point: field(mem, node, offset, 0x38),
        size_of_image: field(mem, node, offset, 0x40),
    }
}

/// The forward and backward links at `node` are mapped.
pub open spec fn link_ok(mem: &Memory, node: int) -> bool {
    mem.word_at(node) && mem.word_at(node + 8)
}

/// The `i`-th link reached from the header: the header's forward link, then
/// forward link after forward link.
pub open spec fn node(mem: &Memory, header: int, i: nat) -> int
    decreases i,
{
    if i == 0 {
        mem.le64(header)
    } else {
        mem.le64(node(mem, header, (i - 1) as nat))
    }
}

/// From the header, `k` entries are visited before the forward links lead
/// back to the header, and the header and all of them are mapped; with
/// `k == 0` the header links to itself.
pub open spec fn list_of_len(mem: &Memory, header: int, offset: int, k: nat) -> bool {
    &&& link_ok(mem, header)
    &&& node(mem, header, k) == header
    &&& forall|i: nat| i < k ==> #[trigger] node(mem, header, i) != header
    &&& forall|i: nat| i < k ==> link_ok(mem, #[trigger] node(mem, header, i))
    &&& forall|i: nat| i < k ==> record_ok(mem, #[trigger] node(mem, header, i), offset)
}

/// The list at `header` closes back on its header.
pub open spec fn list_ok(mem: &Memory, header: int, offset: int) -> bool {
    exists|k: nat| list_of_len(mem, header, offset, k)
}

/// The number of entries of the list at `header`.
pub open spec fn list_len(mem: &Memory, header: int, offset: int) -> nat {
    choose|k: nat| list_of_len(mem, header, offset, k)
}

/// The modules of the list at `header`, in traversal order.
pub open spec fn walk(mem: &Memory, header: int, offset: int) -> Seq<ModuleView> {
    Seq::new(list_len(mem, header, offset), |i: int| module_at(mem, node(mem, header, i as nat), offset))
}

/// The short names of `modules`, in order.
pub open spec fn module_names(modules: Seq<ModuleView>) -> Seq<Seq<char>> {
    modules.map_values(|m: ModuleView| m.name)
}

/// A list closes after one number of entries only.
pub proof fn lemma_list_len_unique(mem: &Memory, header: int, offset: int, k: nat, m: nat)
    requires
        list_of_len(mem, header, offset, k),
        list_of_len(mem, header, offset, m),
    ensures
        k == m,
{
    if k < m {
        assert(node(mem, header, k) != header);
    } else if m < k {
        assert(node(mem, header, m) != header);
    }
}

/// A list of `k` records closing back on its header yields exactly `k`
/// modules, in traversal order, and the forward link of the last one (of the
/// header, for an empty list) is the header, where advancing ends.
pub proof fn lemma_walk_yields_each_record(mem: &Memory, header: int, offset: int, k: nat)
    requires
        list_of_len(mem, header, offset, k),
    ensures
        walk(mem, header, offset).len() == k,
        forall|i: int| 0 <= i < k ==> #[trigger] walk(mem, header, offset)[i]
            == module_at(mem, node(mem, header, i as nat), offset),
        k >= 1 ==> mem.le64(node(mem, header, (k - 1) as nat)) == header,
        k == 0 ==> mem.le64(header) == header,
{
    lemma_list_len_unique(mem, header, offset, k, list_len(mem, header, offset));
}

/// The state of a walker, as mathematical values.
pub ghost struct LdrModuleView {
    pub list_header: int,
    pub modules: Seq<ModuleView>,
    pub base_addr: int,
    pub flink: int,
    pub blink: int,
    pub offset: int,
}

/// The walker `v` put back on the first entry of its list.
pub open spec fn after_reset(mem: &Memory, v: LdrModuleView) -> LdrModuleView {
    let first = mem.le64(v.list_header);
    LdrModuleView { base_addr: first, flink: mem.le64(first), blink: mem.le64(first + 8), ..v }
}

/// The walker built over the list at `header`: all its modules captured,
/// and positioned on the first entry.
pub open spec fn built(mem: &Memory, header: int, offset: int) -> LdrModuleView {
    let first = mem.le64(header);
    LdrModuleView {
        list_header: header,
        modules: walk(mem, header, offset),
        base_addr: first,
        flink: mem.le64(first),
        blink: mem.le64(first + 8),
        offset,
    }
}

/// Resetting twice is resetting once, and a reset after any walk puts the
/// walker back on the entry captured first.
pub proof fn lemma_reset_restarts(mem: &Memory, v: LdrModuleView)
    requires
        list_ok(mem, v.list_header, v.offset),
    ensures
        after_reset(mem, after_reset(mem, v)) == after_reset(mem, v),
        walk(mem, v.list_header, v.offset).len() > 0 ==> module_at(mem, after_reset(mem, v).base_addr, v.offset)
            == walk(mem, v.list_header, v.offset)[0],
{
    let k = list_len(mem, v.list_header, v.offset);
    assert(list_of_len(mem, v.list_header, v.offset, k));
    assert(node(mem, v.list_header, 0) == mem.le64(v.list_header));
}

/// Walks one of the loader's module lists. The modules are captured once,
/// when the walker is built; the walker can also step through the live list.
pub struct LdrModule {
    list_header: usize,
    modules: Vec<Module>,
    base_addr: usize,
    flink: usize,
    blink: usize,
    offset: usize,
}

impl View for LdrModule {
    type V = LdrModuleView;

    closed spec fn view(&self) -> LdrModuleView {
        LdrModuleView {
            list_header: self.list_header as int,
            modules: self.modules@.map_values(|m: Module| m@),
            base_addr: self.base_addr as int,
            flink: self.flink as int,
            blink: self.blink as int,
            offset: self.offset as int,
        }
    }
}

/// A copy of `m`.
fn copy_module(m: &Module) -> (r: Module)
    ensures
        r@ == m@,
{
    Module {
        name: m.name.clone(),
        full_name: m.full_name.clone(),
        dll_base: m.dll_base,
        entry_point: m.entry_point,
        size_of_image: m.size_of_image,
    }
}

impl LdrModule {
    /// The walker over the list whose header is at `header_addr`, where the
    /// link field lies `offset` bytes into each record.
    pub fn new(mem: &Memory, header_addr: usize, offset: usize) -> (r: LdrModule)
        requires
            mem.wf(),
            list_ok(mem, header_addr as int, offset as int),
        ensures
            r@ == built(mem, header_addr as int, offset as int),
            link_ok(mem, r@.base_addr),
            r@.modules.len() > 0 ==> record_ok(mem, r@.base_addr, r@.offset),
    {
        proof {
            let k = list_len(mem, header_addr as int, offset as int);
            assert(list_of_len(mem, header_addr as int, offset as int, k));
            assert(node(mem, header_addr as int, 0) == mem.le64(header_addr as int));
        }
        let mut le = LdrModule {
            list_header: header_addr,
            modules: Vec::new(),
            base_addr: 0,
            flink: 0,
            blink: 0,
            offset,
        };
        le.init(mem);
        le
    }

    /// Captures every module of the list, then goes back to the first entry.
    fn init(&mut self, mem: &Memory)
        requires
            mem.wf(),
            list_ok(mem, old(self)@.list_header, old(self)@.offset),
            old(self)@.modules.len() == 0,
        ensures
            final(self)@ == built(mem, old(self)@.list_header, old(self)@.offset),
    {
        let ghost header = self.list_header as int;
        let ghost offset = self.offset as int;
        let ghost k = list_len(mem, header, offset);
        assert(list_of_len(mem, header, offset, k));
        proof {
            if k > 0 {
                assert(link_ok(mem, node(mem, header, 0)));
            }
        }
        self.reset(mem);
        let mut modules: Vec<Module> = Vec::new();
        if self.base_addr == self.list_header {
            // the header links to itself: the list is empty
            proof {
                if k > 0 {
                    assert(node(mem, header, 0) != header);
                }
            }
        } else {
            assert(record_ok(mem, node(mem, header, 0), offset));
            let first = self.module(mem).unwrap();
            modules.push(first);
            let ghost mut i: nat = 0;
            loop
                invariant
                    mem.wf(),
                    list_of_len(mem, header, offset, k),
                    self@.list_header == header,
                    self@.offset == offset,
                    i < k,
                    self@.base_addr == node(mem, header, i),
                    self@.flink == node(mem, header, (i + 1) as nat),
                    modules@.len() == i + 1,
                    forall|j: int| 0 <= j <= i ==> #[trigger] modules@[j]@
                        == module_at(mem, node(mem, header, j as nat), offset),
                ensures
                    self@.list_header == header,
                    self@.offset == offset,
                    modules@.len() == k,
                    forall|j: int| 0 <= j < k ==> #[trigger] modules@[j]@
                        == module_at(mem, node(mem, header, j as nat), offset),
                decreases k - i,
            {
                proof {
                    if i + 1 < k {
                        assert(link_ok(mem, node(mem, header, (i + 1) as nat)));
                        assert(node(mem, header, (i + 1) as nat) != header);
                    }
                }
                match self.next(mem) {
                    Ok(_) => {},
                    Err(_) => {
                        break;
                    },
                }
                proof {
                    i = i + 1;
                    assert(record_ok(mem, node(mem, header, i), offset));
                }
                let m = self.module(mem).unwrap();
                modules.push(m);
            }
        }
        self.modules = modules;
        self.reset(mem);
        assert(self@.modules =~= walk(mem, header, offset));
    }

    /// Goes back to the first entry of the list.
    pub fn reset(&mut self, mem: &Memory)
        requires
            mem.wf(),
            mem.word_at(old(self)@.list_header),
            link_ok(mem, mem.le64(old(self)@.list_header)),
        ensures
            final(self)@ == after_reset(mem, old(self)@),
    {
        self.base_addr = mem.read_usize(self.list_header);
        self.flink = mem.read_usize(self.base_addr);
        self.blink = mem.read_usize(self.base_addr + 8);
    }

    /// Moves to the next entry; fails when the forward link leads back to
    /// the header, that is after the last entry.
    pub fn next(&mut self, mem: &Memory) -> (r: Result<(), PEErr>)
        requires
            mem.wf(),
            old(self)@.flink != old(self)@.list_header ==> link_ok(mem, old(self)@.flink),
        ensures
            r is Err <==> old(self)@.flink == old(self)@.list_header,
            r matches Err(e) ==> e.status == ErrState::Failure
                && e.message@ == "Error, cannot reach the next list entry: end of list reached."@
                && final(self)@ == old(self)@,
            r is Ok ==> final(self)@ == (LdrModuleView {
                base_addr: old(self)@.flink,
                flink: mem.le64(old(self)@.flink),
                blink: mem.le64(old(self)@.flink + 8),
                ..old(self)@
            }),
    {
        if self.flink == self.list_header {
            return Err(PEErr::failure("Error, cannot reach the next list entry: end of list reached."));
        }
        self.base_addr = self.flink;
        self.flink = mem.read_usize(self.base_addr);
        self.blink = mem.read_usize(self.base_addr + 8);
        Ok(())
    }

    /// The module of the current entry.
    pub fn module(&self, mem: &Memory) -> (r: Result<Module, PEErr>)
        requires
            mem.wf(),
            record_ok(mem, self@.base_addr, self@.offset),
        ensures
            r matches Ok(m) && m@ == module_at(mem, self@.base_addr, self@.offset),
    {
        LdrModule::get_module(mem, self.base_addr, self.offset)
    }

    /// The first captured module whose short name is `mod_name`; fails when
    /// there is none.
    pub fn find_module(&self, mod_name: &str) -> (r: Result<Module, PEErr>)
        ensures
            r is Err <==> first_index(module_names(self@.modules), mod_name@) == -1,
            r matches Ok(m) ==> m@ == self@.modules[first_index(module_names(self@.modules), mod_name@)],
            r matches Err(e) ==> e.status == ErrState::Failure && e.message@ == "nope"@,
    {
        let ghost names = module_names(self@.modules);
        let target = mod_name.to_owned();
        let mut i: usize = 0;
        while i < self.modules.len()
            invariant
                names == module_names(self@.modules),
                target@ == mod_name@,
                names.len() == self.modules@.len(),
                0 <= i <= self.modules@.len(),
                forall|j: int| 0 <= j < i ==> names[j] != mod_name@,
            decreases self.modules@.len() - i,
        {
            let m = &self.modules[i];
            assert(names[i as int] == m.name@);
            if m.name == target {
                proof {
                    assert(crate::pe::is_first(names, mod_name@, i as int));
                    crate::pe::lemma_is_first_unique(names, mod_name@, i as int, first_index(names, mod_name@));
                }
                return Ok(copy_module(m));
            }
            i = i + 1;
        }
        Err(PEErr::failure("nope"))
    }

    fn get_module(mem: &Memory, addr: usize, offset: usize) -> (r: Result<Module, PEErr>)
        requires
            mem.wf(),
            record_ok(mem, addr as int, offset as int),
        ensures
            r matches Ok(m) && m@ == module_at(mem, addr as int, offset as int),
    {
        Ok(Module {
            name: LdrModule::get_module_name(mem, addr, offset).unwrap(),
            full_name: LdrModule::get_module_full_name(mem, addr, offset).unwrap(),
            dll_base: LdrModule::get_module_dll_base(mem, addr, offset),
            entry_point: LdrModule::get_module_entry_point(mem, addr, offset),
            size_of_image: LdrModule::get_module_size_of_image(mem, addr, offset),
        })
    }

    /// Short name of the current entry's module.
    pub fn get_name(&self, mem: &Memory) -> (r: Result<String, PEErr>)
        requires
            mem.wf(),
            record_ok(mem, self@.base_addr, self@.offset),
        ensures
            r matches Ok(s) && s@ == module_at(mem, self@.base_addr, self@.offset).name,
    {
        LdrModule::get_module_name(mem, self.base_addr, self.offset)
    }

    /// Full path of the current entry's module.
    pub fn get_full_name(&self, mem: &Memory) -> (r: Result<String, PEErr>)
        requires
            mem.wf(),
            record_ok(mem, self@.base_addr, self@.offset),
        ensures
            r matches Ok(s) && s@ == module_at(mem, self@.base_addr, self@.offset).full_name,
    {
        LdrModule::get_module_full_name(mem, self.base_addr, self.offset)
    }

    /// Load address of the current entry's module.
    pub fn get_dll_base(&self, mem: &Memory) -> (r: usize)
        requires
            mem.wf(),
            record_ok(mem, self@.base_addr, self@.offset),
        ensures
            r == module_at(mem, self@.base_addr, self@.offset).dll_base,
    {
        LdrModule::get_module_dll_base(mem, self.base_addr, self.offset)
    }

    /// Entry point of the current entry's module.
    pub fn get_entry_point(&self, mem: &Memory) -> (r: usize)
        requires
            mem.wf(),
            record_ok(mem, self@.base_addr, self@.offset),
        ensures
            r == module_at(mem, self@.base_addr, self@.offset).entry_point,
    {
        LdrModule::get_module_entry_point(mem, self.base_addr, self.offset)
    }

    /// Image size of the current entry's module.
    pub fn get_size_of_image(&self, mem: &Memory) -> (r: usize)
        requires
            mem.wf(),
            record_ok(mem, self@.base_addr, self@.offset),
        ensures
            r == module_at(mem, self@.base_addr, self@.offset).size_of_image,
    {
        LdrModule::get_module_size_of_image(mem, self.base_addr, self.offset)
    }

    fn get_module_name(mem: &Memory, addr: usize, offset: usize) -> (r: Result<String, PEErr>)
        requires
            mem.wf(),
            record_ok(mem, addr as int, offset as int),
        ensures
            r matches Ok(s) && s@ == module_at(mem, addr as int, offset as int).name,
    {
        let name_addr = LdrModule::compute_addr(mem, addr, offset, 0x60);
        LdrModule::get_u16_string_at(mem, name_addr)
    }

    fn get_module_full_name(mem: &Memory, addr: usize, offset: usize) -> (r: Result<String, PEErr>)
        requires
            mem.wf(),
            record_ok(mem, addr as int, offset as int),
        ensures
            r matches Ok(s) && s@ == module_at(mem, addr as int, offset as int).full_name,
    {
        let name_addr = LdrModule::compute_addr(mem, addr, offset, 0x50);
        LdrModule::get_u16_string_at(mem, name_addr)
    }

    fn get_u16_string_at(mem: &Memory, addr: usize) -> (r: Result<String, PEErr>)
        requires
            mem.wf(),
            mem.cstr16_terminated(addr as int),
        ensures
            r matches Ok(s) && s@ == utf16_lossy(mem.cstr16(addr as int)),
    {
        let units = mem.read_null_u16(addr);
        Ok(utf16_to_str(units.0.as_slice()))
    }

    fn get_module_dll_base(mem: &Memory, addr: usize, offset: usize) -> (r: usize)
        requires
            mem.wf(),
            record_ok(mem, addr as int, offset as int),
        ensures
            r == field(mem, addr as int, offset as int, 0x30),
    {
        LdrModule::compute_addr(mem, addr, offset, 0x30)
    }

    fn get_module_entry_point(mem: &Memory, addr: usize, offset: usize) -> (r: usize)
        requires
            mem.wf(),
            record_ok(mem, addr as int, offset as int),
        ensures
            r == field(mem, addr as int, offset as int, 0x38),
    {
        LdrModule::compute_addr(mem, addr, offset, 0x38)
    }

    fn get_module_size_of_image(mem: &Memory, addr: usize, offset: usize) -> (r: usize)
        requires
            mem.wf(),
            record_ok(mem, addr as int, offset as int),
        ensures
            r == field(mem, addr as int, offset as int, 0x40),
    {
        LdrModule::compute_addr(mem, addr, offset, 0x40)
    }

    /// Reads the record field at `data_offset` for the link at `addr`, whose
    /// link field lies `ldr_offset` bytes into the record.
    fn compute_addr(mem: &Memory, addr: usize, ldr_offset: usize, data_offset: usize) -> (r: usize)
        requires
            mem.wf(),
            mem.word_at(field_addr(addr as int, ldr_offset as int, data_offset as int)),
        ensures
            r == field(mem, addr as int, ldr_offset as int, data_offset as int),
    {
        let field_addr = if ldr_offset <= data_offset {
            addr + (data_offset - ldr_offset)
        } else {
            addr - (ldr_offset - data_offset)
        };
        mem.read_usize(field_addr)
    }
}

/// Walks the captured modules of a walker in order.
pub struct LdrModuleIterator<'a> {
    ldr_module: &'a LdrModule,
    index: usize,
}

impl<'a> LdrModuleIterator<'a> {
    /// The modules walked.
    pub closed spec fn modules(&self) -> Seq<ModuleView> {
        self.ldr_module@.modules
    }

    /// Number of modules already produced.
    pub closed spec fn position(&self) -> int {
        self.index as int
    }

    /// The next module, or `None` once all were produced.
    pub fn next(&mut self) -> (r: Option<Module>)
        ensures
            final(self).modules() == old(self).modules(),
            old(self).position() < old(self).modules().len() ==> (r matches Some(m)
                && m@ == old(self).modules()[old(self).position()]
                && final(self).position() == old(self).position() + 1),
            old(self).position() >= old(self).modules().len() ==> (r is None
                && final(self).position() == old(self).position()),
    {
        if self.index < self.ldr_module.modules.len() {
            let ret = Some(copy_module(&self.ldr_module.modules[self.index]));
            self.index = self.index + 1;
            return ret;
        }
        None
    }
}

impl LdrModule {
    /// An iterator over the captured modules, from the first.
    pub fn iter(&self) -> (r: LdrModuleIterator<'_>)
        ensures
            r.modules() == self@.modules,
            r.position() == 0,
    {
        LdrModuleIterator { ldr_module: self, index: 0 }
    }
}

/// Offset of the load-order list header in the loader data.
pub const LOAD_ORDER_HEADER: usize = 0x10;
/// Offset of the memory-order list header in the loader data.
pub const MEMORY_ORDER_HEADER: usize = 0x20;
/// Offset of the initialization-order list header in the loader data.
pub const INITIALIZATION_ORDER_HEADER: usize = 0x30;
/// Offset of the load-order link field in a module record.
pub const LOAD_ORDER_LINK: usize = 0x0;
/// Offset of the memory-order link field in a module record.
pub const MEMORY_ORDER_LINK: usize = 0x10;
/// Offset of the initialization-order link field in a module record.
pub const INITIALIZATION_ORDER_LINK: usize = 0x20;

/// Offset of the loader data's address in the process environment block.
pub const LDR_IN_PEB: usize = 0x18;

/// The three lists of the loader data at `base` close back on their headers.
pub open spec fn ldr_ok(mem: &Memory, base: int) -> bool {
    &&& mem.wf()
    &&& list_ok(mem, base + 0x10, 0x0)
    &&& list_ok(mem, base + 0x20, 0x10)
    &&& list_ok(mem, base + 0x30, 0x20)
}

/// The loader's three module lists: in load order, in memory order and in
/// initialization order.
pub struct Ldr {
    pub in_load_order_module_list: LdrModule,
    pub in_memory_order_module_list: LdrModule,
    pub in_initialization_order_module_list: LdrModule,
}

impl Ldr {
    /// The three lists of the loader data at `base_addr`, walked.
    pub fn new(mem: &Memory, base_addr: usize) -> (r: Ldr)
        requires
            ldr_ok(mem, base_addr as int),
        ensures
            r.in_load_order_module_list@ == built(mem, base_addr + 0x10, 0x0),
            r.in_memory_order_module_list@ == built(mem, base_addr + 0x20, 0x10),
            r.in_initialization_order_module_list@ == built(mem, base_addr + 0x30, 0x20),
    {
        proof {
            let k = list_len(mem, base_addr + 0x30, 0x20);
            assert(list_of_len(mem, base_addr + 0x30, 0x20, k));
        }
        Ldr {
            in_load_order_module_list: LdrModule::new(mem, base_addr + LOAD_ORDER_HEADER, LOAD_ORDER_LINK),
            in_memory_order_module_list: LdrModule::new(mem, base_addr + MEMORY_ORDER_HEADER, MEMORY_ORDER_LINK),
            in_initialization_order_module_list: LdrModule::new(
                mem,
                base_addr + INITIALIZATION_ORDER_HEADER,
                INITIALIZATION_ORDER_LINK,
            ),
        }
    }
}

/// The process environment block at `base_addr`.
pub struct Peb {
    pub base_addr: usize,
}

impl Peb {
    /// Address of the loader data.
    pub open spec fn ldr_addr(&self, mem: &Memory) -> int {
        mem.le64(self.base_addr + 0x18)
    }

    /// The loader's lists, read from the loader data that the block points to.
    pub fn get_ldr(&self, mem: &Memory) -> (r: Ldr)
        requires
            mem.wf(),
            mem.word_at(self.base_addr + 0x18),
            ldr_ok(mem, self.ldr_addr(mem)),
        ensures
            r.in_load_order_module_list@ == built(mem, self.ldr_addr(mem) + 0x10, 0x0),
            r.in_memory_order_module_list@ == built(mem, self.ldr_addr(mem) + 0x20, 0x10),
            r.in_initialization_order_module_list@ == built(mem, self.ldr_addr(mem) + 0x30, 0x20),
    {
        let base_addr = mem.read_usize(self.base_addr + LDR_IN_PEB);
        Ldr::new(mem, base_addr)
    }
}

} // verus!
