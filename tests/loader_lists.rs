use pe_resolver::err::ErrState;
use pe_resolver::memory::Memory;
use pe_resolver::peb::{Ldr, LdrModule, Module, Peb};

const BASE: usize = 0x20000;
const LDR: usize = BASE + 0x40;
const PEB: usize = BASE;

fn put_u64(b: &mut [u8], addr: usize, v: u64) {
    let at = addr - BASE;
    b[at..at + 8].copy_from_slice(&v.to_le_bytes());
}

fn record(r: usize) -> usize {
    BASE + 0x100 + 0x100 * r
}

/// Links the records in `order` into the list whose header is at `header`,
/// through the link field at `link` in each record.
fn link(b: &mut [u8], header: usize, link: usize, order: &[usize]) {
    let node = |i: usize| record(order[i]) + link;
    let count = order.len();
    put_u64(b, header, node(0) as u64);
    put_u64(b, header + 8, node(count - 1) as u64);
    for i in 0..count {
        let next = if i + 1 < count { node(i + 1) } else { header };
        let prev = if i > 0 { node(i - 1) } else { header };
        put_u64(b, node(i), next as u64);
        put_u64(b, node(i) + 8, prev as u64);
    }
}

/// A loader with one record per name: load order as given, memory order
/// reversed, initialization order with the first record last.
fn loader(names: &[&str]) -> Memory {
    let mut b = vec![0u8; 0x2000];
    put_u64(&mut b, PEB + 0x18, LDR as u64);
    let mut text = BASE + 0x1000;
    for (r, name) in names.iter().enumerate() {
        let rec = record(r);
        put_u64(&mut b, rec + 0x30, 0x7ff0_0000 + 0x10_0000 * r as u64);
        put_u64(&mut b, rec + 0x38, 0x7ff0_1000 + 0x10_0000 * r as u64);
        put_u64(&mut b, rec + 0x40, 0x2000 + r as u64);
        let full = format!("C:\\Windows\\System32\\{}", name);
        for (field, s) in [(0x50usize, full.as_str()), (0x60, *name)] {
            put_u64(&mut b, rec + field, text as u64);
            for u in s.encode_utf16() {
                let at = text - BASE;
                b[at..at + 2].copy_from_slice(&u.to_le_bytes());
                text += 2;
            }
            text += 2;
        }
    }
    let load: Vec<usize> = (0..names.len()).collect();
    let memory: Vec<usize> = (0..names.len()).rev().collect();
    let mut init: Vec<usize> = (1..names.len()).collect();
    init.push(0);
    link(&mut b, LDR + 0x10, 0x0, &load);
    link(&mut b, LDR + 0x20, 0x10, &memory);
    link(&mut b, LDR + 0x30, 0x20, &init);
    Memory { base: BASE, bytes: b }
}

fn names_of(list: &LdrModule) -> Vec<String> {
    let mut it = list.iter();
    let mut names = Vec::new();
    while let Some(m) = it.next() {
        names.push(m.name);
    }
    names
}

#[test]
fn each_list_yields_every_record_in_order() {
    let mem = loader(&["app.exe", "ntdll.dll", "kernel32.dll"]);
    let ldr = Ldr::new(&mem, LDR);
    assert_eq!(names_of(&ldr.in_load_order_module_list), ["app.exe", "ntdll.dll", "kernel32.dll"]);
    assert_eq!(names_of(&ldr.in_memory_order_module_list), ["kernel32.dll", "ntdll.dll", "app.exe"]);
    assert_eq!(
        names_of(&ldr.in_initialization_order_module_list),
        ["ntdll.dll", "kernel32.dll", "app.exe"]
    );
}

#[test]
fn single_record_list_yields_one_module() {
    let mem = loader(&["only.dll"]);
    let ldr = Ldr::new(&mem, LDR);
    assert_eq!(names_of(&ldr.in_load_order_module_list), ["only.dll"]);
    assert_eq!(names_of(&ldr.in_memory_order_module_list), ["only.dll"]);
}

#[test]
fn advance_past_last_record_ends_the_list() {
    let mem = loader(&["a.dll", "b.dll", "c.dll", "d.dll"]);
    let mut list = LdrModule::new(&mem, LDR + 0x20, 0x10);
    list.reset(&mem);
    assert_eq!(list.get_name(&mem).unwrap(), "d.dll");
    for expected in ["c.dll", "b.dll", "a.dll"] {
        assert!(list.next(&mem).is_ok());
        assert_eq!(list.get_name(&mem).unwrap(), expected);
    }
    let end = list.next(&mem).unwrap_err();
    assert_eq!(end.status, ErrState::Failure);
    assert!(list.next(&mem).is_err());
    assert_eq!(list.get_name(&mem).unwrap(), "a.dll");
}

#[test]
fn find_module_by_name() {
    let mem = loader(&["ntdll.dll", "kernel32.dll"]);
    let ldr = Ldr::new(&mem, LDR);
    let list = &ldr.in_load_order_module_list;
    let ntdll = list.find_module("ntdll.dll").unwrap();
    assert_eq!(ntdll.name, "ntdll.dll");
    assert_eq!(ntdll.dll_base, 0x7ff0_0000);
    let kernel32 = list.find_module("kernel32.dll").unwrap();
    assert_eq!(kernel32.full_name, "C:\\Windows\\System32\\kernel32.dll");
    assert_eq!(kernel32.dll_base, 0x8000_0000);
    let missing = list.find_module("missing.dll").unwrap_err();
    assert_eq!(missing.status, ErrState::Failure);
}

#[test]
fn reset_after_full_walk_gives_first_entry_again() {
    let mem = loader(&["app.exe", "ntdll.dll", "kernel32.dll"]);
    let mut list = LdrModule::new(&mem, LDR + 0x10, 0x0);
    let first: Module = list.module(&mem).unwrap();
    while list.next(&mem).is_ok() {}
    assert_eq!(list.get_name(&mem).unwrap(), "kernel32.dll");
    list.reset(&mem);
    let again = list.module(&mem).unwrap();
    assert_eq!(again.name, first.name);
    assert_eq!(again.dll_base, first.dll_base);
    list.reset(&mem);
    assert_eq!(list.module(&mem).unwrap().name, "app.exe");
}

#[test]
fn module_fields_are_read_through_the_link_offset() {
    let mem = loader(&["app.exe", "ntdll.dll"]);
    let mut list = LdrModule::new(&mem, LDR + 0x30, 0x20);
    assert_eq!(list.get_name(&mem).unwrap(), "ntdll.dll");
    assert_eq!(list.get_full_name(&mem).unwrap(), "C:\\Windows\\System32\\ntdll.dll");
    assert_eq!(list.get_dll_base(&mem), 0x8000_0000);
    assert_eq!(list.get_entry_point(&mem), 0x8000_1000);
    assert_eq!(list.get_size_of_image(&mem), 0x2001);
    assert!(list.next(&mem).is_ok());
    let m = list.module(&mem).unwrap();
    assert_eq!(m.name, "app.exe");
    assert_eq!(m.entry_point, 0x7ff0_1000);
    assert_eq!(m.size_of_image, 0x2000);
}

#[test]
fn peb_leads_to_the_loader_lists() {
    let mem = loader(&["app.exe", "ntdll.dll"]);
    let peb = Peb { base_addr: PEB };
    let ldr = peb.get_ldr(&mem);
    assert_eq!(names_of(&ldr.in_load_order_module_list), ["app.exe", "ntdll.dll"]);
    assert_eq!(names_of(&ldr.in_memory_order_module_list), ["ntdll.dll", "app.exe"]);
}

#[test]
fn iterator_restarts_from_the_snapshot() {
    let mem = loader(&["a.dll", "b.dll"]);
    let list = LdrModule::new(&mem, LDR + 0x10, 0x0);
    assert_eq!(names_of(&list), ["a.dll", "b.dll"]);
    assert_eq!(names_of(&list), ["a.dll", "b.dll"]);
    let mut it = list.iter();
    assert!(it.next().is_some());
    assert!(it.next().is_some());
    assert!(it.next().is_none());
    assert!(it.next().is_none());
}

#[test]
fn empty_list_yields_no_module() {
    let mut b = vec![0u8; 0x200];
    let header = BASE + 0x50;
    put_u64(&mut b, header, header as u64);
    put_u64(&mut b, header + 8, header as u64);
    let mem = Memory { base: BASE, bytes: b };
    let mut list = LdrModule::new(&mem, header, 0x0);
    assert!(list.iter().next().is_none());
    assert!(list.find_module("ntdll.dll").is_err());
    let end = list.next(&mem).unwrap_err();
    assert_eq!(end.message, "Error, cannot reach the next list entry: end of list reached.");
}
