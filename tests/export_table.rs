use pe_resolver::err::ErrState;
use pe_resolver::memory::Memory;
use pe_resolver::pe::{PEImage, PEName};

const BASE: usize = 0x10000;
const DIR: usize = 0x200;
const FUNCS: usize = 0x400;
const NAMES: usize = 0x500;
const ORDINALS: usize = 0x600;

fn put_u16(b: &mut [u8], at: usize, v: u16) {
    b[at..at + 2].copy_from_slice(&v.to_le_bytes());
}

fn put_u32(b: &mut [u8], at: usize, v: u32) {
    b[at..at + 4].copy_from_slice(&v.to_le_bytes());
}

fn put_bytes(b: &mut [u8], at: usize, s: &[u8]) {
    b[at..at + s.len()].copy_from_slice(s);
    b[at + s.len()] = 0;
}

/// Function `j` starts at RVA 0x800 + 0x20 * j; its stub holds 0x40 + j at offset 4.
fn function_rva(j: usize) -> u32 {
    (0x800 + 0x20 * j) as u32
}

/// An image exporting `names[i]` through raw ordinal `raw[i]`, with `ordinal_base`
/// and the declared name `declared`.
fn image(names: &[&[u8]], raw: &[u16], ordinal_base: u8, declared: &[u8]) -> Memory {
    let mut b = vec![0u8; 0x1000];
    put_u32(&mut b, 0x3c, 0x80);
    put_u32(&mut b, 0x80 + 0x4 + 0x14 + 0x70, DIR as u32);
    put_u32(&mut b, DIR + 0xc, 0x300);
    put_bytes(&mut b, 0x300, declared);
    b[DIR + 0x10] = ordinal_base;
    put_u32(&mut b, DIR + 0x14, 4);
    put_u32(&mut b, DIR + 0x18, names.len() as u32);
    put_u32(&mut b, DIR + 0x1c, FUNCS as u32);
    put_u32(&mut b, DIR + 0x20, NAMES as u32);
    put_u32(&mut b, DIR + 0x24, ORDINALS as u32);
    for j in 0..4 {
        put_u32(&mut b, FUNCS + 4 * j, function_rva(j));
        b[function_rva(j) as usize + 4] = 0x40 + j as u8;
    }
    let mut at = 0x700;
    for (i, name) in names.iter().enumerate() {
        put_u32(&mut b, NAMES + 4 * i, at as u32);
        put_bytes(&mut b, at, name);
        at += name.len() + 1;
        put_u16(&mut b, ORDINALS + 2 * i, raw[i]);
    }
    Memory { base: BASE, bytes: b }
}

fn sample() -> Memory {
    image(
        &[b"NtClose", b"NtOpenProcess", b"NtWriteVirtualMemory"],
        &[2, 0, 1],
        1,
        b"ntdll.dll",
    )
}

#[test]
fn find_index_by_name_finds_every_name() {
    let mem = sample();
    let pe = PEImage::new(&mem, BASE);
    assert_eq!(pe.idx_from_name("NtClose"), 0);
    assert_eq!(pe.idx_from_name("NtOpenProcess"), 1);
    assert_eq!(pe.idx_from_name("NtWriteVirtualMemory"), 2);
}

#[test]
fn find_index_by_name_reports_missing_name() {
    let mem = sample();
    let pe = PEImage::new(&mem, BASE);
    assert_eq!(pe.idx_from_name("NtMissing"), -1);
    assert_eq!(pe.idx_from_name(""), -1);
}

#[test]
fn find_index_by_name_takes_first_duplicate() {
    let mem = image(&[b"A", b"B", b"A"], &[0, 1, 2], 1, b"dup.dll");
    let pe = PEImage::new(&mem, BASE);
    assert_eq!(pe.idx_from_name("A"), 0);
    assert_eq!(pe.idx_from_name("B"), 1);
}

#[test]
fn captured_ordinals_resolve_to_their_functions() {
    let mem = sample();
    let pe = PEImage::new(&mem, BASE);
    let raw = [2usize, 0, 1];
    let mut it = pe.iter();
    let mut seen = 0;
    while let Some((ord, idx)) = it.next() {
        assert_eq!(idx, seen);
        assert_eq!(ord, raw[idx] + 1);
        assert_eq!(pe.rva_from_ord(&mem, ord), function_rva(raw[idx]) as usize);
        assert_eq!(pe.faddr_from_ord(&mem, ord), BASE + function_rva(raw[idx]) as usize);
        seen += 1;
    }
    assert_eq!(seen, 3);
    assert!(it.next().is_none());
}

#[test]
fn ordinal_base_five_is_subtracted() {
    let mem = image(&[b"First", b"Second"], &[0, 1], 5, b"five.dll");
    let pe = PEImage::new(&mem, BASE);
    let mut it = pe.iter();
    assert_eq!(it.next(), Some((5, 0)));
    assert_eq!(it.next(), Some((6, 1)));
    assert_eq!(it.next(), None);
    assert_eq!(pe.faddr_from_ord(&mem, 5), BASE + function_rva(0) as usize);
    assert_eq!(pe.faddr_from_ord(&mem, 6), BASE + function_rva(1) as usize);
    assert_eq!(pe.syscall_from_name(&mem, "First").unwrap(), 0x40);
}

#[test]
fn syscall_byte_is_read_past_the_stub_start() {
    let mem = sample();
    let pe = PEImage::new(&mem, BASE);
    assert_eq!(pe.syscall_from_name(&mem, "NtClose").unwrap(), 0x42);
    assert_eq!(pe.syscall_from_name(&mem, "NtOpenProcess").unwrap(), 0x40);
    assert_eq!(pe.syscall_from_name(&mem, "NtWriteVirtualMemory").unwrap(), 0x41);
}

#[test]
fn syscall_of_missing_name_fails() {
    let mem = sample();
    let pe = PEImage::new(&mem, BASE);
    let err = pe.syscall_from_name(&mem, "NtMissing").unwrap_err();
    assert_eq!(err.status, ErrState::Failure);
    assert_eq!(err.message, "Can't find index for the requested name");
}

#[test]
fn tag_byte_offset_is_configurable() {
    let mem = sample();
    let pe = PEImage::new(&mem, BASE);
    assert_eq!(pe.tag_byte_from_name(&mem, "NtClose", 4).unwrap(), 0x42);
    assert_eq!(pe.tag_byte_from_name(&mem, "NtClose", 0).unwrap(), 0);
    assert!(pe.tag_byte_from_name(&mem, "Nope", 4).is_err());
}

#[test]
fn declared_name_is_used() {
    let mem = sample();
    let pe = PEImage::new(&mem, BASE);
    assert_eq!(pe.get_name().unwrap(), "ntdll.dll");
}

#[test]
fn invalid_utf8_name_falls_back_to_default() {
    let mem = image(&[b"NtClose"], &[0], 1, &[0x6e, 0xff, 0xfe, 0x41]);
    let pe = PEImage::new(&mem, BASE);
    assert_eq!(pe.get_name().unwrap(), "Unnamed PE");
    assert_eq!(pe.idx_from_name("NtClose"), 0);
}

#[test]
fn invalid_utf8_export_name_is_decoded_lossily() {
    let mem = image(&[b"Nt\xffClose"], &[0], 1, b"x.dll");
    let pe = PEImage::new(&mem, BASE);
    assert_eq!(pe.idx_from_name("Nt\u{fffd}Close"), 0);
    assert_eq!(pe.fname_from_index(&mem, 0), "Nt\u{fffd}Close");
}

#[test]
fn supplied_name_is_kept() {
    let mem = sample();
    let pe = PEImage::from(&mem, BASE, PEName::Is(String::from("custom")));
    assert_eq!(pe.get_name().unwrap(), "custom");
}

#[test]
fn set_name_overrides_the_name() {
    let mem = sample();
    let mut pe = PEImage::new(&mem, BASE);
    pe.set_name("renamed");
    assert_eq!(pe.get_name().unwrap(), "renamed");
}

#[test]
fn image_without_exports_reports_nothing() {
    let mut b = vec![0u8; 0x200];
    put_u32(&mut b, 0x3c, 0x80);
    let mem = Memory { base: BASE, bytes: b };
    let mut pe = PEImage::new(&mem, BASE);
    assert_eq!(pe.number_of_names(&mem), 0);
    assert_eq!(pe.number_of_func(&mem), 0);
    assert_eq!(pe.idx_from_name("NtClose"), -1);
    assert_eq!(pe.get_name().unwrap(), "Unnamed PE");
    assert!(pe.iter().next().is_none());
    assert!(pe.syscall_from_name(&mem, "NtClose").is_err());
    assert_eq!(pe.funcs_offset(&mem), 0);
    assert_eq!(pe.names_offset(&mem), 0);
    assert_eq!(pe.ordinals_offset(&mem), 0);
    assert_eq!(pe.funcs_addr(&mem), 0);
    pe.set_name("renamed");
    assert_eq!(pe.get_name().unwrap(), "renamed");
}

#[test]
fn image_without_exports_keeps_supplied_name() {
    let mut b = vec![0u8; 0x200];
    put_u32(&mut b, 0x3c, 0x80);
    let mem = Memory { base: BASE, bytes: b };
    let pe = PEImage::from(&mem, BASE, PEName::Is(String::from("given.dll")));
    assert_eq!(pe.get_name().unwrap(), "given.dll");
}

#[test]
fn directory_fields_are_read() {
    let mem = sample();
    let pe = PEImage::new(&mem, BASE);
    assert_eq!(pe.get_export_directory_ptr(), BASE + DIR);
    assert_eq!(pe.number_of_func(&mem), 4);
    assert_eq!(pe.number_of_names(&mem), 3);
    assert_eq!(pe.funcs_offset(&mem), FUNCS);
    assert_eq!(pe.names_offset(&mem), NAMES);
    assert_eq!(pe.ordinals_offset(&mem), ORDINALS);
    assert_eq!(pe.funcs_addr(&mem), BASE + FUNCS);
    assert_eq!(pe.ford_from_index(&mem, 0), 2);
    assert_eq!(pe.fname_from_index(&mem, 1), "NtOpenProcess");
}
