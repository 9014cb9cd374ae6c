use mactux::loader::auxv::{AuxiliaryInfo, AT_BASE, AT_NULL, AT_PAGESZ};
use mactux::loader::elf::{
    elf_mmap_perms, has_elf_magic, page_size, ElfImage, LoadStep, ProgramHeaderInfo, Program, PF_R,
    PF_W, PF_X, PT_INTERP, PT_LOAD,
};
use mactux::loader::mmap::{MappedArea, MappedAreaBuilder, MAP_ANONYMOUS, MAP_FIXED, MAP_PRIVATE, PROT_EXEC, PROT_READ, PROT_WRITE};
use mactux::loader::shebang::Program as Script;
use mactux::loader::stack::StackInfo;
use mactux::loader::Error;
use mactux::error::LxError;

fn auxv() -> AuxiliaryInfo {
    AuxiliaryInfo { exec_fd: 3, phdr_base: 0x1040, phdr_size: 56, phdr_count: 4, entry: 0x1100, base: 0 }
}

#[test]
fn auxv_words() {
    let mut v = Vec::new();
    auxv().push_to_stack(&mut v);
    assert_eq!(v.len(), 20);
    assert_eq!(&v[..2], &[AT_PAGESZ, 0x1000]);
    assert_eq!(&v[8..10], &[AT_BASE, 0]);
    assert_eq!(&v[18..], &[AT_NULL, 0]);
}

#[test]
fn stack_layout_is_even() {
    let s = StackInfo::new(&[100, 200], &[300], auxv());
    assert_eq!(&s.0[..6], &[2, 100, 200, 0, 300, 0]);
    assert_eq!(s.0.len() % 2, 0);
    assert_eq!(s.0.len(), 26);
    assert!(s.is_aligned());
    let t = StackInfo::new(&[100], &[], auxv());
    assert_eq!(t.0.len(), 24);
    assert_eq!(t.0[23], 0);
}

#[test]
fn mapping_requests() {
    let b = MappedAreaBuilder::new().destination(0x4000).len(0x1000).readable().executable();
    assert_eq!(b.addr, 0x4000);
    assert_eq!(b.flags, MAP_PRIVATE | MAP_ANONYMOUS | MAP_FIXED);
    assert_eq!(b.prot, PROT_READ | PROT_EXEC);
    let f = b.file(5, 0x2000).auto_unmap(false);
    assert_eq!(f.flags, MAP_PRIVATE | MAP_FIXED);
    assert_eq!(f.fd, 5);
    assert!(!f.auto_unmap);
    let a = f.built_at(0x4000);
    assert_eq!(a.addr(), 0x4000);
    assert_eq!(MappedArea::null().addr(), 0);
}

#[test]
fn segment_permissions_make_code_writable() {
    let mut b = MappedAreaBuilder::new();
    elf_mmap_perms(&mut b, PF_R | PF_X);
    assert_eq!(b.prot, PROT_READ | PROT_EXEC | PROT_WRITE);
    let mut c = MappedAreaBuilder::new();
    elf_mmap_perms(&mut c, PF_R);
    assert_eq!(c.prot, PROT_READ);
    assert_eq!(page_size(), 0x1000);
}

#[test]
fn elf_magic() {
    assert!(has_elf_magic(&[0x7f, b'E', b'L', b'F', 2]));
    assert!(!has_elf_magic(b"#!/bin/sh"));
    assert!(!has_elf_magic(&[0x7f]));
}

#[test]
fn parse_rejects_garbage_with_the_parser_message() {
    match ElfImage::parse(b"not an elf image at all, really") {
        Err(Error::ImageFormat(msg)) => assert!(!msg.is_empty()),
        _ => panic!("expected an image format error"),
    }
}

fn phdr(p_type: u32, p_flags: u32, p_offset: u64, p_vaddr: u64, p_filesz: u64, p_memsz: u64) -> ProgramHeaderInfo {
    ProgramHeaderInfo { p_type, p_flags, p_offset, p_vaddr, p_filesz, p_memsz }
}

#[test]
fn base_of_a_position_independent_image() {
    let image = ElfImage {
        e_type: 3, e_entry: 0x1000, e_phoff: 64, e_phentsize: 56, e_phnum: 2,
        phdrs: vec![phdr(PT_LOAD, PF_R, 0, 0, 0x500, 0x500), phdr(PT_LOAD, PF_R | PF_W, 0x1000, 0x2000, 0x100, 0x300)],
    };
    let b = image.map_base().unwrap().unwrap();
    assert_eq!(b.len, 0x2300);
    let fixed = ElfImage { e_type: 2, ..image.clone() };
    assert!(fixed.map_base().unwrap().is_none());
    let empty = ElfImage { phdrs: vec![], ..image };
    match empty.map_base() {
        Err(Error::ImageFormat(msg)) => assert_eq!(msg, "image has no PT_LOAD segment"),
        _ => panic!("expected an image format error"),
    }
}

#[test]
fn segment_plan_clears_the_bss() {
    let p = phdr(PT_LOAD, PF_R | PF_W, 0x1234, 0x401234, 0x100, 0x300);
    let plan = p.map_phdr(7, 0);
    assert_eq!(plan.anon.addr, 0x401000);
    assert_eq!(plan.anon.len, 0x300 + 0x234);
    assert!(plan.anon.auto_unmap);
    assert_eq!(plan.file.offset, 0x1000);
    assert_eq!(plan.file.len, 0x100 + 0x234);
    assert_eq!(plan.file.fd, 7);
    let z = plan.zero_fill.unwrap();
    assert_eq!(z.addr, 0x401234 + 0x100);
    assert_eq!(z.len, 0x200);
    let ro = phdr(PT_LOAD, PF_R, 0, 0x1000, 0x10, 0x10).map_phdr(7, 0x7000_0000);
    assert!(ro.zero_fill.is_none());
    assert!(!ro.anon.auto_unmap);
}

#[test]
fn interpreter_path() {
    let mut data = vec![0u8; 0x40];
    data[0x20..0x20 + 12].copy_from_slice(b"/lib/ld.so\0x");
    let p = phdr(PT_INTERP, PF_R, 0x20, 0, 12, 12);
    assert_eq!(p.read_interp(&data).unwrap(), b"/lib/ld.so".to_vec());
    let bad = phdr(PT_INTERP, PF_R, 0x3c, 0, 12, 12);
    assert!(matches!(bad.read_interp(&data), Err(Error::ImageFormat(_))));
    let nonul = phdr(PT_INTERP, PF_R, 0x20, 0, 4, 4);
    assert!(matches!(nonul.read_interp(&data), Err(Error::ImageFormat(_))));
}

#[test]
fn load_plan_follows_the_program_headers() {
    let mut data = vec![0u8; 0x40];
    data[0x20..0x20 + 11].copy_from_slice(b"/lib/ld.so\0");
    let image = ElfImage {
        e_type: 3, e_entry: 0x100, e_phoff: 64, e_phentsize: 56, e_phnum: 3,
        phdrs: vec![
            phdr(PT_INTERP, PF_R, 0x20, 0, 11, 11),
            phdr(6, PF_R, 0, 0, 0, 0),
            phdr(PT_LOAD, PF_R | PF_X, 0, 0, 0x40, 0x40),
        ],
    };
    let plan = image.load_plan(&data, 9, 0x10000).unwrap();
    assert_eq!(plan.steps.len(), 2);
    assert!(matches!(&plan.steps[0], LoadStep::Interpreter(p) if p == b"/lib/ld.so"));
    assert!(matches!(&plan.steps[1], LoadStep::Segment(s) if s.anon.addr == 0x10000));
    assert_eq!(plan.entry, 0x10100);
    assert_eq!(plan.phdr, 0x10040);
    assert_eq!(plan.phnum, 3);
}

#[test]
fn startup_prefers_the_interpreter() {
    let interp = Program { exec_fd: 4, interpreter: None, phdr: 0, phent: 56, phnum: 2, entry: 0x9000, base: 0x8000 };
    let main = Program { exec_fd: 3, interpreter: Some(Box::new(interp)), phdr: 0x1040, phent: 56, phnum: 4, entry: 0x1100, base: 0 };
    let (entry, aux) = main.startup();
    assert_eq!(entry, 0x9000);
    assert_eq!(aux.base, 0x8000);
    assert_eq!(aux.entry, 0x1100);
    assert_eq!(aux.exec_fd, 3);
    let alone = Program { exec_fd: 3, interpreter: None, phdr: 0x1040, phent: 56, phnum: 4, entry: 0x1100, base: 0 };
    assert_eq!(alone.startup().0, 0x1100);
}

#[test]
fn shebang_lines() {
    let p = Script::from_first_line(b"#!  /bin/sh -e  \n").unwrap();
    assert_eq!(p.prog, b"/bin/sh".to_vec());
    assert_eq!(p.arg, Some(b"-e".to_vec()));
    let argv = p.argv(&vec![b"script".to_vec(), b"x".to_vec()]);
    assert_eq!(argv, vec![b"/bin/sh".to_vec(), b"-e".to_vec(), b"script".to_vec(), b"x".to_vec()]);
    let q = Script::from_first_line(b"#!/usr/bin/env\n").unwrap();
    assert_eq!(q.arg, None);
    assert!(matches!(Script::from_first_line(b"#!"), Err(Error::ImageFormat(_))));
    assert!(matches!(Script::from_first_line(b"#!sh\n"), Err(Error::ReadImage(LxError(LxError::ENOENT)))));
}
