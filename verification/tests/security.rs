use elf_parser::elf::{decode, DecodedElf, ELF32, ELF64};
use elf_parser::error::{DecodeError, EnumField, Structure};
use elf_parser::header::EType;
use elf_parser::program::{Elf32Phdr, Elf64Phdr, PType};
use elf_parser::reader::ByteSource;
use elf_parser::section::{Elf32Shdr, Elf64Shdr};
use elf_parser::security::{
    find_section_named, find_segment, infer_canary, infer_nx, infer_options, infer_pie,
    infer_relro, infer_security_options, read_section_names, RelRo, SecurityOptions,
    GOT_PLT_NAME, STACK_CHK_FAIL_NAME, STRTAB_NAME,
};

const PT_LOAD: u32 = 1;
const PT_GNU_STACK: u32 = 0x6474e551;
const PT_GNU_RELRO: u32 = 0x6474e552;
const ET_EXEC: u16 = 2;
const ET_DYN: u16 = 3;

const NAMES: &[u8] = b"\0.shstrtab\0.strtab\0.text\0";
const NAMES_WITH_GOT: &[u8] = b"\0.shstrtab\0.strtab\0.text\0.got.plt\0";
const SYMBOLS: &[u8] = b"\0main\0puts\0";
const SYMBOLS_WITH_CANARY: &[u8] = b"\0main\0__stack_chk_fail\0puts\0";

/// A 64-bit file: header, program headers, three section headers (null,
/// section names, symbol names), then the two string tables.
fn build64(e_type: u16, segments: &[(u32, u32)], names: &[u8], symbols: &[u8]) -> Vec<u8> {
    let phoff = 64u64;
    let shoff = phoff + 56 * segments.len() as u64;
    let names_at = shoff + 3 * 64;
    let symbols_at = names_at + names.len() as u64;
    let mut b = vec![0x7f, b'E', b'L', b'F', 2, 1, 1, 0, 0, 0, 0, 0, 0, 0, 0, 0];
    b.extend(e_type.to_le_bytes());
    b.extend(62u16.to_le_bytes());
    b.extend(1u32.to_le_bytes());
    b.extend(0x401000u64.to_le_bytes());
    b.extend(phoff.to_le_bytes());
    b.extend(shoff.to_le_bytes());
    b.extend(0u32.to_le_bytes());
    for v in [64u16, 56, segments.len() as u16, 64, 3, 1] {
        b.extend(v.to_le_bytes());
    }
    for (p_type, flags) in segments {
        b.extend(p_type.to_le_bytes());
        b.extend(flags.to_le_bytes());
        b.extend([0u8; 48]);
    }
    let name_of = |n: &[u8]| names.windows(n.len()).position(|w| w == n).unwrap_or(0xffff) as u32;
    let sections = [
        (0u32, 0u32, 0u64, 0u64),
        (name_of(b".shstrtab"), 3, names_at, names.len() as u64),
        (name_of(b".strtab"), 3, symbols_at, symbols.len() as u64),
    ];
    for (name, sh_type, offset, size) in sections {
        b.extend(name.to_le_bytes());
        b.extend(sh_type.to_le_bytes());
        b.extend([0u8; 16]);
        b.extend(offset.to_le_bytes());
        b.extend(size.to_le_bytes());
        b.extend([0u8; 24]);
    }
    b.extend(names);
    b.extend(symbols);
    b
}

/// The same file in the 32-bit layout.
fn build32(e_type: u16, segments: &[(u32, u32)], names: &[u8], symbols: &[u8]) -> Vec<u8> {
    let phoff = 52u32;
    let shoff = phoff + 32 * segments.len() as u32;
    let names_at = shoff + 3 * 40;
    let symbols_at = names_at + names.len() as u32;
    let mut b = vec![0x7f, b'E', b'L', b'F', 1, 1, 1, 0, 0, 0, 0, 0, 0, 0, 0, 0];
    b.extend(e_type.to_le_bytes());
    b.extend(3u16.to_le_bytes());
    b.extend(1u32.to_le_bytes());
    b.extend(0x8048000u32.to_le_bytes());
    b.extend(phoff.to_le_bytes());
    b.extend(shoff.to_le_bytes());
    b.extend(0u32.to_le_bytes());
    for v in [52u16, 32, segments.len() as u16, 40, 3, 1] {
        b.extend(v.to_le_bytes());
    }
    for (p_type, flags) in segments {
        b.extend(p_type.to_le_bytes());
        b.extend([0u8; 20]);
        b.extend(flags.to_le_bytes());
        b.extend([0u8; 4]);
    }
    let name_of = |n: &[u8]| names.windows(n.len()).position(|w| w == n).unwrap_or(0xffff) as u32;
    let sections = [
        (0u32, 0u32, 0u32, 0u32),
        (name_of(b".shstrtab"), 3, names_at, names.len() as u32),
        (name_of(b".strtab"), 3, symbols_at, symbols.len() as u32),
    ];
    for (name, sh_type, offset, size) in sections {
        b.extend(name.to_le_bytes());
        b.extend(sh_type.to_le_bytes());
        b.extend([0u8; 8]);
        b.extend(offset.to_le_bytes());
        b.extend(size.to_le_bytes());
        b.extend([0u8; 16]);
    }
    b.extend(names);
    b.extend(symbols);
    b
}

fn options64(bytes: &[u8]) -> Result<SecurityOptions, DecodeError> {
    let mut io = ByteSource::new(bytes);
    let elf = ELF64::load(&mut io).unwrap();
    SecurityOptions::get_options_64(&elf, &mut io)
}

fn options32(bytes: &[u8]) -> Result<SecurityOptions, DecodeError> {
    let mut io = ByteSource::new(bytes);
    let elf = ELF32::load(&mut io).unwrap();
    SecurityOptions::get_options_32(&elf, &mut io)
}

fn seg64(p_type: PType, p_flags: u32) -> Elf64Phdr {
    Elf64Phdr { p_type, p_flags, ..Elf64Phdr::default() }
}

fn seg32(p_type: PType, p_flags: u32) -> Elf32Phdr {
    Elf32Phdr { p_type, p_flags, ..Elf32Phdr::default() }
}

#[test]
fn names_are_spelled_right() {
    assert_eq!(&STRTAB_NAME[..], b".strtab");
    assert_eq!(&GOT_PLT_NAME[..], b".got.plt");
    assert_eq!(&STACK_CHK_FAIL_NAME[..], b"__stack_chk_fail");
}

#[test]
fn minimal_executable_has_nx_and_nothing_else() {
    let bytes = build64(ET_EXEC, &[(PT_LOAD, 5), (PT_GNU_STACK, 6)], NAMES, SYMBOLS);
    let mut io = ByteSource::new(&bytes);
    let elf = match decode(&mut io) {
        Ok(DecodedElf::Elf64(elf)) => elf,
        other => panic!("{:?}", other),
    };
    assert_eq!(elf.header.e_type, EType::EtExec);
    assert_eq!(elf.pht.len(), 2);
    assert_eq!(elf.pht[0].p_type, PType::PtLoad);
    assert!(elf.pht[0].has_r() && !elf.pht[0].has_w() && elf.pht[0].has_x());
    assert_eq!(elf.pht[1].p_type, PType::PtGnuStack);
    assert!(elf.pht[1].has_r() && elf.pht[1].has_w() && !elf.pht[1].has_x());
    let options = SecurityOptions::get_options_64(&elf, &mut io).unwrap();
    assert!(options.nx);
    assert_eq!(options.relro, RelRo::NoRelRo);
    assert!(!options.pie);
    assert!(!options.canary);
    assert_eq!(
        options,
        SecurityOptions { canary: false, nx: true, relro: RelRo::NoRelRo, pie: false }
    );
}

#[test]
fn hardened_shared_object_has_everything() {
    let segments = [(PT_LOAD, 5), (PT_GNU_RELRO, 4), (PT_GNU_STACK, 6)];
    let bytes = build64(ET_DYN, &segments, NAMES, SYMBOLS_WITH_CANARY);
    assert_eq!(
        options64(&bytes),
        Ok(SecurityOptions { canary: true, nx: true, relro: RelRo::FullRelRo, pie: true })
    );
    let bytes = build32(ET_DYN, &segments, NAMES, SYMBOLS_WITH_CANARY);
    assert_eq!(
        options32(&bytes),
        Ok(SecurityOptions { canary: true, nx: true, relro: RelRo::FullRelRo, pie: true })
    );
}

#[test]
fn options_of_a_32_bit_file() {
    let bytes = build32(ET_EXEC, &[(PT_GNU_STACK, 7), (PT_GNU_RELRO, 4)], NAMES_WITH_GOT, SYMBOLS);
    assert_eq!(
        options32(&bytes),
        Ok(SecurityOptions { canary: false, nx: false, relro: RelRo::PartialRelRo, pie: false })
    );
}

#[test]
fn options_through_the_class_dispatch() {
    let bytes = build32(ET_DYN, &[(PT_GNU_STACK, 6)], NAMES, SYMBOLS_WITH_CANARY);
    let mut io = ByteSource::new(&bytes);
    let elf = decode(&mut io).unwrap();
    assert_eq!(
        infer_security_options(&elf, &mut io),
        Ok(SecurityOptions { canary: true, nx: true, relro: RelRo::NoRelRo, pie: true })
    );
    let bytes = build64(ET_EXEC, &[(PT_GNU_STACK, 1)], NAMES, SYMBOLS);
    let mut io = ByteSource::new(&bytes);
    let elf = decode(&mut io).unwrap();
    assert_eq!(
        infer_security_options(&elf, &mut io),
        Ok(SecurityOptions { canary: false, nx: false, relro: RelRo::NoRelRo, pie: false })
    );
}

#[test]
fn options_leave_the_cursor_behind_the_symbol_names() {
    let bytes = build64(ET_EXEC, &[(PT_GNU_STACK, 6)], NAMES, SYMBOLS);
    let mut io = ByteSource::new(&bytes);
    let elf = ELF64::load(&mut io).unwrap();
    io.seek(3);
    assert!(SecurityOptions::get_options_64(&elf, &mut io).is_ok());
    assert_eq!(io.position(), bytes.len() as u64);
    // A failure leaves it where it was.
    let bytes = build64(ET_EXEC, &[(PT_LOAD, 6)], NAMES, SYMBOLS);
    let mut io = ByteSource::new(&bytes);
    let elf = ELF64::load(&mut io).unwrap();
    io.seek(3);
    assert!(SecurityOptions::get_options_64(&elf, &mut io).is_err());
    assert_eq!(io.position(), 3);
}

#[test]
fn nx_follows_the_execute_bit_of_the_stack_entry() {
    for flags in 0u32..8 {
        let pht = [seg64(PType::PtLoad, 5), seg64(PType::PtGnuStack, flags)];
        assert_eq!(infer_nx(&pht), Ok(flags & 1 == 0));
        let pht = [seg32(PType::PtGnuStack, flags), seg32(PType::PtLoad, 5)];
        assert_eq!(infer_nx(&pht), Ok(flags & 1 == 0));
    }
    assert_eq!(infer_nx(&[seg64(PType::PtGnuStack, 0xffff_fffe)]), Ok(true));
    assert_eq!(infer_nx(&[seg64(PType::PtGnuStack, 0x8000_0001)]), Ok(false));
}

#[test]
fn nx_without_a_stack_entry_fails() {
    let missing = Err(DecodeError::Missing { structure: Structure::GnuStack });
    assert_eq!(infer_nx::<Elf64Phdr>(&[]), missing);
    assert_eq!(infer_nx(&[seg64(PType::PtLoad, 7), seg64(PType::PtGnuRelro, 4)]), missing);
    assert_eq!(infer_nx(&[seg32(PType::PtGnuEhFrame, 4)]), missing);
    let bytes = build64(ET_EXEC, &[(PT_LOAD, 5)], NAMES, SYMBOLS);
    assert_eq!(options64(&bytes), missing.map(|_| SecurityOptions::default()));
}

#[test]
fn nx_takes_the_first_of_several_stack_entries() {
    let pht = [seg64(PType::PtGnuStack, 6), seg64(PType::PtGnuStack, 7)];
    assert_eq!(infer_nx(&pht), Ok(true));
    let pht = [seg64(PType::PtNull, 0), seg64(PType::PtGnuStack, 7), seg64(PType::PtGnuStack, 6)];
    assert_eq!(infer_nx(&pht), Ok(false));
}

#[test]
fn relro_is_none_without_a_relro_entry() {
    let pht = [seg64(PType::PtLoad, 5), seg64(PType::PtGnuStack, 6)];
    assert_eq!(infer_relro(&pht, NAMES), RelRo::NoRelRo);
    assert_eq!(infer_relro(&pht, NAMES_WITH_GOT), RelRo::NoRelRo);
    assert_eq!(infer_relro::<Elf32Phdr>(&[], NAMES_WITH_GOT), RelRo::NoRelRo);
}

#[test]
fn relro_is_partial_with_got_plt_among_the_names() {
    let pht = [seg64(PType::PtLoad, 5), seg64(PType::PtGnuRelro, 4)];
    assert_eq!(infer_relro(&pht, NAMES_WITH_GOT), RelRo::PartialRelRo);
    assert_eq!(infer_relro(&pht, b".got.plt"), RelRo::PartialRelRo);
    assert_eq!(infer_relro(&[seg32(PType::PtGnuRelro, 4)], b"x.got.plt.y"), RelRo::PartialRelRo);
}

#[test]
fn relro_is_full_without_got_plt_among_the_names() {
    let pht = [seg64(PType::PtGnuRelro, 4), seg64(PType::PtLoad, 5)];
    assert_eq!(infer_relro(&pht, NAMES), RelRo::FullRelRo);
    assert_eq!(infer_relro(&pht, b""), RelRo::FullRelRo);
    assert_eq!(infer_relro(&pht, b"\0.got\0.plt\0"), RelRo::FullRelRo);
    assert_eq!(infer_relro(&[seg32(PType::PtGnuRelro, 4)], b".got.pl"), RelRo::FullRelRo);
}

#[test]
fn relro_of_whole_files() {
    let with = [(PT_GNU_STACK, 6), (PT_GNU_RELRO, 4)];
    let without = [(PT_GNU_STACK, 6)];
    let level = |segments: &[(u32, u32)], names: &[u8]| {
        options64(&build64(ET_DYN, segments, names, SYMBOLS)).unwrap().relro
    };
    assert_eq!(level(&without, NAMES), RelRo::NoRelRo);
    assert_eq!(level(&without, NAMES_WITH_GOT), RelRo::NoRelRo);
    assert_eq!(level(&with, NAMES_WITH_GOT), RelRo::PartialRelRo);
    assert_eq!(level(&with, NAMES), RelRo::FullRelRo);
}

#[test]
fn pie_follows_the_object_type() {
    assert_eq!(infer_pie(EType::EtDyn), Ok(true));
    assert_eq!(infer_pie(EType::EtExec), Ok(false));
}

#[test]
fn pie_of_other_object_types_fails() {
    for (t, value) in [(EType::EtNone, 0), (EType::EtRel, 1), (EType::EtCore, 4)] {
        assert_eq!(
            infer_pie(t),
            Err(DecodeError::Unsupported { field: EnumField::ObjectType, value })
        );
    }
    let bytes = build64(1, &[(PT_GNU_STACK, 6)], NAMES, SYMBOLS);
    assert_eq!(
        options64(&bytes),
        Err(DecodeError::Unsupported { field: EnumField::ObjectType, value: 1 })
    );
}

#[test]
fn canary_is_the_name_among_the_symbols() {
    let with = build64(ET_EXEC, &[(PT_GNU_STACK, 6)], NAMES, SYMBOLS_WITH_CANARY);
    assert!(options64(&with).unwrap().canary);
    let without = build64(ET_EXEC, &[(PT_GNU_STACK, 6)], NAMES, SYMBOLS);
    assert!(!options64(&without).unwrap().canary);
    let nearly = build64(ET_EXEC, &[(PT_GNU_STACK, 6)], NAMES, b"\0__stack_chk_fai\0_stack_chk_fail");
    assert!(!options64(&nearly).unwrap().canary);
    let empty = build64(ET_EXEC, &[(PT_GNU_STACK, 6)], NAMES, b"");
    assert!(!options64(&empty).unwrap().canary);
}

#[test]
fn canary_search_takes_any_bytes() {
    let mut symbols = vec![0xff, 0xfe, 0x80];
    symbols.extend(b"__stack_chk_fail");
    symbols.extend([0xc0, 0x00]);
    let mut names = vec![0xff, 0x00];
    names.extend(b".strtab\0\x80.shstrtab\0");
    let bytes = build64(ET_DYN, &[(PT_GNU_STACK, 6)], &names, &symbols);
    assert_eq!(
        options64(&bytes),
        Ok(SecurityOptions { canary: true, nx: true, relro: RelRo::NoRelRo, pie: true })
    );
}

#[test]
fn section_name_index_out_of_range_is_a_missing_table() {
    let mut bytes = build64(ET_EXEC, &[(PT_GNU_STACK, 6)], NAMES, SYMBOLS);
    bytes[62] = 3;
    assert_eq!(
        options64(&bytes),
        Err(DecodeError::Missing { structure: Structure::SectionNameTable })
    );
    bytes[62] = 0xff;
    bytes[63] = 0xff;
    assert_eq!(
        options64(&bytes),
        Err(DecodeError::Missing { structure: Structure::SectionNameTable })
    );
    let sht: [Elf64Shdr; 0] = [];
    let mut io = ByteSource::new(&bytes);
    assert_eq!(
        read_section_names(&sht, 0, &mut io),
        Err(DecodeError::Missing { structure: Structure::SectionNameTable })
    );
}

#[test]
fn section_names_that_run_off_the_end_are_truncated() {
    let bytes = build64(ET_EXEC, &[(PT_GNU_STACK, 6)], NAMES, b"");
    let cut = bytes.len() - 1;
    let mut io = ByteSource::new(&bytes);
    let elf = ELF64::load(&mut io).unwrap();
    let mut short = ByteSource::new(&bytes[..cut]);
    short.seek(11);
    assert_eq!(
        SecurityOptions::get_options_64(&elf, &mut short),
        Err(DecodeError::Truncated { structure: Structure::SectionNameTable })
    );
    assert_eq!(short.position(), 11);
}

#[test]
fn names_without_strtab_are_a_missing_name() {
    let bytes = build64(ET_EXEC, &[(PT_GNU_STACK, 6)], b"\0.shstrtab\0.symtab\0", SYMBOLS);
    assert_eq!(options64(&bytes), Err(DecodeError::Missing { structure: Structure::StrtabName }));
    let bytes = build32(ET_EXEC, &[(PT_GNU_STACK, 6)], b"", SYMBOLS);
    assert_eq!(options32(&bytes), Err(DecodeError::Missing { structure: Structure::StrtabName }));
}

#[test]
fn no_section_called_strtab_is_a_missing_table() {
    // The name is there, at offset 11, but no entry points at it.
    let mut bytes = build64(ET_EXEC, &[(PT_GNU_STACK, 6)], NAMES, SYMBOLS);
    let third = 64 + 56 + 2 * 64;
    assert_eq!(&bytes[third..third + 4], &11u32.to_le_bytes());
    bytes[third] = 12;
    assert_eq!(
        options64(&bytes),
        Err(DecodeError::Missing { structure: Structure::SymbolNameTable })
    );
}

#[test]
fn symbol_names_that_run_off_the_end_are_truncated() {
    let bytes = build32(ET_EXEC, &[(PT_GNU_STACK, 6)], NAMES, SYMBOLS);
    let cut = bytes.len() - 1;
    let mut io = ByteSource::new(&bytes);
    let elf = ELF32::load(&mut io).unwrap();
    let mut short = ByteSource::new(&bytes[..cut]);
    assert_eq!(
        SecurityOptions::get_options_32(&elf, &mut short),
        Err(DecodeError::Truncated { structure: Structure::SymbolNameTable })
    );
    assert_eq!(short.position(), 0);
}

#[test]
fn the_first_entry_with_the_name_offset_is_the_symbol_table() {
    // Entry 0 is given the name offset of `.strtab` too, and a region that
    // holds the canary's name: it comes first, so it is the one searched.
    let mut bytes = build64(ET_EXEC, &[(PT_GNU_STACK, 6)], NAMES, SYMBOLS);
    let extra = bytes.len() as u64;
    bytes.extend(b"__stack_chk_fail");
    let first = 64 + 56;
    bytes[first..first + 4].copy_from_slice(&11u32.to_le_bytes());
    bytes[first + 24..first + 32].copy_from_slice(&extra.to_le_bytes());
    bytes[first + 32..first + 40].copy_from_slice(&16u64.to_le_bytes());
    assert!(options64(&bytes).unwrap().canary);
}

#[test]
fn failures_come_in_the_order_of_the_checks() {
    // Missing names come before a missing stack entry and a wrong type.
    let mut bytes = build64(1, &[(PT_LOAD, 5)], b"\0.shstrtab\0", SYMBOLS);
    assert_eq!(options64(&bytes), Err(DecodeError::Missing { structure: Structure::StrtabName }));
    bytes[62] = 9;
    assert_eq!(
        options64(&bytes),
        Err(DecodeError::Missing { structure: Structure::SectionNameTable })
    );
    // A missing stack entry comes before a wrong type.
    let bytes = build64(4, &[(PT_LOAD, 5)], NAMES, SYMBOLS);
    assert_eq!(options64(&bytes), Err(DecodeError::Missing { structure: Structure::GnuStack }));
}

#[test]
fn parts_of_the_inference_agree_with_the_whole() {
    let bytes = build64(ET_DYN, &[(PT_GNU_RELRO, 4), (PT_GNU_STACK, 7)], NAMES_WITH_GOT, SYMBOLS_WITH_CANARY);
    let mut io = ByteSource::new(&bytes);
    let elf = ELF64::load(&mut io).unwrap();
    let names = read_section_names(&elf.sht, elf.header.e_shstrndx, &mut io).unwrap();
    assert_eq!(names, NAMES_WITH_GOT);
    let canary = infer_canary(&elf.sht, names, &mut io).unwrap();
    assert_eq!(io.position(), bytes.len() as u64);
    let whole = infer_options(elf.header.e_type, elf.header.e_shstrndx, &elf.pht, &elf.sht, &mut io);
    assert_eq!(
        whole,
        Ok(SecurityOptions {
            canary,
            nx: infer_nx(&elf.pht).unwrap(),
            relro: infer_relro(&elf.pht, names),
            pie: infer_pie(elf.header.e_type).unwrap(),
        })
    );
    assert_eq!(
        whole,
        Ok(SecurityOptions { canary: true, nx: false, relro: RelRo::PartialRelRo, pie: true })
    );
}

#[test]
fn empty_section_name_table_is_read_wherever_it_points() {
    let sht = [Elf64Shdr { sh_offset: u64::MAX, sh_size: 0, ..Elf64Shdr::default() }];
    let bytes = [1u8, 2, 3];
    let mut io = ByteSource::new(&bytes);
    let empty: &[u8] = &[];
    assert_eq!(read_section_names(&sht, 0, &mut io), Ok(empty));
    assert_eq!(io.position(), u64::MAX);
    let sht = [Elf32Shdr { sh_offset: 1, sh_size: 2, ..Elf32Shdr::default() }];
    let mut io = ByteSource::new(&bytes);
    assert_eq!(read_section_names(&sht, 0, &mut io), Ok(&bytes[1..3]));
    assert_eq!(io.position(), 3);
    let sht = [Elf32Shdr { sh_offset: 2, sh_size: 2, ..Elf32Shdr::default() }];
    assert_eq!(
        read_section_names(&sht, 0, &mut io),
        Err(DecodeError::Truncated { structure: Structure::SectionNameTable })
    );
    assert_eq!(io.position(), 3);
}

#[test]
fn find_segment_gives_the_first_index() {
    let pht = [
        seg64(PType::PtLoad, 5),
        seg64(PType::PtGnuStack, 6),
        seg64(PType::PtLoad, 6),
        seg64(PType::PtGnuStack, 7),
    ];
    assert_eq!(find_segment(&pht, PType::PtLoad), Some(0));
    assert_eq!(find_segment(&pht, PType::PtGnuStack), Some(1));
    assert_eq!(find_segment(&pht, PType::PtGnuRelro), None);
    assert_eq!(find_segment::<Elf32Phdr>(&[], PType::PtNull), None);
}

#[test]
fn find_section_named_gives_the_first_index() {
    let sht: Vec<Elf32Shdr> =
        [0u32, 11, 1, 11, u32::MAX].iter().map(|n| Elf32Shdr { sh_name: *n, ..Elf32Shdr::default() }).collect();
    assert_eq!(find_section_named(&sht, 11), Some(1));
    assert_eq!(find_section_named(&sht, 0), Some(0));
    assert_eq!(find_section_named(&sht, 0xffff_ffff), Some(4));
    assert_eq!(find_section_named(&sht, 2), None);
    // An offset that no 32-bit name field can hold matches nothing.
    assert_eq!(find_section_named(&sht, 0x1_0000_000b), None);
    assert_eq!(find_section_named(&sht, 0x1_0000_0000), None);
}

#[test]
fn default_options_are_all_off() {
    assert_eq!(RelRo::default(), RelRo::NoRelRo);
    assert_eq!(
        SecurityOptions::default(),
        SecurityOptions { canary: false, nx: false, relro: RelRo::NoRelRo, pie: false }
    );
}
