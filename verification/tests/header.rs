use elf_parser::error::{DecodeError, EnumField, Structure};
use elf_parser::header::{EMachine, EType, EVersion, Elf32Ehdr, Elf64Ehdr, EHDR32_SIZE, EHDR64_SIZE};
use elf_parser::ident::{EIdentStruct, EiClass, EiData, EiOsabi, EiVersion};
use elf_parser::reader::ByteSource;

fn sample_header64() -> Vec<u8> {
    let mut b = vec![0x7f, b'E', b'L', b'F', 2, 1, 1, 0, 0];
    b.resize(16, 0);
    b.extend(3u16.to_le_bytes()); // e_type
    b.extend(62u16.to_le_bytes()); // e_machine
    b.extend(1u32.to_le_bytes()); // e_version
    b.extend(0x0000_0001_0040_1040u64.to_le_bytes()); // e_entry
    b.extend(0x1122_3344_5566_7788u64.to_le_bytes()); // e_phoff
    b.extend(0x99aa_bbcc_ddee_ff00u64.to_le_bytes()); // e_shoff
    b.extend(0xdead_beefu32.to_le_bytes()); // e_flags
    b.extend(64u16.to_le_bytes()); // e_ehsize
    b.extend(56u16.to_le_bytes()); // e_phentsize
    b.extend(13u16.to_le_bytes()); // e_phnum
    b.extend(0x0040u16.to_le_bytes()); // e_shentsize
    b.extend(31u16.to_le_bytes()); // e_shnum
    b.extend(30u16.to_le_bytes()); // e_shstrndx
    b
}

fn sample_header32() -> Vec<u8> {
    let mut b = vec![0x7f, b'E', b'L', b'F', 1, 1, 1, 3, 0];
    b.resize(16, 0);
    b.extend(2u16.to_le_bytes()); // e_type
    b.extend(3u16.to_le_bytes()); // e_machine
    b.extend(1u32.to_le_bytes()); // e_version
    b.extend(0x0804_8000u32.to_le_bytes()); // e_entry
    b.extend(0x1122_3344u32.to_le_bytes()); // e_phoff
    b.extend(0x5566_7788u32.to_le_bytes()); // e_shoff
    b.extend(0xcafe_f00du32.to_le_bytes()); // e_flags
    b.extend(52u16.to_le_bytes()); // e_ehsize
    b.extend(32u16.to_le_bytes()); // e_phentsize
    b.extend(9u16.to_le_bytes()); // e_phnum
    b.extend(40u16.to_le_bytes()); // e_shentsize
    b.extend(29u16.to_le_bytes()); // e_shnum
    b.extend(28u16.to_le_bytes()); // e_shstrndx
    b
}

#[test]
fn header_sizes() {
    assert_eq!(EHDR64_SIZE, 64);
    assert_eq!(EHDR32_SIZE, 52);
    assert_eq!(sample_header64().len(), 64);
    assert_eq!(sample_header32().len(), 52);
}

#[test]
fn header64_decodes_every_field() {
    let bytes = sample_header64();
    let mut io = ByteSource::new(&bytes);
    let h = Elf64Ehdr::from_io(&mut io).unwrap();
    assert_eq!(
        h,
        Elf64Ehdr {
            e_ident: EIdentStruct {
                magic: [0x7f, 0x45, 0x4c, 0x46],
                class: EiClass::ElfClass64,
                endianness: EiData::ElfData2Lsb,
                version: EiVersion::EvCurrent,
                osabi: EiOsabi::ElfOsabiNONE,
                abi_version: 0,
            },
            e_type: EType::EtDyn,
            e_machine: EMachine::Emx86_64,
            e_version: EVersion::EvCurrent,
            e_entry: 0x0000_0001_0040_1040,
            e_phoff: 0x1122_3344_5566_7788,
            e_shoff: 0x99aa_bbcc_ddee_ff00,
            e_flags: 0xdead_beef,
            e_ehsize: 64,
            e_phentsize: 56,
            e_phnum: 13,
            e_shentsize: 64,
            e_shnum: 31,
            e_shstrndx: 30,
        }
    );
    assert_eq!(io.position(), 64);
}

#[test]
fn header32_decodes_every_field() {
    let bytes = sample_header32();
    let mut io = ByteSource::new(&bytes);
    let h = Elf32Ehdr::from_io(&mut io).unwrap();
    assert_eq!(
        h,
        Elf32Ehdr {
            e_ident: EIdentStruct {
                magic: [0x7f, 0x45, 0x4c, 0x46],
                class: EiClass::ElfClass32,
                endianness: EiData::ElfData2Lsb,
                version: EiVersion::EvCurrent,
                osabi: EiOsabi::ElfOsabiLINUX,
                abi_version: 0,
            },
            e_type: EType::EtExec,
            e_machine: EMachine::Em386,
            e_version: EVersion::EvCurrent,
            e_entry: 0x0804_8000,
            e_phoff: 0x1122_3344,
            e_shoff: 0x5566_7788,
            e_flags: 0xcafe_f00d,
            e_ehsize: 52,
            e_phentsize: 32,
            e_phnum: 9,
            e_shentsize: 40,
            e_shnum: 29,
            e_shstrndx: 28,
        }
    );
    assert_eq!(io.position(), 52);
}

#[test]
fn header_does_not_check_the_class_against_its_own_width() {
    // The class byte picks the decoder one level up; the decoders themselves
    // take what they are given.
    let mut bytes = sample_header64();
    bytes[4] = 1;
    let mut io = ByteSource::new(&bytes);
    let h = Elf64Ehdr::from_io(&mut io).unwrap();
    assert_eq!(h.e_ident.class, EiClass::ElfClass32);
    assert_eq!(h.e_entry, 0x0000_0001_0040_1040);
}

#[test]
fn header_claiming_big_endian_is_still_read_little_endian() {
    let mut bytes = sample_header64();
    bytes[5] = 2;
    let mut io = ByteSource::new(&bytes);
    let h = Elf64Ehdr::from_io(&mut io).unwrap();
    assert_eq!(h.e_ident.endianness, EiData::ElfData2Msb);
    assert_eq!(h.e_type, EType::EtDyn);
    assert_eq!(h.e_entry, 0x0000_0001_0040_1040);
    assert_eq!(h.e_phnum, 13);
}

#[test]
fn header64_largest_values_survive() {
    let mut bytes = sample_header64();
    for k in 24..64 {
        bytes[k] = 0xff;
    }
    let mut io = ByteSource::new(&bytes);
    let h = Elf64Ehdr::from_io(&mut io).unwrap();
    assert_eq!(h.e_entry, u64::MAX);
    assert_eq!(h.e_phoff, u64::MAX);
    assert_eq!(h.e_shoff, u64::MAX);
    assert_eq!(h.e_flags, u32::MAX);
    assert_eq!(h.e_ehsize, u16::MAX);
    assert_eq!(h.e_phentsize, u16::MAX);
    assert_eq!(h.e_phnum, u16::MAX);
    assert_eq!(h.e_shentsize, u16::MAX);
    assert_eq!(h.e_shnum, u16::MAX);
    assert_eq!(h.e_shstrndx, u16::MAX);
}

#[test]
fn header64_short_input_is_truncated() {
    let full = sample_header64();
    for len in 0..64 {
        let mut io = ByteSource::new(&full[..len]);
        let structure = if len < 16 { Structure::Ident } else { Structure::Header };
        assert_eq!(
            Elf64Ehdr::from_io(&mut io),
            Err(DecodeError::Truncated { structure }),
            "length {}",
            len
        );
        assert_eq!(io.position(), 0);
    }
}

#[test]
fn header32_short_input_is_truncated() {
    let full = sample_header32();
    for len in 0..52 {
        let mut io = ByteSource::new(&full[..len]);
        let structure = if len < 16 { Structure::Ident } else { Structure::Header };
        assert_eq!(
            Elf32Ehdr::from_io(&mut io),
            Err(DecodeError::Truncated { structure }),
            "length {}",
            len
        );
        assert_eq!(io.position(), 0);
    }
}

#[test]
fn header_with_wrong_magic_is_rejected() {
    let mut bytes = sample_header64();
    bytes[1] = b'F';
    let mut io = ByteSource::new(&bytes);
    assert_eq!(Elf64Ehdr::from_io(&mut io), Err(DecodeError::BadMagic));
    let mut bytes = sample_header32();
    bytes[0] = 0;
    let mut io = ByteSource::new(&bytes);
    assert_eq!(Elf32Ehdr::from_io(&mut io), Err(DecodeError::BadMagic));
    let mut io = ByteSource::new(b"#!/bin/sh\n");
    assert_eq!(Elf64Ehdr::from_io(&mut io), Err(DecodeError::BadMagic));
}

#[test]
fn header_invalid_object_type_is_reported() {
    let mut bytes = sample_header64();
    bytes[16] = 5;
    let mut io = ByteSource::new(&bytes);
    assert_eq!(
        Elf64Ehdr::from_io(&mut io),
        Err(DecodeError::InvalidEnumerant { field: EnumField::ObjectType, value: 5 })
    );
    assert_eq!(io.position(), 0);
    bytes[16] = 0x00;
    bytes[17] = 0xff;
    let mut io = ByteSource::new(&bytes);
    assert_eq!(
        Elf64Ehdr::from_io(&mut io),
        Err(DecodeError::InvalidEnumerant { field: EnumField::ObjectType, value: 0xff00 })
    );
}

#[test]
fn header_invalid_machine_is_reported() {
    let mut bytes = sample_header32();
    bytes[18] = 6;
    let mut io = ByteSource::new(&bytes);
    assert_eq!(
        Elf32Ehdr::from_io(&mut io),
        Err(DecodeError::InvalidEnumerant { field: EnumField::Machine, value: 6 })
    );
}

#[test]
fn header_invalid_version_is_reported() {
    let mut bytes = sample_header64();
    bytes[20] = 3;
    bytes[23] = 0x80;
    let mut io = ByteSource::new(&bytes);
    assert_eq!(
        Elf64Ehdr::from_io(&mut io),
        Err(DecodeError::InvalidEnumerant { field: EnumField::Version, value: 0x8000_0003 })
    );
}

#[test]
fn header_invalid_tag_comes_before_later_truncation() {
    // An invalid object type is seen as soon as its two bytes are there.
    let mut bytes = sample_header64();
    bytes[16] = 9;
    let mut io = ByteSource::new(&bytes[..18]);
    assert_eq!(
        Elf64Ehdr::from_io(&mut io),
        Err(DecodeError::InvalidEnumerant { field: EnumField::ObjectType, value: 9 })
    );
    let mut io = ByteSource::new(&bytes[..17]);
    assert_eq!(
        Elf64Ehdr::from_io(&mut io),
        Err(DecodeError::Truncated { structure: Structure::Header })
    );
}

#[test]
fn header_decodes_behind_a_prefix() {
    let mut bytes = vec![0u8; 5];
    bytes.extend(sample_header32());
    let mut io = ByteSource::new(&bytes);
    io.seek(5);
    let h = Elf32Ehdr::from_io(&mut io).unwrap();
    assert_eq!(h.e_shstrndx, 28);
    assert_eq!(io.position(), 57);
}

#[test]
fn default_headers_are_zeroed() {
    let h = Elf64Ehdr::default();
    assert_eq!(h.e_ident, EIdentStruct::default());
    assert_eq!(h.e_type, EType::EtNone);
    assert_eq!(h.e_machine, EMachine::EmNone);
    assert_eq!(h.e_version, EVersion::EvNone);
    assert_eq!((h.e_entry, h.e_phoff, h.e_shoff, h.e_flags), (0, 0, 0, 0));
    assert_eq!((h.e_ehsize, h.e_phentsize, h.e_phnum), (0, 0, 0));
    assert_eq!((h.e_shentsize, h.e_shnum, h.e_shstrndx), (0, 0, 0));
    let h = Elf32Ehdr::default();
    assert_eq!(h.e_ident, EIdentStruct::default());
    assert_eq!(h.e_type, EType::EtNone);
    assert_eq!(h.e_machine, EMachine::EmNone);
    assert_eq!(h.e_version, EVersion::EvNone);
    assert_eq!((h.e_entry, h.e_phoff, h.e_shoff, h.e_flags), (0, 0, 0, 0));
    assert_eq!((h.e_ehsize, h.e_phentsize, h.e_phnum), (0, 0, 0));
    assert_eq!((h.e_shentsize, h.e_shnum, h.e_shstrndx), (0, 0, 0));
}
