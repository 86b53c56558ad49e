use elf_parser::error::{complete, known, present, DecodeError, EnumField, Structure};
use elf_parser::ident::{
    is_magic, EIdentStruct, EiClass, EiData, EiOsabi, EiVersion, ELF_MAGIC, IDENT_SIZE,
};
use elf_parser::reader::ByteSource;

fn ident_bytes(class: u8, data: u8, version: u8, osabi: u8, abi_version: u8) -> Vec<u8> {
    let mut b = vec![0x7f, b'E', b'L', b'F', class, data, version, osabi, abi_version];
    b.resize(16, 0);
    b
}

#[test]
fn magic_is_0x7f_e_l_f() {
    assert_eq!(ELF_MAGIC, [0x7f, b'E', b'L', b'F']);
    assert_eq!(IDENT_SIZE, 16);
}

#[test]
fn is_magic_takes_exactly_the_four_bytes() {
    assert!(is_magic(b"\x7fELF"));
    assert!(is_magic(&ELF_MAGIC));
    assert!(!is_magic(b"\x7fELF\x02"));
    assert!(!is_magic(b"\x7fEL"));
    assert!(!is_magic(b""));
    assert!(!is_magic(b"\x7fELf"));
    assert!(!is_magic(b"\x7eELF"));
    assert!(!is_magic(b"\x7feLF"));
    assert!(!is_magic(b"\x7fElF"));
}

#[test]
fn ident_decodes_every_field() {
    let bytes = ident_bytes(2, 1, 1, 3, 7);
    let mut io = ByteSource::new(&bytes);
    let ident = EIdentStruct::from_io(&mut io).unwrap();
    assert_eq!(
        ident,
        EIdentStruct {
            magic: [0x7f, 0x45, 0x4c, 0x46],
            class: EiClass::ElfClass64,
            endianness: EiData::ElfData2Lsb,
            version: EiVersion::EvCurrent,
            osabi: EiOsabi::ElfOsabiLINUX,
            abi_version: 7,
        }
    );
    assert_eq!(io.position(), 16);
}

#[test]
fn ident_decodes_at_the_cursor() {
    let mut bytes = vec![0xaa, 0xbb, 0xcc];
    bytes.extend(ident_bytes(1, 2, 0, 255, 0));
    bytes.push(0x99);
    let mut io = ByteSource::new(&bytes);
    io.seek(3);
    let ident = EIdentStruct::from_io(&mut io).unwrap();
    assert_eq!(ident.class, EiClass::ElfClass32);
    assert_eq!(ident.endianness, EiData::ElfData2Msb);
    assert_eq!(ident.version, EiVersion::EvNone);
    assert_eq!(ident.osabi, EiOsabi::ElfOsabiSTANDALONE);
    assert_eq!(ident.abi_version, 0);
    assert_eq!(io.position(), 19);
}

#[test]
fn ident_ignores_the_padding() {
    let mut bytes = ident_bytes(2, 1, 1, 0, 0);
    for k in 9..16 {
        bytes[k] = 0xff;
    }
    let mut io = ByteSource::new(&bytes);
    let ident = EIdentStruct::from_io(&mut io).unwrap();
    assert_eq!(ident.class, EiClass::ElfClass64);
    assert_eq!(ident.abi_version, 0);
}

#[test]
fn wrong_magic_is_rejected_whatever_byte_is_off() {
    for k in 0..4 {
        let mut bytes = ident_bytes(2, 1, 1, 0, 0);
        bytes[k] ^= 0x01;
        let mut io = ByteSource::new(&bytes);
        assert_eq!(EIdentStruct::from_io(&mut io), Err(DecodeError::BadMagic));
        assert_eq!(io.position(), 0);
    }
}

#[test]
fn wrong_magic_is_rejected_before_anything_else_is_looked_at() {
    // Four bytes are all there is, and every later field would be invalid.
    let bytes = [b'M', b'Z', 0x90, 0x00];
    let mut io = ByteSource::new(&bytes);
    assert_eq!(EIdentStruct::from_io(&mut io), Err(DecodeError::BadMagic));
    let bytes = [0x7f, b'E', b'L', b'G', 9, 9, 9, 200, 0, 0, 0, 0, 0, 0, 0, 0];
    let mut io = ByteSource::new(&bytes);
    assert_eq!(EIdentStruct::from_io(&mut io), Err(DecodeError::BadMagic));
}

#[test]
fn short_ident_is_truncated() {
    let full = ident_bytes(2, 1, 1, 0, 0);
    for len in 0..16 {
        let mut io = ByteSource::new(&full[..len]);
        assert_eq!(
            EIdentStruct::from_io(&mut io),
            Err(DecodeError::Truncated { structure: Structure::Ident }),
            "length {}",
            len
        );
        assert_eq!(io.position(), 0);
    }
}

#[test]
fn invalid_class_is_reported() {
    let bytes = ident_bytes(3, 1, 1, 0, 0);
    let mut io = ByteSource::new(&bytes);
    assert_eq!(
        EIdentStruct::from_io(&mut io),
        Err(DecodeError::InvalidEnumerant { field: EnumField::Class, value: 3 })
    );
    assert_eq!(io.position(), 0);
}

#[test]
fn invalid_data_encoding_is_reported() {
    let bytes = ident_bytes(2, 3, 1, 0, 0);
    let mut io = ByteSource::new(&bytes);
    assert_eq!(
        EIdentStruct::from_io(&mut io),
        Err(DecodeError::InvalidEnumerant { field: EnumField::Data, value: 3 })
    );
}

#[test]
fn invalid_ident_version_is_reported() {
    let bytes = ident_bytes(2, 1, 2, 0, 0);
    let mut io = ByteSource::new(&bytes);
    assert_eq!(
        EIdentStruct::from_io(&mut io),
        Err(DecodeError::InvalidEnumerant { field: EnumField::IdentVersion, value: 2 })
    );
}

#[test]
fn invalid_osabi_is_reported() {
    let bytes = ident_bytes(2, 1, 1, 4, 0);
    let mut io = ByteSource::new(&bytes);
    assert_eq!(
        EIdentStruct::from_io(&mut io),
        Err(DecodeError::InvalidEnumerant { field: EnumField::OsAbi, value: 4 })
    );
}

#[test]
fn the_first_invalid_field_is_the_one_reported() {
    let bytes = ident_bytes(9, 8, 7, 6, 0);
    let mut io = ByteSource::new(&bytes);
    assert_eq!(
        EIdentStruct::from_io(&mut io),
        Err(DecodeError::InvalidEnumerant { field: EnumField::Class, value: 9 })
    );
    let bytes = ident_bytes(0, 8, 7, 6, 0);
    let mut io = ByteSource::new(&bytes);
    assert_eq!(
        EIdentStruct::from_io(&mut io),
        Err(DecodeError::InvalidEnumerant { field: EnumField::Data, value: 8 })
    );
}

#[test]
fn class_none_is_a_legal_identification() {
    let bytes = ident_bytes(0, 0, 0, 0, 0);
    let mut io = ByteSource::new(&bytes);
    assert_eq!(EIdentStruct::from_io(&mut io), Ok(EIdentStruct::default()));
}

#[test]
fn default_ident_has_the_magic() {
    let d = EIdentStruct::default();
    assert_eq!(d.magic, [0x7f, 0x45, 0x4c, 0x46]);
    assert_eq!(d.class, EiClass::ElfClassNone);
    assert_eq!(d.endianness, EiData::ElfDataNone);
    assert_eq!(d.version, EiVersion::EvNone);
    assert_eq!(d.osabi, EiOsabi::ElfOsabiNONE);
    assert_eq!(d.abi_version, 0);
}

#[test]
fn read_results_turn_into_decode_results() {
    assert_eq!(complete(Some(7u16), Structure::Header), Ok(7));
    assert_eq!(
        complete(None::<u16>, Structure::Header),
        Err(DecodeError::Truncated { structure: Structure::Header })
    );
    assert_eq!(known(Some(EiClass::ElfClass32), EnumField::Class, 1), Ok(EiClass::ElfClass32));
    assert_eq!(
        known(None::<EiClass>, EnumField::Class, 9),
        Err(DecodeError::InvalidEnumerant { field: EnumField::Class, value: 9 })
    );
    assert_eq!(present(Some(3usize), Structure::GnuStack), Ok(3));
    assert_eq!(
        present(None::<usize>, Structure::GnuStack),
        Err(DecodeError::Missing { structure: Structure::GnuStack })
    );
}
