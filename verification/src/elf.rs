//! The decoded file: header, program header table and section header table
//! together, for either word size, and the entry point that picks the word
//! size from the class byte.

use vstd::prelude::*;
use crate::error::{complete, known, DecodeError, EnumField, Structure};
use crate::header::{Elf32Ehdr, Elf64Ehdr, EHDR32_SIZE, EHDR64_SIZE};
use crate::ident::{is_magic, EIdentStruct, EiClass, ELF_MAGIC};
use crate::program::{Elf32Phdr, Elf64Phdr};
use crate::reader::{read_u8, ByteSource};
use crate::section::{Elf32Shdr, Elf64Shdr};
use crate::table::{
    decode_table, entry_at, lemma_table_roundtrip, spec_table, table_encoded_at,
};

verus! {

/// A decoded 64-bit file.
#[derive(Debug, PartialEq, Eq)]
pub struct ELF64 {
    /// The header of the file.
    pub header: Elf64Ehdr,
    /// The program header table, in file order.
    pub pht: Vec<Elf64Phdr>,
    /// The section header table, in file order.
    pub sht: Vec<Elf64Shdr>,
}

/// What an [`ELF64`] stands for: the header and the entries of both tables.
pub struct Elf64Image {
    pub header: Elf64Ehdr,
    pub pht: Seq<Elf64Phdr>,
    pub sht: Seq<Elf64Shdr>,
}

impl View for ELF64 {
    type V = Elf64Image;

    open spec fn view(&self) -> Elf64Image {
        Elf64Image { header: self.header, pht: self.pht@, sht: self.sht@ }
    }
}

impl Elf64Image {
    /// True where `s` is a file made from this image: the header lies encoded
    /// at its start, and each table, with as many entries as the header
    /// states, lies encoded at the offset the header gives.
    pub open spec fn encoded_in(self, s: Seq<u8>) -> bool {
        &&& self.header.e_ident.magic == ELF_MAGIC
        &&& EHDR64_SIZE <= s.len()
        &&& s.subrange(0, EHDR64_SIZE as int) == self.header.encoding()
        &&& self.pht.len() == self.header.e_phnum
        &&& table_encoded_at(self.pht, s, self.header.e_phoff as int)
        &&& self.sht.len() == self.header.e_shnum
        &&& table_encoded_at(self.sht, s, self.header.e_shoff as int)
    }
}

impl ELF64 {
    /// What decoding the file `s` yields: the header from offset 0, then the
    /// `e_phnum` program header entries from `e_phoff` on, then the `e_shnum`
    /// section header entries from `e_shoff` on. The first failure on the way
    /// is the result.
    pub open spec fn spec_load(s: Seq<u8>) -> Result<Elf64Image, DecodeError> {
        match Elf64Ehdr::spec_decode(s, 0) {
            Err(e) => Err(e),
            Ok(header) => match spec_table::<Elf64Phdr>(
                s,
                header.e_phoff as int,
                header.e_phnum as nat,
            ) {
                Err(e) => Err(e),
                Ok(pht) => match spec_table::<Elf64Shdr>(
                    s,
                    header.e_shoff as int,
                    header.e_shnum as nat,
                ) {
                    Err(e) => Err(e),
                    Ok(sht) => Ok(Elf64Image { header, pht, sht }),
                },
            },
        }
    }

    /// Decodes a whole 64-bit file, whatever the cursor's position.
    ///
    /// On success each table has as many entries as the header states, none
    /// where it states 0, and entry `i` is what lies `i` entries behind the
    /// table's offset; the cursor stands behind the last section header
    /// entry. On failure the cursor has not moved.
    pub fn load(io: &mut ByteSource) -> (r: Result<ELF64, DecodeError>)
        ensures
            final(io)@.bytes == old(io)@.bytes,
            match r {
                Ok(elf) => {
                    &&& Self::spec_load(old(io)@.bytes) == Ok::<Elf64Image, DecodeError>(elf@)
                    &&& elf@.pht.len() == elf@.header.e_phnum
                    &&& forall|i: int|
                        0 <= i < elf@.pht.len() ==> Elf64Phdr::spec_decode(
                            old(io)@.bytes,
                            #[trigger] entry_at::<Elf64Phdr>(elf@.header.e_phoff as int, i),
                        ) == Ok::<Elf64Phdr, DecodeError>(elf@.pht[i])
                    &&& elf@.sht.len() == elf@.header.e_shnum
                    &&& forall|i: int|
                        0 <= i < elf@.sht.len() ==> Elf64Shdr::spec_decode(
                            old(io)@.bytes,
                            #[trigger] entry_at::<Elf64Shdr>(elf@.header.e_shoff as int, i),
                        ) == Ok::<Elf64Shdr, DecodeError>(elf@.sht[i])
                    &&& final(io)@.pos == entry_at::<Elf64Shdr>(
                        elf@.header.e_shoff as int,
                        elf@.header.e_shnum as int,
                    )
                },
                Err(e) => {
                    &&& Self::spec_load(old(io)@.bytes) == Err::<Elf64Image, DecodeError>(e)
                    &&& final(io)@.pos == old(io)@.pos
                },
            },
            old(io)@.bytes.len() >= 4 && !EIdentStruct::magic_at(old(io)@.bytes, 0) ==> r == Err::<
                ELF64,
                DecodeError,
            >(DecodeError::BadMagic),
    {
        let mut cur: ByteSource = *io;
        cur.seek(0);
        let header = Elf64Ehdr::from_io(&mut cur)?;
        let pht = decode_table::<Elf64Phdr>(&mut cur, header.e_phoff, header.e_phnum)?;
        let sht = decode_table::<Elf64Shdr>(&mut cur, header.e_shoff, header.e_shnum)?;
        *io = cur;
        Ok(ELF64 { header, pht, sht })
    }

    /// Decoding gives back the image that a file was made from: the header
    /// field by field, and both tables entry by entry in file order.
    pub proof fn lemma_load_roundtrip(m: Elf64Image, s: Seq<u8>)
        requires
            m.encoded_in(s),
        ensures
            Self::spec_load(s) == Ok::<Elf64Image, DecodeError>(m),
    {
        Elf64Ehdr::lemma_decode_encoding(m.header, s, 0);
        lemma_table_roundtrip::<Elf64Phdr>(m.pht, s, m.header.e_phoff as int);
        lemma_table_roundtrip::<Elf64Shdr>(m.sht, s, m.header.e_shoff as int);
    }
}

impl Default for ELF64 {
    /// A default header and two empty tables.
    fn default() -> (r: Self)
        ensures
            r.header == Elf64Ehdr::spec_default(),
            r.pht@.len() == 0,
            r.sht@.len() == 0,
    {
        ELF64 { header: Elf64Ehdr::default(), pht: Vec::new(), sht: Vec::new() }
    }
}

/// A decoded 32-bit file.
#[derive(Debug, PartialEq, Eq)]
pub struct ELF32 {
    /// The header of the file.
    pub header: Elf32Ehdr,
    /// The program header table, in file order.
    pub pht: Vec<Elf32Phdr>,
    /// The section header table, in file order.
    pub sht: Vec<Elf32Shdr>,
}

/// What an [`ELF32`] stands for: the header and the entries of both tables.
pub struct Elf32Image {
    pub header: Elf32Ehdr,
    pub pht: Seq<Elf32Phdr>,
    pub sht: Seq<Elf32Shdr>,
}

impl View for ELF32 {
    type V = Elf32Image;

    open spec fn view(&self) -> Elf32Image {
        Elf32Image { header: self.header, pht: self.pht@, sht: self.sht@ }
    }
}

impl Elf32Image {
    /// True where `s` is a file made from this image: the header lies encoded
    /// at its start, and each table, with as many entries as the header
    /// states, lies encoded at the offset the header gives.
    pub open spec fn encoded_in(self, s: Seq<u8>) -> bool {
        &&& self.header.e_ident.magic == ELF_MAGIC
        &&& EHDR32_SIZE <= s.len()
        &&& s.subrange(0, EHDR32_SIZE as int) == self.header.encoding()
        &&& self.pht.len() == self.header.e_phnum
        &&& table_encoded_at(self.pht, s, self.header.e_phoff as int)
        &&& self.sht.len() == self.header.e_shnum
        &&& table_encoded_at(self.sht, s, self.header.e_shoff as int)
    }
}

impl ELF32 {
    /// What decoding the file `s` yields: the header from offset 0, then the
    /// `e_phnum` program header entries from `e_phoff` on, then the `e_shnum`
    /// section header entries from `e_shoff` on. The first failure on the way
    /// is the result.
    pub open spec fn spec_load(s: Seq<u8>) -> Result<Elf32Image, DecodeError> {
        match Elf32Ehdr::spec_decode(s, 0) {
            Err(e) => Err(e),
            Ok(header) => match spec_table::<Elf32Phdr>(
                s,
                header.e_phoff as int,
                header.e_phnum as nat,
            ) {
                Err(e) => Err(e),
                Ok(pht) => match spec_table::<Elf32Shdr>(
                    s,
                    header.e_shoff as int,
                    header.e_shnum as nat,
                ) {
                    Err(e) => Err(e),
                    Ok(sht) => Ok(Elf32Image { header, pht, sht }),
                },
            },
        }
    }

    /// Decodes a whole 32-bit file, whatever the cursor's position.
    ///
    /// On success each table has as many entries as the header states, none
    /// where it states 0, and entry `i` is what lies `i` entries behind the
    /// table's offset; the cursor stands behind the last section header
    /// entry. On failure the cursor has not moved.
    pub fn load(io: &mut ByteSource) -> (r: Result<ELF32, DecodeError>)
        ensures
            final(io)@.bytes == old(io)@.bytes,
            match r {
                Ok(elf) => {
                    &&& Self::spec_load(old(io)@.bytes) == Ok::<Elf32Image, DecodeError>(elf@)
                    &&& elf@.pht.len() == elf@.header.e_phnum
                    &&& forall|i: int|
                        0 <= i < elf@.pht.len() ==> Elf32Phdr::spec_decode(
                            old(io)@.bytes,
                            #[trigger] entry_at::<Elf32Phdr>(elf@.header.e_phoff as int, i),
                        ) == Ok::<Elf32Phdr, DecodeError>(elf@.pht[i])
                    &&& elf@.sht.len() == elf@.header.e_shnum
                    &&& forall|i: int|
                        0 <= i < elf@.sht.len() ==> Elf32Shdr::spec_decode(
                            old(io)@.bytes,
                            #[trigger] entry_at::<Elf32Shdr>(elf@.header.e_shoff as int, i),
                        ) == Ok::<Elf32Shdr, DecodeError>(elf@.sht[i])
                    &&& final(io)@.pos == entry_at::<Elf32Shdr>(
                        elf@.header.e_shoff as int,
                        elf@.header.e_shnum as int,
                    )
                },
                Err(e) => {
                    &&& Self::spec_load(old(io)@.bytes) == Err::<Elf32Image, DecodeError>(e)
                    &&& final(io)@.pos == old(io)@.pos
                },
            },
            old(io)@.bytes.len() >= 4 && !EIdentStruct::magic_at(old(io)@.bytes, 0) ==> r == Err::<
                ELF32,
                DecodeError,
            >(DecodeError::BadMagic),
    {
        let mut cur: ByteSource = *io;
        cur.seek(0);
        let header = Elf32Ehdr::from_io(&mut cur)?;
        let pht = decode_table::<Elf32Phdr>(&mut cur, header.e_phoff as u64, header.e_phnum)?;
        let sht = decode_table::<Elf32Shdr>(&mut cur, header.e_shoff as u64, header.e_shnum)?;
        *io = cur;
        Ok(ELF32 { header, pht, sht })
    }

    /// Decoding gives back the image that a file was made from: the header
    /// field by field, and both tables entry by entry in file order.
    pub proof fn lemma_load_roundtrip(m: Elf32Image, s: Seq<u8>)
        requires
            m.encoded_in(s),
        ensures
            Self::spec_load(s) == Ok::<Elf32Image, DecodeError>(m),
    {
        Elf32Ehdr::lemma_decode_encoding(m.header, s, 0);
        lemma_table_roundtrip::<Elf32Phdr>(m.pht, s, m.header.e_phoff as int);
        lemma_table_roundtrip::<Elf32Shdr>(m.sht, s, m.header.e_shoff as int);
    }
}

impl Default for ELF32 {
    /// A default header and two empty tables.
    fn default() -> (r: Self)
        ensures
            r.header == Elf32Ehdr::spec_default(),
            r.pht@.len() == 0,
            r.sht@.len() == 0,
    {
        ELF32 { header: Elf32Ehdr::default(), pht: Vec::new(), sht: Vec::new() }
    }
}

/// A decoded file of either word size.
#[derive(Debug, PartialEq, Eq)]
pub enum DecodedElf {
    Elf32(ELF32),
    Elf64(ELF64),
}

/// What a [`DecodedElf`] stands for.
pub enum DecodedImage {
    Elf32(Elf32Image),
    Elf64(Elf64Image),
}

impl View for DecodedElf {
    type V = DecodedImage;

    open spec fn view(&self) -> DecodedImage {
        match self {
            DecodedElf::Elf32(e) => DecodedImage::Elf32(e@),
            DecodedElf::Elf64(e) => DecodedImage::Elf64(e@),
        }
    }
}

/// What decoding the file `s` yields.
///
/// The magic number is checked first. The byte at offset 4 then picks the
/// decoder: 1 the 32-bit one, 2 the 64-bit one. The class "none" has no
/// decoder, and any other byte is no class at all.
pub open spec fn spec_decode(s: Seq<u8>) -> Result<DecodedImage, DecodeError> {
    if s.len() < 4 {
        Err(DecodeError::Truncated { structure: Structure::Ident })
    } else if !EIdentStruct::magic_at(s, 0) {
        Err(DecodeError::BadMagic)
    } else if s.len() < 5 {
        Err(DecodeError::Truncated { structure: Structure::Ident })
    } else {
        match EiClass::of_tag(s[4]) {
            None => Err(
                DecodeError::InvalidEnumerant { field: EnumField::Class, value: s[4] as u32 },
            ),
            Some(EiClass::ElfClassNone) => Err(
                DecodeError::Unsupported { field: EnumField::Class, value: s[4] as u32 },
            ),
            Some(EiClass::ElfClass32) => match ELF32::spec_load(s) {
                Err(e) => Err(e),
                Ok(image) => Ok(DecodedImage::Elf32(image)),
            },
            Some(EiClass::ElfClass64) => match ELF64::spec_load(s) {
                Err(e) => Err(e),
                Ok(image) => Ok(DecodedImage::Elf64(image)),
            },
        }
    }
}

/// Decodes a whole file, whatever the cursor's position, with the decoder that
/// the class byte asks for.
///
/// A file comes out as 64-bit only where its class byte is 2 and as 32-bit
/// only where it is 1; with any other class byte the decode fails. On success
/// the cursor stands behind the last section header entry; on failure it has
/// not moved.
pub fn decode(io: &mut ByteSource) -> (r: Result<DecodedElf, DecodeError>)
    ensures
        final(io)@.bytes == old(io)@.bytes,
        match r {
            Ok(elf) => spec_decode(old(io)@.bytes) == Ok::<DecodedImage, DecodeError>(elf@),
            Err(e) => {
                &&& spec_decode(old(io)@.bytes) == Err::<DecodedImage, DecodeError>(e)
                &&& final(io)@.pos == old(io)@.pos
            },
        },
        r matches Ok(DecodedElf::Elf64(elf)) ==> {
            &&& old(io)@.bytes[4] == 2
            &&& ELF64::spec_load(old(io)@.bytes) == Ok::<Elf64Image, DecodeError>(elf@)
            &&& final(io)@.pos == entry_at::<Elf64Shdr>(
                elf@.header.e_shoff as int,
                elf@.header.e_shnum as int,
            )
        },
        r matches Ok(DecodedElf::Elf32(elf)) ==> {
            &&& old(io)@.bytes[4] == 1
            &&& ELF32::spec_load(old(io)@.bytes) == Ok::<Elf32Image, DecodeError>(elf@)
            &&& final(io)@.pos == entry_at::<Elf32Shdr>(
                elf@.header.e_shoff as int,
                elf@.header.e_shnum as int,
            )
        },
        old(io)@.bytes.len() >= 5 && old(io)@.bytes[4] != 1 && old(io)@.bytes[4] != 2 ==> r is Err,
        old(io)@.bytes.len() >= 4 && !EIdentStruct::magic_at(old(io)@.bytes, 0) ==> r == Err::<
            DecodedElf,
            DecodeError,
        >(DecodeError::BadMagic),
{
    let mut cur: ByteSource = *io;
    cur.seek(0);
    let magic = complete(cur.read_bytes(4), Structure::Ident)?;
    if !is_magic(magic) {
        return Err(DecodeError::BadMagic);
    }
    let class_byte = complete(read_u8(&mut cur), Structure::Ident)?;
    let class = known(EiClass::from_u8(class_byte), EnumField::Class, class_byte as u32)?;
    let elf = match class {
        EiClass::ElfClassNone => {
            return Err(
                DecodeError::Unsupported { field: EnumField::Class, value: class_byte as u32 },
            );
        },
        EiClass::ElfClass32 => DecodedElf::Elf32(ELF32::load(&mut cur)?),
        EiClass::ElfClass64 => DecodedElf::Elf64(ELF64::load(&mut cur)?),
    };
    *io = cur;
    Ok(elf)
}

/// Decoding gives back the image a file was made from, through the decoder of
/// the image's own class: a file made from a 64-bit image whose class is
/// 64-bit decodes to that image.
pub proof fn lemma_decode_roundtrip_64(m: Elf64Image, s: Seq<u8>)
    requires
        m.encoded_in(s),
        m.header.e_ident.class == EiClass::ElfClass64,
    ensures
        spec_decode(s) == Ok::<DecodedImage, DecodeError>(DecodedImage::Elf64(m)),
{
    ELF64::lemma_load_roundtrip(m, s);
    EiClass::lemma_of_tag(EiClass::ElfClass64);
}

/// Decoding gives back the image a file was made from, through the decoder of
/// the image's own class: a file made from a 32-bit image whose class is
/// 32-bit decodes to that image.
pub proof fn lemma_decode_roundtrip_32(m: Elf32Image, s: Seq<u8>)
    requires
        m.encoded_in(s),
        m.header.e_ident.class == EiClass::ElfClass32,
    ensures
        spec_decode(s) == Ok::<DecodedImage, DecodeError>(DecodedImage::Elf32(m)),
{
    ELF32::lemma_load_roundtrip(m, s);
    EiClass::lemma_of_tag(EiClass::ElfClass32);
}

} // verus!
