//! The ELF header: the fixed-size record behind the identification block that
//! says what the file is and where its two tables lie.

use vstd::prelude::*;
use crate::error::{complete, known, DecodeError, EnumField, Structure};
use crate::ident::{EIdentStruct, ELF_MAGIC};
use crate::reader::{
    avail, le_u16, le_u32, le_u64, lemma_le_u16_of_encoding, lemma_le_u32_of_encoding,
    lemma_le_u64_of_encoding, lemma_split, read_u16, read_u32, read_u64, u16_le, u32_le, u64_le,
    ByteSource,
};

verus! {

/// Kind of object file.
#[derive(Debug, Clone, Copy, PartialEq, Eq, Structural)]
pub enum EType {
    /// No type.
    EtNone,
    /// Relocatable file.
    EtRel,
    /// Executable linked for a fixed address.
    EtExec,
    /// Shared object, or an executable that can be loaded anywhere.
    EtDyn,
    /// Core dump.
    EtCore,
}

impl EType {
    /// The number that stands for this object type in a file.
    pub open spec fn tag(self) -> u16 {
        match self {
            EType::EtNone => 0,
            EType::EtRel => 1,
            EType::EtExec => 2,
            EType::EtDyn => 3,
            EType::EtCore => 4,
        }
    }

    /// The object type that `v` stands for, if it stands for one.
    pub open spec fn of_tag(v: u16) -> Option<EType> {
        if exists|e: EType| e.tag() == v {
            Some(choose|e: EType| e.tag() == v)
        } else {
            None
        }
    }

    /// Every object type is found again from its own number.
    pub proof fn lemma_of_tag(e: EType)
        ensures
            Self::of_tag(e.tag()) == Some(e),
    {
    }

    /// The object type that `v` stands for; `None` where `v` is no known number.
    pub fn from_u16(v: u16) -> (r: Option<EType>)
        ensures
            r == Self::of_tag(v),
            match r {
                Some(e) => e.tag() == v,
                None => forall|e: EType| e.tag() != v,
            },
    {
        let r = match v {
            0 => Some(EType::EtNone),
            1 => Some(EType::EtRel),
            2 => Some(EType::EtExec),
            3 => Some(EType::EtDyn),
            4 => Some(EType::EtCore),
            _ => None,
        };
        proof {
            if let Some(e) = r {
                Self::lemma_of_tag(e);
            }
        }
        r
    }

    /// The number that stands for this object type in a file.
    pub fn to_u16(&self) -> (v: u16)
        ensures
            v == self.tag(),
    {
        match self {
            EType::EtNone => 0,
            EType::EtRel => 1,
            EType::EtExec => 2,
            EType::EtDyn => 3,
            EType::EtCore => 4,
        }
    }
}

/// Architecture the file was built for.
#[allow(non_camel_case_types)]
#[derive(Debug, Clone, Copy, PartialEq, Eq, Structural)]
pub enum EMachine {
    EmNone,
    EmM32,
    EmSparc,
    Em386,
    Em68K,
    Em88K,
    Em860,
    EmMips,
    EmPAriscV,
    EmSparc32Plus,
    EmPPC,
    EmPPC64,
    EmS390,
    EmARM,
    EmSH,
    EmSPARCv9,
    EmIA64,
    Emx86_64,
    EmVax,
    EmRISCV,
}

impl EMachine {
    /// The number that stands for this machine in a file.
    pub open spec fn tag(self) -> u16 {
        match self {
            EMachine::EmNone => 0,
            EMachine::EmM32 => 1,
            EMachine::EmSparc => 2,
            EMachine::Em386 => 3,
            EMachine::Em68K => 4,
            EMachine::Em88K => 5,
            EMachine::Em860 => 7,
            EMachine::EmMips => 8,
            EMachine::EmPAriscV => 15,
            EMachine::EmSparc32Plus => 18,
            EMachine::EmPPC => 20,
            EMachine::EmPPC64 => 21,
            EMachine::EmS390 => 22,
            EMachine::EmARM => 40,
            EMachine::EmSH => 42,
            EMachine::EmSPARCv9 => 43,
            EMachine::EmIA64 => 50,
            EMachine::Emx86_64 => 62,
            EMachine::EmVax => 75,
            EMachine::EmRISCV => 243,
        }
    }

    /// The machine that `v` stands for, if it stands for one.
    pub open spec fn of_tag(v: u16) -> Option<EMachine> {
        if exists|e: EMachine| e.tag() == v {
            Some(choose|e: EMachine| e.tag() == v)
        } else {
            None
        }
    }

    /// Every machine is found again from its own number.
    pub proof fn lemma_of_tag(e: EMachine)
        ensures
            Self::of_tag(e.tag()) == Some(e),
    {
    }

    /// The machine that `v` stands for; `None` where `v` is no known number.
    pub fn from_u16(v: u16) -> (r: Option<EMachine>)
        ensures
            r == Self::of_tag(v),
            match r {
                Some(e) => e.tag() == v,
                None => forall|e: EMachine| e.tag() != v,
            },
    {
        let r = match v {
            0 => Some(EMachine::EmNone),
            1 => Some(EMachine::EmM32),
            2 => Some(EMachine::EmSparc),
            3 => Some(EMachine::Em386),
            4 => Some(EMachine::Em68K),
            5 => Some(EMachine::Em88K),
            7 => Some(EMachine::Em860),
            8 => Some(EMachine::EmMips),
            15 => Some(EMachine::EmPAriscV),
            18 => Some(EMachine::EmSparc32Plus),
            20 => Some(EMachine::EmPPC),
            21 => Some(EMachine::EmPPC64),
            22 => Some(EMachine::EmS390),
            40 => Some(EMachine::EmARM),
            42 => Some(EMachine::EmSH),
            43 => Some(EMachine::EmSPARCv9),
            50 => Some(EMachine::EmIA64),
            62 => Some(EMachine::Emx86_64),
            75 => Some(EMachine::EmVax),
            243 => Some(EMachine::EmRISCV),
            _ => None,
        };
        proof {
            if let Some(e) = r {
                Self::lemma_of_tag(e);
            }
        }
        r
    }

    /// The number that stands for this machine in a file.
    pub fn to_u16(&self) -> (v: u16)
        ensures
            v == self.tag(),
    {
        match self {
            EMachine::EmNone => 0,
            EMachine::EmM32 => 1,
            EMachine::EmSparc => 2,
            EMachine::Em386 => 3,
            EMachine::Em68K => 4,
            EMachine::Em88K => 5,
            EMachine::Em860 => 7,
            EMachine::EmMips => 8,
            EMachine::EmPAriscV => 15,
            EMachine::EmSparc32Plus => 18,
            EMachine::EmPPC => 20,
            EMachine::EmPPC64 => 21,
            EMachine::EmS390 => 22,
            EMachine::EmARM => 40,
            EMachine::EmSH => 42,
            EMachine::EmSPARCv9 => 43,
            EMachine::EmIA64 => 50,
            EMachine::Emx86_64 => 62,
            EMachine::EmVax => 75,
            EMachine::EmRISCV => 243,
        }
    }
}

/// Version of the header.
#[derive(Debug, Clone, Copy, PartialEq, Eq, Structural)]
pub enum EVersion {
    EvNone,
    EvCurrent,
    EvNum,
}

impl EVersion {
    /// The number that stands for this header version in a file.
    pub open spec fn tag(self) -> u32 {
        match self {
            EVersion::EvNone => 0,
            EVersion::EvCurrent => 1,
            EVersion::EvNum => 2,
        }
    }

    /// The header version that `v` stands for, if it stands for one.
    pub open spec fn of_tag(v: u32) -> Option<EVersion> {
        if exists|e: EVersion| e.tag() == v {
            Some(choose|e: EVersion| e.tag() == v)
        } else {
            None
        }
    }

    /// Every header version is found again from its own number.
    pub proof fn lemma_of_tag(e: EVersion)
        ensures
            Self::of_tag(e.tag()) == Some(e),
    {
    }

    /// The header version that `v` stands for; `None` where `v` is no known number.
    pub fn from_u32(v: u32) -> (r: Option<EVersion>)
        ensures
            r == Self::of_tag(v),
            match r {
                Some(e) => e.tag() == v,
                None => forall|e: EVersion| e.tag() != v,
            },
    {
        let r = match v {
            0 => Some(EVersion::EvNone),
            1 => Some(EVersion::EvCurrent),
            2 => Some(EVersion::EvNum),
            _ => None,
        };
        proof {
            if let Some(e) = r {
                Self::lemma_of_tag(e);
            }
        }
        r
    }

    /// The number that stands for this header version in a file.
    pub fn to_u32(&self) -> (v: u32)
        ensures
            v == self.tag(),
    {
        match self {
            EVersion::EvNone => 0,
            EVersion::EvCurrent => 1,
            EVersion::EvNum => 2,
        }
    }
}

/// Size of the header of a 64-bit file in bytes.
pub const EHDR64_SIZE: u64 = 64;

/// Header of a 64-bit file.
#[derive(Debug, Clone, Copy, PartialEq, Eq)]
pub struct Elf64Ehdr {
    /// The identification block the file opens with.
    pub e_ident: EIdentStruct,
    /// What kind of object file this is.
    pub e_type: EType,
    /// Architecture the file was built for.
    pub e_machine: EMachine,
    /// Version of the header.
    pub e_version: EVersion,
    /// Address at which execution starts.
    pub e_entry: u64,
    /// File offset of the program header table.
    pub e_phoff: u64,
    /// File offset of the section header table.
    pub e_shoff: u64,
    /// Processor-specific flags.
    pub e_flags: u32,
    /// Size of this header as the file states it.
    pub e_ehsize: u16,
    /// Size of one program header entry as the file states it.
    pub e_phentsize: u16,
    /// Number of entries in the program header table.
    pub e_phnum: u16,
    /// Size of one section header entry as the file states it.
    pub e_shentsize: u16,
    /// Number of entries in the section header table.
    pub e_shnum: u16,
    /// Index of the section header entry whose section holds the section names.
    pub e_shstrndx: u16,
}

impl Elf64Ehdr {
    /// What decoding the bytes of `s` from `at` on yields.
    ///
    /// The fields lie in the order of the declaration, each least significant
    /// byte first. A field that holds a tag is checked as soon as its bytes are
    /// there, before anything behind it is looked at.
    pub open spec fn spec_decode(s: Seq<u8>, at: int) -> Result<Elf64Ehdr, DecodeError> {
        match EIdentStruct::spec_decode(s, at) {
            Err(e) => Err(e),
            Ok(ident) => {
                if avail(s, at) < 18 {
                    Err(DecodeError::Truncated { structure: Structure::Header })
                } else if EType::of_tag(le_u16(s, at + 16)) is None {
                    Err(
                        DecodeError::InvalidEnumerant {
                            field: EnumField::ObjectType,
                            value: le_u16(s, at + 16) as u32,
                        },
                    )
                } else if avail(s, at) < 20 {
                    Err(DecodeError::Truncated { structure: Structure::Header })
                } else if EMachine::of_tag(le_u16(s, at + 18)) is None {
                    Err(
                        DecodeError::InvalidEnumerant {
                            field: EnumField::Machine,
                            value: le_u16(s, at + 18) as u32,
                        },
                    )
                } else if avail(s, at) < 24 {
                    Err(DecodeError::Truncated { structure: Structure::Header })
                } else if EVersion::of_tag(le_u32(s, at + 20)) is None {
                    Err(
                        DecodeError::InvalidEnumerant {
                            field: EnumField::Version,
                            value: le_u32(s, at + 20),
                        },
                    )
                } else if avail(s, at) < EHDR64_SIZE {
                    Err(DecodeError::Truncated { structure: Structure::Header })
                } else {
                    Ok(
                        Elf64Ehdr {
                            e_ident: ident,
                            e_type: EType::of_tag(le_u16(s, at + 16))->0,
                            e_machine: EMachine::of_tag(le_u16(s, at + 18))->0,
                            e_version: EVersion::of_tag(le_u32(s, at + 20))->0,
                            e_entry: le_u64(s, at + 24),
                            e_phoff: le_u64(s, at + 32),
                            e_shoff: le_u64(s, at + 40),
                            e_flags: le_u32(s, at + 48),
                            e_ehsize: le_u16(s, at + 52),
                            e_phentsize: le_u16(s, at + 54),
                            e_phnum: le_u16(s, at + 56),
                            e_shentsize: le_u16(s, at + 58),
                            e_shnum: le_u16(s, at + 60),
                            e_shstrndx: le_u16(s, at + 62),
                        },
                    )
                }
            },
        }
    }

    /// The 64 bytes that stand for this value in a file.
    pub open spec fn encoding(self) -> Seq<u8> {
        self.e_ident.encoding()
            + u16_le(self.e_type.tag())
            + u16_le(self.e_machine.tag())
            + u32_le(self.e_version.tag())
            + u64_le(self.e_entry)
            + u64_le(self.e_phoff)
            + u64_le(self.e_shoff)
            + u32_le(self.e_flags)
            + u16_le(self.e_ehsize)
            + u16_le(self.e_phentsize)
            + u16_le(self.e_phnum)
            + u16_le(self.e_shentsize)
            + u16_le(self.e_shnum)
            + u16_le(self.e_shstrndx)
    }

    /// Decodes the header of a 64-bit file at the cursor.
    ///
    /// On success the cursor has moved behind the 64 bytes read; on failure
    /// it has not moved.
    pub fn from_io(io: &mut ByteSource) -> (r: Result<Elf64Ehdr, DecodeError>)
        ensures
            r == Self::spec_decode(old(io)@.bytes, old(io)@.pos as int),
            final(io)@.bytes == old(io)@.bytes,
            r is Ok ==> final(io)@.pos == old(io)@.pos + EHDR64_SIZE,
            r is Err ==> final(io)@.pos == old(io)@.pos,
            avail(old(io)@.bytes, old(io)@.pos as int) >= 4 && !EIdentStruct::magic_at(
                old(io)@.bytes,
                old(io)@.pos as int,
            ) ==> r == Err::<Elf64Ehdr, DecodeError>(DecodeError::BadMagic),
    {
        let mut cur: ByteSource = *io;
        let e_ident = EIdentStruct::from_io(&mut cur)?;
        let raw = complete(read_u16(&mut cur), Structure::Header)?;
        let e_type = known(EType::from_u16(raw), EnumField::ObjectType, raw as u32)?;
        let raw = complete(read_u16(&mut cur), Structure::Header)?;
        let e_machine = known(EMachine::from_u16(raw), EnumField::Machine, raw as u32)?;
        let raw = complete(read_u32(&mut cur), Structure::Header)?;
        let e_version = known(EVersion::from_u32(raw), EnumField::Version, raw)?;
        let e_entry = complete(read_u64(&mut cur), Structure::Header)?;
        let e_phoff = complete(read_u64(&mut cur), Structure::Header)?;
        let e_shoff = complete(read_u64(&mut cur), Structure::Header)?;
        let e_flags = complete(read_u32(&mut cur), Structure::Header)?;
        let e_ehsize = complete(read_u16(&mut cur), Structure::Header)?;
        let e_phentsize = complete(read_u16(&mut cur), Structure::Header)?;
        let e_phnum = complete(read_u16(&mut cur), Structure::Header)?;
        let e_shentsize = complete(read_u16(&mut cur), Structure::Header)?;
        let e_shnum = complete(read_u16(&mut cur), Structure::Header)?;
        let e_shstrndx = complete(read_u16(&mut cur), Structure::Header)?;
        *io = cur;
        Ok(
            Elf64Ehdr {
                e_ident,
                e_type,
                e_machine,
                e_version,
                e_entry,
                e_phoff,
                e_shoff,
                e_flags,
                e_ehsize,
                e_phentsize,
                e_phnum,
                e_shentsize,
                e_shnum,
                e_shstrndx,
            },
        )
    }

    /// Decoding gives back the value that a run of bytes was made from: where
    /// the 64 bytes of `s` from `at` on are the encoding of `m`, decoding
    /// there yields `m`, every field as it was.
    pub proof fn lemma_decode_encoding(m: Elf64Ehdr, s: Seq<u8>, at: int)
        requires
            m.e_ident.magic == ELF_MAGIC,
            0 <= at,
            at + EHDR64_SIZE <= s.len(),
            s.subrange(at, at + EHDR64_SIZE) == m.encoding(),
        ensures
            Self::spec_decode(s, at) == Ok::<Elf64Ehdr, DecodeError>(m),
    {
        let b0 = m.e_ident.encoding();
        let b1 = b0 + u16_le(m.e_type.tag());
        let b2 = b1 + u16_le(m.e_machine.tag());
        let b3 = b2 + u32_le(m.e_version.tag());
        let b4 = b3 + u64_le(m.e_entry);
        let b5 = b4 + u64_le(m.e_phoff);
        let b6 = b5 + u64_le(m.e_shoff);
        let b7 = b6 + u32_le(m.e_flags);
        let b8 = b7 + u16_le(m.e_ehsize);
        let b9 = b8 + u16_le(m.e_phentsize);
        let b10 = b9 + u16_le(m.e_phnum);
        let b11 = b10 + u16_le(m.e_shentsize);
        let b12 = b11 + u16_le(m.e_shnum);
        let b13 = b12 + u16_le(m.e_shstrndx);
        assert(m.encoding() == b13);
        lemma_split(s, at, b12, u16_le(m.e_shstrndx));
        lemma_split(s, at, b11, u16_le(m.e_shnum));
        lemma_split(s, at, b10, u16_le(m.e_shentsize));
        lemma_split(s, at, b9, u16_le(m.e_phnum));
        lemma_split(s, at, b8, u16_le(m.e_phentsize));
        lemma_split(s, at, b7, u16_le(m.e_ehsize));
        lemma_split(s, at, b6, u32_le(m.e_flags));
        lemma_split(s, at, b5, u64_le(m.e_shoff));
        lemma_split(s, at, b4, u64_le(m.e_phoff));
        lemma_split(s, at, b3, u64_le(m.e_entry));
        lemma_split(s, at, b2, u32_le(m.e_version.tag()));
        lemma_split(s, at, b1, u16_le(m.e_machine.tag()));
        lemma_split(s, at, b0, u16_le(m.e_type.tag()));
        EIdentStruct::lemma_decode_encoding(m.e_ident, s, at);
        lemma_le_u16_of_encoding(m.e_type.tag(), s, at + 16);
        EType::lemma_of_tag(m.e_type);
        lemma_le_u16_of_encoding(m.e_machine.tag(), s, at + 18);
        EMachine::lemma_of_tag(m.e_machine);
        lemma_le_u32_of_encoding(m.e_version.tag(), s, at + 20);
        EVersion::lemma_of_tag(m.e_version);
        lemma_le_u64_of_encoding(m.e_entry, s, at + 24);
        lemma_le_u64_of_encoding(m.e_phoff, s, at + 32);
        lemma_le_u64_of_encoding(m.e_shoff, s, at + 40);
        lemma_le_u32_of_encoding(m.e_flags, s, at + 48);
        lemma_le_u16_of_encoding(m.e_ehsize, s, at + 52);
        lemma_le_u16_of_encoding(m.e_phentsize, s, at + 54);
        lemma_le_u16_of_encoding(m.e_phnum, s, at + 56);
        lemma_le_u16_of_encoding(m.e_shentsize, s, at + 58);
        lemma_le_u16_of_encoding(m.e_shnum, s, at + 60);
        lemma_le_u16_of_encoding(m.e_shstrndx, s, at + 62);
    }

    /// A header with the magic number, every tag at zero and every number zero.
    pub open spec fn spec_default() -> Elf64Ehdr {
        Elf64Ehdr {
            e_ident: EIdentStruct::spec_default(),
            e_type: EType::EtNone,
            e_machine: EMachine::EmNone,
            e_version: EVersion::EvNone,
            e_entry: 0,
            e_phoff: 0,
            e_shoff: 0,
            e_flags: 0,
            e_ehsize: 0,
            e_phentsize: 0,
            e_phnum: 0,
            e_shentsize: 0,
            e_shnum: 0,
            e_shstrndx: 0,
        }
    }
}

impl Default for Elf64Ehdr {
    fn default() -> (r: Self)
        ensures
            r == Self::spec_default(),
    {
        Elf64Ehdr {
            e_ident: EIdentStruct::default(),
            e_type: EType::EtNone,
            e_machine: EMachine::EmNone,
            e_version: EVersion::EvNone,
            e_entry: 0,
            e_phoff: 0,
            e_shoff: 0,
            e_flags: 0,
            e_ehsize: 0,
            e_phentsize: 0,
            e_phnum: 0,
            e_shentsize: 0,
            e_shnum: 0,
            e_shstrndx: 0,
        }
    }
}

/// Size of the header of a 32-bit file in bytes.
pub const EHDR32_SIZE: u64 = 52;

/// Header of a 32-bit file.
#[derive(Debug, Clone, Copy, PartialEq, Eq)]
pub struct Elf32Ehdr {
    /// The identification block the file opens with.
    pub e_ident: EIdentStruct,
    /// What kind of object file this is.
    pub e_type: EType,
    /// Architecture the file was built for.
    pub e_machine: EMachine,
    /// Version of the header.
    pub e_version: EVersion,
    /// Address at which execution starts.
    pub e_entry: u32,
    /// File offset of the program header table.
    pub e_phoff: u32,
    /// File offset of the section header table.
    pub e_shoff: u32,
    /// Processor-specific flags.
    pub e_flags: u32,
    /// Size of this header as the file states it.
    pub e_ehsize: u16,
    /// Size of one program header entry as the file states it.
    pub e_phentsize: u16,
    /// Number of entries in the program header table.
    pub e_phnum: u16,
    /// Size of one section header entry as the file states it.
    pub e_shentsize: u16,
    /// Number of entries in the section header table.
    pub e_shnum: u16,
    /// Index of the section header entry whose section holds the section names.
    pub e_shstrndx: u16,
}

impl Elf32Ehdr {
    /// What decoding the bytes of `s` from `at` on yields.
    ///
    /// The fields lie in the order of the declaration, each least significant
    /// byte first. A field that holds a tag is checked as soon as its bytes are
    /// there, before anything behind it is looked at.
    pub open spec fn spec_decode(s: Seq<u8>, at: int) -> Result<Elf32Ehdr, DecodeError> {
        match EIdentStruct::spec_decode(s, at) {
            Err(e) => Err(e),
            Ok(ident) => {
                if avail(s, at) < 18 {
                    Err(DecodeError::Truncated { structure: Structure::Header })
                } else if EType::of_tag(le_u16(s, at + 16)) is None {
                    Err(
                        DecodeError::InvalidEnumerant {
                            field: EnumField::ObjectType,
                            value: le_u16(s, at + 16) as u32,
                        },
                    )
                } else if avail(s, at) < 20 {
                    Err(DecodeError::Truncated { structure: Structure::Header })
                } else if EMachine::of_tag(le_u16(s, at + 18)) is None {
                    Err(
                        DecodeError::InvalidEnumerant {
                            field: EnumField::Machine,
                            value: le_u16(s, at + 18) as u32,
                        },
                    )
                } else if avail(s, at) < 24 {
                    Err(DecodeError::Truncated { structure: Structure::Header })
                } else if EVersion::of_tag(le_u32(s, at + 20)) is None {
                    Err(
                        DecodeError::InvalidEnumerant {
                            field: EnumField::Version,
                            value: le_u32(s, at + 20),
                        },
                    )
                } else if avail(s, at) < EHDR32_SIZE {
                    Err(DecodeError::Truncated { structure: Structure::Header })
                } else {
                    Ok(
                        Elf32Ehdr {
                            e_ident: ident,
                            e_type: EType::of_tag(le_u16(s, at + 16))->0,
                            e_machine: EMachine::of_tag(le_u16(s, at + 18))->0,
                            e_version: EVersion::of_tag(le_u32(s, at + 20))->0,
                            e_entry: le_u32(s, at + 24),
                            e_phoff: le_u32(s, at + 28),
                            e_shoff: le_u32(s, at + 32),
                            e_flags: le_u32(s, at + 36),
                            e_ehsize: le_u16(s, at + 40),
                            e_phentsize: le_u16(s, at + 42),
                            e_phnum: le_u16(s, at + 44),
                            e_shentsize: le_u16(s, at + 46),
                            e_shnum: le_u16(s, at + 48),
                            e_shstrndx: le_u16(s, at + 50),
                        },
                    )
                }
            },
        }
    }

    /// The 52 bytes that stand for this value in a file.
    pub open spec fn encoding(self) -> Seq<u8> {
        self.e_ident.encoding()
            + u16_le(self.e_type.tag())
            + u16_le(self.e_machine.tag())
            + u32_le(self.e_version.tag())
            + u32_le(self.e_entry)
            + u32_le(self.e_phoff)
            + u32_le(self.e_shoff)
            + u32_le(self.e_flags)
            + u16_le(self.e_ehsize)
            + u16_le(self.e_phentsize)
            + u16_le(self.e_phnum)
            + u16_le(self.e_shentsize)
            + u16_le(self.e_shnum)
            + u16_le(self.e_shstrndx)
    }

    /// Decodes the header of a 32-bit file at the cursor.
    ///
    /// On success the cursor has moved behind the 52 bytes read; on failure
    /// it has not moved.
    pub fn from_io(io: &mut ByteSource) -> (r: Result<Elf32Ehdr, DecodeError>)
        ensures
            r == Self::spec_decode(old(io)@.bytes, old(io)@.pos as int),
            final(io)@.bytes == old(io)@.bytes,
            r is Ok ==> final(io)@.pos == old(io)@.pos + EHDR32_SIZE,
            r is Err ==> final(io)@.pos == old(io)@.pos,
            avail(old(io)@.bytes, old(io)@.pos as int) >= 4 && !EIdentStruct::magic_at(
                old(io)@.bytes,
                old(io)@.pos as int,
            ) ==> r == Err::<Elf32Ehdr, DecodeError>(DecodeError::BadMagic),
    {
        let mut cur: ByteSource = *io;
        let e_ident = EIdentStruct::from_io(&mut cur)?;
        let raw = complete(read_u16(&mut cur), Structure::Header)?;
        let e_type = known(EType::from_u16(raw), EnumField::ObjectType, raw as u32)?;
        let raw = complete(read_u16(&mut cur), Structure::Header)?;
        let e_machine = known(EMachine::from_u16(raw), EnumField::Machine, raw as u32)?;
        let raw = complete(read_u32(&mut cur), Structure::Header)?;
        let e_version = known(EVersion::from_u32(raw), EnumField::Version, raw)?;
        let e_entry = complete(read_u32(&mut cur), Structure::Header)?;
        let e_phoff = complete(read_u32(&mut cur), Structure::Header)?;
        let e_shoff = complete(read_u32(&mut cur), Structure::Header)?;
        let e_flags = complete(read_u32(&mut cur), Structure::Header)?;
        let e_ehsize = complete(read_u16(&mut cur), Structure::Header)?;
        let e_phentsize = complete(read_u16(&mut cur), Structure::Header)?;
        let e_phnum = complete(read_u16(&mut cur), Structure::Header)?;
        let e_shentsize = complete(read_u16(&mut cur), Structure::Header)?;
        let e_shnum = complete(read_u16(&mut cur), Structure::Header)?;
        let e_shstrndx = complete(read_u16(&mut cur), Structure::Header)?;
        *io = cur;
        Ok(
            Elf32Ehdr {
                e_ident,
                e_type,
                e_machine,
                e_version,
                e_entry,
                e_phoff,
                e_shoff,
                e_flags,
                e_ehsize,
                e_phentsize,
                e_phnum,
                e_shentsize,
                e_shnum,
                e_shstrndx,
            },
        )
    }

    /// Decoding gives back the value that a run of bytes was made from: where
    /// the 52 bytes of `s` from `at` on are the encoding of `m`, decoding
    /// there yields `m`, every field as it was.
    pub proof fn lemma_decode_encoding(m: Elf32Ehdr, s: Seq<u8>, at: int)
        requires
            m.e_ident.magic == ELF_MAGIC,
            0 <= at,
            at + EHDR32_SIZE <= s.len(),
            s.subrange(at, at + EHDR32_SIZE) == m.encoding(),
        ensures
            Self::spec_decode(s, at) == Ok::<Elf32Ehdr, DecodeError>(m),
    {
        let b0 = m.e_ident.encoding();
        let b1 = b0 + u16_le(m.e_type.tag());
        let b2 = b1 + u16_le(m.e_machine.tag());
        let b3 = b2 + u32_le(m.e_version.tag());
        let b4 = b3 + u32_le(m.e_entry);
        let b5 = b4 + u32_le(m.e_phoff);
        let b6 = b5 + u32_le(m.e_shoff);
        let b7 = b6 + u32_le(m.e_flags);
        let b8 = b7 + u16_le(m.e_ehsize);
        let b9 = b8 + u16_le(m.e_phentsize);
        let b10 = b9 + u16_le(m.e_phnum);
        let b11 = b10 + u16_le(m.e_shentsize);
        let b12 = b11 + u16_le(m.e_shnum);
        let b13 = b12 + u16_le(m.e_shstrndx);
        assert(m.encoding() == b13);
        lemma_split(s, at, b12, u16_le(m.e_shstrndx));
        lemma_split(s, at, b11, u16_le(m.e_shnum));
        lemma_split(s, at, b10, u16_le(m.e_shentsize));
        lemma_split(s, at, b9, u16_le(m.e_phnum));
        lemma_split(s, at, b8, u16_le(m.e_phentsize));
        lemma_split(s, at, b7, u16_le(m.e_ehsize));
        lemma_split(s, at, b6, u32_le(m.e_flags));
        lemma_split(s, at, b5, u32_le(m.e_shoff));
        lemma_split(s, at, b4, u32_le(m.e_phoff));
        lemma_split(s, at, b3, u32_le(m.e_entry));
        lemma_split(s, at, b2, u32_le(m.e_version.tag()));
        lemma_split(s, at, b1, u16_le(m.e_machine.tag()));
        lemma_split(s, at, b0, u16_le(m.e_type.tag()));
        EIdentStruct::lemma_decode_encoding(m.e_ident, s, at);
        lemma_le_u16_of_encoding(m.e_type.tag(), s, at + 16);
        EType::lemma_of_tag(m.e_type);
        lemma_le_u16_of_encoding(m.e_machine.tag(), s, at + 18);
        EMachine::lemma_of_tag(m.e_machine);
        lemma_le_u32_of_encoding(m.e_version.tag(), s, at + 20);
        EVersion::lemma_of_tag(m.e_version);
        lemma_le_u32_of_encoding(m.e_entry, s, at + 24);
        lemma_le_u32_of_encoding(m.e_phoff, s, at + 28);
        lemma_le_u32_of_encoding(m.e_shoff, s, at + 32);
        lemma_le_u32_of_encoding(m.e_flags, s, at + 36);
        lemma_le_u16_of_encoding(m.e_ehsize, s, at + 40);
        lemma_le_u16_of_encoding(m.e_phentsize, s, at + 42);
        lemma_le_u16_of_encoding(m.e_phnum, s, at + 44);
        lemma_le_u16_of_encoding(m.e_shentsize, s, at + 46);
        lemma_le_u16_of_encoding(m.e_shnum, s, at + 48);
        lemma_le_u16_of_encoding(m.e_shstrndx, s, at + 50);
    }

    /// A header with the magic number, every tag at zero and every number zero.
    pub open spec fn spec_default() -> Elf32Ehdr {
        Elf32Ehdr {
            e_ident: EIdentStruct::spec_default(),
            e_type: EType::EtNone,
            e_machine: EMachine::EmNone,
            e_version: EVersion::EvNone,
            e_entry: 0,
            e_phoff: 0,
            e_shoff: 0,
            e_flags: 0,
            e_ehsize: 0,
            e_phentsize: 0,
            e_phnum: 0,
            e_shentsize: 0,
            e_shnum: 0,
            e_shstrndx: 0,
        }
    }
}

impl Default for Elf32Ehdr {
    fn default() -> (r: Self)
        ensures
            r == Self::spec_default(),
    {
        Elf32Ehdr {
            e_ident: EIdentStruct::default(),
            e_type: EType::EtNone,
            e_machine: EMachine::EmNone,
            e_version: EVersion::EvNone,
            e_entry: 0,
            e_phoff: 0,
            e_shoff: 0,
            e_flags: 0,
            e_ehsize: 0,
            e_phentsize: 0,
            e_phnum: 0,
            e_shentsize: 0,
            e_shnum: 0,
            e_shstrndx: 0,
        }
    }
}

} // verus!
