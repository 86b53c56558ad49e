//! The identification block: the sixteen bytes that open every ELF file and
//! say how the rest is to be read.

use vstd::prelude::*;
use crate::error::{complete, known, DecodeError, EnumField, Structure};
use crate::reader::{avail, ByteSource};

verus! {

/// The four bytes every ELF file starts with: `0x7F 'E' 'L' 'F'`.
pub const ELF_MAGIC: [u8; 4] = [0x7f, 0x45, 0x4c, 0x46];

/// Size of the identification block in bytes.
pub const IDENT_SIZE: u64 = 16;

/// Operating system and ABI the file is meant for.
#[derive(Debug, Clone, Copy, PartialEq, Eq, Structural)]
pub enum EiOsabi {
    ElfOsabiNONE,
    ElfOsabiHPUX,
    ElfOsabiNETBSD,
    ElfOsabiLINUX,
    ElfOsabiAIX,
    ElfOsabiIRIX,
    ElfOsabiFREEBSD,
    ElfOsabiTRU64,
    ElfOsabiMODESTO,
    ElfOsabiOPENBSD,
    ElfOsabiOPENVMS,
    ElfOsabiNSK,
    ElfOsabiARMAEABI,
    ElfOsabiARM,
    ElfOsabiSTANDALONE,
}

impl EiOsabi {
    /// The number that stands for this OS/ABI in a file.
    pub open spec fn tag(self) -> u8 {
        match self {
            EiOsabi::ElfOsabiNONE => 0,
            EiOsabi::ElfOsabiHPUX => 1,
            EiOsabi::ElfOsabiNETBSD => 2,
            EiOsabi::ElfOsabiLINUX => 3,
            EiOsabi::ElfOsabiAIX => 7,
            EiOsabi::ElfOsabiIRIX => 8,
            EiOsabi::ElfOsabiFREEBSD => 9,
            EiOsabi::ElfOsabiTRU64 => 10,
            EiOsabi::ElfOsabiMODESTO => 11,
            EiOsabi::ElfOsabiOPENBSD => 12,
            EiOsabi::ElfOsabiOPENVMS => 13,
            EiOsabi::ElfOsabiNSK => 14,
            EiOsabi::ElfOsabiARMAEABI => 64,
            EiOsabi::ElfOsabiARM => 97,
            EiOsabi::ElfOsabiSTANDALONE => 255,
        }
    }

    /// The OS/ABI that `v` stands for, if it stands for one.
    pub open spec fn of_tag(v: u8) -> Option<EiOsabi> {
        if exists|e: EiOsabi| e.tag() == v {
            Some(choose|e: EiOsabi| e.tag() == v)
        } else {
            None
        }
    }

    /// Every OS/ABI is found again from its own number.
    pub proof fn lemma_of_tag(e: EiOsabi)
        ensures
            Self::of_tag(e.tag()) == Some(e),
    {
    }

    /// The OS/ABI that `v` stands for; `None` where `v` is no known number.
    pub fn from_u8(v: u8) -> (r: Option<EiOsabi>)
        ensures
            r == Self::of_tag(v),
            match r {
                Some(e) => e.tag() == v,
                None => forall|e: EiOsabi| e.tag() != v,
            },
    {
        let r = match v {
            0 => Some(EiOsabi::ElfOsabiNONE),
            1 => Some(EiOsabi::ElfOsabiHPUX),
            2 => Some(EiOsabi::ElfOsabiNETBSD),
            3 => Some(EiOsabi::ElfOsabiLINUX),
            7 => Some(EiOsabi::ElfOsabiAIX),
            8 => Some(EiOsabi::ElfOsabiIRIX),
            9 => Some(EiOsabi::ElfOsabiFREEBSD),
            10 => Some(EiOsabi::ElfOsabiTRU64),
            11 => Some(EiOsabi::ElfOsabiMODESTO),
            12 => Some(EiOsabi::ElfOsabiOPENBSD),
            13 => Some(EiOsabi::ElfOsabiOPENVMS),
            14 => Some(EiOsabi::ElfOsabiNSK),
            64 => Some(EiOsabi::ElfOsabiARMAEABI),
            97 => Some(EiOsabi::ElfOsabiARM),
            255 => Some(EiOsabi::ElfOsabiSTANDALONE),
            _ => None,
        };
        proof {
            if let Some(e) = r {
                Self::lemma_of_tag(e);
            }
        }
        r
    }

    /// The number that stands for this OS/ABI in a file.
    pub fn to_u8(&self) -> (v: u8)
        ensures
            v == self.tag(),
    {
        match self {
            EiOsabi::ElfOsabiNONE => 0,
            EiOsabi::ElfOsabiHPUX => 1,
            EiOsabi::ElfOsabiNETBSD => 2,
            EiOsabi::ElfOsabiLINUX => 3,
            EiOsabi::ElfOsabiAIX => 7,
            EiOsabi::ElfOsabiIRIX => 8,
            EiOsabi::ElfOsabiFREEBSD => 9,
            EiOsabi::ElfOsabiTRU64 => 10,
            EiOsabi::ElfOsabiMODESTO => 11,
            EiOsabi::ElfOsabiOPENBSD => 12,
            EiOsabi::ElfOsabiOPENVMS => 13,
            EiOsabi::ElfOsabiNSK => 14,
            EiOsabi::ElfOsabiARMAEABI => 64,
            EiOsabi::ElfOsabiARM => 97,
            EiOsabi::ElfOsabiSTANDALONE => 255,
        }
    }
}

/// Version of the identification block.
#[derive(Debug, Clone, Copy, PartialEq, Eq, Structural)]
pub enum EiVersion {
    /// Invalid version.
    EvNone,
    /// The current version.
    EvCurrent,
}

impl EiVersion {
    /// The number that stands for this identification version in a file.
    pub open spec fn tag(self) -> u8 {
        match self {
            EiVersion::EvNone => 0,
            EiVersion::EvCurrent => 1,
        }
    }

    /// The identification version that `v` stands for, if it stands for one.
    pub open spec fn of_tag(v: u8) -> Option<EiVersion> {
        if exists|e: EiVersion| e.tag() == v {
            Some(choose|e: EiVersion| e.tag() == v)
        } else {
            None
        }
    }

    /// Every identification version is found again from its own number.
    pub proof fn lemma_of_tag(e: EiVersion)
        ensures
            Self::of_tag(e.tag()) == Some(e),
    {
    }

    /// The identification version that `v` stands for; `None` where `v` is no known number.
    pub fn from_u8(v: u8) -> (r: Option<EiVersion>)
        ensures
            r == Self::of_tag(v),
            match r {
                Some(e) => e.tag() == v,
                None => forall|e: EiVersion| e.tag() != v,
            },
    {
        let r = match v {
            0 => Some(EiVersion::EvNone),
            1 => Some(EiVersion::EvCurrent),
            _ => None,
        };
        proof {
            if let Some(e) = r {
                Self::lemma_of_tag(e);
            }
        }
        r
    }

    /// The number that stands for this identification version in a file.
    pub fn to_u8(&self) -> (v: u8)
        ensures
            v == self.tag(),
    {
        match self {
            EiVersion::EvNone => 0,
            EiVersion::EvCurrent => 1,
        }
    }
}

/// Byte order that the file claims for its multi-byte fields.
///
/// The decoders take note of it and no more: they read every field least
/// significant byte first, so the numbers of a file that claims the other
/// order come out wrong.
#[derive(Debug, Clone, Copy, PartialEq, Eq, Structural)]
pub enum EiData {
    /// No byte order given.
    ElfDataNone,
    /// Least significant byte first.
    ElfData2Lsb,
    /// Most significant byte first.
    ElfData2Msb,
}

impl EiData {
    /// The number that stands for this data encoding in a file.
    pub open spec fn tag(self) -> u8 {
        match self {
            EiData::ElfDataNone => 0,
            EiData::ElfData2Lsb => 1,
            EiData::ElfData2Msb => 2,
        }
    }

    /// The data encoding that `v` stands for, if it stands for one.
    pub open spec fn of_tag(v: u8) -> Option<EiData> {
        if exists|e: EiData| e.tag() == v {
            Some(choose|e: EiData| e.tag() == v)
        } else {
            None
        }
    }

    /// Every data encoding is found again from its own number.
    pub proof fn lemma_of_tag(e: EiData)
        ensures
            Self::of_tag(e.tag()) == Some(e),
    {
    }

    /// The data encoding that `v` stands for; `None` where `v` is no known number.
    pub fn from_u8(v: u8) -> (r: Option<EiData>)
        ensures
            r == Self::of_tag(v),
            match r {
                Some(e) => e.tag() == v,
                None => forall|e: EiData| e.tag() != v,
            },
    {
        let r = match v {
            0 => Some(EiData::ElfDataNone),
            1 => Some(EiData::ElfData2Lsb),
            2 => Some(EiData::ElfData2Msb),
            _ => None,
        };
        proof {
            if let Some(e) = r {
                Self::lemma_of_tag(e);
            }
        }
        r
    }

    /// The number that stands for this data encoding in a file.
    pub fn to_u8(&self) -> (v: u8)
        ensures
            v == self.tag(),
    {
        match self {
            EiData::ElfDataNone => 0,
            EiData::ElfData2Lsb => 1,
            EiData::ElfData2Msb => 2,
        }
    }
}

/// Word size the file is laid out for.
#[derive(Debug, Clone, Copy, PartialEq, Eq, Structural)]
pub enum EiClass {
    /// No class given.
    ElfClassNone,
    /// 32-bit addresses and offsets.
    ElfClass32,
    /// 64-bit addresses and offsets.
    ElfClass64,
}

impl EiClass {
    /// The number that stands for this class in a file.
    pub open spec fn tag(self) -> u8 {
        match self {
            EiClass::ElfClassNone => 0,
            EiClass::ElfClass32 => 1,
            EiClass::ElfClass64 => 2,
        }
    }

    /// The class that `v` stands for, if it stands for one.
    pub open spec fn of_tag(v: u8) -> Option<EiClass> {
        if exists|e: EiClass| e.tag() == v {
            Some(choose|e: EiClass| e.tag() == v)
        } else {
            None
        }
    }

    /// Every class is found again from its own number.
    pub proof fn lemma_of_tag(e: EiClass)
        ensures
            Self::of_tag(e.tag()) == Some(e),
    {
    }

    /// The class that `v` stands for; `None` where `v` is no known number.
    pub fn from_u8(v: u8) -> (r: Option<EiClass>)
        ensures
            r == Self::of_tag(v),
            match r {
                Some(e) => e.tag() == v,
                None => forall|e: EiClass| e.tag() != v,
            },
    {
        let r = match v {
            0 => Some(EiClass::ElfClassNone),
            1 => Some(EiClass::ElfClass32),
            2 => Some(EiClass::ElfClass64),
            _ => None,
        };
        proof {
            if let Some(e) = r {
                Self::lemma_of_tag(e);
            }
        }
        r
    }

    /// The number that stands for this class in a file.
    pub fn to_u8(&self) -> (v: u8)
        ensures
            v == self.tag(),
    {
        match self {
            EiClass::ElfClassNone => 0,
            EiClass::ElfClass32 => 1,
            EiClass::ElfClass64 => 2,
        }
    }
}

/// Says whether `bytes` are the four bytes of the magic number.
pub fn is_magic(bytes: &[u8]) -> (b: bool)
    ensures
        b == (bytes@.len() == 4 && EIdentStruct::magic_at(bytes@, 0)),
{
    bytes.len() == 4 && bytes[0] == ELF_MAGIC[0] && bytes[1] == ELF_MAGIC[1] && bytes[2]
        == ELF_MAGIC[2] && bytes[3] == ELF_MAGIC[3]
}

/// The decoded identification block.
#[derive(Debug, Clone, Copy, PartialEq, Eq)]
pub struct EIdentStruct {
    /// The magic number; always [`ELF_MAGIC`] in a decoded block.
    pub magic: [u8; 4],
    pub class: EiClass,
    pub endianness: EiData,
    pub version: EiVersion,
    pub osabi: EiOsabi,
    pub abi_version: u8,
}

impl EIdentStruct {
    /// True where the four bytes of `s` from `at` on are the magic number.
    pub open spec fn magic_at(s: Seq<u8>, at: int) -> bool {
        &&& s[at] == ELF_MAGIC[0]
        &&& s[at + 1] == ELF_MAGIC[1]
        &&& s[at + 2] == ELF_MAGIC[2]
        &&& s[at + 3] == ELF_MAGIC[3]
    }

    /// What decoding the bytes of `s` from `at` on yields.
    ///
    /// The magic number is looked at before anything else, then the class,
    /// the data encoding, the version and the OS/ABI, in that order. Bytes 9
    /// to 15 of the block are padding and may hold anything.
    pub open spec fn spec_decode(s: Seq<u8>, at: int) -> Result<EIdentStruct, DecodeError> {
        if avail(s, at) < 4 {
            Err(DecodeError::Truncated { structure: Structure::Ident })
        } else if !Self::magic_at(s, at) {
            Err(DecodeError::BadMagic)
        } else if avail(s, at) < IDENT_SIZE {
            Err(DecodeError::Truncated { structure: Structure::Ident })
        } else if EiClass::of_tag(s[at + 4]) is None {
            Err(
                DecodeError::InvalidEnumerant {
                    field: EnumField::Class,
                    value: s[at + 4] as u32,
                },
            )
        } else if EiData::of_tag(s[at + 5]) is None {
            Err(
                DecodeError::InvalidEnumerant {
                    field: EnumField::Data,
                    value: s[at + 5] as u32,
                },
            )
        } else if EiVersion::of_tag(s[at + 6]) is None {
            Err(
                DecodeError::InvalidEnumerant {
                    field: EnumField::IdentVersion,
                    value: s[at + 6] as u32,
                },
            )
        } else if EiOsabi::of_tag(s[at + 7]) is None {
            Err(
                DecodeError::InvalidEnumerant {
                    field: EnumField::OsAbi,
                    value: s[at + 7] as u32,
                },
            )
        } else {
            Ok(
                EIdentStruct {
                    magic: ELF_MAGIC,
                    class: EiClass::of_tag(s[at + 4])->0,
                    endianness: EiData::of_tag(s[at + 5])->0,
                    version: EiVersion::of_tag(s[at + 6])->0,
                    osabi: EiOsabi::of_tag(s[at + 7])->0,
                    abi_version: s[at + 8],
                },
            )
        }
    }

    /// The sixteen bytes that stand for this block, with the padding zeroed.
    pub open spec fn encoding(self) -> Seq<u8> {
        self.magic@ + seq![
            self.class.tag(),
            self.endianness.tag(),
            self.version.tag(),
            self.osabi.tag(),
            self.abi_version,
            0u8,
            0u8,
            0u8,
            0u8,
            0u8,
            0u8,
            0u8,
        ]
    }

    /// Decodes the identification block at the cursor.
    ///
    /// On success the cursor has moved behind the block; on failure it has
    /// not moved.
    pub fn from_io(io: &mut ByteSource) -> (r: Result<EIdentStruct, DecodeError>)
        ensures
            r == Self::spec_decode(old(io)@.bytes, old(io)@.pos as int),
            final(io)@.bytes == old(io)@.bytes,
            r is Ok ==> final(io)@.pos == old(io)@.pos + IDENT_SIZE,
            r is Err ==> final(io)@.pos == old(io)@.pos,
            avail(old(io)@.bytes, old(io)@.pos as int) >= 4 && !Self::magic_at(
                old(io)@.bytes,
                old(io)@.pos as int,
            ) ==> r == Err::<EIdentStruct, DecodeError>(DecodeError::BadMagic),
    {
        let mut cur: ByteSource = *io;
        let magic = complete(cur.read_bytes(4), Structure::Ident)?;
        if !is_magic(magic) {
            return Err(DecodeError::BadMagic);
        }
        let rest = complete(cur.read_bytes(12), Structure::Ident)?;
        let class = known(EiClass::from_u8(rest[0]), EnumField::Class, rest[0] as u32)?;
        let endianness = known(EiData::from_u8(rest[1]), EnumField::Data, rest[1] as u32)?;
        let version = known(EiVersion::from_u8(rest[2]), EnumField::IdentVersion, rest[2] as u32)?;
        let osabi = known(EiOsabi::from_u8(rest[3]), EnumField::OsAbi, rest[3] as u32)?;
        let abi_version = rest[4];
        *io = cur;
        Ok(EIdentStruct { magic: ELF_MAGIC, class, endianness, version, osabi, abi_version })
    }

    /// Decoding gives back the block that a run of bytes was made from: where
    /// the sixteen bytes of `s` from `at` on are the encoding of `m`, and `m`
    /// carries the magic number, decoding there yields `m`.
    pub proof fn lemma_decode_encoding(m: EIdentStruct, s: Seq<u8>, at: int)
        requires
            m.magic == ELF_MAGIC,
            0 <= at,
            at + IDENT_SIZE <= s.len(),
            s.subrange(at, at + IDENT_SIZE) == m.encoding(),
        ensures
            Self::spec_decode(s, at) == Ok::<EIdentStruct, DecodeError>(m),
    {
        let e = m.encoding();
        assert forall|k: int| 0 <= k < 16 implies s[at + k] == #[trigger] e[k] by {
            assert(s.subrange(at, at + IDENT_SIZE)[k] == s[at + k]);
        }
        assert(m.magic@.len() == 4);
        assert(e[0] == m.magic@[0] && e[1] == m.magic@[1] && e[2] == m.magic@[2] && e[3]
            == m.magic@[3]);
        assert(Self::magic_at(s, at));
        assert(e[4] == m.class.tag() && e[5] == m.endianness.tag() && e[6] == m.version.tag());
        assert(e[7] == m.osabi.tag() && e[8] == m.abi_version);
        EiClass::lemma_of_tag(m.class);
        EiData::lemma_of_tag(m.endianness);
        EiVersion::lemma_of_tag(m.version);
        EiOsabi::lemma_of_tag(m.osabi);
    }

    /// A block with the magic number and every other field at its zero tag.
    pub open spec fn spec_default() -> EIdentStruct {
        EIdentStruct {
            magic: ELF_MAGIC,
            class: EiClass::ElfClassNone,
            endianness: EiData::ElfDataNone,
            version: EiVersion::EvNone,
            osabi: EiOsabi::ElfOsabiNONE,
            abi_version: 0,
        }
    }
}

impl Default for EIdentStruct {
    fn default() -> (r: Self)
        ensures
            r == Self::spec_default(),
    {
        EIdentStruct {
            magic: ELF_MAGIC,
            class: EiClass::ElfClassNone,
            endianness: EiData::ElfDataNone,
            version: EiVersion::EvNone,
            osabi: EiOsabi::ElfOsabiNONE,
            abi_version: 0,
        }
    }
}

} // verus!
