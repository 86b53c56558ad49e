//! Section header entries: the sections that linkers and tools work with.

use vstd::prelude::*;
use crate::error::{complete, known, DecodeError, EnumField, Structure};
use crate::reader::{
    avail, le_u32, le_u64, lemma_le_u32_of_encoding, lemma_le_u64_of_encoding, lemma_split,
    read_u32, read_u64, u32_le, u64_le, ByteSource,
};
use crate::table::TableEntry;

verus! {

/// Kind of content a section holds.
#[derive(Debug, Clone, Copy, PartialEq, Eq, Structural)]
pub enum SHType {
    ShtNULL,
    ShtPROGBITS,
    ShtSYMTAB,
    ShtSTRTAB,
    ShtRELA,
    ShtHASH,
    ShtDYNAMIC,
    ShtNOTE,
    ShtNOBITS,
    ShtREL,
    ShtSHLIB,
    ShtDYNSYM,
    ShtINITARRAY,
    ShtFINIARRAY,
    ShtPREINITARRAY,
    ShtGROUP,
    ShtSYMTABSHNDX,
    ShtNUM,
    ShtLOOS,
    ShtGNUAttr,
    ShtGnuHash,
    ShtGnuLiblist,
    ShtChecksum,
    ShtLosunw,
    ShtSunwComdat,
    ShtSunwSyminfo,
    ShtGnuVerdef,
    ShtGnuVerneed,
    ShtGnuVersym,
    ShtLOPROC,
    ShtHIPROC,
    ShtLOUSER,
    ShtHIUSER,
}

impl SHType {
    /// The number that stands for this section type in a file.
    pub open spec fn tag(self) -> u32 {
        match self {
            SHType::ShtNULL => 0,
            SHType::ShtPROGBITS => 1,
            SHType::ShtSYMTAB => 2,
            SHType::ShtSTRTAB => 3,
            SHType::ShtRELA => 4,
            SHType::ShtHASH => 5,
            SHType::ShtDYNAMIC => 6,
            SHType::ShtNOTE => 7,
            SHType::ShtNOBITS => 8,
            SHType::ShtREL => 9,
            SHType::ShtSHLIB => 10,
            SHType::ShtDYNSYM => 11,
            SHType::ShtINITARRAY => 14,
            SHType::ShtFINIARRAY => 15,
            SHType::ShtPREINITARRAY => 16,
            SHType::ShtGROUP => 17,
            SHType::ShtSYMTABSHNDX => 18,
            SHType::ShtNUM => 19,
            SHType::ShtLOOS => 0x60000000,
            SHType::ShtGNUAttr => 0x6ffffff5,
            SHType::ShtGnuHash => 0x6ffffff6,
            SHType::ShtGnuLiblist => 0x6ffffff7,
            SHType::ShtChecksum => 0x6ffffff8,
            SHType::ShtLosunw => 0x6ffffffa,
            SHType::ShtSunwComdat => 0x6ffffffb,
            SHType::ShtSunwSyminfo => 0x6ffffffc,
            SHType::ShtGnuVerdef => 0x6ffffffd,
            SHType::ShtGnuVerneed => 0x6ffffffe,
            SHType::ShtGnuVersym => 0x6fffffff,
            SHType::ShtLOPROC => 0x70000000,
            SHType::ShtHIPROC => 0x7fffffff,
            SHType::ShtLOUSER => 0x80000000,
            SHType::ShtHIUSER => 0xffffffff,
        }
    }

    /// The section type that `v` stands for, if it stands for one.
    pub open spec fn of_tag(v: u32) -> Option<SHType> {
        if exists|e: SHType| e.tag() == v {
            Some(choose|e: SHType| e.tag() == v)
        } else {
            None
        }
    }

    /// Every section type is found again from its own number.
    pub proof fn lemma_of_tag(e: SHType)
        ensures
            Self::of_tag(e.tag()) == Some(e),
    {
    }

    /// The section type that `v` stands for; `None` where `v` is no known number.
    pub fn from_u32(v: u32) -> (r: Option<SHType>)
        ensures
            r == Self::of_tag(v),
            match r {
                Some(e) => e.tag() == v,
                None => forall|e: SHType| e.tag() != v,
            },
    {
        let r = match v {
            0 => Some(SHType::ShtNULL),
            1 => Some(SHType::ShtPROGBITS),
            2 => Some(SHType::ShtSYMTAB),
            3 => Some(SHType::ShtSTRTAB),
            4 => Some(SHType::ShtRELA),
            5 => Some(SHType::ShtHASH),
            6 => Some(SHType::ShtDYNAMIC),
            7 => Some(SHType::ShtNOTE),
            8 => Some(SHType::ShtNOBITS),
            9 => Some(SHType::ShtREL),
            10 => Some(SHType::ShtSHLIB),
            11 => Some(SHType::ShtDYNSYM),
            14 => Some(SHType::ShtINITARRAY),
            15 => Some(SHType::ShtFINIARRAY),
            16 => Some(SHType::ShtPREINITARRAY),
            17 => Some(SHType::ShtGROUP),
            18 => Some(SHType::ShtSYMTABSHNDX),
            19 => Some(SHType::ShtNUM),
            0x60000000 => Some(SHType::ShtLOOS),
            0x6ffffff5 => Some(SHType::ShtGNUAttr),
            0x6ffffff6 => Some(SHType::ShtGnuHash),
            0x6ffffff7 => Some(SHType::ShtGnuLiblist),
            0x6ffffff8 => Some(SHType::ShtChecksum),
            0x6ffffffa => Some(SHType::ShtLosunw),
            0x6ffffffb => Some(SHType::ShtSunwComdat),
            0x6ffffffc => Some(SHType::ShtSunwSyminfo),
            0x6ffffffd => Some(SHType::ShtGnuVerdef),
            0x6ffffffe => Some(SHType::ShtGnuVerneed),
            0x6fffffff => Some(SHType::ShtGnuVersym),
            0x70000000 => Some(SHType::ShtLOPROC),
            0x7fffffff => Some(SHType::ShtHIPROC),
            0x80000000 => Some(SHType::ShtLOUSER),
            0xffffffff => Some(SHType::ShtHIUSER),
            _ => None,
        };
        proof {
            if let Some(e) = r {
                Self::lemma_of_tag(e);
            }
        }
        r
    }

    /// The number that stands for this section type in a file.
    pub fn to_u32(&self) -> (v: u32)
        ensures
            v == self.tag(),
    {
        match self {
            SHType::ShtNULL => 0,
            SHType::ShtPROGBITS => 1,
            SHType::ShtSYMTAB => 2,
            SHType::ShtSTRTAB => 3,
            SHType::ShtRELA => 4,
            SHType::ShtHASH => 5,
            SHType::ShtDYNAMIC => 6,
            SHType::ShtNOTE => 7,
            SHType::ShtNOBITS => 8,
            SHType::ShtREL => 9,
            SHType::ShtSHLIB => 10,
            SHType::ShtDYNSYM => 11,
            SHType::ShtINITARRAY => 14,
            SHType::ShtFINIARRAY => 15,
            SHType::ShtPREINITARRAY => 16,
            SHType::ShtGROUP => 17,
            SHType::ShtSYMTABSHNDX => 18,
            SHType::ShtNUM => 19,
            SHType::ShtLOOS => 0x60000000,
            SHType::ShtGNUAttr => 0x6ffffff5,
            SHType::ShtGnuHash => 0x6ffffff6,
            SHType::ShtGnuLiblist => 0x6ffffff7,
            SHType::ShtChecksum => 0x6ffffff8,
            SHType::ShtLosunw => 0x6ffffffa,
            SHType::ShtSunwComdat => 0x6ffffffb,
            SHType::ShtSunwSyminfo => 0x6ffffffc,
            SHType::ShtGnuVerdef => 0x6ffffffd,
            SHType::ShtGnuVerneed => 0x6ffffffe,
            SHType::ShtGnuVersym => 0x6fffffff,
            SHType::ShtLOPROC => 0x70000000,
            SHType::ShtHIPROC => 0x7fffffff,
            SHType::ShtLOUSER => 0x80000000,
            SHType::ShtHIUSER => 0xffffffff,
        }
    }
}

impl Default for SHType {
    fn default() -> (r: Self)
        ensures
            r == SHType::ShtNULL,
    {
        SHType::ShtNULL
    }
}

/// Attribute bits of a section.
#[derive(Debug, Clone, Copy, PartialEq, Eq, Structural)]
pub enum SHFlags {
    ShfNull,
    /// Writable while the program runs.
    ShfWrite,
    /// Occupies memory while the program runs.
    ShfAlloc,
    /// Holds machine instructions.
    ShfExecInstr,
    ShfI,
    ShfRelaLivepatch,
    ShfRoAfterInit,
    ShfMaskProc,
}

impl SHFlags {
    /// The number that stands for this section flag in a file.
    pub open spec fn tag(self) -> u64 {
        match self {
            SHFlags::ShfNull => 0,
            SHFlags::ShfWrite => 1,
            SHFlags::ShfAlloc => 2,
            SHFlags::ShfExecInstr => 4,
            SHFlags::ShfI => 66,
            SHFlags::ShfRelaLivepatch => 0x00100000,
            SHFlags::ShfRoAfterInit => 0x00200000,
            SHFlags::ShfMaskProc => 0xf0000000,
        }
    }

    /// The section flag that `v` stands for, if it stands for one.
    pub open spec fn of_tag(v: u64) -> Option<SHFlags> {
        if exists|e: SHFlags| e.tag() == v {
            Some(choose|e: SHFlags| e.tag() == v)
        } else {
            None
        }
    }

    /// Every section flag is found again from its own number.
    pub proof fn lemma_of_tag(e: SHFlags)
        ensures
            Self::of_tag(e.tag()) == Some(e),
    {
    }

    /// The section flag that `v` stands for; `None` where `v` is no known number.
    pub fn from_u64(v: u64) -> (r: Option<SHFlags>)
        ensures
            r == Self::of_tag(v),
            match r {
                Some(e) => e.tag() == v,
                None => forall|e: SHFlags| e.tag() != v,
            },
    {
        let r = match v {
            0 => Some(SHFlags::ShfNull),
            1 => Some(SHFlags::ShfWrite),
            2 => Some(SHFlags::ShfAlloc),
            4 => Some(SHFlags::ShfExecInstr),
            66 => Some(SHFlags::ShfI),
            0x00100000 => Some(SHFlags::ShfRelaLivepatch),
            0x00200000 => Some(SHFlags::ShfRoAfterInit),
            0xf0000000 => Some(SHFlags::ShfMaskProc),
            _ => None,
        };
        proof {
            if let Some(e) = r {
                Self::lemma_of_tag(e);
            }
        }
        r
    }

    /// The number that stands for this section flag in a file.
    pub fn to_u64(&self) -> (v: u64)
        ensures
            v == self.tag(),
    {
        match self {
            SHFlags::ShfNull => 0,
            SHFlags::ShfWrite => 1,
            SHFlags::ShfAlloc => 2,
            SHFlags::ShfExecInstr => 4,
            SHFlags::ShfI => 66,
            SHFlags::ShfRelaLivepatch => 0x00100000,
            SHFlags::ShfRoAfterInit => 0x00200000,
            SHFlags::ShfMaskProc => 0xf0000000,
        }
    }
}

impl Default for SHFlags {
    fn default() -> (r: Self)
        ensures
            r == SHFlags::ShfWrite,
    {
        SHFlags::ShfWrite
    }
}

/// What the inference of hardening facts reads of a section header entry,
/// whatever the width of its addresses.
pub trait Section {
    /// Offset of the section's name in the section name table.
    spec fn name(&self) -> u32;

    /// File offset of the section's first byte.
    spec fn offset(&self) -> u64;

    /// Number of bytes the section takes in the file.
    spec fn size(&self) -> u64;

    /// Offset of the section's name in the section name table.
    fn name_index(&self) -> (n: u32)
        ensures
            n == self.name(),
    ;

    /// File offset of the section's first byte.
    fn file_offset(&self) -> (o: u64)
        ensures
            o == self.offset(),
    ;

    /// Number of bytes the section takes in the file.
    fn file_size(&self) -> (n: u64)
        ensures
            n == self.size(),
    ;
}

/// Size of a section header entry of a 64-bit file in bytes.
pub const SHDR64_SIZE: u64 = 64;

/// Section header entry of a 64-bit file.
#[derive(Debug, Clone, Copy, PartialEq, Eq)]
pub struct Elf64Shdr {
    /// Offset of the section's name in the section name table.
    pub sh_name: u32,
    /// What kind of content the section holds.
    pub sh_type: SHType,
    /// Attribute bits: 1 writable, 2 allocated, 4 executable.
    pub sh_flags: u64,
    /// Address of the section's first byte in memory.
    pub sh_addr: u64,
    /// File offset of the section's first byte.
    pub sh_offset: u64,
    /// Number of bytes the section takes in the file.
    pub sh_size: u64,
    /// Index of a section this one refers to.
    pub sh_link: u32,
    /// Further information, whose meaning depends on the type.
    pub sh_info: u32,
    /// Alignment of the section.
    pub sh_addralign: u64,
    /// Size of one entry where the section holds a table, else 0.
    pub sh_entsize: u64,
}

impl Elf64Shdr {
    /// What decoding the bytes of `s` from `at` on yields.
    ///
    /// The fields lie in the order of the declaration, each least significant
    /// byte first. A field that holds a tag is checked as soon as its bytes are
    /// there, before anything behind it is looked at.
    pub open spec fn spec_decode(s: Seq<u8>, at: int) -> Result<Elf64Shdr, DecodeError> {
        if avail(s, at) < 8 {
            Err(DecodeError::Truncated { structure: Structure::SectionHeader })
        } else if SHType::of_tag(le_u32(s, at + 4)) is None {
            Err(
                DecodeError::InvalidEnumerant {
                    field: EnumField::SectionType,
                    value: le_u32(s, at + 4),
                },
            )
        } else if avail(s, at) < SHDR64_SIZE {
            Err(DecodeError::Truncated { structure: Structure::SectionHeader })
        } else {
            Ok(
                Elf64Shdr {
                    sh_name: le_u32(s, at),
                    sh_type: SHType::of_tag(le_u32(s, at + 4))->0,
                    sh_flags: le_u64(s, at + 8),
                    sh_addr: le_u64(s, at + 16),
                    sh_offset: le_u64(s, at + 24),
                    sh_size: le_u64(s, at + 32),
                    sh_link: le_u32(s, at + 40),
                    sh_info: le_u32(s, at + 44),
                    sh_addralign: le_u64(s, at + 48),
                    sh_entsize: le_u64(s, at + 56),
                },
            )
        }
    }

    /// The 64 bytes that stand for this value in a file.
    pub open spec fn encoding(self) -> Seq<u8> {
        u32_le(self.sh_name)
            + u32_le(self.sh_type.tag())
            + u64_le(self.sh_flags)
            + u64_le(self.sh_addr)
            + u64_le(self.sh_offset)
            + u64_le(self.sh_size)
            + u32_le(self.sh_link)
            + u32_le(self.sh_info)
            + u64_le(self.sh_addralign)
            + u64_le(self.sh_entsize)
    }

    /// Decodes a section header entry of a 64-bit file at the cursor.
    ///
    /// On success the cursor has moved behind the 64 bytes read; on failure
    /// it has not moved.
    pub fn from_io(io: &mut ByteSource) -> (r: Result<Elf64Shdr, DecodeError>)
        ensures
            r == Self::spec_decode(old(io)@.bytes, old(io)@.pos as int),
            final(io)@.bytes == old(io)@.bytes,
            r is Ok ==> final(io)@.pos == old(io)@.pos + SHDR64_SIZE,
            r is Err ==> final(io)@.pos == old(io)@.pos,
    {
        let mut cur: ByteSource = *io;
        let sh_name = complete(read_u32(&mut cur), Structure::SectionHeader)?;
        let raw = complete(read_u32(&mut cur), Structure::SectionHeader)?;
        let sh_type = known(SHType::from_u32(raw), EnumField::SectionType, raw)?;
        let sh_flags = complete(read_u64(&mut cur), Structure::SectionHeader)?;
        let sh_addr = complete(read_u64(&mut cur), Structure::SectionHeader)?;
        let sh_offset = complete(read_u64(&mut cur), Structure::SectionHeader)?;
        let sh_size = complete(read_u64(&mut cur), Structure::SectionHeader)?;
        let sh_link = complete(read_u32(&mut cur), Structure::SectionHeader)?;
        let sh_info = complete(read_u32(&mut cur), Structure::SectionHeader)?;
        let sh_addralign = complete(read_u64(&mut cur), Structure::SectionHeader)?;
        let sh_entsize = complete(read_u64(&mut cur), Structure::SectionHeader)?;
        *io = cur;
        Ok(
            Elf64Shdr {
                sh_name,
                sh_type,
                sh_flags,
                sh_addr,
                sh_offset,
                sh_size,
                sh_link,
                sh_info,
                sh_addralign,
                sh_entsize,
            },
        )
    }

    /// Decoding gives back the value that a run of bytes was made from: where
    /// the 64 bytes of `s` from `at` on are the encoding of `m`, decoding
    /// there yields `m`, every field as it was.
    pub proof fn lemma_decode_encoding(m: Elf64Shdr, s: Seq<u8>, at: int)
        requires
            0 <= at,
            at + SHDR64_SIZE <= s.len(),
            s.subrange(at, at + SHDR64_SIZE) == m.encoding(),
        ensures
            Self::spec_decode(s, at) == Ok::<Elf64Shdr, DecodeError>(m),
    {
        let b0 = u32_le(m.sh_name);
        let b1 = b0 + u32_le(m.sh_type.tag());
        let b2 = b1 + u64_le(m.sh_flags);
        let b3 = b2 + u64_le(m.sh_addr);
        let b4 = b3 + u64_le(m.sh_offset);
        let b5 = b4 + u64_le(m.sh_size);
        let b6 = b5 + u32_le(m.sh_link);
        let b7 = b6 + u32_le(m.sh_info);
        let b8 = b7 + u64_le(m.sh_addralign);
        let b9 = b8 + u64_le(m.sh_entsize);
        assert(m.encoding() == b9);
        lemma_split(s, at, b8, u64_le(m.sh_entsize));
        lemma_split(s, at, b7, u64_le(m.sh_addralign));
        lemma_split(s, at, b6, u32_le(m.sh_info));
        lemma_split(s, at, b5, u32_le(m.sh_link));
        lemma_split(s, at, b4, u64_le(m.sh_size));
        lemma_split(s, at, b3, u64_le(m.sh_offset));
        lemma_split(s, at, b2, u64_le(m.sh_addr));
        lemma_split(s, at, b1, u64_le(m.sh_flags));
        lemma_split(s, at, b0, u32_le(m.sh_type.tag()));
        lemma_le_u32_of_encoding(m.sh_name, s, at);
        lemma_le_u32_of_encoding(m.sh_type.tag(), s, at + 4);
        SHType::lemma_of_tag(m.sh_type);
        lemma_le_u64_of_encoding(m.sh_flags, s, at + 8);
        lemma_le_u64_of_encoding(m.sh_addr, s, at + 16);
        lemma_le_u64_of_encoding(m.sh_offset, s, at + 24);
        lemma_le_u64_of_encoding(m.sh_size, s, at + 32);
        lemma_le_u32_of_encoding(m.sh_link, s, at + 40);
        lemma_le_u32_of_encoding(m.sh_info, s, at + 44);
        lemma_le_u64_of_encoding(m.sh_addralign, s, at + 48);
        lemma_le_u64_of_encoding(m.sh_entsize, s, at + 56);
    }

    /// An entry of type null with every number zero.
    pub open spec fn spec_default() -> Elf64Shdr {
        Elf64Shdr {
            sh_name: 0,
            sh_type: SHType::ShtNULL,
            sh_flags: 0,
            sh_addr: 0,
            sh_offset: 0,
            sh_size: 0,
            sh_link: 0,
            sh_info: 0,
            sh_addralign: 0,
            sh_entsize: 0,
        }
    }
}

impl Default for Elf64Shdr {
    fn default() -> (r: Self)
        ensures
            r == Self::spec_default(),
    {
        Elf64Shdr {
            sh_name: 0,
            sh_type: SHType::ShtNULL,
            sh_flags: 0,
            sh_addr: 0,
            sh_offset: 0,
            sh_size: 0,
            sh_link: 0,
            sh_info: 0,
            sh_addralign: 0,
            sh_entsize: 0,
        }
    }
}

impl TableEntry for Elf64Shdr {
    open spec fn entry_size() -> nat {
        SHDR64_SIZE as nat
    }

    open spec fn decoded(s: Seq<u8>, at: int) -> Result<Self, DecodeError> {
        Self::spec_decode(s, at)
    }

    open spec fn encoded(&self) -> Seq<u8> {
        self.encoding()
    }

    fn decode(io: &mut ByteSource) -> (r: Result<Self, DecodeError>) {
        Self::from_io(io)
    }

    proof fn lemma_roundtrip(m: Self, s: Seq<u8>, at: int) {
        Self::lemma_decode_encoding(m, s, at);
    }
}

impl Section for Elf64Shdr {
    open spec fn name(&self) -> u32 {
        self.sh_name
    }

    open spec fn offset(&self) -> u64 {
        self.sh_offset
    }

    open spec fn size(&self) -> u64 {
        self.sh_size
    }

    fn name_index(&self) -> (n: u32) {
        self.sh_name
    }

    fn file_offset(&self) -> (o: u64) {
        self.sh_offset
    }

    fn file_size(&self) -> (n: u64) {
        self.sh_size
    }
}

/// Size of a section header entry of a 32-bit file in bytes.
pub const SHDR32_SIZE: u64 = 40;

/// Section header entry of a 32-bit file.
#[derive(Debug, Clone, Copy, PartialEq, Eq)]
pub struct Elf32Shdr {
    /// Offset of the section's name in the section name table.
    pub sh_name: u32,
    /// What kind of content the section holds.
    pub sh_type: SHType,
    /// Attribute bits: 1 writable, 2 allocated, 4 executable.
    pub sh_flags: u32,
    /// Address of the section's first byte in memory.
    pub sh_addr: u32,
    /// File offset of the section's first byte.
    pub sh_offset: u32,
    /// Number of bytes the section takes in the file.
    pub sh_size: u32,
    /// Index of a section this one refers to.
    pub sh_link: u32,
    /// Further information, whose meaning depends on the type.
    pub sh_info: u32,
    /// Alignment of the section.
    pub sh_addralign: u32,
    /// Size of one entry where the section holds a table, else 0.
    pub sh_entsize: u32,
}

impl Elf32Shdr {
    /// What decoding the bytes of `s` from `at` on yields.
    ///
    /// The fields lie in the order of the declaration, each least significant
    /// byte first. A field that holds a tag is checked as soon as its bytes are
    /// there, before anything behind it is looked at.
    pub open spec fn spec_decode(s: Seq<u8>, at: int) -> Result<Elf32Shdr, DecodeError> {
        if avail(s, at) < 8 {
            Err(DecodeError::Truncated { structure: Structure::SectionHeader })
        } else if SHType::of_tag(le_u32(s, at + 4)) is None {
            Err(
                DecodeError::InvalidEnumerant {
                    field: EnumField::SectionType,
                    value: le_u32(s, at + 4),
                },
            )
        } else if avail(s, at) < SHDR32_SIZE {
            Err(DecodeError::Truncated { structure: Structure::SectionHeader })
        } else {
            Ok(
                Elf32Shdr {
                    sh_name: le_u32(s, at),
                    sh_type: SHType::of_tag(le_u32(s, at + 4))->0,
                    sh_flags: le_u32(s, at + 8),
                    sh_addr: le_u32(s, at + 12),
                    sh_offset: le_u32(s, at + 16),
                    sh_size: le_u32(s, at + 20),
                    sh_link: le_u32(s, at + 24),
                    sh_info: le_u32(s, at + 28),
                    sh_addralign: le_u32(s, at + 32),
                    sh_entsize: le_u32(s, at + 36),
                },
            )
        }
    }

    /// The 40 bytes that stand for this value in a file.
    pub open spec fn encoding(self) -> Seq<u8> {
        u32_le(self.sh_name)
            + u32_le(self.sh_type.tag())
            + u32_le(self.sh_flags)
            + u32_le(self.sh_addr)
            + u32_le(self.sh_offset)
            + u32_le(self.sh_size)
            + u32_le(self.sh_link)
            + u32_le(self.sh_info)
            + u32_le(self.sh_addralign)
            + u32_le(self.sh_entsize)
    }

    /// Decodes a section header entry of a 32-bit file at the cursor.
    ///
    /// On success the cursor has moved behind the 40 bytes read; on failure
    /// it has not moved.
    pub fn from_io(io: &mut ByteSource) -> (r: Result<Elf32Shdr, DecodeError>)
        ensures
            r == Self::spec_decode(old(io)@.bytes, old(io)@.pos as int),
            final(io)@.bytes == old(io)@.bytes,
            r is Ok ==> final(io)@.pos == old(io)@.pos + SHDR32_SIZE,
            r is Err ==> final(io)@.pos == old(io)@.pos,
    {
        let mut cur: ByteSource = *io;
        let sh_name = complete(read_u32(&mut cur), Structure::SectionHeader)?;
        let raw = complete(read_u32(&mut cur), Structure::SectionHeader)?;
        let sh_type = known(SHType::from_u32(raw), EnumField::SectionType, raw)?;
        let sh_flags = complete(read_u32(&mut cur), Structure::SectionHeader)?;
        let sh_addr = complete(read_u32(&mut cur), Structure::SectionHeader)?;
        let sh_offset = complete(read_u32(&mut cur), Structure::SectionHeader)?;
        let sh_size = complete(read_u32(&mut cur), Structure::SectionHeader)?;
        let sh_link = complete(read_u32(&mut cur), Structure::SectionHeader)?;
        let sh_info = complete(read_u32(&mut cur), Structure::SectionHeader)?;
        let sh_addralign = complete(read_u32(&mut cur), Structure::SectionHeader)?;
        let sh_entsize = complete(read_u32(&mut cur), Structure::SectionHeader)?;
        *io = cur;
        Ok(
            Elf32Shdr {
                sh_name,
                sh_type,
                sh_flags,
                sh_addr,
                sh_offset,
                sh_size,
                sh_link,
                sh_info,
                sh_addralign,
                sh_entsize,
            },
        )
    }

    /// Decoding gives back the value that a run of bytes was made from: where
    /// the 40 bytes of `s` from `at` on are the encoding of `m`, decoding
    /// there yields `m`, every field as it was.
    pub proof fn lemma_decode_encoding(m: Elf32Shdr, s: Seq<u8>, at: int)
        requires
            0 <= at,
            at + SHDR32_SIZE <= s.len(),
            s.subrange(at, at + SHDR32_SIZE) == m.encoding(),
        ensures
            Self::spec_decode(s, at) == Ok::<Elf32Shdr, DecodeError>(m),
    {
        let b0 = u32_le(m.sh_name);
        let b1 = b0 + u32_le(m.sh_type.tag());
        let b2 = b1 + u32_le(m.sh_flags);
        let b3 = b2 + u32_le(m.sh_addr);
        let b4 = b3 + u32_le(m.sh_offset);
        let b5 = b4 + u32_le(m.sh_size);
        let b6 = b5 + u32_le(m.sh_link);
        let b7 = b6 + u32_le(m.sh_info);
        let b8 = b7 + u32_le(m.sh_addralign);
        let b9 = b8 + u32_le(m.sh_entsize);
        assert(m.encoding() == b9);
        lemma_split(s, at, b8, u32_le(m.sh_entsize));
        lemma_split(s, at, b7, u32_le(m.sh_addralign));
        lemma_split(s, at, b6, u32_le(m.sh_info));
        lemma_split(s, at, b5, u32_le(m.sh_link));
        lemma_split(s, at, b4, u32_le(m.sh_size));
        lemma_split(s, at, b3, u32_le(m.sh_offset));
        lemma_split(s, at, b2, u32_le(m.sh_addr));
        lemma_split(s, at, b1, u32_le(m.sh_flags));
        lemma_split(s, at, b0, u32_le(m.sh_type.tag()));
        lemma_le_u32_of_encoding(m.sh_name, s, at);
        lemma_le_u32_of_encoding(m.sh_type.tag(), s, at + 4);
        SHType::lemma_of_tag(m.sh_type);
        lemma_le_u32_of_encoding(m.sh_flags, s, at + 8);
        lemma_le_u32_of_encoding(m.sh_addr, s, at + 12);
        lemma_le_u32_of_encoding(m.sh_offset, s, at + 16);
        lemma_le_u32_of_encoding(m.sh_size, s, at + 20);
        lemma_le_u32_of_encoding(m.sh_link, s, at + 24);
        lemma_le_u32_of_encoding(m.sh_info, s, at + 28);
        lemma_le_u32_of_encoding(m.sh_addralign, s, at + 32);
        lemma_le_u32_of_encoding(m.sh_entsize, s, at + 36);
    }

    /// An entry of type null with every number zero.
    pub open spec fn spec_default() -> Elf32Shdr {
        Elf32Shdr {
            sh_name: 0,
            sh_type: SHType::ShtNULL,
            sh_flags: 0,
            sh_addr: 0,
            sh_offset: 0,
            sh_size: 0,
            sh_link: 0,
            sh_info: 0,
            sh_addralign: 0,
            sh_entsize: 0,
        }
    }
}

impl Default for Elf32Shdr {
    fn default() -> (r: Self)
        ensures
            r == Self::spec_default(),
    {
        Elf32Shdr {
            sh_name: 0,
            sh_type: SHType::ShtNULL,
            sh_flags: 0,
            sh_addr: 0,
            sh_offset: 0,
            sh_size: 0,
            sh_link: 0,
            sh_info: 0,
            sh_addralign: 0,
            sh_entsize: 0,
        }
    }
}

impl TableEntry for Elf32Shdr {
    open spec fn entry_size() -> nat {
        SHDR32_SIZE as nat
    }

    open spec fn decoded(s: Seq<u8>, at: int) -> Result<Self, DecodeError> {
        Self::spec_decode(s, at)
    }

    open spec fn encoded(&self) -> Seq<u8> {
        self.encoding()
    }

    fn decode(io: &mut ByteSource) -> (r: Result<Self, DecodeError>) {
        Self::from_io(io)
    }

    proof fn lemma_roundtrip(m: Self, s: Seq<u8>, at: int) {
        Self::lemma_decode_encoding(m, s, at);
    }
}

impl Section for Elf32Shdr {
    open spec fn name(&self) -> u32 {
        self.sh_name
    }

    open spec fn offset(&self) -> u64 {
        self.sh_offset as u64
    }

    open spec fn size(&self) -> u64 {
        self.sh_size as u64
    }

    fn name_index(&self) -> (n: u32) {
        self.sh_name
    }

    fn file_offset(&self) -> (o: u64) {
        self.sh_offset as u64
    }

    fn file_size(&self) -> (n: u64) {
        self.sh_size as u64
    }
}

} // verus!
