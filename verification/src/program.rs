//! Program header entries: the segments the loader maps, and the markers the
//! toolchain leaves for it.

use vstd::prelude::*;
use crate::error::{complete, known, DecodeError, EnumField, Structure};
use crate::reader::{
    avail, le_u32, le_u64, lemma_le_u32_of_encoding, lemma_le_u64_of_encoding, lemma_split,
    read_u32, read_u64, u32_le, u64_le, ByteSource,
};
use crate::table::TableEntry;

verus! {

/// Kind of segment a program header entry describes.
#[derive(Debug, Clone, Copy, PartialEq, Eq, Structural)]
pub enum PType {
    /// Unused entry.
    PtNull,
    /// Loadable segment.
    PtLoad,
    /// Dynamic linking information.
    PtDynamic,
    /// Path of the interpreter.
    PtInterp,
    /// Auxiliary notes.
    PtNote,
    PtShlib,
    /// The program header table itself.
    PtPhdr,
    /// Thread-local storage template.
    PtTls,
    PtLoos,
    PtHios,
    PtLoproc,
    PtHiproc,
    /// Exception handling frame index.
    PtGnuEhFrame,
    /// Permissions asked for the stack.
    PtGnuStack,
    /// Region made read-only once relocation is done.
    PtGnuRelro,
}

impl PType {
    /// The number that stands for this segment type in a file.
    pub open spec fn tag(self) -> u32 {
        match self {
            PType::PtNull => 0,
            PType::PtLoad => 1,
            PType::PtDynamic => 2,
            PType::PtInterp => 3,
            PType::PtNote => 4,
            PType::PtShlib => 5,
            PType::PtPhdr => 6,
            PType::PtTls => 7,
            PType::PtLoos => 0x60000000,
            PType::PtHios => 0x6fffffff,
            PType::PtLoproc => 0x70000000,
            PType::PtHiproc => 0x7fffffff,
            PType::PtGnuEhFrame => 0x6474e550,
            PType::PtGnuStack => 0x6474e551,
            PType::PtGnuRelro => 0x6474e552,
        }
    }

    /// The segment type that `v` stands for, if it stands for one.
    pub open spec fn of_tag(v: u32) -> Option<PType> {
        if exists|e: PType| e.tag() == v {
            Some(choose|e: PType| e.tag() == v)
        } else {
            None
        }
    }

    /// Every segment type is found again from its own number.
    pub proof fn lemma_of_tag(e: PType)
        ensures
            Self::of_tag(e.tag()) == Some(e),
    {
    }

    /// The segment type that `v` stands for; `None` where `v` is no known number.
    pub fn from_u32(v: u32) -> (r: Option<PType>)
        ensures
            r == Self::of_tag(v),
            match r {
                Some(e) => e.tag() == v,
                None => forall|e: PType| e.tag() != v,
            },
    {
        let r = match v {
            0 => Some(PType::PtNull),
            1 => Some(PType::PtLoad),
            2 => Some(PType::PtDynamic),
            3 => Some(PType::PtInterp),
            4 => Some(PType::PtNote),
            5 => Some(PType::PtShlib),
            6 => Some(PType::PtPhdr),
            7 => Some(PType::PtTls),
            0x60000000 => Some(PType::PtLoos),
            0x6fffffff => Some(PType::PtHios),
            0x70000000 => Some(PType::PtLoproc),
            0x7fffffff => Some(PType::PtHiproc),
            0x6474e550 => Some(PType::PtGnuEhFrame),
            0x6474e551 => Some(PType::PtGnuStack),
            0x6474e552 => Some(PType::PtGnuRelro),
            _ => None,
        };
        proof {
            if let Some(e) = r {
                Self::lemma_of_tag(e);
            }
        }
        r
    }

    /// The number that stands for this segment type in a file.
    pub fn to_u32(&self) -> (v: u32)
        ensures
            v == self.tag(),
    {
        match self {
            PType::PtNull => 0,
            PType::PtLoad => 1,
            PType::PtDynamic => 2,
            PType::PtInterp => 3,
            PType::PtNote => 4,
            PType::PtShlib => 5,
            PType::PtPhdr => 6,
            PType::PtTls => 7,
            PType::PtLoos => 0x60000000,
            PType::PtHios => 0x6fffffff,
            PType::PtLoproc => 0x70000000,
            PType::PtHiproc => 0x7fffffff,
            PType::PtGnuEhFrame => 0x6474e550,
            PType::PtGnuStack => 0x6474e551,
            PType::PtGnuRelro => 0x6474e552,
        }
    }
}

impl Default for PType {
    fn default() -> (r: Self)
        ensures
            r == PType::PtNull,
    {
        PType::PtNull
    }
}

/// True where `flags` grants reading: bit 2 is set.
pub open spec fn perm_r(flags: u32) -> bool {
    (flags / 4) % 2 == 1
}

/// True where `flags` grants writing: bit 1 is set.
pub open spec fn perm_w(flags: u32) -> bool {
    (flags / 2) % 2 == 1
}

/// True where `flags` grants execution: bit 0 is set.
pub open spec fn perm_x(flags: u32) -> bool {
    flags % 2 == 1
}

/// Tests bit 2 of `flags`, the permission to read.
pub fn grants_read(flags: u32) -> (b: bool)
    ensures
        b == perm_r(flags),
{
    assert(((flags >> 2) & 1 == 1) == ((flags / 4) % 2 == 1)) by (bit_vector);
    (flags >> 2) & 1 == 1
}

/// Tests bit 1 of `flags`, the permission to write.
pub fn grants_write(flags: u32) -> (b: bool)
    ensures
        b == perm_w(flags),
{
    assert(((flags >> 1) & 1 == 1) == ((flags / 2) % 2 == 1)) by (bit_vector);
    (flags >> 1) & 1 == 1
}

/// Tests bit 0 of `flags`, the permission to execute.
pub fn grants_execute(flags: u32) -> (b: bool)
    ensures
        b == perm_x(flags),
{
    assert((flags & 1 == 1) == (flags % 2 == 1)) by (bit_vector);
    flags & 1 == 1
}

/// What the inference of hardening facts reads of a program header entry,
/// whatever the width of its addresses.
pub trait Segment {
    /// The kind of segment the entry describes.
    spec fn kind(&self) -> PType;

    /// The permission bits of the segment.
    spec fn flags(&self) -> u32;

    /// The kind of segment the entry describes.
    fn segment_type(&self) -> (t: PType)
        ensures
            t == self.kind(),
    ;

    /// The permission bits of the segment.
    fn segment_flags(&self) -> (f: u32)
        ensures
            f == self.flags(),
    ;
}

/// Size of a program header entry of a 64-bit file in bytes.
pub const PHDR64_SIZE: u64 = 56;

/// Program header entry of a 64-bit file. The permission bits come right
/// behind the type.
#[derive(Debug, Clone, Copy, PartialEq, Eq)]
pub struct Elf64Phdr {
    /// What kind of segment this is.
    pub p_type: PType,
    /// Permission bits: 4 to read, 2 to write, 1 to execute.
    pub p_flags: u32,
    /// File offset of the first byte of the segment.
    pub p_offset: u64,
    /// Virtual address of the first byte of the segment.
    pub p_vaddr: u64,
    /// Physical address of the first byte of the segment.
    pub p_paddr: u64,
    /// Number of bytes the segment takes in the file.
    pub p_filesz: u64,
    /// Number of bytes the segment takes in memory.
    pub p_memsz: u64,
    /// Alignment of the segment in memory and in the file.
    pub p_align: u64,
}

impl Elf64Phdr {
    /// What decoding the bytes of `s` from `at` on yields.
    ///
    /// The fields lie in the order of the declaration, each least significant
    /// byte first. A field that holds a tag is checked as soon as its bytes are
    /// there, before anything behind it is looked at.
    pub open spec fn spec_decode(s: Seq<u8>, at: int) -> Result<Elf64Phdr, DecodeError> {
        if avail(s, at) < 4 {
            Err(DecodeError::Truncated { structure: Structure::ProgramHeader })
        } else if PType::of_tag(le_u32(s, at)) is None {
            Err(
                DecodeError::InvalidEnumerant {
                    field: EnumField::SegmentType,
                    value: le_u32(s, at),
                },
            )
        } else if avail(s, at) < PHDR64_SIZE {
            Err(DecodeError::Truncated { structure: Structure::ProgramHeader })
        } else {
            Ok(
                Elf64Phdr {
                    p_type: PType::of_tag(le_u32(s, at))->0,
                    p_flags: le_u32(s, at + 4),
                    p_offset: le_u64(s, at + 8),
                    p_vaddr: le_u64(s, at + 16),
                    p_paddr: le_u64(s, at + 24),
                    p_filesz: le_u64(s, at + 32),
                    p_memsz: le_u64(s, at + 40),
                    p_align: le_u64(s, at + 48),
                },
            )
        }
    }

    /// The 56 bytes that stand for this value in a file.
    pub open spec fn encoding(self) -> Seq<u8> {
        u32_le(self.p_type.tag())
            + u32_le(self.p_flags)
            + u64_le(self.p_offset)
            + u64_le(self.p_vaddr)
            + u64_le(self.p_paddr)
            + u64_le(self.p_filesz)
            + u64_le(self.p_memsz)
            + u64_le(self.p_align)
    }

    /// Decodes a program header entry of a 64-bit file at the cursor.
    ///
    /// On success the cursor has moved behind the 56 bytes read; on failure
    /// it has not moved.
    pub fn from_io(io: &mut ByteSource) -> (r: Result<Elf64Phdr, DecodeError>)
        ensures
            r == Self::spec_decode(old(io)@.bytes, old(io)@.pos as int),
            final(io)@.bytes == old(io)@.bytes,
            r is Ok ==> final(io)@.pos == old(io)@.pos + PHDR64_SIZE,
            r is Err ==> final(io)@.pos == old(io)@.pos,
    {
        let mut cur: ByteSource = *io;
        let raw = complete(read_u32(&mut cur), Structure::ProgramHeader)?;
        let p_type = known(PType::from_u32(raw), EnumField::SegmentType, raw)?;
        let p_flags = complete(read_u32(&mut cur), Structure::ProgramHeader)?;
        let p_offset = complete(read_u64(&mut cur), Structure::ProgramHeader)?;
        let p_vaddr = complete(read_u64(&mut cur), Structure::ProgramHeader)?;
        let p_paddr = complete(read_u64(&mut cur), Structure::ProgramHeader)?;
        let p_filesz = complete(read_u64(&mut cur), Structure::ProgramHeader)?;
        let p_memsz = complete(read_u64(&mut cur), Structure::ProgramHeader)?;
        let p_align = complete(read_u64(&mut cur), Structure::ProgramHeader)?;
        *io = cur;
        Ok(
            Elf64Phdr {
                p_type,
                p_flags,
                p_offset,
                p_vaddr,
                p_paddr,
                p_filesz,
                p_memsz,
                p_align,
            },
        )
    }

    /// Decoding gives back the value that a run of bytes was made from: where
    /// the 56 bytes of `s` from `at` on are the encoding of `m`, decoding
    /// there yields `m`, every field as it was.
    pub proof fn lemma_decode_encoding(m: Elf64Phdr, s: Seq<u8>, at: int)
        requires
            0 <= at,
            at + PHDR64_SIZE <= s.len(),
            s.subrange(at, at + PHDR64_SIZE) == m.encoding(),
        ensures
            Self::spec_decode(s, at) == Ok::<Elf64Phdr, DecodeError>(m),
    {
        let b0 = u32_le(m.p_type.tag());
        let b1 = b0 + u32_le(m.p_flags);
        let b2 = b1 + u64_le(m.p_offset);
        let b3 = b2 + u64_le(m.p_vaddr);
        let b4 = b3 + u64_le(m.p_paddr);
        let b5 = b4 + u64_le(m.p_filesz);
        let b6 = b5 + u64_le(m.p_memsz);
        let b7 = b6 + u64_le(m.p_align);
        assert(m.encoding() == b7);
        lemma_split(s, at, b6, u64_le(m.p_align));
        lemma_split(s, at, b5, u64_le(m.p_memsz));
        lemma_split(s, at, b4, u64_le(m.p_filesz));
        lemma_split(s, at, b3, u64_le(m.p_paddr));
        lemma_split(s, at, b2, u64_le(m.p_vaddr));
        lemma_split(s, at, b1, u64_le(m.p_offset));
        lemma_split(s, at, b0, u32_le(m.p_flags));
        lemma_le_u32_of_encoding(m.p_type.tag(), s, at);
        PType::lemma_of_tag(m.p_type);
        lemma_le_u32_of_encoding(m.p_flags, s, at + 4);
        lemma_le_u64_of_encoding(m.p_offset, s, at + 8);
        lemma_le_u64_of_encoding(m.p_vaddr, s, at + 16);
        lemma_le_u64_of_encoding(m.p_paddr, s, at + 24);
        lemma_le_u64_of_encoding(m.p_filesz, s, at + 32);
        lemma_le_u64_of_encoding(m.p_memsz, s, at + 40);
        lemma_le_u64_of_encoding(m.p_align, s, at + 48);
    }

    /// An unused entry: type null, every number zero.
    pub open spec fn spec_default() -> Elf64Phdr {
        Elf64Phdr {
            p_type: PType::PtNull,
            p_flags: 0,
            p_offset: 0,
            p_vaddr: 0,
            p_paddr: 0,
            p_filesz: 0,
            p_memsz: 0,
            p_align: 0,
        }
    }

    /// True where the segment may be read.
    pub fn has_r(&self) -> (b: bool)
        ensures
            b == perm_r(self.p_flags),
    {
        grants_read(self.p_flags)
    }

    /// True where the segment may be written.
    pub fn has_w(&self) -> (b: bool)
        ensures
            b == perm_w(self.p_flags),
    {
        grants_write(self.p_flags)
    }

    /// True where the segment may be executed.
    pub fn has_x(&self) -> (b: bool)
        ensures
            b == perm_x(self.p_flags),
    {
        grants_execute(self.p_flags)
    }
}

impl Default for Elf64Phdr {
    fn default() -> (r: Self)
        ensures
            r == Self::spec_default(),
    {
        Elf64Phdr {
            p_type: PType::PtNull,
            p_flags: 0,
            p_offset: 0,
            p_vaddr: 0,
            p_paddr: 0,
            p_filesz: 0,
            p_memsz: 0,
            p_align: 0,
        }
    }
}

impl TableEntry for Elf64Phdr {
    open spec fn entry_size() -> nat {
        PHDR64_SIZE as nat
    }

    open spec fn decoded(s: Seq<u8>, at: int) -> Result<Self, DecodeError> {
        Self::spec_decode(s, at)
    }

    open spec fn encoded(&self) -> Seq<u8> {
        self.encoding()
    }

    fn decode(io: &mut ByteSource) -> (r: Result<Self, DecodeError>) {
        Self::from_io(io)
    }

    proof fn lemma_roundtrip(m: Self, s: Seq<u8>, at: int) {
        Self::lemma_decode_encoding(m, s, at);
    }
}

impl Segment for Elf64Phdr {
    open spec fn kind(&self) -> PType {
        self.p_type
    }

    open spec fn flags(&self) -> u32 {
        self.p_flags
    }

    fn segment_type(&self) -> (t: PType) {
        self.p_type
    }

    fn segment_flags(&self) -> (f: u32) {
        self.p_flags
    }
}

/// Size of a program header entry of a 32-bit file in bytes.
pub const PHDR32_SIZE: u64 = 32;

/// Program header entry of a 32-bit file. The permission bits come behind
/// the sizes.
#[derive(Debug, Clone, Copy, PartialEq, Eq)]
pub struct Elf32Phdr {
    /// What kind of segment this is.
    pub p_type: PType,
    /// File offset of the first byte of the segment.
    pub p_offset: u32,
    /// Virtual address of the first byte of the segment.
    pub p_vaddr: u32,
    /// Physical address of the first byte of the segment.
    pub p_paddr: u32,
    /// Number of bytes the segment takes in the file.
    pub p_filesz: u32,
    /// Number of bytes the segment takes in memory.
    pub p_memsz: u32,
    /// Permission bits: 4 to read, 2 to write, 1 to execute.
    pub p_flags: u32,
    /// Alignment of the segment in memory and in the file.
    pub p_align: u32,
}

impl Elf32Phdr {
    /// What decoding the bytes of `s` from `at` on yields.
    ///
    /// The fields lie in the order of the declaration, each least significant
    /// byte first. A field that holds a tag is checked as soon as its bytes are
    /// there, before anything behind it is looked at.
    pub open spec fn spec_decode(s: Seq<u8>, at: int) -> Result<Elf32Phdr, DecodeError> {
        if avail(s, at) < 4 {
            Err(DecodeError::Truncated { structure: Structure::ProgramHeader })
        } else if PType::of_tag(le_u32(s, at)) is None {
            Err(
                DecodeError::InvalidEnumerant {
                    field: EnumField::SegmentType,
                    value: le_u32(s, at),
                },
            )
        } else if avail(s, at) < PHDR32_SIZE {
            Err(DecodeError::Truncated { structure: Structure::ProgramHeader })
        } else {
            Ok(
                Elf32Phdr {
                    p_type: PType::of_tag(le_u32(s, at))->0,
                    p_offset: le_u32(s, at + 4),
                    p_vaddr: le_u32(s, at + 8),
                    p_paddr: le_u32(s, at + 12),
                    p_filesz: le_u32(s, at + 16),
                    p_memsz: le_u32(s, at + 20),
                    p_flags: le_u32(s, at + 24),
                    p_align: le_u32(s, at + 28),
                },
            )
        }
    }

    /// The 32 bytes that stand for this value in a file.
    pub open spec fn encoding(self) -> Seq<u8> {
        u32_le(self.p_type.tag())
            + u32_le(self.p_offset)
            + u32_le(self.p_vaddr)
            + u32_le(self.p_paddr)
            + u32_le(self.p_filesz)
            + u32_le(self.p_memsz)
            + u32_le(self.p_flags)
            + u32_le(self.p_align)
    }

    /// Decodes a program header entry of a 32-bit file at the cursor.
    ///
    /// On success the cursor has moved behind the 32 bytes read; on failure
    /// it has not moved.
    pub fn from_io(io: &mut ByteSource) -> (r: Result<Elf32Phdr, DecodeError>)
        ensures
            r == Self::spec_decode(old(io)@.bytes, old(io)@.pos as int),
            final(io)@.bytes == old(io)@.bytes,
            r is Ok ==> final(io)@.pos == old(io)@.pos + PHDR32_SIZE,
            r is Err ==> final(io)@.pos == old(io)@.pos,
    {
        let mut cur: ByteSource = *io;
        let raw = complete(read_u32(&mut cur), Structure::ProgramHeader)?;
        let p_type = known(PType::from_u32(raw), EnumField::SegmentType, raw)?;
        let p_offset = complete(read_u32(&mut cur), Structure::ProgramHeader)?;
        let p_vaddr = complete(read_u32(&mut cur), Structure::ProgramHeader)?;
        let p_paddr = complete(read_u32(&mut cur), Structure::ProgramHeader)?;
        let p_filesz = complete(read_u32(&mut cur), Structure::ProgramHeader)?;
        let p_memsz = complete(read_u32(&mut cur), Structure::ProgramHeader)?;
        let p_flags = complete(read_u32(&mut cur), Structure::ProgramHeader)?;
        let p_align = complete(read_u32(&mut cur), Structure::ProgramHeader)?;
        *io = cur;
        Ok(
            Elf32Phdr {
                p_type,
                p_offset,
                p_vaddr,
                p_paddr,
                p_filesz,
                p_memsz,
                p_flags,
                p_align,
            },
        )
    }

    /// Decoding gives back the value that a run of bytes was made from: where
    /// the 32 bytes of `s` from `at` on are the encoding of `m`, decoding
    /// there yields `m`, every field as it was.
    pub proof fn lemma_decode_encoding(m: Elf32Phdr, s: Seq<u8>, at: int)
        requires
            0 <= at,
            at + PHDR32_SIZE <= s.len(),
            s.subrange(at, at + PHDR32_SIZE) == m.encoding(),
        ensures
            Self::spec_decode(s, at) == Ok::<Elf32Phdr, DecodeError>(m),
    {
        let b0 = u32_le(m.p_type.tag());
        let b1 = b0 + u32_le(m.p_offset);
        let b2 = b1 + u32_le(m.p_vaddr);
        let b3 = b2 + u32_le(m.p_paddr);
        let b4 = b3 + u32_le(m.p_filesz);
        let b5 = b4 + u32_le(m.p_memsz);
        let b6 = b5 + u32_le(m.p_flags);
        let b7 = b6 + u32_le(m.p_align);
        assert(m.encoding() == b7);
        lemma_split(s, at, b6, u32_le(m.p_align));
        lemma_split(s, at, b5, u32_le(m.p_flags));
        lemma_split(s, at, b4, u32_le(m.p_memsz));
        lemma_split(s, at, b3, u32_le(m.p_filesz));
        lemma_split(s, at, b2, u32_le(m.p_paddr));
        lemma_split(s, at, b1, u32_le(m.p_vaddr));
        lemma_split(s, at, b0, u32_le(m.p_offset));
        lemma_le_u32_of_encoding(m.p_type.tag(), s, at);
        PType::lemma_of_tag(m.p_type);
        lemma_le_u32_of_encoding(m.p_offset, s, at + 4);
        lemma_le_u32_of_encoding(m.p_vaddr, s, at + 8);
        lemma_le_u32_of_encoding(m.p_paddr, s, at + 12);
        lemma_le_u32_of_encoding(m.p_filesz, s, at + 16);
        lemma_le_u32_of_encoding(m.p_memsz, s, at + 20);
        lemma_le_u32_of_encoding(m.p_flags, s, at + 24);
        lemma_le_u32_of_encoding(m.p_align, s, at + 28);
    }

    /// An unused entry: type null, every number zero.
    pub open spec fn spec_default() -> Elf32Phdr {
        Elf32Phdr {
            p_type: PType::PtNull,
            p_offset: 0,
            p_vaddr: 0,
            p_paddr: 0,
            p_filesz: 0,
            p_memsz: 0,
            p_flags: 0,
            p_align: 0,
        }
    }

    /// True where the segment may be read.
    pub fn has_r(&self) -> (b: bool)
        ensures
            b == perm_r(self.p_flags),
    {
        grants_read(self.p_flags)
    }

    /// True where the segment may be written.
    pub fn has_w(&self) -> (b: bool)
        ensures
            b == perm_w(self.p_flags),
    {
        grants_write(self.p_flags)
    }

    /// True where the segment may be executed.
    pub fn has_x(&self) -> (b: bool)
        ensures
            b == perm_x(self.p_flags),
    {
        grants_execute(self.p_flags)
    }
}

impl Default for Elf32Phdr {
    fn default() -> (r: Self)
        ensures
            r == Self::spec_default(),
    {
        Elf32Phdr {
            p_type: PType::PtNull,
            p_offset: 0,
            p_vaddr: 0,
            p_paddr: 0,
            p_filesz: 0,
            p_memsz: 0,
            p_flags: 0,
            p_align: 0,
        }
    }
}

impl TableEntry for Elf32Phdr {
    open spec fn entry_size() -> nat {
        PHDR32_SIZE as nat
    }

    open spec fn decoded(s: Seq<u8>, at: int) -> Result<Self, DecodeError> {
        Self::spec_decode(s, at)
    }

    open spec fn encoded(&self) -> Seq<u8> {
        self.encoding()
    }

    fn decode(io: &mut ByteSource) -> (r: Result<Self, DecodeError>) {
        Self::from_io(io)
    }

    proof fn lemma_roundtrip(m: Self, s: Seq<u8>, at: int) {
        Self::lemma_decode_encoding(m, s, at);
    }
}

impl Segment for Elf32Phdr {
    open spec fn kind(&self) -> PType {
        self.p_type
    }

    open spec fn flags(&self) -> u32 {
        self.p_flags
    }

    fn segment_type(&self) -> (t: PType) {
        self.p_type
    }

    fn segment_flags(&self) -> (f: u32) {
        self.p_flags
    }
}

} // verus!
