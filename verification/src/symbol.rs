//! Symbol table entries.

use vstd::prelude::*;
use crate::error::{complete, DecodeError, Structure};
use crate::reader::{
    avail, le_u16, le_u32, le_u64, le_u8, lemma_le_u16_of_encoding, lemma_le_u32_of_encoding,
    lemma_le_u64_of_encoding, lemma_le_u8_of_encoding, lemma_split, read_u16, read_u32, read_u64,
    read_u8, u16_le, u32_le, u64_le, u8_le, ByteSource,
};
use crate::table::TableEntry;

verus! {

/// Size of a symbol table entry of a 64-bit file in bytes.
pub const SYM64_SIZE: u64 = 24;

/// Symbol table entry of a 64-bit file.
#[derive(Debug, Clone, Copy, PartialEq, Eq)]
pub struct Elf64Sym {
    /// Offset of the symbol's name in the symbol name table.
    pub st_name: u32,
    /// Type and binding of the symbol.
    pub st_info: u8,
    /// Visibility of the symbol.
    pub st_other: u8,
    /// Index of the section the symbol belongs to.
    pub st_shndx: u16,
    /// Value of the symbol, mostly an address.
    pub st_value: u64,
    /// Size of the object the symbol names.
    pub st_size: u64,
}

impl Elf64Sym {
    /// What decoding the bytes of `s` from `at` on yields.
    ///
    /// The fields lie in the order of the declaration, each least significant
    /// byte first.
    pub open spec fn spec_decode(s: Seq<u8>, at: int) -> Result<Elf64Sym, DecodeError> {
        if avail(s, at) < SYM64_SIZE {
            Err(DecodeError::Truncated { structure: Structure::Symbol })
        } else {
            Ok(
                Elf64Sym {
                    st_name: le_u32(s, at),
                    st_info: le_u8(s, at + 4),
                    st_other: le_u8(s, at + 5),
                    st_shndx: le_u16(s, at + 6),
                    st_value: le_u64(s, at + 8),
                    st_size: le_u64(s, at + 16),
                },
            )
        }
    }

    /// The 24 bytes that stand for this value in a file.
    pub open spec fn encoding(self) -> Seq<u8> {
        u32_le(self.st_name)
            + u8_le(self.st_info)
            + u8_le(self.st_other)
            + u16_le(self.st_shndx)
            + u64_le(self.st_value)
            + u64_le(self.st_size)
    }

    /// Decodes a symbol table entry of a 64-bit file at the cursor.
    ///
    /// On success the cursor has moved behind the 24 bytes read; on failure
    /// it has not moved.
    pub fn from_io(io: &mut ByteSource) -> (r: Result<Elf64Sym, DecodeError>)
        ensures
            r == Self::spec_decode(old(io)@.bytes, old(io)@.pos as int),
            final(io)@.bytes == old(io)@.bytes,
            r is Ok ==> final(io)@.pos == old(io)@.pos + SYM64_SIZE,
            r is Err ==> final(io)@.pos == old(io)@.pos,
    {
        let mut cur: ByteSource = *io;
        let st_name = complete(read_u32(&mut cur), Structure::Symbol)?;
        let st_info = complete(read_u8(&mut cur), Structure::Symbol)?;
        let st_other = complete(read_u8(&mut cur), Structure::Symbol)?;
        let st_shndx = complete(read_u16(&mut cur), Structure::Symbol)?;
        let st_value = complete(read_u64(&mut cur), Structure::Symbol)?;
        let st_size = complete(read_u64(&mut cur), Structure::Symbol)?;
        *io = cur;
        Ok(
            Elf64Sym {
                st_name,
                st_info,
                st_other,
                st_shndx,
                st_value,
                st_size,
            },
        )
    }

    /// Decoding gives back the value that a run of bytes was made from: where
    /// the 24 bytes of `s` from `at` on are the encoding of `m`, decoding
    /// there yields `m`, every field as it was.
    pub proof fn lemma_decode_encoding(m: Elf64Sym, s: Seq<u8>, at: int)
        requires
            0 <= at,
            at + SYM64_SIZE <= s.len(),
            s.subrange(at, at + SYM64_SIZE) == m.encoding(),
        ensures
            Self::spec_decode(s, at) == Ok::<Elf64Sym, DecodeError>(m),
    {
        let b0 = u32_le(m.st_name);
        let b1 = b0 + u8_le(m.st_info);
        let b2 = b1 + u8_le(m.st_other);
        let b3 = b2 + u16_le(m.st_shndx);
        let b4 = b3 + u64_le(m.st_value);
        let b5 = b4 + u64_le(m.st_size);
        assert(m.encoding() == b5);
        lemma_split(s, at, b4, u64_le(m.st_size));
        lemma_split(s, at, b3, u64_le(m.st_value));
        lemma_split(s, at, b2, u16_le(m.st_shndx));
        lemma_split(s, at, b1, u8_le(m.st_other));
        lemma_split(s, at, b0, u8_le(m.st_info));
        lemma_le_u32_of_encoding(m.st_name, s, at);
        lemma_le_u8_of_encoding(m.st_info, s, at + 4);
        lemma_le_u8_of_encoding(m.st_other, s, at + 5);
        lemma_le_u16_of_encoding(m.st_shndx, s, at + 6);
        lemma_le_u64_of_encoding(m.st_value, s, at + 8);
        lemma_le_u64_of_encoding(m.st_size, s, at + 16);
    }

    /// An entry with every number zero.
    pub open spec fn spec_default() -> Elf64Sym {
        Elf64Sym {
            st_name: 0,
            st_info: 0,
            st_other: 0,
            st_shndx: 0,
            st_value: 0,
            st_size: 0,
        }
    }
}

impl Default for Elf64Sym {
    fn default() -> (r: Self)
        ensures
            r == Self::spec_default(),
    {
        Elf64Sym {
            st_name: 0,
            st_info: 0,
            st_other: 0,
            st_shndx: 0,
            st_value: 0,
            st_size: 0,
        }
    }
}

impl TableEntry for Elf64Sym {
    open spec fn entry_size() -> nat {
        SYM64_SIZE as nat
    }

    open spec fn decoded(s: Seq<u8>, at: int) -> Result<Self, DecodeError> {
        Self::spec_decode(s, at)
    }

    open spec fn encoded(&self) -> Seq<u8> {
        self.encoding()
    }

    fn decode(io: &mut ByteSource) -> (r: Result<Self, DecodeError>) {
        Self::from_io(io)
    }

    proof fn lemma_roundtrip(m: Self, s: Seq<u8>, at: int) {
        Self::lemma_decode_encoding(m, s, at);
    }
}

} // verus!
