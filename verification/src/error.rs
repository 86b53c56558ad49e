//! The errors a decode or an inference can end in.

use vstd::prelude::*;

verus! {

/// A part of the file that a decoder reads or that an inference looks for.
#[derive(Debug, Clone, Copy, PartialEq, Eq, Structural)]
pub enum Structure {
    /// The 16-byte identification block that opens the file.
    Ident,
    /// The fixed-size header behind the identification block.
    Header,
    /// One entry of the program header table.
    ProgramHeader,
    /// One entry of the section header table.
    SectionHeader,
    /// One entry of a symbol table.
    Symbol,
    /// The contents of the section that holds the section names.
    SectionNameTable,
    /// The name `.strtab` inside the section name table.
    StrtabName,
    /// The section called `.strtab`, which holds the symbol names.
    SymbolNameTable,
    /// The `PT_GNU_STACK` entry of the program header table.
    GnuStack,
}

/// A field whose value is one of a fixed set of tags.
#[derive(Debug, Clone, Copy, PartialEq, Eq, Structural)]
pub enum EnumField {
    /// The class byte of the identification block.
    Class,
    /// The data encoding byte of the identification block.
    Data,
    /// The version byte of the identification block.
    IdentVersion,
    /// The OS/ABI byte of the identification block.
    OsAbi,
    /// The object type of the header.
    ObjectType,
    /// The machine of the header.
    Machine,
    /// The version of the header.
    Version,
    /// The type of a program header entry.
    SegmentType,
    /// The type of a section header entry.
    SectionType,
}

/// Why a file could not be decoded or analysed.
#[derive(Debug, Clone, Copy, PartialEq, Eq, Structural)]
pub enum DecodeError {
    /// The byte source ended before `structure` was complete.
    Truncated { structure: Structure },
    /// The first four bytes are not `0x7F 'E' 'L' 'F'`.
    BadMagic,
    /// `field` holds `value`, which is none of its known tags.
    InvalidEnumerant { field: EnumField, value: u32 },
    /// `field` holds the known tag `value`, which nothing here can work with.
    Unsupported { field: EnumField, value: u32 },
    /// The file has no `structure`, which the inference cannot do without.
    Missing { structure: Structure },
}

/// What was read, or the failure that `structure` is cut short where the read
/// found too few bytes.
pub fn complete<T>(read: Option<T>, structure: Structure) -> (r: Result<T, DecodeError>)
    ensures
        r == match read {
            Some(v) => Ok::<T, DecodeError>(v),
            None => Err::<T, DecodeError>(DecodeError::Truncated { structure }),
        },
{
    match read {
        Some(v) => Ok(v),
        None => Err(DecodeError::Truncated { structure }),
    }
}

/// What a tag stands for, or the failure that `field` holds `value` where the
/// tag stands for nothing.
pub fn known<T>(meaning: Option<T>, field: EnumField, value: u32) -> (r: Result<T, DecodeError>)
    ensures
        r == match meaning {
            Some(v) => Ok::<T, DecodeError>(v),
            None => Err::<T, DecodeError>(DecodeError::InvalidEnumerant { field, value }),
        },
{
    match meaning {
        Some(v) => Ok(v),
        None => Err(DecodeError::InvalidEnumerant { field, value }),
    }
}

/// What was found, or the failure that the file has no `structure` where
/// nothing was found.
pub fn present<T>(found: Option<T>, structure: Structure) -> (r: Result<T, DecodeError>)
    ensures
        r == match found {
            Some(v) => Ok::<T, DecodeError>(v),
            None => Err::<T, DecodeError>(DecodeError::Missing { structure }),
        },
{
    match found {
        Some(v) => Ok(v),
        None => Err(DecodeError::Missing { structure }),
    }
}

} // verus!
