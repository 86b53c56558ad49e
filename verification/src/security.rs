//! What a decoded file tells about its hardening: stack canary, non-executable
//! stack, RELRO and position independence.
//!
//! The canary and RELRO answers come from searching raw string tables for a
//! name. That is quick and approximate: a crafted file can fool it either way.

use vstd::prelude::*;
use crate::elf::{DecodedElf, DecodedImage, Elf32Image, Elf64Image, ELF32, ELF64};
use crate::error::{complete, present, DecodeError, EnumField, Structure};
use crate::header::EType;
use crate::program::{grants_execute, perm_x, PType, Segment};
use crate::reader::{region, ByteSource};
use crate::search::{
    contains, find, first_occurrence, least, lemma_least_exists, lemma_least_is,
    lemma_least_none, occurs,
};
use crate::section::Section;

verus! {

/// The bytes of `.strtab`, the name of the section that holds symbol names.
pub const STRTAB_NAME: [u8; 7] = [0x2e, 0x73, 0x74, 0x72, 0x74, 0x61, 0x62];

/// The bytes of `.got.plt`.
pub const GOT_PLT_NAME: [u8; 8] = [0x2e, 0x67, 0x6f, 0x74, 0x2e, 0x70, 0x6c, 0x74];

/// The bytes of `__stack_chk_fail`, the function a stack protector calls.
pub const STACK_CHK_FAIL_NAME: [u8; 16] = [
    0x5f,
    0x5f,
    0x73,
    0x74,
    0x61,
    0x63,
    0x6b,
    0x5f,
    0x63,
    0x68,
    0x6b,
    0x5f,
    0x66,
    0x61,
    0x69,
    0x6c,
];

/// How much of the relocation data is read-only once the program runs.
#[derive(Debug, Clone, Copy, PartialEq, Eq, Structural)]
pub enum RelRo {
    NoRelRo,
    PartialRelRo,
    FullRelRo,
}

impl Default for RelRo {
    fn default() -> (r: Self)
        ensures
            r == RelRo::NoRelRo,
    {
        RelRo::NoRelRo
    }
}

/// The hardening facts of one file.
#[derive(Debug, Clone, Copy, PartialEq, Eq, Structural)]
pub struct SecurityOptions {
    /// The symbol names mention the stack protector's failure function.
    pub canary: bool,
    /// The stack is not executable.
    pub nx: bool,
    /// How far relocation data is protected.
    pub relro: RelRo,
    /// The file can be loaded at any address.
    pub pie: bool,
}

impl Default for SecurityOptions {
    /// Nothing found: no canary, no NX, no RELRO, no PIE.
    fn default() -> (r: Self)
        ensures
            r == (SecurityOptions {
                canary: false,
                nx: false,
                relro: RelRo::NoRelRo,
                pie: false,
            }),
    {
        SecurityOptions { canary: false, nx: false, relro: RelRo::NoRelRo, pie: false }
    }
}

/// The condition "entry `i` of `pht` is of kind `t`", as a function of `i`.
pub open spec fn segment_is<P: Segment>(pht: Seq<P>, t: PType) -> spec_fn(int) -> bool {
    |i: int| i < pht.len() && pht[i].kind() == t
}

/// True where `pht` has an entry of kind `t`.
pub open spec fn has_segment<P: Segment>(pht: Seq<P>, t: PType) -> bool {
    exists|i: int| 0 <= i < pht.len() && (#[trigger] pht[i]).kind() == t
}

/// Index of the first entry of `pht` of kind `t`, if there is one.
pub open spec fn first_segment<P: Segment>(pht: Seq<P>, t: PType) -> Option<int> {
    least(segment_is(pht, t))
}

/// The condition "entry `i` of `sht` has its name at offset `name`", as a
/// function of `i`.
pub open spec fn section_named<S: Section>(sht: Seq<S>, name: int) -> spec_fn(int) -> bool {
    |i: int| i < sht.len() && sht[i].name() == name
}

/// Index of the first entry of `sht` whose name lies at offset `name` of the
/// section name table, if there is one.
pub open spec fn first_section_named<S: Section>(sht: Seq<S>, name: int) -> Option<int> {
    least(section_named(sht, name))
}

/// A table has an entry of a kind exactly where it has a first one, and the
/// first one is of that kind with none of that kind before it.
pub proof fn lemma_first_segment<P: Segment>(pht: Seq<P>, t: PType)
    ensures
        has_segment(pht, t) <==> first_segment(pht, t) is Some,
        first_segment(pht, t) matches Some(i) ==> {
            &&& 0 <= i < pht.len()
            &&& pht[i].kind() == t
            &&& forall|j: int| 0 <= j < i ==> (#[trigger] pht[j]).kind() != t
        },
{
    let p = segment_is(pht, t);
    if has_segment(pht, t) {
        let k = choose|k: int| 0 <= k < pht.len() && (#[trigger] pht[k]).kind() == t;
        assert(p(k));
        lemma_least_exists(p, k);
        let i = least(p)->0;
        assert forall|j: int| 0 <= j < i implies (#[trigger] pht[j]).kind() != t by {
            assert(!p(j));
        }
    } else {
        assert forall|i: int| 0 <= i implies !#[trigger] p(i) by {
            if i < pht.len() {
                assert(pht[i].kind() != t);
            }
        }
        lemma_least_none(p);
    }
}

/// Finds the first entry of `pht` of kind `t`.
pub fn find_segment<P: Segment>(pht: &[P], t: PType) -> (r: Option<usize>)
    ensures
        match r {
            Some(i) => {
                &&& first_segment(pht@, t) == Some(i as int)
                &&& i < pht@.len()
                &&& pht@[i as int].kind() == t
                &&& forall|j: int| 0 <= j < i ==> (#[trigger] pht@[j]).kind() != t
            },
            None => {
                &&& first_segment(pht@, t) is None
                &&& !has_segment(pht@, t)
            },
        },
{
    let n = pht.len();
    let mut i: usize = 0;
    while i < n
        invariant
            i <= n,
            n == pht@.len(),
            forall|j: int| 0 <= j < i ==> (#[trigger] pht@[j]).kind() != t,
        decreases n - i,
    {
        if pht[i].segment_type() == t {
            proof {
                let p = segment_is(pht@, t);
                assert(p(i as int));
                assert forall|j: int| 0 <= j < i implies !#[trigger] p(j) by {
                    assert(pht@[j].kind() != t);
                }
                lemma_least_is(p, i as int);
            }
            return Some(i);
        }
        i = i + 1;
    }
    proof {
        let p = segment_is(pht@, t);
        assert forall|j: int| 0 <= j implies !#[trigger] p(j) by {
            if j < n {
                assert(pht@[j].kind() != t);
            }
        }
        lemma_least_none(p);
    }
    None
}

/// Finds the first entry of `sht` whose name lies at offset `name` of the
/// section name table.
pub fn find_section_named<S: Section>(sht: &[S], name: u64) -> (r: Option<usize>)
    ensures
        match r {
            Some(i) => {
                &&& first_section_named(sht@, name as int) == Some(i as int)
                &&& i < sht@.len()
                &&& sht@[i as int].name() == name
                &&& forall|j: int| 0 <= j < i ==> (#[trigger] sht@[j]).name() != name
            },
            None => {
                &&& first_section_named(sht@, name as int) is None
                &&& forall|j: int| 0 <= j < sht@.len() ==> (#[trigger] sht@[j]).name() != name
            },
        },
{
    let n = sht.len();
    let mut i: usize = 0;
    while i < n
        invariant
            i <= n,
            n == sht@.len(),
            forall|j: int| 0 <= j < i ==> (#[trigger] sht@[j]).name() != name,
        decreases n - i,
    {
        if sht[i].name_index() as u64 == name {
            proof {
                let p = section_named(sht@, name as int);
                assert(p(i as int));
                assert forall|j: int| 0 <= j < i implies !#[trigger] p(j) by {
                    assert(sht@[j].name() != name);
                }
                lemma_least_is(p, i as int);
            }
            return Some(i);
        }
        i = i + 1;
    }
    proof {
        let p = section_named(sht@, name as int);
        assert forall|j: int| 0 <= j implies !#[trigger] p(j) by {
            if j < n {
                assert(sht@[j].name() != name);
            }
        }
        lemma_least_none(p);
    }
    None
}

/// Whether the stack is non-executable: the first `PT_GNU_STACK` entry says
/// so by leaving the execute bit clear. Without such an entry there is no
/// answer.
pub open spec fn spec_nx<P: Segment>(pht: Seq<P>) -> Result<bool, DecodeError> {
    match first_segment(pht, PType::PtGnuStack) {
        Some(i) => Ok(!perm_x(pht[i].flags())),
        None => Err(DecodeError::Missing { structure: Structure::GnuStack }),
    }
}

/// The RELRO level: none without a `PT_GNU_RELRO` entry; with one, partial
/// where the section names mention `.got.plt` and full where they do not.
pub open spec fn spec_relro<P: Segment>(pht: Seq<P>, names: Seq<u8>) -> RelRo {
    if !has_segment(pht, PType::PtGnuRelro) {
        RelRo::NoRelRo
    } else if occurs(names, GOT_PLT_NAME@) {
        RelRo::PartialRelRo
    } else {
        RelRo::FullRelRo
    }
}

/// Whether the file is position independent: a shared object is, an
/// executable is not, and any other type has no answer.
pub open spec fn spec_pie(t: EType) -> Result<bool, DecodeError> {
    match t {
        EType::EtDyn => Ok(true),
        EType::EtExec => Ok(false),
        _ => Err(DecodeError::Unsupported { field: EnumField::ObjectType, value: t.tag() as u32 }),
    }
}

/// The contents of the section that holds the section names: the section of
/// entry `shstrndx`.
pub open spec fn spec_section_names<S: Section>(
    sht: Seq<S>,
    shstrndx: int,
    bytes: Seq<u8>,
) -> Result<Seq<u8>, DecodeError> {
    if !(0 <= shstrndx < sht.len()) {
        Err(DecodeError::Missing { structure: Structure::SectionNameTable })
    } else {
        match region(bytes, sht[shstrndx].offset() as int, sht[shstrndx].size() as int) {
            None => Err(DecodeError::Truncated { structure: Structure::SectionNameTable }),
            Some(names) => Ok(names),
        }
    }
}

/// The section whose contents are searched for the canary: the first entry
/// whose name lies where `.strtab` first lies in the section names.
pub open spec fn spec_symbol_names_section<S: Section>(sht: Seq<S>, names: Seq<u8>) -> Result<
    int,
    DecodeError,
> {
    match first_occurrence(names, STRTAB_NAME@) {
        None => Err(DecodeError::Missing { structure: Structure::StrtabName }),
        Some(at) => match first_section_named(sht, at) {
            None => Err(DecodeError::Missing { structure: Structure::SymbolNameTable }),
            Some(k) => Ok(k),
        },
    }
}

/// Whether a stack protector is in use: the contents of the `.strtab` section
/// mention `__stack_chk_fail`.
pub open spec fn spec_canary<S: Section>(sht: Seq<S>, names: Seq<u8>, bytes: Seq<u8>) -> Result<
    bool,
    DecodeError,
> {
    match spec_symbol_names_section(sht, names) {
        Err(e) => Err(e),
        Ok(k) => match region(bytes, sht[k].offset() as int, sht[k].size() as int) {
            None => Err(DecodeError::Truncated { structure: Structure::SymbolNameTable }),
            Some(symbols) => Ok(occurs(symbols, STACK_CHK_FAIL_NAME@)),
        },
    }
}

/// The four facts together, or the first failure met on the way: section
/// names, canary, NX, position independence, in that order.
pub open spec fn spec_options<P: Segment, S: Section>(
    e_type: EType,
    shstrndx: int,
    pht: Seq<P>,
    sht: Seq<S>,
    bytes: Seq<u8>,
) -> Result<SecurityOptions, DecodeError> {
    match spec_section_names(sht, shstrndx, bytes) {
        Err(e) => Err(e),
        Ok(names) => match spec_canary(sht, names, bytes) {
            Err(e) => Err(e),
            Ok(canary) => match spec_nx(pht) {
                Err(e) => Err(e),
                Ok(nx) => match spec_pie(e_type) {
                    Err(e) => Err(e),
                    Ok(pie) => Ok(
                        SecurityOptions { canary, nx, relro: spec_relro(pht, names), pie },
                    ),
                },
            },
        },
    }
}

/// Where the cursor stands once the four facts are there: behind the contents
/// of the `.strtab` section, the last thing read.
pub open spec fn spec_options_end<S: Section>(shstrndx: int, sht: Seq<S>, bytes: Seq<u8>) -> int {
    let names = spec_section_names(sht, shstrndx, bytes)->Ok_0;
    let k = spec_symbol_names_section(sht, names)->Ok_0;
    sht[k].offset() + sht[k].size()
}

/// What the four facts rest on, spelled out for a file whose inference
/// succeeds, and the one table without which it cannot succeed.
///
/// NX is the cleared execute bit of the first `PT_GNU_STACK` entry. PIE holds
/// for a shared object and fails for an executable; no other type gets this
/// far. RELRO is none without a `PT_GNU_RELRO` entry, partial with one where
/// the section names mention `.got.plt`, full with one where they do not.
/// Without a `PT_GNU_STACK` entry the inference fails.
pub proof fn lemma_options_parts<P: Segment, S: Section>(
    e_type: EType,
    shstrndx: int,
    pht: Seq<P>,
    sht: Seq<S>,
    bytes: Seq<u8>,
)
    ensures
        !has_segment(pht, PType::PtGnuStack) ==> spec_options(e_type, shstrndx, pht, sht, bytes)
            is Err,
        e_type != EType::EtDyn && e_type != EType::EtExec ==> spec_options(
            e_type,
            shstrndx,
            pht,
            sht,
            bytes,
        ) is Err,
        spec_options(e_type, shstrndx, pht, sht, bytes) matches Ok(o) ==> {
            let names = spec_section_names(sht, shstrndx, bytes)->Ok_0;
            let stack = first_segment(pht, PType::PtGnuStack)->0;
            &&& has_segment(pht, PType::PtGnuStack)
            &&& 0 <= stack < pht.len()
            &&& pht[stack].kind() == PType::PtGnuStack
            &&& o.nx == !perm_x(pht[stack].flags())
            &&& o.pie == (e_type == EType::EtDyn)
            &&& !has_segment(pht, PType::PtGnuRelro) ==> o.relro == RelRo::NoRelRo
            &&& has_segment(pht, PType::PtGnuRelro) && occurs(names, GOT_PLT_NAME@) ==> o.relro
                == RelRo::PartialRelRo
            &&& has_segment(pht, PType::PtGnuRelro) && !occurs(names, GOT_PLT_NAME@) ==> o.relro
                == RelRo::FullRelRo
            &&& spec_canary(sht, names, bytes) == Ok::<bool, DecodeError>(o.canary)
        },
{
    lemma_first_segment(pht, PType::PtGnuStack);
}

/// Tells whether the stack is non-executable.
///
/// With a `PT_GNU_STACK` entry whose execute bit is clear the answer is yes,
/// with one whose execute bit is set it is no; of several such entries the
/// first counts. Without one the inference fails.
pub fn infer_nx<P: Segment>(pht: &[P]) -> (r: Result<bool, DecodeError>)
    ensures
        r == spec_nx(pht@),
        match r {
            Ok(nx) => exists|i: int|
                {
                    &&& 0 <= i < pht@.len()
                    &&& (#[trigger] pht@[i]).kind() == PType::PtGnuStack
                    &&& forall|j: int|
                        0 <= j < i ==> (#[trigger] pht@[j]).kind() != PType::PtGnuStack
                    &&& nx == !perm_x(pht@[i].flags())
                },
            Err(e) => {
                &&& e == DecodeError::Missing { structure: Structure::GnuStack }
                &&& !has_segment(pht@, PType::PtGnuStack)
            },
        },
{
    let stack = present(find_segment(pht, PType::PtGnuStack), Structure::GnuStack)?;
    Ok(!grants_execute(pht[stack].segment_flags()))
}

/// Tells the RELRO level from the program header table and the section names.
///
/// The level is read off the names alone: nothing checks whether the section
/// `.got.plt` can in fact be written while the program runs.
pub fn infer_relro<P: Segment>(pht: &[P], names: &[u8]) -> (r: RelRo)
    ensures
        r == spec_relro(pht@, names@),
        !has_segment(pht@, PType::PtGnuRelro) ==> r == RelRo::NoRelRo,
        has_segment(pht@, PType::PtGnuRelro) && occurs(names@, GOT_PLT_NAME@) ==> r
            == RelRo::PartialRelRo,
        has_segment(pht@, PType::PtGnuRelro) && !occurs(names@, GOT_PLT_NAME@) ==> r
            == RelRo::FullRelRo,
{
    match find_segment(pht, PType::PtGnuRelro) {
        None => RelRo::NoRelRo,
        Some(_) => {
            if contains(names, &GOT_PLT_NAME) {
                RelRo::PartialRelRo
            } else {
                RelRo::FullRelRo
            }
        },
    }
}

/// Tells whether the file is position independent from its object type.
pub fn infer_pie(e_type: EType) -> (r: Result<bool, DecodeError>)
    ensures
        r == spec_pie(e_type),
        e_type == EType::EtDyn ==> r == Ok::<bool, DecodeError>(true),
        e_type == EType::EtExec ==> r == Ok::<bool, DecodeError>(false),
        e_type != EType::EtDyn && e_type != EType::EtExec ==> r is Err,
{
    match e_type {
        EType::EtDyn => Ok(true),
        EType::EtExec => Ok(false),
        _ => Err(
            DecodeError::Unsupported {
                field: EnumField::ObjectType,
                value: e_type.to_u16() as u32,
            },
        ),
    }
}

/// Reads the contents of the section that holds the section names.
///
/// On success the cursor stands behind what was read; on failure it has not
/// moved.
pub fn read_section_names<'a, S: Section>(sht: &[S], shstrndx: u16, io: &mut ByteSource<'a>) -> (r:
    Result<&'a [u8], DecodeError>)
    ensures
        final(io)@.bytes == old(io)@.bytes,
        match r {
            Ok(names) => {
                &&& spec_section_names(sht@, shstrndx as int, old(io)@.bytes) == Ok::<
                    Seq<u8>,
                    DecodeError,
                >(names@)
                &&& final(io)@.pos == sht@[shstrndx as int].offset() + sht@[shstrndx as int].size()
            },
            Err(e) => {
                &&& spec_section_names(sht@, shstrndx as int, old(io)@.bytes) == Err::<
                    Seq<u8>,
                    DecodeError,
                >(e)
                &&& final(io)@.pos == old(io)@.pos
            },
        },
{
    if shstrndx as usize >= sht.len() {
        return Err(DecodeError::Missing { structure: Structure::SectionNameTable });
    }
    let section = &sht[shstrndx as usize];
    let mut cur: ByteSource<'a> = *io;
    cur.seek(section.file_offset());
    let names = complete(cur.read_bytes(section.file_size()), Structure::SectionNameTable)?;
    *io = cur;
    Ok(names)
}

/// Tells whether a stack protector is in use, from the section header table,
/// the section names and the file.
///
/// On success the cursor stands behind the contents of the `.strtab`
/// section; on failure it has not moved.
pub fn infer_canary<S: Section>(sht: &[S], names: &[u8], io: &mut ByteSource) -> (r: Result<
    bool,
    DecodeError,
>)
    ensures
        final(io)@.bytes == old(io)@.bytes,
        r == spec_canary(sht@, names@, old(io)@.bytes),
        match r {
            Ok(_) => {
                let k = spec_symbol_names_section(sht@, names@)->Ok_0;
                final(io)@.pos == sht@[k].offset() + sht@[k].size()
            },
            Err(_) => final(io)@.pos == old(io)@.pos,
        },
{
    let at = present(find(names, &STRTAB_NAME), Structure::StrtabName)?;
    let k = present(find_section_named(sht, at as u64), Structure::SymbolNameTable)?;
    let section = &sht[k];
    let mut cur: ByteSource = *io;
    cur.seek(section.file_offset());
    let symbols = complete(cur.read_bytes(section.file_size()), Structure::SymbolNameTable)?;
    *io = cur;
    Ok(contains(symbols, &STACK_CHK_FAIL_NAME))
}

/// Computes the four facts from the parts of a decoded file and the bytes of
/// the file, whatever the cursor's position.
///
/// On success the cursor stands behind the contents of the `.strtab`
/// section; on failure it has not moved.
pub fn infer_options<P: Segment, S: Section>(
    e_type: EType,
    shstrndx: u16,
    pht: &[P],
    sht: &[S],
    io: &mut ByteSource,
) -> (r: Result<SecurityOptions, DecodeError>)
    ensures
        final(io)@.bytes == old(io)@.bytes,
        r == spec_options(e_type, shstrndx as int, pht@, sht@, old(io)@.bytes),
        r is Ok ==> final(io)@.pos == spec_options_end(shstrndx as int, sht@, old(io)@.bytes),
        r is Err ==> final(io)@.pos == old(io)@.pos,
{
    let mut cur: ByteSource = *io;
    let names = read_section_names(sht, shstrndx, &mut cur)?;
    let canary = infer_canary(sht, names, &mut cur)?;
    let nx = infer_nx(pht)?;
    let relro = infer_relro(pht, names);
    let pie = infer_pie(e_type)?;
    *io = cur;
    Ok(SecurityOptions { canary, nx, relro, pie })
}

impl SecurityOptions {
    /// The four facts of the 64-bit image `elf` whose file is `bytes`.
    pub open spec fn spec_options_64(elf: Elf64Image, bytes: Seq<u8>) -> Result<
        SecurityOptions,
        DecodeError,
    > {
        spec_options(elf.header.e_type, elf.header.e_shstrndx as int, elf.pht, elf.sht, bytes)
    }

    /// The four facts of the 32-bit image `elf` whose file is `bytes`.
    pub open spec fn spec_options_32(elf: Elf32Image, bytes: Seq<u8>) -> Result<
        SecurityOptions,
        DecodeError,
    > {
        spec_options(elf.header.e_type, elf.header.e_shstrndx as int, elf.pht, elf.sht, bytes)
    }

    /// Computes the hardening facts of a decoded 64-bit file. `io` holds the
    /// bytes the file was decoded from; its position does not matter.
    ///
    /// On success the cursor stands behind the contents of the `.strtab`
    /// section; on failure it has not moved.
    pub fn get_options_64(elf: &ELF64, io: &mut ByteSource) -> (r: Result<
        SecurityOptions,
        DecodeError,
    >)
        ensures
            final(io)@.bytes == old(io)@.bytes,
            r == Self::spec_options_64(elf@, old(io)@.bytes),
            r is Ok ==> final(io)@.pos == spec_options_end(
                elf@.header.e_shstrndx as int,
                elf@.sht,
                old(io)@.bytes,
            ),
            r is Err ==> final(io)@.pos == old(io)@.pos,
    {
        infer_options(
            elf.header.e_type,
            elf.header.e_shstrndx,
            elf.pht.as_slice(),
            elf.sht.as_slice(),
            io,
        )
    }

    /// Computes the hardening facts of a decoded 32-bit file. `io` holds the
    /// bytes the file was decoded from; its position does not matter.
    ///
    /// On success the cursor stands behind the contents of the `.strtab`
    /// section; on failure it has not moved.
    pub fn get_options_32(elf: &ELF32, io: &mut ByteSource) -> (r: Result<
        SecurityOptions,
        DecodeError,
    >)
        ensures
            final(io)@.bytes == old(io)@.bytes,
            r == Self::spec_options_32(elf@, old(io)@.bytes),
            r is Ok ==> final(io)@.pos == spec_options_end(
                elf@.header.e_shstrndx as int,
                elf@.sht,
                old(io)@.bytes,
            ),
            r is Err ==> final(io)@.pos == old(io)@.pos,
    {
        infer_options(
            elf.header.e_type,
            elf.header.e_shstrndx,
            elf.pht.as_slice(),
            elf.sht.as_slice(),
            io,
        )
    }
}

/// The four facts of a decoded image of either word size.
pub open spec fn spec_security_options(elf: DecodedImage, bytes: Seq<u8>) -> Result<
    SecurityOptions,
    DecodeError,
> {
    match elf {
        DecodedImage::Elf32(e) => SecurityOptions::spec_options_32(e, bytes),
        DecodedImage::Elf64(e) => SecurityOptions::spec_options_64(e, bytes),
    }
}

/// Computes the hardening facts of a decoded file of either word size. `io`
/// holds the bytes the file was decoded from; its position does not matter.
/// A failure leaves the cursor where it was.
pub fn infer_security_options(elf: &DecodedElf, io: &mut ByteSource) -> (r: Result<
    SecurityOptions,
    DecodeError,
>)
    ensures
        final(io)@.bytes == old(io)@.bytes,
        r == spec_security_options(elf@, old(io)@.bytes),
        r is Err ==> final(io)@.pos == old(io)@.pos,
        r is Ok ==> final(io)@.pos == match elf@ {
            DecodedImage::Elf32(e) => spec_options_end(
                e.header.e_shstrndx as int,
                e.sht,
                old(io)@.bytes,
            ),
            DecodedImage::Elf64(e) => spec_options_end(
                e.header.e_shstrndx as int,
                e.sht,
                old(io)@.bytes,
            ),
        },
{
    match elf {
        DecodedElf::Elf32(e) => SecurityOptions::get_options_32(e, io),
        DecodedElf::Elf64(e) => SecurityOptions::get_options_64(e, io),
    }
}

} // verus!
