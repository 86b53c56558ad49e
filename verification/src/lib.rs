//! Decoder for the on-disk layout of ELF32 and ELF64 binaries, together with
//! the inference of a few hardening facts (stack canary, NX, RELRO, PIE) from
//! the decoded tables.
//!
//! A file is handed over as bytes in memory, wrapped in a
//! [`reader::ByteSource`]. [`elf::decode`] turns it into a header and two
//! tables, and [`security::infer_security_options`] reads the hardening facts
//! off them. Every failure is a [`error::DecodeError`] that names what could
//! not be decoded and why; nothing here panics.
//!
//! What each decoder yields is stated over the file's bytes by a `spec`
//! function beside it, and for every decoded type there is a proof that
//! decoding the bytes made from a value gives that value back.

pub mod error;
pub mod reader;
pub mod ident;
pub mod header;
pub mod table;
pub mod program;
pub mod section;
pub mod symbol;
pub mod elf;
pub mod search;
pub mod security;
