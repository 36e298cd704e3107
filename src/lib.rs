//! Byte-order detection for STDF files.
//!
//! The first record of every STDF file is a File Attributes Record, whose
//! two-byte length field always holds 2. Reading that field as little-endian
//! tells the byte order of the whole file.
//!
//! Probing a file means seeking and reading, which this crate leaves to its
//! caller: [`probe::EndianProbe`] and [`probe::RemainingProbe`] say which
//! operation to perform next, take its outcome, and end with the answer.
use vstd::prelude::*;

pub mod endian;
pub mod probe;

pub use endian::Endian;
