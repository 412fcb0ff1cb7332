//! Decoding of closure info tables for a tracing collector.
//!
//! Every heap object of the runtime is described by a statically compiled,
//! read-only info table that lies next to the object's entry code. This crate
//! reads those tables out of a byte-addressed copy of the static data and
//! tells a scanner where the pointer fields of a closure are.
//!
//! Only the default build of the runtime is decoded: 64-bit words stored
//! least significant byte first, info tables directly in front of the entry
//! code, no profiling header.

pub mod types;
pub mod offset;
pub mod flags;
pub mod bitmap;
pub mod memory;
pub mod kinds;
pub mod info_table;
pub mod layout;
pub mod views;
pub mod scan;
pub mod render;
