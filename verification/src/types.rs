//! Machine-level types of the runtime's binary interface, and the errors of
//! the decoder.

use vstd::prelude::*;

verus! {

/// A machine word.
pub type StgWord = u64;

/// A signed machine word.
pub type StgInt = i64;

/// Half a machine word.
pub type StgHalfWord = u32;

/// A signed half word.
pub type StgHalfInt = i32;

/// A 16-bit word.
pub type StgWord16 = u16;

/// An address of the scanned address space.
pub type StgAddr = u64;

/// Bytes in a machine word.
pub const WORD_BYTES: u64 = 8;

/// The tag by which an info table names the kind of its closures.
#[derive(Clone, Copy, Debug, PartialEq, Eq, Structural)]
pub struct StgClosureType(pub StgHalfWord);

/// The calling-convention tag of a function info table.
#[derive(Clone, Copy, Debug, PartialEq, Eq, Structural)]
pub struct StgFunType(pub StgHalfWord);

/// Why a decoding request was turned down.
#[derive(Clone, Copy, Debug, PartialEq, Eq, Structural)]
pub enum DecodeError {
    /// The runtime was built in a way whose table shape is not decoded here,
    /// or the table uses an encoding that is not defined yet.
    UnsupportedConfiguration,
    /// A structure that had to be read does not lie within the static data,
    /// or a closure does not fit into the address space.
    OutOfBounds,
    /// The type tag, or the calling-convention tag, has no entry in the
    /// runtime's tables.
    UnknownTag,
    /// A specialised view was asked of an info table of another kind.
    WrongTableKind,
}

} // verus!
