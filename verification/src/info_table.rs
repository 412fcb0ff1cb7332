//! The generic info table and its reader.
//!
//! An info table lies directly in front of the entry code of its closures and
//! is sixteen bytes long: the layout word, the type tag and the offset of the
//! static reference table.

use vstd::prelude::*;
use crate::bitmap::{StgLargeBitmapRef, StgSmallBitmap};
use crate::memory::{as_signed, word_as_signed, StaticData};
use crate::types::{
    DecodeError,
    StgAddr,
    StgClosureType,
    StgHalfInt,
    StgHalfWord,
    StgWord,
};

verus! {

/// Bytes in a generic info table.
pub const INFO_TABLE_BYTES: u64 = 16;

/// A reference to a closure: where it lies, and where its entry code begins.
#[derive(Clone, Copy, Debug, PartialEq, Eq, Structural)]
pub struct ClosureRef {
    /// The address of the closure, without tag bits.
    pub addr: StgAddr,
    /// The address of the closure's entry code.
    pub entry: StgAddr,
}

/// A layout that puts all pointers first.
#[derive(Clone, Copy, Debug, PartialEq, Eq, Structural)]
pub struct StgPointerFirst {
    /// Number of pointers.
    pub ptrs: StgHalfWord,
    /// Number of non-pointers.
    pub nptrs: StgHalfWord,
}

/// The layout word of an info table. What it means depends on the kind of
/// closure: each accessor reads the same word in another way.
#[derive(Clone, Copy, Debug, PartialEq, Eq, Structural)]
pub struct StgClosureInfo {
    /// The word as it is stored.
    pub raw: StgWord,
}

impl StgClosureInfo {
    /// The word as a pair of counts: the pointers in the low half, the
    /// non-pointers in the high half.
    pub open spec fn spec_payload(self) -> StgPointerFirst {
        StgPointerFirst {
            ptrs: (self.raw % 0x1_0000_0000) as StgHalfWord,
            nptrs: (self.raw / 0x1_0000_0000) as StgHalfWord,
        }
    }

    /// The word as a small bitmap.
    pub open spec fn spec_small_bitmap(self) -> StgSmallBitmap {
        StgSmallBitmap(self.raw)
    }

    /// The word as the signed offset of a large bitmap.
    pub open spec fn spec_large_bitmap(self) -> StgLargeBitmapRef {
        StgLargeBitmapRef { offset: as_signed(self.raw as int, 0x1_0000_0000_0000_0000) as i64 }
    }

    /// The word as a pair of counts.
    pub fn payload(&self) -> (counts: StgPointerFirst)
        ensures
            counts == self.spec_payload(),
            counts.ptrs + 0x1_0000_0000 * counts.nptrs == self.raw,
    {
        StgPointerFirst {
            ptrs: (self.raw % 0x1_0000_0000) as u32,
            nptrs: (self.raw / 0x1_0000_0000) as u32,
        }
    }

    /// The word as a small bitmap.
    pub fn small_bitmap(&self) -> (bitmap: StgSmallBitmap)
        ensures
            bitmap == self.spec_small_bitmap(),
    {
        StgSmallBitmap(self.raw)
    }

    /// The word as the signed offset of a large bitmap.
    pub fn large_bitmap(&self) -> (bitmap: StgLargeBitmapRef)
        ensures
            bitmap == self.spec_large_bitmap(),
            bitmap.offset == as_signed(self.raw as int, 0x1_0000_0000_0000_0000),
    {
        StgLargeBitmapRef { offset: word_as_signed(self.raw) }
    }

    /// The word as the offset of the field that a selector picks.
    pub fn selector_offset(&self) -> (offset: StgWord)
        ensures
            offset == self.raw,
    {
        self.raw
    }
}

/// The field of an info table that refers to the static reference table.
#[derive(Clone, Copy, Debug, PartialEq, Eq, Structural)]
pub struct StgSRTField {
    /// The offset of the static reference table from the end of the info
    /// table, or `NO_SRT`.
    pub srt: StgHalfInt,
}

/// The value of an SRT field that stands for "no static reference table".
pub const NO_SRT: StgHalfInt = 0;

/// The profiling header of an info table. It is empty in the supported build.
#[derive(Clone, Copy, Debug, PartialEq, Eq, Structural)]
pub struct StgProfInfo {}

/// A generic info table as it was read, together with its address.
#[derive(Clone, Copy, Debug, PartialEq, Eq, Structural)]
pub struct StgInfoTable {
    /// The address of the table's first byte.
    pub addr: StgAddr,
    /// The profiling header.
    pub prof: StgProfInfo,
    /// The layout word.
    pub layout: StgClosureInfo,
    /// The type tag.
    pub type_: StgClosureType,
    /// The SRT field.
    pub srt: StgSRTField,
}

impl StgInfoTable {
    /// The table that the sixteen bytes at `addr` hold.
    pub open spec fn decoded(data: StaticData, addr: int) -> StgInfoTable {
        StgInfoTable {
            addr: addr as StgAddr,
            prof: StgProfInfo {  },
            layout: StgClosureInfo { raw: data.word_at(addr) as StgWord },
            type_: StgClosureType(data.half_word_at(addr + 8) as StgHalfWord),
            srt: StgSRTField { srt: data.half_int_at(addr + 12) as StgHalfInt },
        }
    }

    /// The table at `addr`, if its bytes lie within the static data.
    pub open spec fn spec_read(data: StaticData, addr: int) -> Option<StgInfoTable> {
        if data.holds(addr, INFO_TABLE_BYTES as int) {
            Some(Self::decoded(data, addr))
        } else {
            None
        }
    }

    /// The first address after the table, where the entry code begins.
    pub open spec fn end(self) -> int {
        self.addr + INFO_TABLE_BYTES
    }

    /// Reads the info table at `addr`. There is none where its bytes do not
    /// all lie within the static data.
    pub fn read(data: &StaticData, addr: StgAddr) -> (r: Option<StgInfoTable>)
        ensures
            r == Self::spec_read(*data, addr as int),
    {
        if !data.contains(addr, INFO_TABLE_BYTES) {
            return None;
        }
        let raw: StgWord = match data.read_word(addr) {
            Some(word) => word,
            None => {
                return None;
            },
        };
        let tag: StgHalfWord = match data.read_half_word(addr + 8) {
            Some(half) => half,
            None => {
                return None;
            },
        };
        let srt: StgHalfInt = match data.read_half_int(addr + 12) {
            Some(half) => half,
            None => {
                return None;
            },
        };
        Some(
            StgInfoTable {
                addr,
                prof: StgProfInfo {  },
                layout: StgClosureInfo { raw },
                type_: StgClosureType(tag),
                srt: StgSRTField { srt },
            },
        )
    }
}

/// The info table of a closure: the sixteen bytes in front of its entry code.
pub open spec fn spec_info_table_of(data: StaticData, closure: ClosureRef) -> Result<
    StgInfoTable,
    DecodeError,
> {
    match StgInfoTable::spec_read(data, closure.entry - INFO_TABLE_BYTES) {
        Some(info) => Ok(info),
        None => Err(DecodeError::OutOfBounds),
    }
}

/// Finds and reads the info table of a closure. It lies directly in front of
/// the closure's entry code.
///
/// Fails with `OutOfBounds` where those bytes do not all lie within the
/// static data.
pub fn info_table_of(data: &StaticData, closure: ClosureRef) -> (r: Result<
    StgInfoTable,
    DecodeError,
>)
    ensures
        r == spec_info_table_of(*data, closure),
{
    if closure.entry < INFO_TABLE_BYTES {
        return Err(DecodeError::OutOfBounds);
    }
    match StgInfoTable::read(data, closure.entry - INFO_TABLE_BYTES) {
        Some(info) => Ok(info),
        None => Err(DecodeError::OutOfBounds),
    }
}

} // verus!
