//! The specialised views of an info table: function, return, thunk and
//! constructor.
//!
//! What a specialised table adds to the generic one lies directly in front
//! of the generic table, so that all of them end where the entry code begins.
//! The type tag of the generic table decides which of them may be read.

use vstd::prelude::*;
use crate::bitmap::{Bitmap, StgLargeBitmap, StgLargeBitmapRef};
use crate::info_table::{StgInfoTable, INFO_TABLE_BYTES, NO_SRT};
use crate::kinds::{ClosureKind, LayoutKind, RuntimeTables, TableKind};
use crate::layout::Layout;
use crate::memory::StaticData;
use crate::offset::{is_address, offset_from_end, spec_offset_from_end};
use crate::types::{
    DecodeError,
    StgAddr,
    StgFunType,
    StgHalfWord,
    StgInt,
    StgWord,
};

verus! {

/// Bytes that a function table has in front of its generic table.
pub const FUN_EXTRA_BYTES: u64 = 24;

/// Bytes in a function table.
pub const FUN_INFO_TABLE_BYTES: u64 = 40;

/// Bytes that a constructor table has in front of its generic table.
pub const CON_EXTRA_BYTES: u64 = 8;

/// Bytes in a constructor table.
pub const CON_INFO_TABLE_BYTES: u64 = 24;

/// The entry of the type tag of `info`, if the tag has one and the entry
/// names `want` as the specialised table.
pub open spec fn spec_expect_kind(tables: RuntimeTables, info: StgInfoTable, want: TableKind)
    -> Result<ClosureKind, DecodeError> {
    match tables.spec_kind_of(info.type_) {
        None => Err(DecodeError::UnknownTag),
        Some(kind) => if kind.table == want {
            Ok(kind)
        } else {
            Err(DecodeError::WrongTableKind)
        },
    }
}

/// Looks up the type tag of `info` and holds its entry against the
/// specialised table that the caller is about to read.
///
/// Fails with `UnknownTag` where the tag has no entry, and with
/// `WrongTableKind` where the entry names another table than `want`.
pub fn expect_kind(tables: &RuntimeTables, info: &StgInfoTable, want: TableKind) -> (r: Result<
    ClosureKind,
    DecodeError,
>)
    ensures
        r == spec_expect_kind(*tables, *info, want),
{
    match tables.kind_of(info.type_) {
        None => Err(DecodeError::UnknownTag),
        Some(kind) => if kind.table == want {
            Ok(kind)
        } else {
            Err(DecodeError::WrongTableKind)
        },
    }
}

/// The large bitmap to which the info table `itbl` refers by `bitmap`.
pub open spec fn spec_resolve_large(data: StaticData, bitmap: StgLargeBitmapRef, itbl: StgInfoTable)
    -> Result<StgLargeBitmap, DecodeError> {
    match StgLargeBitmap::spec_read(data, bitmap.spec_deref(itbl)) {
        Some(large) => Ok(large),
        None => Err(DecodeError::OutOfBounds),
    }
}

/// Finds and reads the large bitmap to which the info table `itbl` refers by
/// `bitmap`.
///
/// Fails with `OutOfBounds` where the static data does not hold the bitmap
/// whole.
pub fn resolve_large(data: &StaticData, bitmap: &StgLargeBitmapRef, itbl: &StgInfoTable) -> (r:
    Result<StgLargeBitmap, DecodeError>)
    ensures
        r == spec_resolve_large(*data, *bitmap, *itbl),
        r matches Ok(large) ==> large.lies_in(*data) && large.address() == bitmap.spec_deref(*itbl),
        r matches Ok(large) ==> (is_address(itbl.addr + INFO_TABLE_BYTES + bitmap.offset)
            ==> large.address() == itbl.addr + INFO_TABLE_BYTES + bitmap.offset),
{
    match StgLargeBitmap::read(data, bitmap.deref(itbl)) {
        Some(large) => Ok(large),
        None => Err(DecodeError::OutOfBounds),
    }
}

impl StgInfoTable {
    /// The layout that the layout word stands for when it is read as `kind`
    /// says.
    pub open spec fn spec_layout_as(self, data: StaticData, kind: LayoutKind) -> Result<
        Layout,
        DecodeError,
    > {
        match kind {
            LayoutKind::Counts => Ok(Layout::Counts(self.layout.spec_payload())),
            LayoutKind::SmallBitmap => Ok(Layout::SmallBitmap(self.layout.spec_small_bitmap())),
            LayoutKind::LargeBitmap => match spec_resolve_large(
                data,
                self.layout.spec_large_bitmap(),
                self,
            ) {
                Ok(large) => Ok(Layout::LargeBitmap(large)),
                Err(e) => Err(e),
            },
            LayoutKind::Selector => Err(DecodeError::UnsupportedConfiguration),
        }
    }

    /// Reads the layout word as `kind` says: as a pair of counts, as a small
    /// bitmap, or as the reference to a large bitmap, which is then read too.
    ///
    /// Fails with `OutOfBounds` where a large bitmap does not lie within the
    /// static data, and with `UnsupportedConfiguration` for a selector, whose
    /// fields this decoder does not know.
    pub fn layout_as(&self, data: &StaticData, kind: LayoutKind) -> (r: Result<Layout, DecodeError>)
        ensures
            r == self.spec_layout_as(*data, kind),
    {
        match kind {
            LayoutKind::Counts => Ok(Layout::Counts(self.layout.payload())),
            LayoutKind::SmallBitmap => Ok(Layout::SmallBitmap(self.layout.small_bitmap())),
            LayoutKind::LargeBitmap => match resolve_large(data, &self.layout.large_bitmap(), self) {
                Ok(large) => Ok(Layout::LargeBitmap(large)),
                Err(e) => Err(e),
            },
            LayoutKind::Selector => Err(DecodeError::UnsupportedConfiguration),
        }
    }

    /// The static reference table of the closures of this table: none where
    /// the SRT field is `NO_SRT`, else where the field points, counted from
    /// the end of the table.
    pub open spec fn spec_srt_address(self) -> Option<StgAddr> {
        if self.srt.srt == NO_SRT {
            None
        } else {
            Some(
                spec_offset_from_end(
                    self.addr as int,
                    INFO_TABLE_BYTES as int,
                    self.srt.srt as int,
                ) as StgAddr,
            )
        }
    }

    /// The address of the static reference table, if the table has one.
    pub fn srt_address(&self) -> (r: Option<StgAddr>)
        ensures
            r == self.spec_srt_address(),
            self.srt.srt == NO_SRT <==> r is None,
            self.srt.srt != NO_SRT && is_address(self.addr + INFO_TABLE_BYTES + self.srt.srt)
                ==> r == Some((self.addr + INFO_TABLE_BYTES + self.srt.srt) as StgAddr),
    {
        if self.srt.srt == NO_SRT {
            None
        } else {
            Some(offset_from_end(self.addr, INFO_TABLE_BYTES, self.srt.srt as i64))
        }
    }
}

/// What a function table holds in front of its generic table.
#[derive(Clone, Copy, Debug, PartialEq, Eq, Structural)]
pub struct StgFunInfoExtra {
    /// The offset of the slow entry point from the end of the table.
    pub slow_apply: StgInt,
    /// The bitmap word of the arguments.
    pub bitmap: Bitmap,
    /// The calling-convention tag.
    pub fun_type: StgFunType,
    /// The number of arguments.
    pub arity: StgHalfWord,
}

impl StgFunInfoExtra {
    /// The fields that the twenty-four bytes at `addr` hold.
    pub open spec fn decoded(data: StaticData, addr: int) -> StgFunInfoExtra {
        StgFunInfoExtra {
            slow_apply: data.int_at(addr) as StgInt,
            bitmap: Bitmap { raw: data.word_at(addr + 8) as StgWord },
            fun_type: StgFunType(data.half_word_at(addr + 16) as StgHalfWord),
            arity: data.half_word_at(addr + 20) as StgHalfWord,
        }
    }

    /// The fields at `addr`, if their bytes lie within the static data.
    pub open spec fn spec_read(data: StaticData, addr: int) -> Option<StgFunInfoExtra> {
        if data.holds(addr, FUN_EXTRA_BYTES as int) {
            Some(Self::decoded(data, addr))
        } else {
            None
        }
    }

    /// Reads the fields at `addr`. There are none where their bytes do not
    /// all lie within the static data.
    pub fn read(data: &StaticData, addr: StgAddr) -> (r: Option<StgFunInfoExtra>)
        ensures
            r == Self::spec_read(*data, addr as int),
    {
        if !data.contains(addr, FUN_EXTRA_BYTES) {
            return None;
        }
        let slow_apply: StgInt = match data.read_int(addr) {
            Some(word) => word,
            None => {
                return None;
            },
        };
        let raw: StgWord = match data.read_word(addr + 8) {
            Some(word) => word,
            None => {
                return None;
            },
        };
        let fun_type: StgHalfWord = match data.read_half_word(addr + 16) {
            Some(half) => half,
            None => {
                return None;
            },
        };
        let arity: StgHalfWord = match data.read_half_word(addr + 20) {
            Some(half) => half,
            None => {
                return None;
            },
        };
        Some(
            StgFunInfoExtra {
                slow_apply,
                bitmap: Bitmap { raw },
                fun_type: StgFunType(fun_type),
                arity,
            },
        )
    }
}

/// The info table of a function.
#[derive(Clone, Copy, Debug, PartialEq, Eq, Structural)]
pub struct StgFunInfoTable {
    /// What the function table adds.
    pub f: StgFunInfoExtra,
    /// The generic table.
    pub i: StgInfoTable,
}

impl StgFunInfoTable {
    /// The address of the table's first byte.
    pub open spec fn address(self) -> int {
        self.i.addr - FUN_EXTRA_BYTES
    }

    /// The function table that ends with the generic table `info`.
    pub open spec fn spec_from_info_table(data: StaticData, tables: RuntimeTables, info: StgInfoTable)
        -> Result<StgFunInfoTable, DecodeError> {
        match spec_expect_kind(tables, info, TableKind::Function) {
            Err(e) => Err(e),
            Ok(_) => match StgFunInfoExtra::spec_read(data, info.addr - FUN_EXTRA_BYTES) {
                Some(f) => Ok(StgFunInfoTable { f, i: info }),
                None => Err(DecodeError::OutOfBounds),
            },
        }
    }

    /// The layout, as the entry of the calling-convention tag says: the
    /// bitmap word as a small or a large bitmap, or the counts in the layout
    /// word of the generic table.
    pub open spec fn spec_bitmap_or_count(self, data: StaticData, tables: RuntimeTables) -> Result<
        Layout,
        DecodeError,
    > {
        match tables.spec_fun_layout_of(self.f.fun_type) {
            None => Err(DecodeError::UnknownTag),
            Some(LayoutKind::Counts) => Ok(Layout::Counts(self.i.layout.spec_payload())),
            Some(LayoutKind::SmallBitmap) => Ok(
                Layout::SmallBitmap(self.f.bitmap.spec_small_bitmap()),
            ),
            Some(LayoutKind::LargeBitmap) => match spec_resolve_large(
                data,
                self.f.bitmap.spec_large_bitmap_ref(),
                self.i,
            ) {
                Ok(large) => Ok(Layout::LargeBitmap(large)),
                Err(e) => Err(e),
            },
            Some(LayoutKind::Selector) => Err(DecodeError::UnsupportedConfiguration),
        }
    }

    /// Reads the function table that ends with the generic table `info`.
    ///
    /// Fails with `UnknownTag` where the type tag of `info` has no entry,
    /// with `WrongTableKind` where the entry does not name a function table,
    /// and with `OutOfBounds` where the bytes in front of `info` do not all
    /// lie within the static data.
    pub fn from_info_table(data: &StaticData, tables: &RuntimeTables, info: StgInfoTable) -> (r:
        Result<StgFunInfoTable, DecodeError>)
        ensures
            r == Self::spec_from_info_table(*data, *tables, info),
    {
        match expect_kind(tables, &info, TableKind::Function) {
            Err(e) => Err(e),
            Ok(_) => {
                if info.addr < FUN_EXTRA_BYTES {
                    return Err(DecodeError::OutOfBounds);
                }
                match StgFunInfoExtra::read(data, info.addr - FUN_EXTRA_BYTES) {
                    Some(f) => Ok(StgFunInfoTable { f, i: info }),
                    None => Err(DecodeError::OutOfBounds),
                }
            },
        }
    }

    /// The number of arguments that the function takes.
    pub fn arity(&self) -> (arity: StgHalfWord)
        ensures
            arity == self.f.arity,
    {
        self.f.arity
    }

    /// The tag of the function's calling convention.
    pub fn calling_convention_tag(&self) -> (tag: StgFunType)
        ensures
            tag == self.f.fun_type,
    {
        self.f.fun_type
    }

    /// The layout, as the entry of the calling-convention tag says: the
    /// bitmap word as a small bitmap, or as the reference to a large bitmap,
    /// which is then read too, or the counts in the layout word of the
    /// generic table.
    ///
    /// Fails with `UnknownTag` where the calling-convention tag has no entry,
    /// with `OutOfBounds` where a large bitmap does not lie within the
    /// static data, and with `UnsupportedConfiguration` where the entry is
    /// that of a selector.
    pub fn bitmap_or_count(&self, data: &StaticData, tables: &RuntimeTables) -> (r: Result<
        Layout,
        DecodeError,
    >)
        ensures
            r == self.spec_bitmap_or_count(*data, *tables),
    {
        match tables.fun_layout_of(self.f.fun_type) {
            None => Err(DecodeError::UnknownTag),
            Some(LayoutKind::Counts) => Ok(Layout::Counts(self.i.layout.payload())),
            Some(LayoutKind::SmallBitmap) => Ok(Layout::SmallBitmap(self.f.bitmap.small_bitmap())),
            Some(LayoutKind::LargeBitmap) => match resolve_large(
                data,
                &self.f.bitmap.large_bitmap_ref(),
                &self.i,
            ) {
                Ok(large) => Ok(Layout::LargeBitmap(large)),
                Err(e) => Err(e),
            },
            Some(LayoutKind::Selector) => Err(DecodeError::UnsupportedConfiguration),
        }
    }

    /// The address of the slow entry point, which callers use whose
    /// arguments do not come as the fast entry expects them.
    pub fn slow_apply_entry(&self) -> (entry: StgAddr)
        ensures
            entry == spec_offset_from_end(
                self.address(),
                FUN_INFO_TABLE_BYTES as int,
                self.f.slow_apply as int,
            ),
            is_address(self.address() + FUN_INFO_TABLE_BYTES + self.f.slow_apply) ==> entry
                == self.address() + FUN_INFO_TABLE_BYTES + self.f.slow_apply,
    {
        offset_from_end(self.i.addr, INFO_TABLE_BYTES, self.f.slow_apply)
    }
}

/// The info table of a return address.
#[derive(Clone, Copy, Debug, PartialEq, Eq, Structural)]
pub struct StgRetInfoTable {
    /// The generic table.
    pub i: StgInfoTable,
}

impl StgRetInfoTable {
    /// The return table that the generic table `info` is.
    pub open spec fn spec_from_info_table(tables: RuntimeTables, info: StgInfoTable) -> Result<
        StgRetInfoTable,
        DecodeError,
    > {
        match spec_expect_kind(tables, info, TableKind::Return) {
            Err(e) => Err(e),
            Ok(_) => Ok(StgRetInfoTable { i: info }),
        }
    }

    /// Takes the generic table `info` as a return table.
    ///
    /// Fails with `UnknownTag` where the type tag of `info` has no entry, and
    /// with `WrongTableKind` where the entry does not name a return table.
    pub fn from_info_table(tables: &RuntimeTables, info: StgInfoTable) -> (r: Result<
        StgRetInfoTable,
        DecodeError,
    >)
        ensures
            r == Self::spec_from_info_table(*tables, info),
    {
        match expect_kind(tables, &info, TableKind::Return) {
            Err(e) => Err(e),
            Ok(_) => Ok(StgRetInfoTable { i: info }),
        }
    }

    /// The address of the static reference table, if the table has one: the
    /// SRT field is an offset from the end of the table, and `NO_SRT` where
    /// there is none.
    pub fn get_srt(&self) -> (r: Option<StgAddr>)
        ensures
            r == self.i.spec_srt_address(),
            self.i.srt.srt == NO_SRT <==> r is None,
            self.i.srt.srt != NO_SRT && is_address(self.i.addr + INFO_TABLE_BYTES + self.i.srt.srt)
                ==> r == Some((self.i.addr + INFO_TABLE_BYTES + self.i.srt.srt) as StgAddr),
    {
        self.i.srt_address()
    }
}

/// The info table of a thunk.
#[derive(Clone, Copy, Debug, PartialEq, Eq, Structural)]
pub struct StgThunkInfoTable {
    /// The generic table.
    pub i: StgInfoTable,
}

impl StgThunkInfoTable {
    /// The thunk table that the generic table `info` is.
    pub open spec fn spec_from_info_table(tables: RuntimeTables, info: StgInfoTable) -> Result<
        StgThunkInfoTable,
        DecodeError,
    > {
        match spec_expect_kind(tables, info, TableKind::Thunk) {
            Err(e) => Err(e),
            Ok(_) => Ok(StgThunkInfoTable { i: info }),
        }
    }

    /// Takes the generic table `info` as a thunk table.
    ///
    /// Fails with `UnknownTag` where the type tag of `info` has no entry, and
    /// with `WrongTableKind` where the entry does not name a thunk table.
    pub fn from_info_table(tables: &RuntimeTables, info: StgInfoTable) -> (r: Result<
        StgThunkInfoTable,
        DecodeError,
    >)
        ensures
            r == Self::spec_from_info_table(*tables, info),
    {
        match expect_kind(tables, &info, TableKind::Thunk) {
            Err(e) => Err(e),
            Ok(_) => Ok(StgThunkInfoTable { i: info }),
        }
    }

    /// The address of the static reference table, if the table has one: the
    /// SRT field is an offset from the end of the table, and `NO_SRT` where
    /// there is none.
    pub fn get_srt(&self) -> (r: Option<StgAddr>)
        ensures
            r == self.i.spec_srt_address(),
            self.i.srt.srt == NO_SRT <==> r is None,
            self.i.srt.srt != NO_SRT && is_address(self.i.addr + INFO_TABLE_BYTES + self.i.srt.srt)
                ==> r == Some((self.i.addr + INFO_TABLE_BYTES + self.i.srt.srt) as StgAddr),
    {
        self.i.srt_address()
    }
}

/// The info table of a data constructor.
#[derive(Clone, Copy, Debug, PartialEq, Eq, Structural)]
pub struct StgConInfoTable {
    /// The offset of the constructor's description from the end of the table.
    pub con_desc_offset: StgInt,
    /// The generic table.
    pub i: StgInfoTable,
}

impl StgConInfoTable {
    /// The address of the table's first byte.
    pub open spec fn address(self) -> int {
        self.i.addr - CON_EXTRA_BYTES
    }

    /// The constructor table that ends with the generic table `info`.
    pub open spec fn spec_from_info_table(data: StaticData, tables: RuntimeTables, info: StgInfoTable)
        -> Result<StgConInfoTable, DecodeError> {
        match spec_expect_kind(tables, info, TableKind::Constructor) {
            Err(e) => Err(e),
            Ok(_) => if data.holds(info.addr - CON_EXTRA_BYTES, CON_EXTRA_BYTES as int) {
                Ok(
                    StgConInfoTable {
                        con_desc_offset: data.int_at(info.addr - CON_EXTRA_BYTES) as StgInt,
                        i: info,
                    },
                )
            } else {
                Err(DecodeError::OutOfBounds)
            },
        }
    }

    /// Where the description of the constructor lies.
    pub open spec fn spec_descriptor_string(self) -> int {
        spec_offset_from_end(
            self.address(),
            CON_INFO_TABLE_BYTES as int,
            self.con_desc_offset as int,
        )
    }

    /// Reads the constructor table that ends with the generic table `info`.
    ///
    /// Fails with `UnknownTag` where the type tag of `info` has no entry,
    /// with `WrongTableKind` where the entry does not name a constructor
    /// table, and with `OutOfBounds` where the bytes in front of `info` do
    /// not all lie within the static data.
    pub fn from_info_table(data: &StaticData, tables: &RuntimeTables, info: StgInfoTable) -> (r:
        Result<StgConInfoTable, DecodeError>)
        ensures
            r == Self::spec_from_info_table(*data, *tables, info),
    {
        match expect_kind(tables, &info, TableKind::Constructor) {
            Err(e) => Err(e),
            Ok(_) => {
                if info.addr < CON_EXTRA_BYTES {
                    return Err(DecodeError::OutOfBounds);
                }
                match data.read_int(info.addr - CON_EXTRA_BYTES) {
                    Some(con_desc_offset) => Ok(StgConInfoTable { con_desc_offset, i: info }),
                    None => Err(DecodeError::OutOfBounds),
                }
            },
        }
    }

    /// The address of the constructor's description, a text that ends with
    /// a zero byte. It serves diagnostics only.
    pub fn descriptor_string(&self) -> (addr: StgAddr)
        ensures
            addr == self.spec_descriptor_string(),
            is_address(self.address() + CON_INFO_TABLE_BYTES + self.con_desc_offset) ==> addr
                == self.address() + CON_INFO_TABLE_BYTES + self.con_desc_offset,
    {
        offset_from_end(self.i.addr, INFO_TABLE_BYTES, self.con_desc_offset)
    }
}

/// The type tag decides which specialised table can be read from a generic
/// table: where one of them can, each of the others is refused as being of
/// the wrong kind.
pub proof fn lemma_one_specialised_table(data: StaticData, tables: RuntimeTables, info: StgInfoTable)
    ensures
        StgFunInfoTable::spec_from_info_table(data, tables, info) is Ok ==> {
            &&& StgRetInfoTable::spec_from_info_table(tables, info) == Err::<
                StgRetInfoTable,
                DecodeError,
            >(DecodeError::WrongTableKind)
            &&& StgThunkInfoTable::spec_from_info_table(tables, info) == Err::<
                StgThunkInfoTable,
                DecodeError,
            >(DecodeError::WrongTableKind)
            &&& StgConInfoTable::spec_from_info_table(data, tables, info) == Err::<
                StgConInfoTable,
                DecodeError,
            >(DecodeError::WrongTableKind)
        },
        StgRetInfoTable::spec_from_info_table(tables, info) is Ok ==> {
            &&& StgFunInfoTable::spec_from_info_table(data, tables, info) == Err::<
                StgFunInfoTable,
                DecodeError,
            >(DecodeError::WrongTableKind)
            &&& StgThunkInfoTable::spec_from_info_table(tables, info) == Err::<
                StgThunkInfoTable,
                DecodeError,
            >(DecodeError::WrongTableKind)
            &&& StgConInfoTable::spec_from_info_table(data, tables, info) == Err::<
                StgConInfoTable,
                DecodeError,
            >(DecodeError::WrongTableKind)
        },
        StgThunkInfoTable::spec_from_info_table(tables, info) is Ok ==> {
            &&& StgFunInfoTable::spec_from_info_table(data, tables, info) == Err::<
                StgFunInfoTable,
                DecodeError,
            >(DecodeError::WrongTableKind)
            &&& StgRetInfoTable::spec_from_info_table(tables, info) == Err::<
                StgRetInfoTable,
                DecodeError,
            >(DecodeError::WrongTableKind)
            &&& StgConInfoTable::spec_from_info_table(data, tables, info) == Err::<
                StgConInfoTable,
                DecodeError,
            >(DecodeError::WrongTableKind)
        },
        StgConInfoTable::spec_from_info_table(data, tables, info) is Ok ==> {
            &&& StgFunInfoTable::spec_from_info_table(data, tables, info) == Err::<
                StgFunInfoTable,
                DecodeError,
            >(DecodeError::WrongTableKind)
            &&& StgRetInfoTable::spec_from_info_table(tables, info) == Err::<
                StgRetInfoTable,
                DecodeError,
            >(DecodeError::WrongTableKind)
            &&& StgThunkInfoTable::spec_from_info_table(tables, info) == Err::<
                StgThunkInfoTable,
                DecodeError,
            >(DecodeError::WrongTableKind)
        },
{
}

} // verus!
