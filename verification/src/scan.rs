//! What a scanner asks of the decoder: the flags of a closure, its layout,
//! and the addresses of its fields that hold pointers.

use vstd::prelude::*;
use crate::flags::ClosureFlag;
use crate::info_table::{info_table_of, spec_info_table_of, ClosureRef};
use crate::kinds::{RuntimeTables, TableKind};
use crate::layout::{checked_pointer_fields, is_pointer_field, Layout};
use crate::memory::StaticData;
use crate::offset::is_address;
use crate::views::StgFunInfoTable;
use crate::types::{DecodeError, StgAddr};

verus! {

/// Bytes in the header of a closure. The fields follow the header.
pub const CLOSURE_HEADER_BYTES: u64 = 8;

/// The flags of a closure: those that the entry of its type tag gives.
pub open spec fn spec_closure_flags(data: StaticData, tables: RuntimeTables, closure: ClosureRef)
    -> Result<ClosureFlag, DecodeError> {
    match spec_info_table_of(data, closure) {
        Err(e) => Err(e),
        Ok(info) => if tables.defines(info.type_) {
            Ok(tables.spec_flags_of(info.type_))
        } else {
            Err(DecodeError::UnknownTag)
        },
    }
}

/// The layout of a closure: for a function that of its function table, for
/// every other kind the layout word of the generic table, read as the entry
/// of the type tag says.
pub open spec fn spec_closure_layout(data: StaticData, tables: RuntimeTables, closure: ClosureRef)
    -> Result<Layout, DecodeError> {
    match spec_info_table_of(data, closure) {
        Err(e) => Err(e),
        Ok(info) => match tables.spec_kind_of(info.type_) {
            None => Err(DecodeError::UnknownTag),
            Some(kind) => if kind.table == TableKind::Function {
                match StgFunInfoTable::spec_from_info_table(data, tables, info) {
                    Err(e) => Err(e),
                    Ok(fun) => fun.spec_bitmap_or_count(data, tables),
                }
            } else {
                info.spec_layout_as(data, kind.layout)
            },
        },
    }
}

/// The addresses of the fields of a closure that hold pointers, in ascending
/// order. The fields begin after the header of the closure.
pub open spec fn spec_scan_layout(data: StaticData, tables: RuntimeTables, closure: ClosureRef)
    -> Result<Seq<StgAddr>, DecodeError> {
    if !is_address(closure.addr + CLOSURE_HEADER_BYTES) {
        Err(DecodeError::OutOfBounds)
    } else {
        match spec_closure_layout(data, tables, closure) {
            Err(e) => Err(e),
            Ok(layout) => checked_pointer_fields(closure.addr + CLOSURE_HEADER_BYTES, layout@),
        }
    }
}

/// Reads the type tag of a closure from its info table and looks up the
/// flags of its kind.
///
/// Fails with `OutOfBounds` where the info table does not lie within the
/// static data, and with `UnknownTag` where the type tag has no entry in
/// `tables`.
pub fn closure_flags(data: &StaticData, tables: &RuntimeTables, closure: ClosureRef) -> (r: Result<
    ClosureFlag,
    DecodeError,
>)
    ensures
        r == spec_closure_flags(*data, *tables, closure),
{
    match info_table_of(data, closure) {
        Err(e) => Err(e),
        Ok(info) => match tables.kind_of(info.type_) {
            Some(_) => Ok(ClosureFlag::get_closure_flag(tables, info.type_)),
            None => Err(DecodeError::UnknownTag),
        },
    }
}

/// Reads the layout of a closure from its info table.
///
/// Fails with `OutOfBounds` where the info table, what a function table
/// adds to it, or a large bitmap does not lie within the static data; with
/// `UnknownTag` where the type tag, or the calling-convention tag of a
/// function, has no entry in `tables`; and with `UnsupportedConfiguration`
/// where the layout word is that of a selector.
pub fn closure_layout(data: &StaticData, tables: &RuntimeTables, closure: ClosureRef) -> (r: Result<
    Layout,
    DecodeError,
>)
    ensures
        r == spec_closure_layout(*data, *tables, closure),
{
    let info = match info_table_of(data, closure) {
        Err(e) => {
            return Err(e);
        },
        Ok(info) => info,
    };
    match tables.kind_of(info.type_) {
        None => Err(DecodeError::UnknownTag),
        Some(kind) => if kind.table == TableKind::Function {
            match StgFunInfoTable::from_info_table(data, tables, info) {
                Err(e) => Err(e),
                Ok(fun) => fun.bitmap_or_count(data, tables),
            }
        } else {
            info.layout_as(data, kind.layout)
        },
    }
}

/// Lists the addresses of the fields of a closure that hold pointers, in
/// ascending order.
///
/// Fails with `OutOfBounds` where the closure's fields would not lie within
/// the address space, and else as `closure_layout` does.
pub fn scan_layout(data: &StaticData, tables: &RuntimeTables, closure: ClosureRef) -> (r: Result<
    Vec<StgAddr>,
    DecodeError,
>)
    ensures
        match r {
            Ok(fields) => spec_scan_layout(*data, *tables, closure) == Ok::<
                Seq<StgAddr>,
                DecodeError,
            >(fields@),
            Err(e) => spec_scan_layout(*data, *tables, closure) == Err::<Seq<StgAddr>, DecodeError>(
                e,
            ),
        },
        r matches Ok(fields) ==> {
            &&& spec_closure_layout(*data, *tables, closure) matches Ok(layout)
            &&& forall|a: StgAddr|
                fields@.contains(a) <==> is_pointer_field(
                    closure.addr + CLOSURE_HEADER_BYTES,
                    layout@,
                    a as int,
                )
            &&& forall|j: int, k: int| 0 <= j < k < fields@.len() ==> fields@[j] < fields@[k]
        },
{
    if closure.addr > u64::MAX - CLOSURE_HEADER_BYTES {
        return Err(DecodeError::OutOfBounds);
    }
    match closure_layout(data, tables, closure) {
        Err(e) => Err(e),
        Ok(layout) => layout.pointer_fields(closure.addr + CLOSURE_HEADER_BYTES),
    }
}

} // verus!
