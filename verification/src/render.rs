//! Text for diagnostics: what a closure is called, and what its fields hold.
//! The collector itself never asks for it.
//!
//! The text is made of bytes. A constructor is called by the description
//! that its info table refers to, which is taken as it lies in the static
//! data; every other closure by the name of its kind of info table. The
//! fields follow, each after a space, as `0x` and sixteen hexadecimal digits.

use vstd::prelude::*;
use crate::info_table::{info_table_of, spec_info_table_of, ClosureRef};
use crate::kinds::{RuntimeTables, TableKind};
use crate::memory::StaticData;
use crate::views::StgConInfoTable;
use crate::types::{DecodeError, StgWord};

verus! {

/// A closure as the runtime holds it: the reference to it, and the words in
/// its fields.
pub struct RawClosure {
    /// The reference to the closure.
    pub reference: ClosureRef,
    /// The words in the fields of the closure, in ascending order of their
    /// addresses.
    pub payload: Vec<StgWord>,
}

/// The digit for `nibble`, which is below sixteen: `0` to `9`, then `a` to
/// `f`.
pub open spec fn hex_digit(nibble: int) -> u8 {
    if nibble < 10 {
        (0x30 + nibble) as u8
    } else {
        (0x61 + nibble - 10) as u8
    }
}

/// The last `width` hexadecimal digits of `value`, most significant first.
pub open spec fn hex_digits(value: int, width: nat) -> Seq<u8>
    decreases width,
{
    if width == 0 {
        Seq::empty()
    } else {
        hex_digits(value / 16, (width - 1) as nat).push(hex_digit(value % 16))
    }
}

/// A word as text: `0x` and its sixteen hexadecimal digits.
pub open spec fn hex_word(word: StgWord) -> Seq<u8> {
    seq![0x30u8, 0x78u8] + hex_digits(word as int, 16)
}

/// The fields as text: each word as `hex_word` gives it, after a space.
pub open spec fn rendered_fields(payload: Seq<StgWord>) -> Seq<u8>
    decreases payload.len(),
{
    if payload.len() == 0 {
        Seq::empty()
    } else {
        rendered_fields(payload.drop_last()) + seq![0x20u8] + hex_word(payload.last())
    }
}

/// The name of a kind of info table: `closure`, `function`, `return`,
/// `thunk` or `constructor`.
pub open spec fn spec_table_name(kind: TableKind) -> Seq<u8> {
    match kind {
        TableKind::Generic => seq![0x63u8, 0x6c, 0x6f, 0x73, 0x75, 0x72, 0x65],
        TableKind::Function => seq![0x66u8, 0x75, 0x6e, 0x63, 0x74, 0x69, 0x6f, 0x6e],
        TableKind::Return => seq![0x72u8, 0x65, 0x74, 0x75, 0x72, 0x6e],
        TableKind::Thunk => seq![0x74u8, 0x68, 0x75, 0x6e, 0x6b],
        TableKind::Constructor => seq![
            0x63u8,
            0x6f,
            0x6e,
            0x73,
            0x74,
            0x72,
            0x75,
            0x63,
            0x74,
            0x6f,
            0x72,
        ],
    }
}

/// What a closure is called: a constructor by its description, every other
/// closure by the name of its kind of info table.
pub open spec fn spec_closure_name(data: StaticData, tables: RuntimeTables, closure: ClosureRef)
    -> Result<Seq<u8>, DecodeError> {
    match spec_info_table_of(data, closure) {
        Err(e) => Err(e),
        Ok(info) => match tables.spec_kind_of(info.type_) {
            None => Err(DecodeError::UnknownTag),
            Some(kind) => if kind.table == TableKind::Constructor {
                match StgConInfoTable::spec_from_info_table(data, tables, info) {
                    Err(e) => Err(e),
                    Ok(con) => match data.text_at(con.spec_descriptor_string()) {
                        Some(text) => Ok(text),
                        None => Err(DecodeError::OutOfBounds),
                    },
                }
            } else {
                Ok(spec_table_name(kind.table))
            },
        },
    }
}

/// The text for a closure: its name, then its fields.
pub open spec fn spec_render_debug(data: StaticData, tables: RuntimeTables, closure: RawClosure)
    -> Result<Seq<u8>, DecodeError> {
    match spec_closure_name(data, tables, closure.reference) {
        Err(e) => Err(e),
        Ok(name) => Ok(name + rendered_fields(closure.payload@)),
    }
}

/// The digit for `nibble`.
fn hex_digit_of(nibble: u8) -> (digit: u8)
    requires
        nibble < 16,
    ensures
        digit == hex_digit(nibble as int),
{
    if nibble < 10 {
        0x30 + nibble
    } else {
        0x61 + (nibble - 10)
    }
}

/// Appends the last `width` hexadecimal digits of `value` to `text`.
fn push_hex_digits(text: &mut Vec<u8>, value: u64, width: u8)
    ensures
        final(text)@ == old(text)@ + hex_digits(value as int, width as nat),
    decreases width,
{
    if width > 0 {
        push_hex_digits(text, value / 16, width - 1);
        text.push(hex_digit_of((value % 16) as u8));
    }
}

/// The name of a kind of info table.
pub fn table_name(kind: TableKind) -> (name: Vec<u8>)
    ensures
        name@ == spec_table_name(kind),
{
    match kind {
        TableKind::Generic => vec![0x63u8, 0x6c, 0x6f, 0x73, 0x75, 0x72, 0x65],
        TableKind::Function => vec![0x66u8, 0x75, 0x6e, 0x63, 0x74, 0x69, 0x6f, 0x6e],
        TableKind::Return => vec![0x72u8, 0x65, 0x74, 0x75, 0x72, 0x6e],
        TableKind::Thunk => vec![0x74u8, 0x68, 0x75, 0x6e, 0x6b],
        TableKind::Constructor => vec![
            0x63u8,
            0x6f,
            0x6e,
            0x73,
            0x74,
            0x72,
            0x75,
            0x63,
            0x74,
            0x6f,
            0x72,
        ],
    }
}

/// Finds what a closure is called: a constructor by its description, every
/// other closure by the name of its kind of info table.
///
/// Fails with `OutOfBounds` where the info table, or what a constructor
/// table adds to it, does not lie within the static data, or where the
/// description does not begin within the static data or no zero byte ends it
/// there; and with `UnknownTag` where the type tag has no entry in `tables`.
pub fn closure_name(data: &StaticData, tables: &RuntimeTables, closure: ClosureRef) -> (r: Result<
    Vec<u8>,
    DecodeError,
>)
    ensures
        match r {
            Ok(name) => spec_closure_name(*data, *tables, closure) == Ok::<Seq<u8>, DecodeError>(
                name@,
            ),
            Err(e) => spec_closure_name(*data, *tables, closure) == Err::<Seq<u8>, DecodeError>(e),
        },
{
    let info = match info_table_of(data, closure) {
        Err(e) => {
            return Err(e);
        },
        Ok(info) => info,
    };
    match tables.kind_of(info.type_) {
        None => Err(DecodeError::UnknownTag),
        Some(kind) => if kind.table == TableKind::Constructor {
            match StgConInfoTable::from_info_table(data, tables, info) {
                Err(e) => Err(e),
                Ok(con) => match data.read_text(con.descriptor_string()) {
                    Some(text) => Ok(text),
                    None => Err(DecodeError::OutOfBounds),
                },
            }
        } else {
            Ok(table_name(kind.table))
        },
    }
}

/// Renders a closure for diagnostics: its name, then each of its fields
/// after a space, as `0x` and sixteen hexadecimal digits.
///
/// Fails as `closure_name` does.
pub fn render_debug(data: &StaticData, tables: &RuntimeTables, closure: &RawClosure) -> (r: Result<
    Vec<u8>,
    DecodeError,
>)
    ensures
        match r {
            Ok(text) => spec_render_debug(*data, *tables, *closure) == Ok::<Seq<u8>, DecodeError>(
                text@,
            ),
            Err(e) => spec_render_debug(*data, *tables, *closure) == Err::<Seq<u8>, DecodeError>(e),
        },
{
    let mut text: Vec<u8> = match closure_name(data, tables, closure.reference) {
        Err(e) => {
            return Err(e);
        },
        Ok(name) => name,
    };
    let ghost name = text@;
    let ghost payload = closure.payload@;
    let mut i: usize = 0;
    while i < closure.payload.len()
        invariant
            i <= payload.len(),
            payload == closure.payload@,
            text@ == name + rendered_fields(payload.take(i as int)),
        decreases payload.len() - i,
    {
        assert(payload.take(i + 1).drop_last() == payload.take(i as int));
        text.push(0x20);
        text.push(0x30);
        text.push(0x78);
        push_hex_digits(&mut text, closure.payload[i], 16);
        i = i + 1;
    }
    assert(payload.take(payload.len() as int) == payload);
    Ok(text)
}

} // verus!
