//! What the runtime fixes for each kind of closure and for each calling
//! convention. The tables are produced together with the runtime and handed
//! to the decoder; none of their entries is built in.

use vstd::prelude::*;
use crate::flags::{ClosureFlag, Flag};
use crate::types::{StgClosureType, StgFunType};

verus! {

/// The specialised info table that a kind of closure has.
#[derive(Clone, Copy, Debug, PartialEq, Eq, Structural)]
pub enum TableKind {
    /// The generic table alone.
    Generic,
    /// A function table.
    Function,
    /// A return table.
    Return,
    /// A thunk table.
    Thunk,
    /// A constructor table.
    Constructor,
}

/// How a layout word is to be read.
#[derive(Clone, Copy, Debug, PartialEq, Eq, Structural)]
pub enum LayoutKind {
    /// A count of pointers and a count of non-pointers.
    Counts,
    /// A small bitmap.
    SmallBitmap,
    /// The offset of a large bitmap.
    LargeBitmap,
    /// The offset of the field that a selector picks.
    Selector,
}

/// What is fixed for one kind of closure.
#[derive(Clone, Copy, Debug, PartialEq, Eq, Structural)]
pub struct ClosureKind {
    /// The flags of the kind.
    pub flags: ClosureFlag,
    /// The specialised table of its info tables.
    pub table: TableKind,
    /// How the layout word of its info tables is read.
    pub layout: LayoutKind,
}

/// The tables of the runtime: one entry for each type tag, and one for each
/// calling-convention tag of a function.
pub struct RuntimeTables {
    /// The kinds of closures, by type tag.
    pub closure_kinds: Vec<ClosureKind>,
    /// How the bitmap word of a function table is read, by calling-convention
    /// tag. `Counts` stands for a function whose layout is the pair of counts
    /// in its generic table.
    pub fun_layouts: Vec<LayoutKind>,
}

impl RuntimeTables {
    /// Has the type tag an entry?
    pub open spec fn defines(&self, type_: StgClosureType) -> bool {
        type_.0 < self.closure_kinds@.len()
    }

    /// The entry of a type tag.
    pub open spec fn spec_kind_of(&self, type_: StgClosureType) -> Option<ClosureKind> {
        if self.defines(type_) {
            Some(self.closure_kinds@[type_.0 as int])
        } else {
            None
        }
    }

    /// The entry of a calling-convention tag.
    pub open spec fn spec_fun_layout_of(&self, fun_type: StgFunType) -> Option<LayoutKind> {
        if fun_type.0 < self.fun_layouts@.len() {
            Some(self.fun_layouts@[fun_type.0 as int])
        } else {
            None
        }
    }

    /// The flag word of a type tag that has an entry.
    pub open spec fn spec_flags_of(&self, type_: StgClosureType) -> ClosureFlag {
        self.closure_kinds@[type_.0 as int].flags
    }

    /// The entry of a type tag, if it has one.
    pub fn kind_of(&self, type_: StgClosureType) -> (r: Option<ClosureKind>)
        ensures
            r == self.spec_kind_of(type_),
    {
        let tag: u32 = type_.0;
        if (tag as u64) < self.closure_kinds.len() as u64 {
            Some(self.closure_kinds[tag as usize])
        } else {
            None
        }
    }

    /// The entry of a calling-convention tag, if it has one.
    pub fn fun_layout_of(&self, fun_type: StgFunType) -> (r: Option<LayoutKind>)
        ensures
            r == self.spec_fun_layout_of(fun_type),
    {
        let tag: u32 = fun_type.0;
        if (tag as u64) < self.fun_layouts.len() as u64 {
            Some(self.fun_layouts[tag as usize])
        } else {
            None
        }
    }
}

impl ClosureFlag {
    /// The flags of the closures whose info table has the type tag `type_`,
    /// as the runtime's table gives them. The tag must have an entry.
    #[inline(always)]
    pub fn get_closure_flag(tables: &RuntimeTables, type_: StgClosureType) -> (flags: ClosureFlag)
        requires
            tables.defines(type_),
        ensures
            flags == tables.spec_flags_of(type_),
    {
        tables.closure_kinds[type_.0 as usize].flags
    }
}

/// For each type tag that has an entry, and each flag, the flag is reported
/// as set exactly where its bit is set in the entry's flag word.
pub proof fn lemma_flags_agree_with_table(tables: RuntimeTables, type_: StgClosureType, flag: Flag)
    requires
        tables.defines(type_),
    ensures
        tables.spec_flags_of(type_).has(flag) == (tables.closure_kinds@[type_.0 as int].flags.0
            & flag.mask() != 0),
        tables.spec_flags_of(type_)@.contains(flag) == tables.spec_flags_of(type_).has(flag),
{
    crate::flags::lemma_mask_tests_bit(tables.closure_kinds@[type_.0 as int].flags.0, flag);
}

} // verus!
