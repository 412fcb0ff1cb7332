//! Closure flags: the fixed set of properties that the runtime records for
//! each kind of closure, packed into the low bits of a 16-bit word.

use vstd::prelude::*;
use crate::types::StgWord16;

verus! {

/// Head normal form.
pub const FLAG_HNF: StgWord16 = 0x01;

/// The layout word of the info table is a bitmap.
pub const FLAG_BTM: StgWord16 = 0x02;

/// Not sparkable.
pub const FLAG_NS: StgWord16 = 0x04;

/// A thunk.
pub const FLAG_THU: StgWord16 = 0x08;

/// Mutable.
pub const FLAG_MUT: StgWord16 = 0x10;

/// Unpointed.
pub const FLAG_UPT: StgWord16 = 0x20;

/// Has a static reference table.
pub const FLAG_SRT: StgWord16 = 0x40;

/// An indirection.
pub const FLAG_IND: StgWord16 = 0x80;

/// The properties that a flag word records, one bit each.
#[derive(Clone, Copy, Debug, PartialEq, Eq, Structural)]
pub enum Flag {
    HeadNormalForm,
    BitmapLayout,
    NonSparkable,
    Thunk,
    Mutable,
    Unpointed,
    HasSrt,
    Indirection,
}

impl Flag {
    /// The value of the flag's bit in a flag word, a power of two.
    pub open spec fn weight(self) -> int {
        match self {
            Flag::HeadNormalForm => 1,
            Flag::BitmapLayout => 2,
            Flag::NonSparkable => 4,
            Flag::Thunk => 8,
            Flag::Mutable => 16,
            Flag::Unpointed => 32,
            Flag::HasSrt => 64,
            Flag::Indirection => 128,
        }
    }

    /// The mask that selects the flag's bit in a flag word.
    pub open spec fn mask(self) -> StgWord16 {
        match self {
            Flag::HeadNormalForm => FLAG_HNF,
            Flag::BitmapLayout => FLAG_BTM,
            Flag::NonSparkable => FLAG_NS,
            Flag::Thunk => FLAG_THU,
            Flag::Mutable => FLAG_MUT,
            Flag::Unpointed => FLAG_UPT,
            Flag::HasSrt => FLAG_SRT,
            Flag::Indirection => FLAG_IND,
        }
    }
}

/// Is the bit of `flag` set in the flag word `word`?
pub open spec fn flag_is_set(word: StgWord16, flag: Flag) -> bool {
    (word as int / flag.weight()) % 2 == 1
}

/// The flag word of one kind of closure.
#[derive(Clone, Copy, Debug, PartialEq, Eq, Structural)]
pub struct ClosureFlag(pub StgWord16);

impl View for ClosureFlag {
    type V = Set<Flag>;

    /// The flags that are set.
    open spec fn view(&self) -> Set<Flag> {
        Set::new(|f: Flag| flag_is_set(self.0, f))
    }
}

impl ClosureFlag {
    /// Is `flag` set?
    pub open spec fn has(self, flag: Flag) -> bool {
        flag_is_set(self.0, flag)
    }

    /// Are closures of this kind mutable?
    #[inline(always)]
    pub fn is_mutable(&self) -> (r: bool)
        ensures
            r == self.has(Flag::Mutable),
    {
        proof {
            lemma_mask_tests_bit(self.0, Flag::Mutable);
        }
        self.0 & FLAG_MUT != 0
    }

    /// Is the layout word of the info table a bitmap, not a pair of counts?
    #[inline(always)]
    pub fn is_bitmap(&self) -> (r: bool)
        ensures
            r == self.has(Flag::BitmapLayout),
    {
        proof {
            lemma_mask_tests_bit(self.0, Flag::BitmapLayout);
        }
        self.0 & FLAG_BTM != 0
    }

    /// Are closures of this kind thunks?
    #[inline(always)]
    pub fn is_thunk(&self) -> (r: bool)
        ensures
            r == self.has(Flag::Thunk),
    {
        proof {
            lemma_mask_tests_bit(self.0, Flag::Thunk);
        }
        self.0 & FLAG_THU != 0
    }

    /// Are closures of this kind unpointed?
    #[inline(always)]
    pub fn is_unpointed(&self) -> (r: bool)
        ensures
            r == self.has(Flag::Unpointed),
    {
        proof {
            lemma_mask_tests_bit(self.0, Flag::Unpointed);
        }
        self.0 & FLAG_UPT != 0
    }

    /// Do closures of this kind have a static reference table?
    #[inline(always)]
    pub fn has_srt(&self) -> (r: bool)
        ensures
            r == self.has(Flag::HasSrt),
    {
        proof {
            lemma_mask_tests_bit(self.0, Flag::HasSrt);
        }
        self.0 & FLAG_SRT != 0
    }
}

/// Testing a flag word against the mask of a flag tells whether the flag's
/// bit is set.
pub proof fn lemma_mask_tests_bit(word: StgWord16, flag: Flag)
    ensures
        (word & flag.mask() != 0) == flag_is_set(word, flag),
{
    match flag {
        Flag::HeadNormalForm => {
            assert((word & 0x01 != 0) == ((word / 1) % 2 == 1)) by (bit_vector);
        },
        Flag::BitmapLayout => {
            assert((word & 0x02 != 0) == ((word / 2) % 2 == 1)) by (bit_vector);
        },
        Flag::NonSparkable => {
            assert((word & 0x04 != 0) == ((word / 4) % 2 == 1)) by (bit_vector);
        },
        Flag::Thunk => {
            assert((word & 0x08 != 0) == ((word / 8) % 2 == 1)) by (bit_vector);
        },
        Flag::Mutable => {
            assert((word & 0x10 != 0) == ((word / 16) % 2 == 1)) by (bit_vector);
        },
        Flag::Unpointed => {
            assert((word & 0x20 != 0) == ((word / 32) % 2 == 1)) by (bit_vector);
        },
        Flag::HasSrt => {
            assert((word & 0x40 != 0) == ((word / 64) % 2 == 1)) by (bit_vector);
        },
        Flag::Indirection => {
            assert((word & 0x80 != 0) == ((word / 128) % 2 == 1)) by (bit_vector);
        },
    }
}

} // verus!
