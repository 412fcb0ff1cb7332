//! The two encodings of a pointer layout that does not put all pointers
//! first: the small bitmap, packed into one word, and the large bitmap, a
//! record of its own outside the info table.

use vstd::prelude::*;
use crate::info_table::{StgInfoTable, INFO_TABLE_BYTES};
use crate::memory::{as_signed, word_as_signed, StaticData};
use crate::offset::{is_address, offset_from_end, spec_offset_from_end};
use crate::types::{StgAddr, StgInt, StgWord, WORD_BYTES};

verus! {

/// By how many bits the mask of a small bitmap is shifted.
pub const BITMAP_BITS_SHIFT: StgWord = 6;

/// The bits of a small bitmap that hold its size.
pub const BITMAP_SIZE_MASK: StgWord = 0x3f;

/// The largest number of slots that a small bitmap describes.
pub const SMALL_BITMAP_MAX_SIZE: StgWord = 63;

/// Number of masks that fit into a small bitmap beside its size: two to the
/// power of 58.
pub open spec fn small_bitmap_mask_limit() -> int {
    0x0400_0000_0000_0000
}

/// Can `size` and `bits` be packed into a small bitmap without loss?
pub open spec fn small_bitmap_fits(size: StgWord, bits: StgWord) -> bool {
    size <= SMALL_BITMAP_MAX_SIZE && bits < small_bitmap_mask_limit()
}

/// Is bit `i` of `bits` set? Bit 0 is the least significant.
pub open spec fn mask_bit(bits: StgWord, i: int) -> bool {
    (bits >> (i as u64)) & 1 == 1
}

/// A pointer layout of at most 63 slots in one word: the six low bits hold
/// the number of slots, the bits above them one bit per slot, which is set
/// where the slot holds a pointer.
#[derive(Clone, Copy, Debug, PartialEq, Eq, Structural)]
pub struct StgSmallBitmap(pub StgWord);

impl View for StgSmallBitmap {
    type V = Seq<bool>;

    /// One entry per slot, in ascending order: does the slot hold a pointer?
    open spec fn view(&self) -> Seq<bool> {
        Seq::new(self.spec_size() as nat, |i: int| mask_bit(self.spec_bits(), i))
    }
}

impl StgSmallBitmap {
    /// The number of slots.
    pub open spec fn spec_size(self) -> StgWord {
        self.0 % 64
    }

    /// The mask: bit `i` tells whether slot `i` holds a pointer.
    pub open spec fn spec_bits(self) -> StgWord {
        self.0 / 64
    }

    /// The word that packs `size` and `bits`. Bits of `size` above the sixth
    /// run into the mask, and the six topmost bits of `bits` are lost.
    pub open spec fn spec_make(size: StgWord, bits: StgWord) -> StgSmallBitmap {
        StgSmallBitmap((bits << BITMAP_BITS_SHIFT) | size)
    }

    /// Packs a slot count and a mask into a small bitmap.
    #[inline(always)]
    pub fn make_small_bitmap(size: StgWord, bits: StgWord) -> (bitmap: Self)
        ensures
            bitmap == Self::spec_make(size, bits),
            small_bitmap_fits(size, bits) ==> bitmap.0 == bits * 64 + size,
            small_bitmap_fits(size, bits) ==> bitmap.spec_size() == size && bitmap.spec_bits()
                == bits,
    {
        proof {
            if small_bitmap_fits(size, bits) {
                lemma_small_bitmap_round_trip(size, bits);
            }
        }
        StgSmallBitmap((bits << BITMAP_BITS_SHIFT) | size)
    }

    /// The number of slots that the bitmap describes, at most 63.
    #[inline(always)]
    pub fn size(&self) -> (size: StgWord)
        ensures
            size == self.spec_size(),
            size == self@.len(),
            size <= SMALL_BITMAP_MAX_SIZE,
    {
        let word: StgWord = self.0;
        assert(word & 0x3f == word % 64) by (bit_vector);
        self.0 & BITMAP_SIZE_MASK
    }

    /// The mask of the bitmap: bit `i` is set where slot `i` holds a pointer.
    #[inline(always)]
    pub fn bits(&self) -> (bits: StgWord)
        ensures
            bits == self.spec_bits(),
            bits < small_bitmap_mask_limit(),
    {
        let word: StgWord = self.0;
        assert(word >> 6 == word / 64) by (bit_vector);
        self.0 >> BITMAP_BITS_SHIFT
    }

    /// Does slot `i` hold a pointer?
    #[inline(always)]
    pub fn is_pointer(&self, i: StgWord) -> (pointer: bool)
        requires
            i < self.spec_size(),
        ensures
            pointer == self@[i as int],
    {
        (self.bits() >> i) & 1 == 1
    }
}

/// The reference of an info table to its large bitmap: a signed byte offset
/// from the end of the table.
#[derive(Clone, Copy, Debug, PartialEq, Eq, Structural)]
pub struct StgLargeBitmapRef {
    /// The offset of the bitmap from the first address after the table.
    pub offset: StgInt,
}

impl StgLargeBitmapRef {
    /// Where the bitmap lies when the reference is held by the info table
    /// `itbl`.
    pub open spec fn spec_deref(self, itbl: StgInfoTable) -> int {
        spec_offset_from_end(itbl.addr as int, INFO_TABLE_BYTES as int, self.offset as int)
    }

    /// The address of the large bitmap to which the info table `itbl`
    /// refers by this reference.
    pub fn deref(&self, itbl: &StgInfoTable) -> (addr: StgAddr)
        ensures
            addr == self.spec_deref(*itbl),
            is_address(itbl.addr + INFO_TABLE_BYTES + self.offset) ==> addr == itbl.addr
                + INFO_TABLE_BYTES + self.offset,
    {
        offset_from_end(itbl.addr, INFO_TABLE_BYTES, self.offset)
    }
}

/// The slots of a large bitmap: pointer-sized words that follow one another
/// from `addr` on.
#[derive(Clone, Copy, Debug, PartialEq, Eq, Structural)]
pub struct LargeBitMapPayload {
    /// The address of the first slot.
    pub addr: StgAddr,
}

impl LargeBitMapPayload {
    /// The address of slot `i`.
    pub open spec fn slot_address(self, i: int) -> int {
        self.addr + WORD_BYTES * i
    }

    /// The word in slot `i`, if the slot lies within the static data. The
    /// payload does not know how many slots it has: it is the caller who
    /// keeps `i` below the size of the bitmap.
    pub fn get_w(&self, data: &StaticData, i: usize) -> (r: Option<StgAddr>)
        ensures
            r == if data.holds(self.slot_address(i as int), WORD_BYTES as int) {
                Some(data.word_at(self.slot_address(i as int)) as StgAddr)
            } else {
                None
            },
    {
        let index: u64 = i as u64;
        if index > (u64::MAX - self.addr) / WORD_BYTES {
            return None;
        }
        data.read_word(self.addr + WORD_BYTES * index)
    }
}

/// A large bitmap: a record outside the info table that holds the number of
/// its slots and, directly after it, the slots.
#[derive(Clone, Copy, Debug, PartialEq, Eq, Structural)]
pub struct StgLargeBitmap {
    /// The number of slots.
    pub size: StgWord,
    /// The slots.
    pub bitmap: LargeBitMapPayload,
}

impl View for StgLargeBitmap {
    type V = Seq<bool>;

    /// One entry per slot: every slot of a large bitmap counts as a pointer.
    open spec fn view(&self) -> Seq<bool> {
        Seq::new(self.size as nat, |i: int| true)
    }
}

impl StgLargeBitmap {
    /// Bytes that the bitmap takes: the size word and the slots.
    pub open spec fn byte_len(self) -> int {
        WORD_BYTES + WORD_BYTES * self.size
    }

    /// The address of the bitmap: that of its size word.
    pub open spec fn address(self) -> int {
        self.bitmap.addr - WORD_BYTES
    }

    /// Does the static data hold this bitmap, size word and slots?
    pub open spec fn lies_in(self, data: StaticData) -> bool {
        &&& data.holds(self.address(), self.byte_len())
        &&& data.word_at(self.address()) == self.size
    }

    /// The bitmap at `addr`, if the static data holds it whole.
    pub open spec fn spec_read(data: StaticData, addr: int) -> Option<StgLargeBitmap> {
        if data.holds(addr, WORD_BYTES + WORD_BYTES * data.word_at(addr)) {
            Some(
                StgLargeBitmap {
                    size: data.word_at(addr) as StgWord,
                    bitmap: LargeBitMapPayload { addr: (addr + WORD_BYTES) as StgAddr },
                },
            )
        } else {
            None
        }
    }

    /// The words in the slots, in ascending order of their addresses.
    pub open spec fn payload(self, data: StaticData) -> Seq<StgAddr> {
        Seq::new(
            self.size as nat,
            |i: int| data.word_at(self.bitmap.slot_address(i)) as StgAddr,
        )
    }

    /// Reads the large bitmap at `addr`. There is none unless the size word
    /// and all the slots that it announces lie within the static data.
    pub fn read(data: &StaticData, addr: StgAddr) -> (r: Option<StgLargeBitmap>)
        ensures
            r == Self::spec_read(*data, addr as int),
            r matches Some(bitmap) ==> bitmap.lies_in(*data) && bitmap.address() == addr,
    {
        let size: StgWord = match data.read_word(addr) {
            Some(word) => word,
            None => {
                return None;
            },
        };
        if size > (u64::MAX - WORD_BYTES) / WORD_BYTES {
            return None;
        }
        if !data.contains(addr, WORD_BYTES + WORD_BYTES * size) {
            return None;
        }
        Some(StgLargeBitmap { size, bitmap: LargeBitMapPayload { addr: addr + WORD_BYTES } })
    }

    /// The word in slot `i` of a bitmap that the static data holds, for `i`
    /// below the size of the bitmap.
    pub fn read_slot(&self, data: &StaticData, i: StgWord) -> (word: StgAddr)
        requires
            self.lies_in(*data),
            i < self.size,
        ensures
            word == self.payload(*data)[i as int],
            word == data.word_at(self.bitmap.addr + WORD_BYTES * i),
    {
        match data.read_word(self.bitmap.addr + WORD_BYTES * i) {
            Some(word) => word,
            None => 0,
        }
    }
}

/// The bitmap word of a function table: a small bitmap, or the offset of a
/// large one, as the calling convention says.
#[derive(Clone, Copy, Debug, PartialEq, Eq, Structural)]
pub struct Bitmap {
    /// The word as it is stored.
    pub raw: StgWord,
}

impl Bitmap {
    /// The word as a small bitmap.
    pub open spec fn spec_small_bitmap(self) -> StgSmallBitmap {
        StgSmallBitmap(self.raw)
    }

    /// The word as the signed offset of a large bitmap.
    pub open spec fn spec_large_bitmap_ref(self) -> StgLargeBitmapRef {
        StgLargeBitmapRef { offset: as_signed(self.raw as int, 0x1_0000_0000_0000_0000) as i64 }
    }

    /// The word as a small bitmap.
    pub fn small_bitmap(&self) -> (bitmap: StgSmallBitmap)
        ensures
            bitmap == self.spec_small_bitmap(),
    {
        StgSmallBitmap(self.raw)
    }

    /// The word as the signed offset of a large bitmap.
    pub fn large_bitmap_ref(&self) -> (bitmap: StgLargeBitmapRef)
        ensures
            bitmap == self.spec_large_bitmap_ref(),
            bitmap.offset == as_signed(self.raw as int, 0x1_0000_0000_0000_0000),
    {
        StgLargeBitmapRef { offset: word_as_signed(self.raw) }
    }
}

/// A slot count of at most 63 and a mask of at most 58 bits come out of a
/// small bitmap as they were packed into it.
pub proof fn lemma_small_bitmap_round_trip(size: StgWord, bits: StgWord)
    requires
        small_bitmap_fits(size, bits),
    ensures
        StgSmallBitmap::spec_make(size, bits).0 == bits * 64 + size,
        StgSmallBitmap::spec_make(size, bits).spec_size() == size,
        StgSmallBitmap::spec_make(size, bits).spec_bits() == bits,
{
    assert(size <= 63 && bits < 0x0400_0000_0000_0000 ==> ((bits << 6) | size) == bits * 64
        + size) by (bit_vector);
}

} // verus!
