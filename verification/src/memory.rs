//! The static data of the scanned program as a byte-addressed, read-only
//! region, and the readers that take machine values out of it.

use vstd::prelude::*;
use crate::offset::address_space;
use crate::types::{DecodeError, StgAddr, StgHalfInt, StgHalfWord, StgInt, StgWord};

verus! {

/// How the runtime that produced the static data was built.
#[derive(Clone, Copy, Debug, PartialEq, Eq, Structural)]
pub struct BuildConfig {
    /// Bits in a machine word.
    pub word_bits: u32,
    /// Do info tables carry a profiling header?
    pub profiling: bool,
    /// Do info tables lie directly in front of the entry code?
    pub tables_next_to_code: bool,
}

impl BuildConfig {
    /// The one build whose tables are decoded: 64-bit words, no profiling
    /// header, tables next to the code.
    pub open spec fn spec_is_supported(self) -> bool {
        self.word_bits == 64 && !self.profiling && self.tables_next_to_code
    }

    /// Is this the build whose tables are decoded?
    pub fn is_supported(&self) -> (r: bool)
        ensures
            r == self.spec_is_supported(),
    {
        self.word_bits == 64 && !self.profiling && self.tables_next_to_code
    }
}

/// The value that the unsigned number `value` below `modulus` stands for when
/// it is read in two's complement.
pub open spec fn as_signed(value: int, modulus: int) -> int {
    if 2 * value >= modulus {
        value - modulus
    } else {
        value
    }
}

/// A copy of the static data: the bytes that lie at `base` and after it.
/// It is never written to.
pub struct StaticData {
    base: StgAddr,
    bytes: Vec<u8>,
}

impl StaticData {
    #[verifier::type_invariant]
    spec fn lies_in_address_space(self) -> bool {
        self.base + self.bytes@.len() < address_space()
    }

    /// The address of the first byte.
    pub closed spec fn base(self) -> StgAddr {
        self.base
    }

    /// The bytes, in ascending order of their addresses.
    pub closed spec fn bytes(self) -> Seq<u8> {
        self.bytes@
    }

    /// The first address after the region.
    pub open spec fn end(self) -> int {
        self.base() + self.bytes().len()
    }

    /// Do the `len` bytes at `addr` lie within the region, and is the first
    /// address after the region an address too?
    pub open spec fn holds(self, addr: int, len: int) -> bool {
        self.base() <= addr && 0 <= len && addr + len <= self.end() < address_space()
    }

    /// The byte at `addr`.
    pub open spec fn byte_at(self, addr: int) -> u8 {
        self.bytes()[addr - self.base()]
    }

    /// The half word whose four bytes lie at `addr`, least significant first.
    pub open spec fn half_word_at(self, addr: int) -> int {
        self.byte_at(addr) + 0x100 * self.byte_at(addr + 1) + 0x1_0000 * self.byte_at(addr + 2)
            + 0x100_0000 * self.byte_at(addr + 3)
    }

    /// The word whose eight bytes lie at `addr`, least significant first.
    pub open spec fn word_at(self, addr: int) -> int {
        self.half_word_at(addr) + 0x1_0000_0000 * self.half_word_at(addr + 4)
    }

    /// The half word at `addr`, read as a signed number.
    pub open spec fn half_int_at(self, addr: int) -> int {
        as_signed(self.half_word_at(addr), 0x1_0000_0000)
    }

    /// The word at `addr`, read as a signed number.
    pub open spec fn int_at(self, addr: int) -> int {
        as_signed(self.word_at(addr), 0x1_0000_0000_0000_0000)
    }

    /// The text at `addr`: the bytes from `addr` up to the first zero byte,
    /// which must lie within the region.
    pub open spec fn text_at(self, addr: int) -> Option<Seq<u8>> {
        if exists|n: int| self.text_ends(addr, n) {
            let n = choose|n: int| self.text_ends(addr, n);
            Some(self.bytes().subrange(addr - self.base(), addr - self.base() + n))
        } else {
            None
        }
    }

    /// Is the byte `n` places after `addr` the first zero byte from `addr` on?
    pub open spec fn text_ends(self, addr: int, n: int) -> bool {
        &&& 0 <= n
        &&& self.holds(addr, n + 1)
        &&& self.byte_at(addr + n) == 0
        &&& forall|a: int| addr <= a < addr + n ==> #[trigger] self.byte_at(a) != 0
    }

    /// Takes `bytes` as the static data that lies at `base`.
    ///
    /// Fails with `UnsupportedConfiguration` for any build but the supported
    /// one, and else with `OutOfBounds` unless the first address after the
    /// bytes is an address too.
    pub fn new(config: &BuildConfig, base: StgAddr, bytes: Vec<u8>) -> (r: Result<
        StaticData,
        DecodeError,
    >)
        ensures
            match r {
                Ok(data) => {
                    &&& config.spec_is_supported()
                    &&& base + bytes@.len() < address_space()
                    &&& data.base() == base
                    &&& data.bytes() == bytes@
                },
                Err(e) => if !config.spec_is_supported() {
                    e == DecodeError::UnsupportedConfiguration
                } else {
                    e == DecodeError::OutOfBounds && base + bytes@.len() >= address_space()
                },
            },
    {
        if !config.is_supported() {
            return Err(DecodeError::UnsupportedConfiguration);
        }
        let len: u64 = bytes.len() as u64;
        if base > u64::MAX - len {
            return Err(DecodeError::OutOfBounds);
        }
        Ok(StaticData { base, bytes })
    }

    /// The address of the first byte.
    pub fn base_address(&self) -> (base: StgAddr)
        ensures
            base == self.base(),
    {
        self.base
    }

    /// The number of bytes.
    pub fn len(&self) -> (len: usize)
        ensures
            len == self.bytes().len(),
    {
        self.bytes.len()
    }

    /// Do the `len` bytes at `addr` lie within the region?
    pub fn contains(&self, addr: StgAddr, len: u64) -> (r: bool)
        ensures
            r == self.holds(addr as int, len as int),
    {
        self.index_of(addr, len).is_some()
    }

    /// Where in `bytes` the `len` bytes at `addr` begin, if they lie within
    /// the region.
    fn index_of(&self, addr: StgAddr, len: u64) -> (r: Option<usize>)
        ensures
            r == if self.holds(addr as int, len as int) {
                Some((addr - self.base) as usize)
            } else {
                None
            },
            self.holds(addr as int, len as int) ==> addr - self.base + len <= self.bytes@.len()
                <= usize::MAX,
    {
        proof {
            use_type_invariant(self);
        }
        if addr < self.base {
            return None;
        }
        let offset: u64 = addr - self.base;
        let size: usize = self.bytes.len();
        if offset <= size as u64 && len <= size as u64 - offset {
            Some(offset as usize)
        } else {
            None
        }
    }

    /// The byte at `addr`, if it lies within the region.
    pub fn read_byte(&self, addr: StgAddr) -> (r: Option<u8>)
        ensures
            r == if self.holds(addr as int, 1) {
                Some(self.byte_at(addr as int))
            } else {
                None
            },
    {
        match self.index_of(addr, 1) {
            Some(at) => Some(self.bytes[at]),
            None => None,
        }
    }

    /// The half word at `addr`, if it lies within the region.
    pub fn read_half_word(&self, addr: StgAddr) -> (r: Option<StgHalfWord>)
        ensures
            r == if self.holds(addr as int, 4) {
                Some(self.half_word_at(addr as int) as StgHalfWord)
            } else {
                None
            },
            self.holds(addr as int, 4) ==> 0 <= self.half_word_at(addr as int) <= StgHalfWord::MAX,
    {
        match self.index_of(addr, 4) {
            Some(at) => {
                let b0: u32 = self.bytes[at] as u32;
                let b1: u32 = self.bytes[at + 1] as u32;
                let b2: u32 = self.bytes[at + 2] as u32;
                let b3: u32 = self.bytes[at + 3] as u32;
                Some(b0 + 0x100 * b1 + 0x1_0000 * b2 + 0x100_0000 * b3)
            },
            None => None,
        }
    }

    /// The word at `addr`, if it lies within the region.
    pub fn read_word(&self, addr: StgAddr) -> (r: Option<StgWord>)
        ensures
            r == if self.holds(addr as int, 8) {
                Some(self.word_at(addr as int) as StgWord)
            } else {
                None
            },
            self.holds(addr as int, 8) ==> 0 <= self.word_at(addr as int) <= StgWord::MAX,
    {
        if !self.contains(addr, 8) {
            return None;
        }
        let low: u64 = match self.read_half_word(addr) {
            Some(half) => half as u64,
            None => 0,
        };
        let high: u64 = match self.read_half_word(addr + 4) {
            Some(half) => half as u64,
            None => 0,
        };
        Some(low + 0x1_0000_0000 * high)
    }

    /// The half word at `addr` as a signed number, if it lies within the
    /// region.
    pub fn read_half_int(&self, addr: StgAddr) -> (r: Option<StgHalfInt>)
        ensures
            r == if self.holds(addr as int, 4) {
                Some(self.half_int_at(addr as int) as StgHalfInt)
            } else {
                None
            },
            self.holds(addr as int, 4) ==> StgHalfInt::MIN <= self.half_int_at(addr as int)
                <= StgHalfInt::MAX,
    {
        match self.read_half_word(addr) {
            Some(half) => Some(half_word_as_signed(half)),
            None => None,
        }
    }

    /// The word at `addr` as a signed number, if it lies within the region.
    pub fn read_int(&self, addr: StgAddr) -> (r: Option<StgInt>)
        ensures
            r == if self.holds(addr as int, 8) {
                Some(self.int_at(addr as int) as StgInt)
            } else {
                None
            },
            self.holds(addr as int, 8) ==> StgInt::MIN <= self.int_at(addr as int) <= StgInt::MAX,
    {
        match self.read_word(addr) {
            Some(word) => Some(word_as_signed(word)),
            None => None,
        }
    }

    /// The text at `addr`: the bytes up to the first zero byte. There is
    /// none where `addr` lies outside the region or no zero byte follows
    /// within it.
    pub fn read_text(&self, addr: StgAddr) -> (r: Option<Vec<u8>>)
        ensures
            match r {
                Some(text) => self.text_ends(addr as int, text@.len() as int) && text@
                    == self.bytes().subrange(addr - self.base(), addr - self.base() + text@.len()),
                None => forall|n: int| !self.text_ends(addr as int, n),
            },
            r matches Some(text) ==> self.text_at(addr as int) == Some(text@),
            r is None ==> self.text_at(addr as int) is None,
    {
        let start: usize = match self.index_of(addr, 1) {
            Some(start) => start,
            None => {
                return None;
            },
        };
        let mut text: Vec<u8> = Vec::new();
        let mut at: usize = start;
        while at < self.bytes.len()
            invariant
                start <= at <= self.bytes@.len(),
                start == addr - self.base(),
                self.base() <= addr,
                self.end() < address_space(),
                text@ == self.bytes().subrange(start as int, at as int),
                forall|a: int| addr <= a < addr + (at - start) ==> #[trigger] self.byte_at(a) != 0,
            decreases self.bytes@.len() - at,
        {
            let byte: u8 = self.bytes[at];
            if byte == 0 {
                proof {
                    self.lemma_text_ends_once(addr as int, at - start);
                }
                return Some(text);
            }
            text.push(byte);
            at = at + 1;
            assert(text@ == self.bytes().subrange(start as int, at as int));
        }
        assert forall|n: int| !self.text_ends(addr as int, n) by {
            if self.text_ends(addr as int, n) {
                assert(self.byte_at(addr + n) == 0);
            }
        }
        None
    }

    /// The text at an address ends in one place only.
    pub proof fn lemma_text_ends_once(self, addr: int, n: int)
        requires
            self.text_ends(addr, n),
        ensures
            forall|m: int| self.text_ends(addr, m) ==> m == n,
            self.text_at(addr) == Some(
                self.bytes().subrange(addr - self.base(), addr - self.base() + n),
            ),
    {
        assert forall|m: int| self.text_ends(addr, m) implies m == n by {
            if m < n {
                assert(self.byte_at(addr + m) != 0);
            } else if n < m {
                assert(self.byte_at(addr + n) != 0);
            }
        }
    }
}

/// The half word `half` read as a signed number.
pub fn half_word_as_signed(half: StgHalfWord) -> (r: StgHalfInt)
    ensures
        r == as_signed(half as int, 0x1_0000_0000),
{
    if half < 0x8000_0000 {
        half as i32
    } else {
        ((half - 0x8000_0000) as i32) + i32::MIN
    }
}

/// The word `word` read as a signed number.
pub fn word_as_signed(word: StgWord) -> (r: StgInt)
    ensures
        r == as_signed(word as int, 0x1_0000_0000_0000_0000),
{
    if word < 0x8000_0000_0000_0000 {
        word as i64
    } else {
        ((word - 0x8000_0000_0000_0000) as i64) + i64::MIN
    }
}

} // verus!
