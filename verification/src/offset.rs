//! The offset resolver: every relative reference of an info table is stored
//! as a signed byte offset from the first address *after* the structure that
//! holds it.

use vstd::prelude::*;
use crate::types::{StgAddr, StgInt, StgWord};

verus! {

/// Number of addresses of the scanned address space.
pub open spec fn address_space() -> int {
    0x1_0000_0000_0000_0000
}

/// Is `a` an address of the scanned address space?
pub open spec fn is_address(a: int) -> bool {
    0 <= a < address_space()
}

/// The address that `a` denotes once it is folded back into the address
/// space, as machine address arithmetic does.
pub open spec fn wrap_address(a: int) -> int {
    a % address_space()
}

/// Where a reference with the signed byte offset `offset` points when the
/// structure that holds it lies at `addr` and is `size` bytes long.
pub open spec fn spec_offset_from_end(addr: int, size: int, offset: int) -> int {
    wrap_address(addr + size + offset)
}

/// Resolves a reference that is stored as a signed byte offset relative to
/// the end of the structure of `size` bytes at `addr`.
///
/// No bounds are checked: the result is the sum folded into the address space.
pub fn offset_from_end(addr: StgAddr, size: StgWord, offset: StgInt) -> (target: StgAddr)
    ensures
        target == spec_offset_from_end(addr as int, size as int, offset as int),
        is_address(addr + size + offset) ==> target == addr + size + offset,
{
    let end: u64 = addr.wrapping_add(size);
    end.wrapping_add_signed(offset)
}

} // verus!
