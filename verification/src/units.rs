//! Page and byte counts of linear memories.
use vstd::prelude::*;
use vstd::std_specs::convert::FromSpecImpl;

verus! {

/// Size of one linear-memory page in bytes (64 KiB).
pub const WASM_PAGE_SIZE: u64 = 0x10000;

/// Largest number of pages a 32-bit linear memory can have.
pub const WASM_MAX_PAGES: u32 = 0x10000;

/// A number of linear-memory pages.
#[derive(Clone, Copy, Debug, PartialEq, Eq, Structural, Hash)]
pub struct Pages(pub u32);

/// A number of bytes.
#[derive(Clone, Copy, Debug, PartialEq, Eq, Structural, Hash)]
pub struct Bytes(pub u64);

impl Pages {
    /// The byte count of this many pages.
    pub open spec fn spec_bytes(self) -> nat {
        (self.0 as nat) * (WASM_PAGE_SIZE as nat)
    }

    /// The largest page count of a linear memory.
    pub fn max_value() -> (r: Pages)
        ensures
            r == Pages(WASM_MAX_PAGES),
    {
        Pages(WASM_MAX_PAGES)
    }

    /// Adds two page counts; `None` when the sum is more than a linear memory
    /// can have.
    pub fn checked_add(self, rhs: Pages) -> (r: Option<Pages>)
        ensures
            self.0 + rhs.0 <= WASM_MAX_PAGES ==> r == Some(Pages((self.0 + rhs.0) as u32)),
            self.0 + rhs.0 > WASM_MAX_PAGES ==> r is None,
    {
        let added: u64 = self.0 as u64 + rhs.0 as u64;
        if added <= WASM_MAX_PAGES as u64 {
            Some(Pages(added as u32))
        } else {
            None
        }
    }

    /// The byte count of this many pages.
    pub fn bytes(self) -> (r: Bytes)
        ensures
            r.0 == self.spec_bytes(),
    {
        assert(self.0 as u64 * WASM_PAGE_SIZE <= u64::MAX) by (nonlinear_arith)
            requires
                self.0 <= u32::MAX,
                WASM_PAGE_SIZE == 0x10000,
        ;
        Bytes(self.0 as u64 * WASM_PAGE_SIZE)
    }
}

impl From<u32> for Pages {
    fn from(other: u32) -> (r: Self) {
        Pages(other)
    }
}

impl FromSpecImpl<u32> for Pages {
    open spec fn obeys_from_spec() -> bool {
        true
    }

    open spec fn from_spec(other: u32) -> Self {
        Pages(other)
    }
}

impl From<Pages> for Bytes {
    fn from(pages: Pages) -> (r: Self) {
        pages.bytes()
    }
}

impl FromSpecImpl<Pages> for Bytes {
    open spec fn obeys_from_spec() -> bool {
        true
    }

    open spec fn from_spec(pages: Pages) -> Self {
        Bytes(pages.spec_bytes() as u64)
    }
}

impl Bytes {
    /// The number of whole pages in this many bytes; `None` when that is
    /// more than a page count can hold.
    pub fn pages(self) -> (r: Option<Pages>)
        ensures
            r == if self.0 / WASM_PAGE_SIZE <= u32::MAX {
                Some(Pages((self.0 / WASM_PAGE_SIZE) as u32))
            } else {
                None
            },
    {
        let pages: u64 = self.0 / WASM_PAGE_SIZE;
        if pages <= u32::MAX as u64 {
            Some(Pages(pages as u32))
        } else {
            None
        }
    }
}

} // verus!
