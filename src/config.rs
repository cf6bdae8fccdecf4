use vstd::arithmetic::power2::{lemma2_to64, pow2};
use vstd::prelude::*;

verus! {

/// Size of a large page: 2 MiB.
pub const LARGE_PAGE_SIZE: usize = 2097152;

/// Size of a huge page: 1 GiB.
pub const HUGE_PAGE_SIZE: usize = 1073741824;

/// `n` is a power of two.
pub open spec fn is_power_of_two(n: nat) -> bool {
    exists|k: nat| pow2(k) == n
}

/// The page sizes handed to the allocator core.
#[derive(Clone, Copy, Debug, Default)]
pub struct LLConfiguration;

impl LLConfiguration {
    /// Size of a large page.
    pub fn large_page_size(&self) -> (r: usize)
        ensures
            r == LARGE_PAGE_SIZE,
    {
        LARGE_PAGE_SIZE
    }

    /// Size of a huge page.
    pub fn huge_page_size(&self) -> (r: usize)
        ensures
            r == HUGE_PAGE_SIZE,
    {
        HUGE_PAGE_SIZE
    }
}

/// Both page sizes are powers of two, and a huge page is at least as large
/// as a large page (indeed a whole number of them).
pub proof fn lemma_page_sizes()
    ensures
        is_power_of_two(LARGE_PAGE_SIZE as nat),
        is_power_of_two(HUGE_PAGE_SIZE as nat),
        HUGE_PAGE_SIZE >= LARGE_PAGE_SIZE,
        HUGE_PAGE_SIZE % LARGE_PAGE_SIZE == 0,
{
    lemma2_to64();
    assert(pow2(21) == LARGE_PAGE_SIZE as nat);
    assert(pow2(30) == HUGE_PAGE_SIZE as nat);
}

} // verus!
