use crate::config::HUGE_PAGE_SIZE;
use vstd::prelude::*;

verus! {

/// Pages may be read.
pub const PROT_READ: i32 = 1;

/// Pages may be written.
pub const PROT_WRITE: i32 = 2;

/// The mapping has no backing file.
pub const MAP_ANONYMOUS: i32 = 32;

/// The mapping is made of huge pages.
pub const MAP_HUGETLB: i32 = 262144;

/// Position of the page-size selector within the mapping flags.
pub const MAP_HUGE_SHIFT: i32 = 26;

/// Page-size selector for 1 GiB pages: `30 << MAP_HUGE_SHIFT`.
pub const MAP_HUGE_1GB: i32 = 2013265920;

/// The address returned by a mapping call that failed.
pub const MAP_FAILED: usize = usize::MAX;

/// `size` and `align` describe an allocation this layer serves: a positive
/// whole number of huge pages, aligned at most to a huge page.
pub open spec fn is_valid_request(size: nat, align: nat) -> bool {
    size > 0 && size % (HUGE_PAGE_SIZE as nat) == 0 && align <= HUGE_PAGE_SIZE
}

/// `address` and `length` can describe a region: both on huge-page
/// boundaries, and the length positive.
pub open spec fn region_fits(address: nat, length: nat) -> bool {
    address % (HUGE_PAGE_SIZE as nat) == 0 && length > 0 && length % (HUGE_PAGE_SIZE as nat) == 0
}

/// Why a request is refused.
#[derive(Clone, Copy, Debug, PartialEq, Eq, Structural)]
pub enum RequestError {
    /// The size is zero or not a whole number of huge pages.
    Size,
    /// The alignment exceeds a huge page.
    Alignment,
}

/// The arguments of the mapping call that backs an allocation.
#[derive(Clone, Copy, Debug, PartialEq, Eq, Structural)]
pub struct MapRequest {
    pub length: usize,
    pub prot: i32,
    pub flags: i32,
    pub fd: i32,
    pub offset: isize,
}

/// A mapped region: its address and its length, both on huge-page
/// boundaries. It belongs to whoever holds it until it is released.
#[derive(Debug, PartialEq, Eq, Structural)]
pub struct MemoryRegion {
    address: usize,
    length: usize,
}

impl MemoryRegion {
    /// Address and length.
    pub closed spec fn view(&self) -> (nat, nat) {
        (self.address as nat, self.length as nat)
    }

    #[verifier::type_invariant]
    closed spec fn inv(&self) -> bool {
        region_fits(self.address as nat, self.length as nat)
    }

    /// Rebuilds the region at `address` of `length` bytes, when those can
    /// describe one.
    pub fn from_parts(address: usize, length: usize) -> (r: Option<MemoryRegion>)
        ensures
            r.is_some() <==> region_fits(address as nat, length as nat),
            r matches Some(g) ==> g@ == (address as nat, length as nat),
    {
        if address % HUGE_PAGE_SIZE == 0 && length > 0 && length % HUGE_PAGE_SIZE == 0 {
            Some(MemoryRegion { address, length })
        } else {
            None
        }
    }

    /// First address of the region.
    pub fn address(&self) -> (r: usize)
        ensures
            r == self@.0,
            r as nat % (HUGE_PAGE_SIZE as nat) == 0,
    {
        proof {
            use_type_invariant(self);
        }
        self.address
    }

    /// Length of the region in bytes.
    pub fn length(&self) -> (r: usize)
        ensures
            r == self@.1,
            r > 0,
            r as nat % (HUGE_PAGE_SIZE as nat) == 0,
    {
        proof {
            use_type_invariant(self);
        }
        self.length
    }

}

/// What became of a mapping call.
#[derive(Debug, PartialEq, Eq, Structural)]
pub enum MapOutcome {
    /// The region was mapped as asked.
    Mapped(MemoryRegion),
    /// The system refused the mapping, for instance for want of reserved
    /// huge pages: the allocation fails.
    Failed,
    /// The system returned an address off a huge-page boundary: a broken
    /// invariant that the caller cannot continue past.
    Misaligned(usize),
}

/// Acquires and releases memory regions made of 1 GiB pages.
#[derive(Clone, Copy, Debug, Default)]
pub struct LLPlatform;

impl LLPlatform {
    /// Creates an instance.
    pub fn new() -> (r: Self)
        ensures
            r == LLPlatform,
    {
        LLPlatform
    }

    /// Tells whether an allocation of `size` bytes aligned to `align` is one
    /// this layer serves, and if not, which condition it breaks.
    pub fn check_request(&self, size: usize, align: usize) -> (r: Result<(), RequestError>)
        ensures
            r is Ok <==> is_valid_request(size as nat, align as nat),
            r == Err::<(), _>(RequestError::Size) <==> (size == 0 || size % HUGE_PAGE_SIZE != 0),
            r == Err::<(), _>(RequestError::Alignment) <==> (size > 0 && size % HUGE_PAGE_SIZE
                == 0 && align > HUGE_PAGE_SIZE),
    {
        if size == 0 || size % HUGE_PAGE_SIZE != 0 {
            Err(RequestError::Size)
        } else if align > HUGE_PAGE_SIZE {
            Err(RequestError::Alignment)
        } else {
            Ok(())
        }
    }

    /// The mapping call that backs an allocation of `size` bytes: anonymous,
    /// readable and writable, made of 1 GiB pages, with no file behind it.
    pub fn map_request(&self, size: usize, align: usize) -> (r: MapRequest)
        requires
            is_valid_request(size as nat, align as nat),
        ensures
            r.length == size,
            r.prot == PROT_READ | PROT_WRITE,
            r.flags == MAP_ANONYMOUS | MAP_HUGETLB | MAP_HUGE_1GB,
            r.fd == -1,
            r.offset == 0,
    {
        MapRequest {
            length: size,
            prot: PROT_READ | PROT_WRITE,
            flags: MAP_ANONYMOUS | MAP_HUGETLB | MAP_HUGE_1GB,
            fd: -1,
            offset: 0,
        }
    }

    /// Reads the address that the mapping call for `size` bytes returned.
    pub fn accept_mapping(&self, size: usize, address: usize) -> (r: MapOutcome)
        requires
            size > 0,
            size % HUGE_PAGE_SIZE == 0,
        ensures
            r == MapOutcome::Failed <==> address == MAP_FAILED,
            r matches MapOutcome::Misaligned(a) ==> a == address,
            r is Misaligned <==> (address != MAP_FAILED && address % HUGE_PAGE_SIZE != 0),
            r is Mapped <==> (address != MAP_FAILED && address % HUGE_PAGE_SIZE == 0),
            r matches MapOutcome::Mapped(g) ==> g@ == (address as nat, size as nat),
    {
        if address == MAP_FAILED {
            MapOutcome::Failed
        } else if address % HUGE_PAGE_SIZE != 0 {
            MapOutcome::Misaligned(address)
        } else {
            MapOutcome::Mapped(MemoryRegion { address, length: size })
        }
    }

    /// Reads the status that the unmapping call returned: zero is success,
    /// anything else is handed back as the error.
    pub fn unmap_status(&self, code: i32) -> (r: Result<(), i32>)
        ensures
            r is Ok <==> code == 0,
            code != 0 ==> r == Err::<(), i32>(code),
    {
        if code == 0 {
            Ok(())
        } else {
            Err(code)
        }
    }
}

/// The region handed out for a valid request of `size` bytes at a mapped
/// `address` can be rebuilt from exactly that address and length for
/// release: `from_parts` on them never refuses it.
pub proof fn lemma_returned_region_releasable(size: nat, address: nat)
    requires
        is_valid_request(size, 0),
        address % (HUGE_PAGE_SIZE as nat) == 0,
    ensures
        region_fits(address, size),
{
}

} // verus!
