//! Platform layer beneath a general-purpose memory allocator: page-size
//! configuration, huge-page region bookkeeping, NUMA node clustering and a
//! lazily created thread-local key per slot.
//!
//! The operating-system calls themselves (mapping, node and distance
//! queries, thread-local keys) are made by the caller; this crate decides
//! what to ask for and what the answers mean.

pub mod config;
pub mod numa;
pub mod region;
pub mod slot;

pub use config::{LLConfiguration, HUGE_PAGE_SIZE, LARGE_PAGE_SIZE};
pub use numa::{select_node, NumaNodeIndex, CLUSTER_DISTANCE};
pub use region::{
    LLPlatform, MapOutcome, MapRequest, MemoryRegion, RequestError, MAP_ANONYMOUS, MAP_FAILED,
    MAP_HUGETLB, MAP_HUGE_1GB, MAP_HUGE_SHIFT, PROT_READ, PROT_WRITE,
};
pub use slot::{
    KeyAction, KeyEvent, KeyPhase, KeyState, LLThreadLocal, RegisterOp, MAX_KEY, UNDER_INITIALIZATION,
    UNINITIALIZED,
};
