//! Client-side coordination primitives for the exmap extended-mmap facility:
//! the versioned page-state word, the page table built from it, the device
//! ABI, and the batched request/result interface.

pub mod cache;
pub mod device;
pub mod interface;
pub mod page_state;
pub mod sys;
