//! Linux process capability sets over the version-3 `capget`/`capset` ABI.
//!
//! The library holds the kernel's wire structures and every decision made
//! around the two system calls: which words belong to which class, how a set
//! of capabilities is packed into them, and when a store is needed at all.
//! Issuing the system calls themselves is left to the caller.
pub mod abi;
pub mod base;
pub mod capability;
pub mod caps_set;
pub mod words;
