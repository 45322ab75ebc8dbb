//! A safety layer in front of an embedded managed-language virtual machine's
//! native-extension interface.
//!
//! The raw interface hands out opaque object references ("handles") whose
//! validity is bounded by a VM-entered execution scope, reports errors as
//! ordinary handles that must be probed explicitly, and calls back into
//! native code by name.  This crate models that interface over plain data
//! and proves the temporal rules the raw interface leaves to discipline:
//! every raw value passes one validation gate, handles are stamped with the
//! scope that produced them and rejected afterwards, isolates move through
//! their lifecycle at most once, buffer views are acquired and released as a
//! strict bracket, and the native-function registry is append-only with
//! first-match lookup.

pub mod args;
pub mod engine;
pub mod error;
pub mod handle;
pub mod laws;
pub mod list;
pub mod persistent;
pub mod registry;
pub mod registry_order;
pub mod runtime;
pub mod scope;
pub mod typed_data;
pub mod value;
