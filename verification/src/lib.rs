//! A bounds-safe envelope around flattened device tree blobs.
//!
//! The blob format itself is handled by a native layer that this crate never
//! calls. Whatever that layer reports (the size a header declares, a status
//! code, a freshly filled buffer) is handed in as a plain value, and the
//! functions here decide what may be done with the bytes.
pub mod binding;
pub mod error;
pub mod ffi;
