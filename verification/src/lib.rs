//! Core logic of a Go toolchain version manager: archive naming and URL
//! construction, adaptive chunked download planning, integrity verification,
//! archive-format dispatch, the idempotent install state machine, and
//! active-version switching.

pub mod active;
pub mod archive;
pub mod consts;
pub mod digest;
pub mod error;
pub mod home;
pub mod pipeline;
pub mod strutil;
pub mod transfer;
pub mod version;
