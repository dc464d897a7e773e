//! The decision layer of a safe binding to the libav* multimedia libraries.
//!
//! Every rule that the binding enforces before and after a native call lives
//! here as verified code over plain values: option dictionaries, packet and
//! frame shells, stream tables, decoder bookkeeping, filter graph topology and
//! the translation of native return codes into errors.

pub mod config;
pub mod decode;
pub mod error;
pub mod raw;
pub mod sys;
pub mod tags;
pub mod util;
pub mod version;
