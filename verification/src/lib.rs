//! Error management for parser combinators: error kinds, error
//! accumulation and human readable traces.

pub mod error;
pub mod internal;
pub mod trace;
