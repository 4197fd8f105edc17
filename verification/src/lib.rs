//! A binding layer between a foreign caller and an ordered key-value storage
//! engine: the byte-string key that the engine is keyed by, the translation
//! of the caller's loosely stated options into the engine's strict ones, the
//! handle to an open database, and the forward-only cursor over its entries.
//!
//! The engine is not part of this crate. Whoever uses the handle and the
//! cursor says how the engine is opened and asked; what is asked of it, in
//! which state, and what becomes of its answers is decided here.

use vstd::prelude::*;

pub mod cursor;
pub mod database;
pub mod error;
pub mod key;
pub mod options;

verus! {

/// The version of this build of the binding.
pub const VERSION: &'static str = "0.1.0";

} // verus!
