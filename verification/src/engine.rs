//! The one type of the template engine that the library holds.
//!
//! The library never calls the engine. Fetching and rendering a template may
//! read from disk and may fault, so both are left to the program; the
//! library decides what is asked of the engine and what becomes of its
//! outcome, and carries the engine's error through unread.

use vstd::prelude::*;

verus! {

/// `minijinja::Error`: why a template could not be fetched or rendered.
/// Taken on trust as an opaque type; nothing is claimed about its contents.
#[verifier::external_type_specification]
#[verifier::external_body]
pub struct ExError(minijinja::Error);

} // verus!
