//! Placeholders for services that a caller must provide but that a use of the schema never
//! reaches.

use vstd::prelude::*;

verus! {

/// A witness resolver for checks that never look a witness up.
pub struct NoResolver;

} // verus!
