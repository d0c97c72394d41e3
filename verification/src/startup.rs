//! Values fixed when the application starts.

use vstd::prelude::*;

verus! {

/// The address under which the application is reached from outside.
pub struct ApplicationBaseUrl(pub String);

} // verus!
