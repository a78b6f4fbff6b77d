//! Values fixed once at startup that the operations depend on.

use vstd::prelude::*;

verus! {

/// The public base URL of the application, used to build the confirmation
/// links that go out by email.
pub struct ApplicationBaseUrl(pub String);

} // verus!
