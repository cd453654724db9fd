pub mod pin;
pub mod unlock;

use vstd::prelude::*;

verus! {

/// An authentication attempt finished: `true` when the PIN was accepted.
#[derive(Debug)]
pub struct AuthFinished(pub bool);

} // verus!
