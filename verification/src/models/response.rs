//! The body of a response that reports success.

use vstd::prelude::*;

verus! {

/// A message for the caller.
#[derive(Clone, Debug)]
pub struct MessageResponse {
    pub message: String,
}

impl View for MessageResponse {
    type V = Seq<char>;

    open spec fn view(&self) -> Seq<char> {
        self.message@
    }
}

} // verus!
