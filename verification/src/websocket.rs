//! How a websocket is opened when only its own settings matter.

use vstd::prelude::*;

verus! {

/// Opens a websocket via TCP.
pub struct DefaultBuilder {}

impl DefaultBuilder {
    pub fn new() -> (builder: Self)
        ensures
            builder == (DefaultBuilder {  }),
    {
        DefaultBuilder {  }
    }
}

impl Clone for DefaultBuilder {
    fn clone(&self) -> (builder: Self)
        ensures
            builder == *self,
    {
        DefaultBuilder {  }
    }
}

} // verus!
