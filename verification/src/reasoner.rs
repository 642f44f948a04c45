//! The assistant as a whole.

use std::sync::Arc;
use vstd::prelude::*;

verus! {

/// The assistant, which shares a box of tools with whoever made it.
#[derive(Debug)]
pub struct Reasoner<T> {
    toolbox: Arc<T>,
}

impl<T> Reasoner<T> {
    /// The tools at hand.
    pub closed spec fn toolbox(&self) -> Arc<T> {
        self.toolbox
    }

    /// An assistant with these tools.
    pub fn new(toolbox: Arc<T>) -> (reasoner: Self)
        ensures
            reasoner.toolbox() == toolbox,
    {
        Reasoner { toolbox }
    }
}

} // verus!
