//! Asset resolution: paths the resolver hands to host callbacks.
use vstd::prelude::*;
use crate::ownership::{Discipline, ForeignHandle};

verus! {

/// A borrowed view of a resolved path the foreign resolver passes in.
pub struct ResolvedPath {
    pub ptr: usize,
}

impl ResolvedPath {
    /// The view of the resolved path at this foreign address.
    pub fn from_raw(ptr: usize) -> (r: ResolvedPath)
        ensures
            r.ptr == ptr,
    {
        ResolvedPath { ptr }
    }
}

impl ForeignHandle for ResolvedPath {
    open spec fn spec_address(&self) -> usize {
        self.ptr
    }

    open spec fn spec_discipline() -> Option<Discipline> {
        None
    }

    fn address(&self) -> (r: usize) {
        self.ptr
    }

    fn discipline() -> (r: Option<Discipline>) {
        None
    }
}

} // verus!
