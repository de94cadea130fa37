//! The foreign calling convention: every call writes its results through
//! output parameters, often ending with a success flag that must be read
//! before any other output is trusted.
use vstd::prelude::*;

verus! {

/// What a foreign call wrote: its output, and the success flag it set.
pub struct Reply<T> {
    pub output: T,
    pub succeeded: bool,
}

/// The output, only when the call reported success.
pub fn checked<T>(reply: Reply<T>) -> (r: Option<T>)
    ensures
        r == (if reply.succeeded { Some(reply.output) } else { None::<T> }),
{
    if reply.succeeded {
        Some(reply.output)
    } else {
        None
    }
}

} // verus!
