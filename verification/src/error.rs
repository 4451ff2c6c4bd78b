//! The error kinds of the runtime.

use vstd::prelude::*;

verus! {

/// What can go wrong while a program is evaluated.
#[derive(Debug, Clone, Copy, PartialEq, Eq, Structural)]
pub enum Error {
    /// Dispatch found neither a callable member nor a method of that name.
    MethodNotFound,
    /// A name is bound neither in a scope nor globally, or an object id is
    /// not on the heap.
    ObjectNotFound,
    /// A member is missing on the object and on all of its ancestors.
    MemberNotFound,
    /// A built-in method received too few arguments or one of the wrong type.
    ArgumentError,
    /// A value has the wrong type for an operation, or the receiver of a call
    /// is no object.
    Runtime,
}

} // verus!
