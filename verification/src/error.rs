//! Errors of operations on external objects and of linking.
use crate::context::HandleError;
use crate::types::ExternType;
use vstd::prelude::*;

verus! {

/// What can go wrong when a table or a global is worked on.
#[derive(Clone, Copy, Debug, PartialEq, Eq, Structural, Hash)]
pub enum RuntimeError {
    /// An object or value belongs to another context than the one it was
    /// used with.
    CrossContextUse,
    /// A handle points past what the arena holds.
    InvalidHandle,
    /// A value that had to be a reference to a function is none.
    NotAFunction,
    /// The limits of a table type allow no table.
    TableLimits,
    /// A table has no slot of the given index.
    IndexOutOfBounds,
    /// A global that is constant was to be written.
    ImmutableGlobal,
    /// A global was to be written with a value of another type than its own.
    GlobalTypeMismatch,
    /// A global cannot hold values of this type: it holds numbers only.
    UnsupportedGlobalType,
}

impl RuntimeError {
    /// The runtime error that stands for a handle error.
    pub open spec fn of_handle(e: HandleError) -> RuntimeError {
        match e {
            HandleError::CrossContextUse => RuntimeError::CrossContextUse,
            HandleError::InvalidHandle => RuntimeError::InvalidHandle,
        }
    }

    /// The runtime error that stands for a handle error.
    pub fn from_handle(e: HandleError) -> (r: RuntimeError)
        ensures
            r == Self::of_handle(e),
    {
        match e {
            HandleError::CrossContextUse => RuntimeError::CrossContextUse,
            HandleError::InvalidHandle => RuntimeError::InvalidHandle,
        }
    }
}

/// Why the imports of a module could not be satisfied.
#[derive(Debug, PartialEq, Eq, Hash)]
pub enum LinkError {
    /// The module declares an import that nothing was defined for.
    UnknownImport {
        /// The namespace of the import.
        namespace: String,
        /// The name of the import.
        name: String,
        /// The type the module declares the import with.
        expected_type: ExternType,
    },
}

/// Why a module could not be instantiated.
#[derive(Debug, PartialEq, Eq, Hash)]
pub enum InstantiationError {
    /// The imports of the module could not be satisfied.
    Link(LinkError),
}

} // verus!
