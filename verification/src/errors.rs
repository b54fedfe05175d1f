use vstd::prelude::*;

verus! {

/// The failure kinds that the core reports to its callers.
///
/// `InvalidArgument` covers malformed structural input, such as a zero page
/// size or an arithmetic result that cannot be represented.
/// `PreconditionFailed` covers a quantity decrement that would go below zero
/// and a non-negative delta inside a sell batch.  `StoreUnavailable` stands
/// for connectivity or timeout failures of the execution collaborator, and
/// `NotFound` for an entity that is absent where presence is required.
#[derive(Clone, Copy, Debug, PartialEq, Eq, Structural)]
pub enum CoreError {
    InvalidArgument,
    PreconditionFailed,
    StoreUnavailable,
    NotFound,
}

} // verus!
