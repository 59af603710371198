use vstd::prelude::*;

verus! {

/// Why an operation was refused. A refused operation changes nothing.
#[derive(Clone, Copy, Debug, PartialEq, Eq, Structural)]
pub enum ContractError {
    /// The mine or player referred to does not exist.
    NotFound,
    /// The caller is not the owner that the operation is reserved for.
    Unauthorized,
    /// A player is already registered under the address.
    AlreadyRegistered,
    /// Less than an hour has passed since the mine was last harvested.
    TooEarly,
    /// The mine already stands at the highest upgrade level.
    MaxLevelReached,
}

} // verus!
