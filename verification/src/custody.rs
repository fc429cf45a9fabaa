use crate::errors::CustodyError;
use crate::identity::Identity;
use vstd::prelude::*;

verus! {

/// A request to the asset-authority service. The transitions decide which
/// request is due; whoever drives them performs it and reports how it ended.
#[derive(Clone, Copy, Debug, PartialEq, Eq)]
pub enum CustodyCall {
    /// Put a frozen delegation on the asset, which only
    /// `controlling_authority` may lift again.
    AddFreezeDelegation {
        asset: Identity,
        collection: Identity,
        payer: Identity,
        controlling_authority: Identity,
    },
    /// Set the frozen flag of the asset's delegation, in the name of `authority`.
    SetFreezeDelegation { asset: Identity, collection: Identity, authority: Identity, frozen: bool },
    /// Take the delegation off the asset, in the name of `authority`.
    RemoveFreezeDelegation { asset: Identity, collection: Identity, authority: Identity },
}

/// How a custody request ended.
pub type CustodyOutcome = Result<(), CustodyError>;

/// What a transition asks of its driver next.
#[derive(Clone, Copy, Debug, PartialEq, Eq)]
pub enum Step {
    /// Perform this request, then come back with its outcome added to those
    /// reported so far.
    Call(CustodyCall),
    /// Nothing is left to do: the transition is committed.
    Done,
}

} // verus!
