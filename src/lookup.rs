//! The reply of the agreement lookup handler.
//!
//! For each request the handler builds a Market client, resolves its provider
//! interface and fetches the agreement. Whatever step fails, the caller gets
//! one domain error that wraps the underlying cause and names the step.
use vstd::prelude::*;

verus! {

/// The error type of the Market web client.
#[verifier::external_type_specification]
#[verifier::external_body]
pub struct ExClientError(ya_client::Error);

/// The step of an agreement lookup that failed.
#[derive(Clone, Copy, Debug, PartialEq, Eq, Structural)]
pub enum LookupStage {
    /// Building the web client.
    ClientBuild,
    /// Resolving the Market provider interface on the client.
    Interface,
    /// The `get_agreement` call itself.
    Fetch,
}

/// The domain error that a lookup caller observes in place of a reply.
#[derive(Debug)]
pub struct MarketError {
    pub stage: LookupStage,
    pub cause: ya_client::Error,
}

/// How an agreement lookup went, step by step: the first step that failed,
/// with its error, or the agreement that was fetched.
pub enum LookupOutcome<A> {
    ClientFailed(ya_client::Error),
    InterfaceFailed(ya_client::Error),
    FetchFailed(ya_client::Error),
    Fetched(A),
}

/// The reply owed to the bus caller for a lookup that went as `outcome` says.
pub open spec fn reply_of<A>(outcome: LookupOutcome<A>) -> Result<A, MarketError> {
    match outcome {
        LookupOutcome::ClientFailed(e) => Err(MarketError { stage: LookupStage::ClientBuild, cause: e }),
        LookupOutcome::InterfaceFailed(e) => Err(MarketError { stage: LookupStage::Interface, cause: e }),
        LookupOutcome::FetchFailed(e) => Err(MarketError { stage: LookupStage::Fetch, cause: e }),
        LookupOutcome::Fetched(a) => Ok(a),
    }
}

/// The reply to a lookup request: the fetched agreement itself, unchanged, or
/// a `MarketError` that wraps the failing step's error.
pub fn agreement_reply<A>(outcome: LookupOutcome<A>) -> (r: Result<A, MarketError>)
    ensures
        r == reply_of(outcome),
        outcome is Fetched <==> r is Ok,
        outcome is Fetched ==> r == Ok::<A, MarketError>(outcome->Fetched_0),
{
    match outcome {
        LookupOutcome::ClientFailed(e) => Err(MarketError { stage: LookupStage::ClientBuild, cause: e }),
        LookupOutcome::InterfaceFailed(e) => Err(MarketError { stage: LookupStage::Interface, cause: e }),
        LookupOutcome::FetchFailed(e) => Err(MarketError { stage: LookupStage::Fetch, cause: e }),
        LookupOutcome::Fetched(a) => Ok(a),
    }
}

} // verus!
