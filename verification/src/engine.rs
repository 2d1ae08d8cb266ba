//! What this layer asks of the native engine, and what the engine reports of
//! a handshake step.

use crate::algorithms::Algorithm;
use crate::certificate::Certificate;
use crate::error::{Error, NativeError};
use crate::protocols::NativeProtocol;
use vstd::prelude::*;

verus! {

/// The direction of the connections that a credential serves.
#[derive(Clone, Copy, Debug, PartialEq, Eq, Structural)]
pub enum Direction {
    /// Server side: inbound connections.
    Inbound,
    /// Client side: outbound connections.
    Outbound,
}

/// A request to the engine for a fresh credential.
#[derive(Clone, Debug, PartialEq, Eq)]
pub struct CredentialRequest {
    /// The direction the credential is for.
    pub direction: Direction,
    /// The protocol versions to enable.
    pub protocols: Vec<NativeProtocol>,
    /// The certificate with which to prove one's own identity, if any.
    pub certificate: Option<Certificate>,
    /// The algorithms to restrict the credential to; `None` leaves the
    /// platform's defaults in place.
    pub algorithms: Option<Vec<Algorithm>>,
}

/// A request for a fresh credential as contracts see it.
pub struct Request {
    pub direction: Direction,
    pub protocols: Seq<NativeProtocol>,
    pub certificate: Option<Seq<u8>>,
    pub algorithms: Option<Seq<Algorithm>>,
}

impl View for CredentialRequest {
    type V = Request;

    open spec fn view(&self) -> Request {
        Request {
            direction: self.direction,
            protocols: self.protocols@,
            certificate: match self.certificate {
                Some(certificate) => Some(certificate@),
                None => None,
            },
            algorithms: match self.algorithms {
                Some(algorithms) => Some(algorithms@),
                None => None,
            },
        }
    }
}

/// What one step of the native handshake reported.
#[derive(Clone, Debug, PartialEq, Eq)]
pub enum StepOutcome {
    /// The handshake is complete and the channel is ready.
    Complete,
    /// The transport had too little data or room to make progress. This is no
    /// failure: the handshake can be resumed.
    WouldBlock,
    /// The trust policy rejected the chain that the peer presented; this is
    /// its verdict. The handshake failed for good.
    Rejected(Error),
    /// The engine failed the handshake for good.
    Failure(NativeError),
}

impl StepOutcome {
    /// The outcome of a step that the engine failed with `failure`, where
    /// `verdict` is what the trust policy had answered if the engine asked
    /// it: a rejection by the policy surfaces as it was given, and the
    /// engine's report stands for every other failure.
    pub open spec fn of_failed(verdict: Option<Result<(), Error>>, failure: NativeError) -> StepOutcome {
        match verdict {
            Some(Err(rejection)) => StepOutcome::Rejected(rejection),
            _ => StepOutcome::Failure(failure),
        }
    }

    /// Names the outcome of a step that the engine failed with `failure`;
    /// `verdict` is what the trust policy had answered, if the engine asked
    /// it.
    pub fn of_failure(verdict: Option<Result<(), Error>>, failure: NativeError) -> (outcome:
        StepOutcome)
        ensures
            outcome == StepOutcome::of_failed(verdict, failure),
    {
        match verdict {
            Some(Err(rejection)) => StepOutcome::Rejected(rejection),
            _ => StepOutcome::Failure(failure),
        }
    }
}

} // verus!
