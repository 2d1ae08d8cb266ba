//! The server role: a bound identity, a fresh credential for every
//! connection, and the server handshake.

use crate::certificate::Identity;
use crate::engine::{CredentialRequest, Direction, Request, StepOutcome};
use crate::error::{Error, ErrorKind, NativeError};
use crate::handshake::{drive, state_of, stepped, HandshakeError, HandshakeState};
use crate::protocols::{convert_protocols, protocol_range, Protocol};
use crate::stream::{Role, TlsStream};
use vstd::prelude::*;

verus! {

/// The configuration from which an acceptor is built.
#[derive(Clone, Debug)]
pub struct TlsAcceptorBuilder {
    /// The identity with which the server proves who it is.
    pub identity: Identity,
    /// The lower bound on the protocol version.
    pub min_protocol: Option<Protocol>,
    /// The upper bound on the protocol version.
    pub max_protocol: Option<Protocol>,
}

/// The configuration of an acceptor as contracts see it.
pub struct ServerConfig {
    pub identity: Seq<u8>,
    pub min_protocol: Option<Protocol>,
    pub max_protocol: Option<Protocol>,
}

impl ServerConfig {
    /// The request for a fresh inbound credential: the protocol range of the
    /// bounds and the leaf certificate of the identity, with no chain behind
    /// it and no restriction on algorithms.
    pub open spec fn credential_request(self) -> Request {
        Request {
            direction: Direction::Inbound,
            protocols: protocol_range(self.min_protocol, self.max_protocol),
            certificate: Some(self.identity),
            algorithms: None,
        }
    }
}

impl TlsAcceptorBuilder {
    /// The configuration that the builder describes.
    pub open spec fn config(&self) -> ServerConfig {
        ServerConfig {
            identity: self.identity@,
            min_protocol: self.min_protocol,
            max_protocol: self.max_protocol,
        }
    }

    /// Starts a configuration for a server that proves who it is with
    /// `identity`. The protocol version is bounded below by TLS 1.0 and not
    /// bounded above.
    pub fn new(identity: Identity) -> (builder: TlsAcceptorBuilder)
        ensures
            builder.identity == identity,
            builder.min_protocol == Some(Protocol::Tlsv10),
            builder.max_protocol == None::<Protocol>,
    {
        TlsAcceptorBuilder { identity, min_protocol: Some(Protocol::Tlsv10), max_protocol: None }
    }

    /// Sets the lower bound on the protocol version; `None` removes it.
    pub fn min_protocol_version(&mut self, protocol: Option<Protocol>)
        ensures
            final(self).min_protocol == protocol,
            final(self).max_protocol == old(self).max_protocol,
            final(self).identity == old(self).identity,
    {
        self.min_protocol = protocol;
    }

    /// Sets the upper bound on the protocol version; `None` removes it.
    pub fn max_protocol_version(&mut self, protocol: Option<Protocol>)
        ensures
            final(self).max_protocol == protocol,
            final(self).min_protocol == old(self).min_protocol,
            final(self).identity == old(self).identity,
    {
        self.max_protocol = protocol;
    }

    /// Builds the acceptor.
    pub fn build(&self) -> (made: Result<TlsAcceptor, Error>)
        ensures
            made matches Ok(acceptor) && acceptor@ == self.config(),
    {
        TlsAcceptor::new(self)
    }
}

/// What the engine reported while a server connection was set up.
#[derive(Debug)]
pub enum AcceptEvent {
    /// The engine refused to produce a credential.
    CredentialRefused(NativeError),
    /// The engine took the first handshake step.
    Stepped(StepOutcome),
}

/// An immutable configuration snapshot from which server connections are
/// accepted.
#[derive(Clone, Debug)]
pub struct TlsAcceptor {
    cert: Identity,
    min_protocol: Option<Protocol>,
    max_protocol: Option<Protocol>,
}

impl View for TlsAcceptor {
    type V = ServerConfig;

    closed spec fn view(&self) -> ServerConfig {
        ServerConfig {
            identity: self.cert@,
            min_protocol: self.min_protocol,
            max_protocol: self.max_protocol,
        }
    }
}

impl TlsAcceptor {
    /// Builds an acceptor from a configuration.
    pub fn new(builder: &TlsAcceptorBuilder) -> (made: Result<TlsAcceptor, Error>)
        ensures
            made matches Ok(acceptor) && acceptor@ == builder.config(),
    {
        Ok(
            TlsAcceptor {
                cert: builder.identity.duplicate(),
                min_protocol: builder.min_protocol,
                max_protocol: builder.max_protocol,
            },
        )
    }

    /// Returns the request with which the engine is asked for a fresh inbound
    /// credential. Every connection gets one of its own.
    pub fn credential_request(&self) -> (request: CredentialRequest)
        ensures
            request@ == self@.credential_request(),
    {
        CredentialRequest {
            direction: Direction::Inbound,
            protocols: convert_protocols(self.min_protocol, self.max_protocol),
            certificate: Some(self.cert.certificate().duplicate()),
            algorithms: None,
        }
    }

    /// Concludes the setup of a connection over `stream`; `event` is what the
    /// engine reported.
    ///
    /// A refused credential is fatal. Otherwise the outcome of the first
    /// handshake step decides: the session on completion, the handshake to
    /// resume on suspension, the engine's error on failure.
    pub fn accept<S>(&self, stream: S, event: AcceptEvent) -> (result: Result<
        TlsStream<S>,
        HandshakeError<S>,
    >)
        ensures
            match event {
                AcceptEvent::CredentialRefused(e) => result matches Err(
                    HandshakeError::Failure(error),
                ) && error == Error(ErrorKind::Native(e)),
                AcceptEvent::Stepped(outcome) => stepped(stream, Role::Server, outcome, result)
                    && state_of(result) == HandshakeState::NotStarted.after(outcome),
            },
    {
        match event {
            AcceptEvent::CredentialRefused(e) => Err(
                HandshakeError::Failure(Error(ErrorKind::Native(e))),
            ),
            AcceptEvent::Stepped(outcome) => drive(stream, Role::Server, outcome),
        }
    }
}

} // verus!
