//! The client role: configuration, credential acquisition and the client
//! handshake.
//!
//! A connection is set up in turns with the native engine. The connector says
//! where the credential comes from and how the handshake is to be configured;
//! the engine acquires and steps; the connector says what the outcome means
//! and, on success, registers the credential for resumption.

use crate::algorithms::{expand_algorithms, Algorithm, CipherSuiteSet};
use crate::cache::{after_lookup, after_store, hit, well_formed, CredentialCache, Entry, CREDENTIAL_TTL};
use crate::cache::lemma_stored_is_found;
use crate::certificate::{copy_bytes, Certificate, Identity};
use crate::engine::{CredentialRequest, Direction, Request, StepOutcome};
use crate::error::{Error, ErrorKind, NativeError};
use crate::handshake::{drive, state_of, stepped, HandshakeError, HandshakeState};
use crate::protocols::{convert_protocols, protocol_range, Protocol};
use crate::stream::{Role, TlsStream};
use crate::trust::{copy_certificates, encodings, holds_own_root, selected, verdict, Policy, TrustPolicy};
use crate::trust::lemma_own_leaf_is_trusted;
use std::sync::Arc;
use vstd::prelude::*;

verus! {

/// The byte strings of a list of protocol names.
pub open spec fn byte_strings(names: Seq<Vec<u8>>) -> Seq<Seq<u8>> {
    names.map_values(|name: Vec<u8>| name@)
}

/// How a certificate is added to the engine's trust store.
#[derive(Clone, Copy, Debug, PartialEq, Eq, Structural)]
pub enum StoreAdd {
    /// A matching certificate that the store already holds is deleted and
    /// the new one added, so that the store never holds both.
    ReplaceExisting,
}

/// One certificate to add to the engine's trust store.
#[derive(Clone, Debug, PartialEq, Eq)]
pub struct StoreAddition {
    /// The certificate.
    pub certificate: Certificate,
    /// How it is added.
    pub how: StoreAdd,
}

/// One certificate to add to the engine's trust store, as contracts see it.
pub struct Addition {
    pub certificate: Seq<u8>,
    pub how: StoreAdd,
}

impl View for StoreAddition {
    type V = Addition;

    open spec fn view(&self) -> Addition {
        Addition { certificate: self.certificate@, how: self.how }
    }
}

/// The additions of a run of store additions.
pub open spec fn additions(seed: Seq<StoreAddition>) -> Seq<Addition> {
    seed.map_values(|addition: StoreAddition| addition@)
}

/// The configuration from which a connector is built.
#[derive(Clone, Debug)]
pub struct TlsConnectorBuilder {
    /// The client certificate, if the client is to present one.
    pub identity: Option<Identity>,
    /// The lower bound on the protocol version.
    pub min_protocol: Option<Protocol>,
    /// The upper bound on the protocol version.
    pub max_protocol: Option<Protocol>,
    /// Root certificates to trust besides the platform's own.
    pub root_certificates: Vec<Certificate>,
    /// Whether the server name is sent in the handshake.
    pub use_sni: bool,
    /// Whether credentials are cached so that sessions can be resumed.
    pub session_tickets_enabled: bool,
    /// Whether every certificate chain is accepted.
    pub accept_invalid_certs: bool,
    /// Whether a certificate for another host name is accepted.
    pub accept_invalid_hostnames: bool,
    /// Whether only the caller-supplied roots count.
    pub disable_built_in_roots: bool,
    /// The application protocols to request, most preferred first.
    pub alpn: Vec<Vec<u8>>,
    /// The cipher-suite policy; `None` leaves the platform's defaults in place.
    pub cipher_suites: Option<CipherSuiteSet>,
}

/// The configuration of a connector as contracts see it.
pub struct Config {
    pub identity: Option<Seq<u8>>,
    pub roots: Seq<Seq<u8>>,
    pub min_protocol: Option<Protocol>,
    pub max_protocol: Option<Protocol>,
    pub use_sni: bool,
    pub session_tickets_enabled: bool,
    pub accept_invalid_hostnames: bool,
    pub accept_invalid_certs: bool,
    pub disable_built_in_roots: bool,
    pub alpn: Seq<Seq<u8>>,
    pub supported_algorithms: Seq<Algorithm>,
}

/// How a client handshake is to be configured, as contracts see it.
pub struct Plan {
    pub domain: Seq<char>,
    pub use_sni: bool,
    pub accept_invalid_hostnames: bool,
    pub roots: Seq<Seq<u8>>,
    pub policy: Policy,
    pub alpn: Option<Seq<Seq<u8>>>,
}

impl Config {
    /// The configuration that a builder starts with: no client certificate,
    /// no added roots, the protocol version bounded below by TLS 1.0 and not
    /// bounded above, the server name sent, no session-ticket resumption, no
    /// override of validation, no application protocols, and the platform's
    /// cipher suites.
    pub open spec fn defaults() -> Config {
        Config {
            identity: None,
            roots: Seq::empty(),
            min_protocol: Some(Protocol::Tlsv10),
            max_protocol: None,
            use_sni: true,
            session_tickets_enabled: false,
            accept_invalid_hostnames: false,
            accept_invalid_certs: false,
            disable_built_in_roots: false,
            alpn: Seq::empty(),
            supported_algorithms: Seq::empty(),
        }
    }

    /// What the engine's trust store is seeded with: every caller-supplied
    /// root, in the order given, each replacing a matching certificate that
    /// was added before it.
    pub open spec fn trust_store_seed(self) -> Seq<Addition> {
        self.roots.map_values(
            |root: Seq<u8>| Addition { certificate: root, how: StoreAdd::ReplaceExisting },
        )
    }

    /// The request for a fresh outbound credential: the protocol range of the
    /// bounds, the client certificate if there is one, and the algorithms of
    /// the cipher-suite policy unless it names none.
    pub open spec fn credential_request(self) -> Request {
        Request {
            direction: Direction::Outbound,
            protocols: protocol_range(self.min_protocol, self.max_protocol),
            certificate: self.identity,
            algorithms: if self.supported_algorithms.len() == 0 {
                None
            } else {
                Some(self.supported_algorithms)
            },
        }
    }

    /// The trust policy of every connection.
    pub open spec fn policy(self) -> Policy {
        selected(self.accept_invalid_certs, self.disable_built_in_roots, self.roots)
    }

    /// The configuration of a handshake with `domain`. Application protocols
    /// are requested only if the list names any.
    pub open spec fn plan(self, domain: Seq<char>) -> Plan {
        Plan {
            domain,
            use_sni: self.use_sni,
            accept_invalid_hostnames: self.accept_invalid_hostnames,
            roots: self.roots,
            policy: self.policy(),
            alpn: if self.alpn.len() == 0 {
                None
            } else {
                Some(self.alpn)
            },
        }
    }

    /// The cached credential that a connection to `domain` at time `now`
    /// reuses. Without session-ticket resumption the cache is not consulted.
    pub open spec fn cached<C>(self, cache: Seq<Entry<C>>, domain: Seq<char>, now: int) -> Option<
        C,
    > {
        if self.session_tickets_enabled {
            hit(cache, domain, now)
        } else {
            None
        }
    }

    /// The cache after the credential for a connection to `domain` was looked
    /// for at time `now`.
    pub open spec fn cache_after_lookup<C>(
        self,
        cache: Seq<Entry<C>>,
        domain: Seq<char>,
        now: int,
    ) -> Seq<Entry<C>> {
        if self.session_tickets_enabled {
            after_lookup(cache, domain, now)
        } else {
            cache
        }
    }

    /// The cache after `credential` was registered for `domain` at time
    /// `now`. Without session-ticket resumption nothing is cached.
    pub open spec fn cache_after_store<C>(
        self,
        cache: Seq<Entry<C>>,
        domain: Seq<char>,
        credential: C,
        now: int,
    ) -> Seq<Entry<C>> {
        if self.session_tickets_enabled {
            after_store(cache, domain, credential, now)
        } else {
            cache
        }
    }

    /// The cache after the first handshake step of a connection to `domain`
    /// reported `outcome` at time `now`: the credential is registered on
    /// completion and on nothing else.
    pub open spec fn cache_after_connect<C>(
        self,
        cache: Seq<Entry<C>>,
        domain: Seq<char>,
        credential: C,
        outcome: StepOutcome,
        now: int,
    ) -> Seq<Entry<C>> {
        if outcome is Complete {
            self.cache_after_store(cache, domain, credential, now)
        } else {
            cache
        }
    }
}

impl TlsConnectorBuilder {
    /// Starts a configuration with the defaults.
    pub fn new() -> (builder: TlsConnectorBuilder)
        ensures
            builder.config() == Config::defaults(),
    {
        let builder = TlsConnectorBuilder {
            identity: None,
            min_protocol: Some(Protocol::Tlsv10),
            max_protocol: None,
            root_certificates: Vec::new(),
            use_sni: true,
            session_tickets_enabled: false,
            accept_invalid_certs: false,
            accept_invalid_hostnames: false,
            disable_built_in_roots: false,
            alpn: Vec::new(),
            cipher_suites: None,
        };
        assert(builder.config().roots =~= Seq::<Seq<u8>>::empty());
        assert(builder.config().alpn =~= Seq::<Seq<u8>>::empty());
        builder
    }

    /// Sets the client certificate.
    pub fn identity(&mut self, identity: Identity)
        ensures
            final(self).config() == (Config { identity: Some(identity@), ..old(self).config() }),
    {
        self.identity = Some(identity);
    }

    /// Sets the application protocols to request, most preferred first.
    pub fn request_alpns(&mut self, protocols: Vec<Vec<u8>>)
        ensures
            final(self).config() == (Config {
                alpn: byte_strings(protocols@),
                ..old(self).config()
            }),
    {
        self.alpn = protocols;
    }

    /// Sets the cipher-suite policy.
    pub fn cipher_suites(&mut self, cipher_suites: CipherSuiteSet)
        ensures
            final(self).config() == (Config {
                supported_algorithms: cipher_suites.native(),
                ..old(self).config()
            }),
    {
        self.cipher_suites = Some(cipher_suites);
    }

    /// Adds a root certificate to trust.
    pub fn add_root_certificate(&mut self, certificate: Certificate)
        ensures
            final(self).root_certificates@ == old(self).root_certificates@.push(certificate),
            final(self).config() == (Config {
                roots: old(self).config().roots.push(certificate@),
                ..old(self).config()
            }),
    {
        self.root_certificates.push(certificate);
        assert(encodings(self.root_certificates@) =~= encodings(old(self).root_certificates@).push(
            certificate@,
        ));
    }

    /// Turns session-ticket resumption on or off.
    pub fn session_tickets_enabled(&mut self, enabled: bool)
        ensures
            final(self).config() == (Config {
                session_tickets_enabled: enabled,
                ..old(self).config()
            }),
    {
        self.session_tickets_enabled = enabled;
    }

    /// Turns the sending of the server name on or off.
    pub fn use_sni(&mut self, use_sni: bool)
        ensures
            final(self).config() == (Config { use_sni, ..old(self).config() }),
    {
        self.use_sni = use_sni;
    }

    /// Turns the acceptance of every certificate chain on or off.
    pub fn danger_accept_invalid_certs(&mut self, accept: bool)
        ensures
            final(self).config() == (Config { accept_invalid_certs: accept, ..old(self).config() }),
    {
        self.accept_invalid_certs = accept;
    }

    /// Turns the acceptance of certificates for another host name on or off.
    pub fn danger_accept_invalid_hostnames(&mut self, accept: bool)
        ensures
            final(self).config() == (Config {
                accept_invalid_hostnames: accept,
                ..old(self).config()
            }),
    {
        self.accept_invalid_hostnames = accept;
    }

    /// Turns the platform's built-in roots off or on.
    pub fn disable_built_in_roots(&mut self, disable: bool)
        ensures
            final(self).config() == (Config {
                disable_built_in_roots: disable,
                ..old(self).config()
            }),
    {
        self.disable_built_in_roots = disable;
    }

    /// Sets the lower bound on the protocol version; `None` removes it.
    pub fn min_protocol_version(&mut self, protocol: Option<Protocol>)
        ensures
            final(self).config() == (Config { min_protocol: protocol, ..old(self).config() }),
    {
        self.min_protocol = protocol;
    }

    /// Sets the upper bound on the protocol version; `None` removes it.
    pub fn max_protocol_version(&mut self, protocol: Option<Protocol>)
        ensures
            final(self).config() == (Config { max_protocol: protocol, ..old(self).config() }),
    {
        self.max_protocol = protocol;
    }

    /// Says what the engine's trust store is to be seeded with before the
    /// connector is built: which certificates, in which order, and how each
    /// is added.
    pub fn trust_store_seed(&self) -> (seed: Vec<StoreAddition>)
        ensures
            additions(seed@) == self.config().trust_store_seed(),
            seed@.len() == self.root_certificates@.len(),
            forall|i: int|
                0 <= i < seed@.len() ==> (#[trigger] seed@[i]).certificate@
                    == self.root_certificates@[i]@ && seed@[i].how == StoreAdd::ReplaceExisting,
    {
        let mut seed: Vec<StoreAddition> = Vec::new();
        let n: usize = self.root_certificates.len();
        for i in 0..n
            invariant
                n == self.root_certificates@.len(),
                seed@.len() == i,
                forall|k: int|
                    0 <= k < i ==> (#[trigger] seed@[k])@ == (Addition {
                        certificate: self.root_certificates@[k]@,
                        how: StoreAdd::ReplaceExisting,
                    }),
        {
            seed.push(
                StoreAddition {
                    certificate: self.root_certificates[i].duplicate(),
                    how: StoreAdd::ReplaceExisting,
                },
            );
        }
        assert(additions(seed@) =~= self.config().trust_store_seed());
        seed
    }

    /// Builds the connector; see [`TlsConnector::new`].
    pub fn build(&self, trust_store: Result<(), NativeError>) -> (made: Result<
        TlsConnector,
        Error,
    >)
        ensures
            match trust_store {
                Ok(_) => made matches Ok(connector) && connector@ == self.config(),
                Err(e) => made matches Err(error) && error == Error(ErrorKind::Native(e)),
            },
    {
        TlsConnector::new(self, trust_store)
    }

    /// The configuration that the builder describes.
    pub open spec fn config(&self) -> Config {
        Config {
            identity: match self.identity {
                Some(identity) => Some(identity@),
                None => None,
            },
            roots: encodings(self.root_certificates@),
            min_protocol: self.min_protocol,
            max_protocol: self.max_protocol,
            use_sni: self.use_sni,
            session_tickets_enabled: self.session_tickets_enabled,
            accept_invalid_hostnames: self.accept_invalid_hostnames,
            accept_invalid_certs: self.accept_invalid_certs,
            disable_built_in_roots: self.disable_built_in_roots,
            alpn: byte_strings(self.alpn@),
            supported_algorithms: match self.cipher_suites {
                Some(cipher_suites) => cipher_suites.native(),
                None => Seq::empty(),
            },
        }
    }
}

/// How a client handshake is to be configured.
#[derive(Clone, Debug, PartialEq, Eq)]
pub struct HandshakePlan {
    /// The peer's domain, for validation and for the server name.
    pub domain: String,
    /// Whether the server name is sent.
    pub use_sni: bool,
    /// Whether a certificate for another host name is accepted.
    pub accept_invalid_hostnames: bool,
    /// The caller-supplied roots that make up the trust store.
    pub roots: Vec<Certificate>,
    /// The trust policy to evaluate on the peer's chain.
    pub policy: TrustPolicy,
    /// The application protocols to request, if any.
    pub alpn: Option<Vec<Vec<u8>>>,
}

impl View for HandshakePlan {
    type V = Plan;

    open spec fn view(&self) -> Plan {
        Plan {
            domain: self.domain@,
            use_sni: self.use_sni,
            accept_invalid_hostnames: self.accept_invalid_hostnames,
            roots: encodings(self.roots@),
            policy: self.policy@,
            alpn: match self.alpn {
                Some(names) => Some(byte_strings(names@)),
                None => None,
            },
        }
    }
}

/// Where the credential of a connection comes from.
#[derive(Debug)]
pub enum CredentialSource<C> {
    /// The cache held a fresh credential for the domain: it is reused, and
    /// the engine is not asked.
    Cached(Arc<C>),
    /// The engine is to be asked for a fresh credential.
    Fresh(CredentialRequest),
}

/// What the engine reported while a client connection was set up.
#[derive(Debug)]
pub enum ConnectEvent<C> {
    /// The engine refused to produce a credential.
    CredentialRefused(NativeError),
    /// The engine took the first handshake step with this credential.
    Stepped(Arc<C>, StepOutcome),
}

/// An immutable configuration snapshot from which client connections are
/// made.
#[derive(Clone, Debug)]
pub struct TlsConnector {
    cert: Option<Identity>,
    roots: Vec<Certificate>,
    min_protocol: Option<Protocol>,
    max_protocol: Option<Protocol>,
    use_sni: bool,
    session_tickets_enabled: bool,
    accept_invalid_hostnames: bool,
    accept_invalid_certs: bool,
    disable_built_in_roots: bool,
    alpn: Vec<Vec<u8>>,
    supported_algorithms: Vec<Algorithm>,
}

impl View for TlsConnector {
    type V = Config;

    closed spec fn view(&self) -> Config {
        Config {
            identity: match self.cert {
                Some(identity) => Some(identity@),
                None => None,
            },
            roots: encodings(self.roots@),
            min_protocol: self.min_protocol,
            max_protocol: self.max_protocol,
            use_sni: self.use_sni,
            session_tickets_enabled: self.session_tickets_enabled,
            accept_invalid_hostnames: self.accept_invalid_hostnames,
            accept_invalid_certs: self.accept_invalid_certs,
            disable_built_in_roots: self.disable_built_in_roots,
            alpn: byte_strings(self.alpn@),
            supported_algorithms: self.supported_algorithms@,
        }
    }
}

fn copy_names(names: &Vec<Vec<u8>>) -> (copy: Vec<Vec<u8>>)
    ensures
        byte_strings(copy@) == byte_strings(names@),
{
    let mut copy: Vec<Vec<u8>> = Vec::new();
    let n: usize = names.len();
    for i in 0..n
        invariant
            n == names@.len(),
            copy@.len() == i,
            forall|k: int| 0 <= k < i ==> (#[trigger] copy@[k])@ == names@[k]@,
    {
        copy.push(copy_bytes(names[i].as_slice()));
    }
    assert(byte_strings(copy@) =~= byte_strings(names@));
    copy
}

fn copy_algorithms(algorithms: &Vec<Algorithm>) -> (copy: Vec<Algorithm>)
    ensures
        copy@ == algorithms@,
{
    let mut copy: Vec<Algorithm> = Vec::new();
    let n: usize = algorithms.len();
    for i in 0..n
        invariant
            n == algorithms@.len(),
            copy@ == algorithms@.take(i as int),
    {
        copy.push(algorithms[i]);
    }
    assert(algorithms@.take(n as int) == algorithms@);
    copy
}

impl TlsConnector {
    /// Starts a configuration with the defaults.
    pub fn builder() -> (builder: TlsConnectorBuilder)
        ensures
            builder.config() == Config::defaults(),
    {
        TlsConnectorBuilder::new()
    }

    /// Builds a connector from a configuration; `trust_store` is what the
    /// engine reported when its trust store was seeded as
    /// [`TlsConnectorBuilder::trust_store_seed`] says.
    ///
    /// The connector is a snapshot of the configuration. The cipher-suite
    /// policy is translated into the engine's algorithm identifiers here,
    /// once. A trust store that the engine could not seed is the error.
    pub fn new(builder: &TlsConnectorBuilder, trust_store: Result<(), NativeError>) -> (made:
        Result<TlsConnector, Error>)
        ensures
            match trust_store {
                Ok(_) => made matches Ok(connector) && connector@ == builder.config(),
                Err(e) => made matches Err(error) && error == Error(ErrorKind::Native(e)),
            },
    {
        if let Err(e) = trust_store {
            return Err(Error(ErrorKind::Native(e)));
        }
        let cert = match &builder.identity {
            Some(identity) => Some(identity.duplicate()),
            None => None,
        };
        let supported_algorithms = match &builder.cipher_suites {
            Some(cipher_suites) => expand_algorithms(cipher_suites),
            None => Vec::new(),
        };
        Ok(
            TlsConnector {
                cert,
                roots: copy_certificates(&builder.root_certificates),
                min_protocol: builder.min_protocol,
                max_protocol: builder.max_protocol,
                use_sni: builder.use_sni,
                session_tickets_enabled: builder.session_tickets_enabled,
                accept_invalid_hostnames: builder.accept_invalid_hostnames,
                accept_invalid_certs: builder.accept_invalid_certs,
                disable_built_in_roots: builder.disable_built_in_roots,
                alpn: copy_names(&builder.alpn),
                supported_algorithms,
            },
        )
    }

    /// Returns the request with which the engine is asked for a fresh
    /// outbound credential.
    pub fn credential_request(&self) -> (request: CredentialRequest)
        ensures
            request@ == self@.credential_request(),
    {
        CredentialRequest {
            direction: Direction::Outbound,
            protocols: convert_protocols(self.min_protocol, self.max_protocol),
            certificate: match &self.cert {
                Some(identity) => Some(identity.certificate().duplicate()),
                None => None,
            },
            algorithms: if self.supported_algorithms.len() == 0 {
                None
            } else {
                Some(copy_algorithms(&self.supported_algorithms))
            },
        }
    }

    /// Says where the credential of a connection to `domain` at time `now`, in
    /// seconds, comes from.
    ///
    /// With session-ticket resumption the cache is consulted first, which
    /// refreshes or drops the domain's entry. Without it, and on a miss, the
    /// engine is to be asked.
    pub fn get_credentials<C>(&self, cache: &mut CredentialCache<C>, domain: &str, now: u64) -> (source:
        CredentialSource<C>)
        ensures
            final(cache)@ == self@.cache_after_lookup(old(cache)@, domain@, now as int),
            well_formed(final(cache)@),
            match source {
                CredentialSource::Cached(credential) => self@.cached(
                    old(cache)@,
                    domain@,
                    now as int,
                ) == Some(*credential),
                CredentialSource::Fresh(request) => self@.cached(old(cache)@, domain@, now as int)
                    is None && request@ == self@.credential_request(),
            },
    {
        if self.session_tickets_enabled {
            if let Some(credential) = cache.lookup(domain, now) {
                return CredentialSource::Cached(credential);
            }
        } else {
            let _ = cache.len();
        }
        CredentialSource::Fresh(self.credential_request())
    }

    /// Registers `credential` for `domain` at time `now`, in seconds, if
    /// session-ticket resumption is enabled.
    pub fn store_credentials<C>(
        &self,
        cache: &mut CredentialCache<C>,
        domain: &str,
        credential: Arc<C>,
        now: u64,
    )
        ensures
            final(cache)@ == self@.cache_after_store(
                old(cache)@,
                domain@,
                *credential,
                now as int,
            ),
            well_formed(final(cache)@),
    {
        if self.session_tickets_enabled {
            cache.store(domain, credential, now);
        } else {
            let _ = cache.len();
        }
    }

    /// Returns the configuration of a handshake with `domain`: trust store,
    /// server name, host-name check, trust policy and application protocols.
    pub fn handshake_plan(&self, domain: &str) -> (plan: HandshakePlan)
        ensures
            plan@ == self@.plan(domain@),
    {
        HandshakePlan {
            domain: domain.to_owned(),
            use_sni: self.use_sni,
            accept_invalid_hostnames: self.accept_invalid_hostnames,
            roots: copy_certificates(&self.roots),
            policy: TrustPolicy::select(
                self.accept_invalid_certs,
                self.disable_built_in_roots,
                &self.roots,
            ),
            alpn: if self.alpn.len() == 0 {
                None
            } else {
                Some(copy_names(&self.alpn))
            },
        }
    }

    /// Concludes the setup of a connection to `domain` over `stream`; `event`
    /// is what the engine reported and `now` the time, in seconds.
    ///
    /// A refused credential is fatal. Otherwise the outcome of the first
    /// handshake step decides: on completion the credential is registered for
    /// resumption and the session returned; a suspended handshake is returned
    /// for the caller to resume, and nothing is cached; a failure is the
    /// engine's error.
    pub fn connect<S, C>(
        &self,
        cache: &mut CredentialCache<C>,
        domain: &str,
        stream: S,
        event: ConnectEvent<C>,
        now: u64,
    ) -> (result: Result<TlsStream<S>, HandshakeError<S>>)
        ensures
            well_formed(final(cache)@),
            match event {
                ConnectEvent::CredentialRefused(e) => {
                    &&& result matches Err(HandshakeError::Failure(error))
                    &&& error == Error(ErrorKind::Native(e))
                    &&& final(cache)@ == old(cache)@
                },
                ConnectEvent::Stepped(credential, outcome) => {
                    &&& stepped(stream, Role::Client, outcome, result)
                    &&& state_of(result) == HandshakeState::NotStarted.after(outcome)
                    &&& final(cache)@ == self@.cache_after_connect(
                        old(cache)@,
                        domain@,
                        *credential,
                        outcome,
                        now as int,
                    )
                },
            },
    {
        let _ = cache.len();
        match event {
            ConnectEvent::CredentialRefused(e) => Err(
                HandshakeError::Failure(Error(ErrorKind::Native(e))),
            ),
            ConnectEvent::Stepped(credential, outcome) => {
                match drive(stream, Role::Client, outcome) {
                    Ok(session) => {
                        self.store_credentials(cache, domain, credential, now);
                        Ok(session)
                    },
                    Err(e) => Err(e),
                }
            },
        }
    }
}

/// With the built-in roots disabled, a connection whose peer presents a chain
/// that platform validation passes but that holds none of the caller-supplied
/// roots fails with the error of this layer and with no other, whatever the
/// engine reports as its own failure.
pub proof fn lemma_missing_root_fails_connection<S>(
    config: Config,
    chain: Option<Seq<Seq<u8>>>,
    failure: NativeError,
    stream: S,
    result: Result<TlsStream<S>, HandshakeError<S>>,
)
    requires
        !config.accept_invalid_certs,
        config.disable_built_in_roots,
        chain matches Some(presented) ==> !holds_own_root(config.roots, presented),
        stepped(
            stream,
            Role::Client,
            StepOutcome::of_failed(Some(verdict(config.policy(), Ok(()), chain)), failure),
            result,
        ),
    ensures
        result matches Err(HandshakeError::Failure(error)) && error == Error(
            ErrorKind::NoCallerRoot,
        ),
{
}

/// With the built-in roots disabled, a connection whose peer presents a chain
/// that platform validation fails, fails with the platform's error, whether
/// or not the chain holds a caller-supplied root.
pub proof fn lemma_platform_failure_fails_connection<S>(
    config: Config,
    platform: NativeError,
    chain: Option<Seq<Seq<u8>>>,
    failure: NativeError,
    stream: S,
    result: Result<TlsStream<S>, HandshakeError<S>>,
)
    requires
        !config.accept_invalid_certs,
        config.disable_built_in_roots,
        stepped(
            stream,
            Role::Client,
            StepOutcome::of_failed(Some(verdict(config.policy(), Err(platform), chain)), failure),
            result,
        ),
    ensures
        result matches Err(HandshakeError::Failure(error)) && error == Error(
            ErrorKind::Native(platform),
        ),
{
}

/// The trust policy of a connection never rejects a chain when invalid
/// certificates are accepted, nor a chain that platform validation passed
/// and whose leaf is a caller-supplied root when the built-in roots are
/// disabled: a failure of such a connection is the engine's own.
pub proof fn lemma_trusted_chain_is_not_rejected(
    config: Config,
    platform: Result<(), NativeError>,
    chain: Option<Seq<Seq<u8>>>,
    failure: NativeError,
)
    requires
        config.accept_invalid_certs || (config.disable_built_in_roots && platform is Ok && chain
            is Some && chain->0.len() > 0 && config.roots.contains(chain->0[0])),
    ensures
        verdict(config.policy(), platform, chain) == Ok::<(), Error>(()),
        StepOutcome::of_failed(Some(verdict(config.policy(), platform, chain)), failure)
            == StepOutcome::Failure(failure),
{
    if !config.accept_invalid_certs {
        lemma_own_leaf_is_trusted(config.roots, chain->0);
    }
}

/// Of two connections to one domain with session-ticket resumption enabled,
/// the second reuses the credential of the first and asks the engine for
/// none, provided that the first completed and the second starts before the
/// credential's lifetime has run out.
pub proof fn lemma_second_connection_resumes<C>(
    config: Config,
    cache: Seq<Entry<C>>,
    domain: Seq<char>,
    credential: C,
    completed_at: int,
    now: int,
)
    requires
        well_formed(cache),
        config.session_tickets_enabled,
        now < completed_at + CREDENTIAL_TTL,
    ensures
        config.cached(
            config.cache_after_connect(cache, domain, credential, StepOutcome::Complete, completed_at),
            domain,
            now,
        ) == Some(credential),
{
    lemma_stored_is_found(cache, domain, credential, completed_at, now);
}

/// With session-ticket resumption disabled every connection misses: nothing
/// is reused, whatever the cache holds, and nothing is ever cached.
pub proof fn lemma_disabled_never_resumes<C>(
    config: Config,
    cache: Seq<Entry<C>>,
    domain: Seq<char>,
    credential: C,
    outcome: StepOutcome,
    completed_at: int,
    now: int,
)
    requires
        !config.session_tickets_enabled,
    ensures
        config.cached(cache, domain, now) is None,
        config.cache_after_lookup(cache, domain, now) == cache,
        config.cache_after_connect(cache, domain, credential, outcome, completed_at) == cache,
{
}

/// A connection that did not complete caches nothing.
pub proof fn lemma_unfinished_caches_nothing<C>(
    config: Config,
    cache: Seq<Entry<C>>,
    domain: Seq<char>,
    credential: C,
    outcome: StepOutcome,
    now: int,
)
    requires
        !(outcome is Complete),
    ensures
        config.cache_after_connect(cache, domain, credential, outcome, now) == cache,
{
}

} // verus!
