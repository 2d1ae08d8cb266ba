//! Session-lifecycle core of a platform-native TLS layer.
//!
//! The native security engine performs every cryptographic operation. This
//! crate holds what surrounds it: the mapping of a cipher-suite policy onto the
//! engine's algorithm identifiers, the bounded credential cache that enables
//! session-ticket resumption, the trust policy laid over platform validation,
//! and the handshake state machine. Each function takes what the engine
//! reported as plain values and returns what to do next.

pub mod acceptor;
pub mod algorithms;
pub mod cache;
pub mod certificate;
pub mod connector;
pub mod engine;
pub mod error;
pub mod handshake;
pub mod protocols;
pub mod stream;
pub mod trust;

pub use acceptor::{AcceptEvent, TlsAcceptor, TlsAcceptorBuilder};
pub use algorithms::{
    expand_algorithms, Algorithm, CipherSuiteSet, TlsBulkEncryptionAlgorithm, TlsHashAlgorithm,
    TlsKeyExchangeAlgorithm, TlsSignatureAlgorithm,
};
pub use cache::{CredentialCache, CREDENTIAL_CACHE_SIZE, CREDENTIAL_TTL};
pub use certificate::{ArchiveEntry, Certificate, Identity};
pub use connector::{
    ConnectEvent, CredentialSource, HandshakePlan, StoreAdd, StoreAddition, TlsConnector,
    TlsConnectorBuilder,
};
pub use engine::{CredentialRequest, Direction, StepOutcome};
pub use error::{Error, ErrorKind, NativeError, NO_CREDENTIALS};
pub use handshake::{drive, HandshakeError, HandshakeState, MidHandshakeTlsStream};
pub use protocols::{convert_protocols, NativeProtocol, Protocol};
pub use stream::{BindingHash, CertificateQuery, CertificateSource, Role, TlsStream};
pub use trust::TrustPolicy;
