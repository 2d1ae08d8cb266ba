//! The session handle: the secure channel that a completed handshake leaves.
//!
//! The handle owns the transport and knows which side of the session it is.
//! Queries about the session go to the native engine; the handle decides what
//! the engine's answers mean.

use crate::certificate::Certificate;
use crate::error::{Error, ErrorKind, NativeError};
use vstd::prelude::*;

verus! {

/// The side of a session.
#[derive(Clone, Copy, Debug, PartialEq, Eq, Structural)]
pub enum Role {
    Client,
    Server,
}

/// The hash under which the digest of the server's certificate forms the
/// "tls-server-end-point" channel binding.
#[derive(Clone, Copy, Debug, PartialEq, Eq, Structural)]
pub enum BindingHash {
    Sha256,
    Sha384,
    Sha512,
}

/// A certificate of a session, named by the side that presented it.
#[derive(Clone, Copy, Debug, PartialEq, Eq, Structural)]
pub enum CertificateSource {
    /// The certificate that this side presented.
    Own,
    /// The certificate that the peer presented.
    Peer,
}

/// The certificate that identifies the server of a session, seen from the
/// side `role`: a server's own, a client's peer's.
pub open spec fn server_source(role: Role) -> CertificateSource {
    if role is Server {
        CertificateSource::Own
    } else {
        CertificateSource::Peer
    }
}

/// What the engine answered when asked for a certificate of the session and
/// for the family under which that certificate was signed.
#[derive(Clone, Debug, PartialEq, Eq)]
pub enum CertificateQuery {
    /// The engine did not hand the certificate out.
    Unavailable(NativeError),
    /// The certificate is there, but its signature family could not be read.
    Unreadable(NativeError),
    /// The certificate is there and was signed under this family, written as
    /// the signature algorithm, a slash and the hash, such as `RSA/SHA256`.
    SignedWith(String),
}

/// The part of `family` behind its last slash; all of it where it has none.
pub open spec fn last_segment(family: Seq<char>) -> Seq<char>
    decreases family.len(),
{
    if family.len() == 0 {
        family
    } else if family.last() == '/' {
        Seq::empty()
    } else {
        last_segment(family.drop_last()).push(family.last())
    }
}

/// The binding hash for a certificate signed under `family`.
///
/// The hash named behind the last slash decides: MD5 and SHA-1 are raised to
/// SHA-256, the SHA-2 hashes stand for themselves, and any other name gives no
/// binding.
pub open spec fn binding_hash(family: Seq<char>) -> Option<BindingHash> {
    let name = last_segment(family);
    if name == "MD5"@ || name == "SHA1"@ || name == "SHA256"@ {
        Some(BindingHash::Sha256)
    } else if name == "SHA384"@ {
        Some(BindingHash::Sha384)
    } else if name == "SHA512"@ {
        Some(BindingHash::Sha512)
    } else {
        None
    }
}

/// The channel binding of a session, given the engine's answer about the
/// certificate that identifies its server.
///
/// That the engine holds no such credential means that there is no binding,
/// and is no error. Every other failure to hand the certificate out, and
/// every failure to read its signature family, is an error. A family that
/// names no known hash gives no binding.
pub open spec fn end_point(server: CertificateQuery) -> Result<Option<BindingHash>, Error> {
    match server {
        CertificateQuery::Unavailable(e) => if e.no_credentials() {
            Ok(None)
        } else {
            Err(Error(ErrorKind::Native(e)))
        },
        CertificateQuery::Unreadable(e) => Err(Error(ErrorKind::Native(e))),
        CertificateQuery::SignedWith(family) => Ok(binding_hash(family@)),
    }
}

fn is_text(segment: &Vec<char>, text: &str) -> (same: bool)
    ensures
        same == (segment@ == text@),
{
    let n: usize = segment.len();
    let mut i: usize = 0;
    for c in it: text.chars()
        invariant
            it.seq() == text@,
            i == it.index(),
            n == segment@.len(),
            i <= n,
            forall|k: int| 0 <= k < i ==> segment@[k] == text@[k],
    {
        if i == n {
            return false;
        }
        if segment[i] != c {
            return false;
        }
        i += 1;
    }
    if i == n {
        assert(segment@ =~= text@);
    }
    i == n
}

impl BindingHash {
    /// Selects the binding hash for a certificate signed under `family`.
    pub fn for_signature_family(family: &str) -> (hash: Option<BindingHash>)
        ensures
            hash == binding_hash(family@),
    {
        let mut name: Vec<char> = Vec::new();
        for c in it: family.chars()
            invariant
                it.seq() == family@,
                name@ == last_segment(family@.take(it.index() as int)),
        {
            assert(family@.take(it.index() + 1).drop_last() == family@.take(it.index() as int));
            if c == '/' {
                name = Vec::new();
            } else {
                name.push(c);
            }
        }
        assert(family@.take(family@.len() as int) == family@);
        if is_text(&name, "MD5") || is_text(&name, "SHA1") || is_text(&name, "SHA256") {
            Some(BindingHash::Sha256)
        } else if is_text(&name, "SHA384") {
            Some(BindingHash::Sha384)
        } else if is_text(&name, "SHA512") {
            Some(BindingHash::Sha512)
        } else {
            None
        }
    }
}

/// A completed secure channel together with its transport `S`.
#[derive(Debug)]
pub struct TlsStream<S> {
    stream: S,
    role: Role,
}

impl<S> TlsStream<S> {
    /// The transport that the session owns.
    pub closed spec fn transport(&self) -> S {
        self.stream
    }

    /// The side of the session that this handle is.
    pub closed spec fn role(&self) -> Role {
        self.role
    }

    pub(crate) fn new(stream: S, role: Role) -> (session: Self)
        ensures
            session.transport() == stream,
            session.role() == role,
    {
        TlsStream { stream, role }
    }

    /// Returns a shared reference to the transport.
    pub fn get_ref(&self) -> (transport: &S)
        ensures
            *transport == self.transport(),
    {
        &self.stream
    }

    /// Returns a mutable reference to the transport. Whatever the caller does
    /// to the transport, the session stays the side it is.
    pub fn get_mut(&mut self) -> (transport: &mut S)
        ensures
            *transport == old(self).transport(),
            final(self).transport() == *final(transport),
            final(self).role() == old(self).role(),
    {
        &mut self.stream
    }

    /// Tells whether this is the server side of the session.
    pub fn is_server(&self) -> (server: bool)
        ensures
            server == (self.role() is Server),
    {
        match self.role {
            Role::Server => true,
            Role::Client => false,
        }
    }

    /// Names the certificate that identifies the server of the session: a
    /// server's own, a client's peer's. It is the certificate whose digest
    /// forms the channel binding.
    pub fn server_certificate(&self) -> (source: CertificateSource)
        ensures
            source == server_source(self.role()),
    {
        match self.role {
            Role::Server => CertificateSource::Own,
            Role::Client => CertificateSource::Peer,
        }
    }

    /// Returns the number of decrypted bytes that the engine holds ready to be
    /// read; `pending` is that buffer.
    pub fn buffered_read_size(&self, pending: &[u8]) -> (size: Result<usize, Error>)
        ensures
            size == Ok::<usize, Error>(pending@.len() as usize),
    {
        Ok(pending.len())
    }

    /// Returns the peer's leaf certificate; `reply` is the engine's answer to
    /// the query for it.
    ///
    /// That the peer presented no credential is a valid empty result. Every
    /// other failure of the query is an error.
    pub fn peer_certificate(&self, reply: Result<Certificate, NativeError>) -> (peer: Result<
        Option<Certificate>,
        Error,
    >)
        ensures
            peer == match reply {
                Ok(certificate) => Ok::<Option<Certificate>, Error>(Some(certificate)),
                Err(e) => if e.no_credentials() {
                    Ok::<Option<Certificate>, Error>(None)
                } else {
                    Err::<Option<Certificate>, Error>(Error(ErrorKind::Native(e)))
                },
            },
    {
        match reply {
            Ok(certificate) => Ok(Some(certificate)),
            Err(e) => if e.is_no_credentials() {
                Ok(None)
            } else {
                Err(Error(ErrorKind::Native(e)))
            },
        }
    }

    /// Returns the application protocol that was negotiated, if any; `reply`
    /// is the engine's answer to the query for it.
    pub fn negotiated_alpn(&self, reply: Result<Option<Vec<u8>>, NativeError>) -> (protocol: Result<
        Option<Vec<u8>>,
        Error,
    >)
        ensures
            protocol == match reply {
                Ok(selected) => Ok::<Option<Vec<u8>>, Error>(selected),
                Err(e) => Err::<Option<Vec<u8>>, Error>(Error(ErrorKind::Native(e))),
            },
    {
        match reply {
            Ok(selected) => Ok(selected),
            Err(e) => Err(Error(ErrorKind::Native(e))),
        }
    }

    /// Decides the "tls-server-end-point" channel binding of the session.
    ///
    /// `server` is the engine's answer about the certificate that
    /// [`Self::server_certificate`] names, the only one the engine is asked
    /// for. The binding is the digest of that certificate under the hash
    /// returned; `None` says that the session has no binding.
    pub fn tls_server_end_point(&self, server: CertificateQuery) -> (binding: Result<
        Option<BindingHash>,
        Error,
    >)
        ensures
            binding == end_point(server),
    {
        match server {
            CertificateQuery::Unavailable(e) => if e.is_no_credentials() {
                Ok(None)
            } else {
                Err(Error(ErrorKind::Native(e)))
            },
            CertificateQuery::Unreadable(e) => Err(Error(ErrorKind::Native(e))),
            CertificateQuery::SignedWith(family) => Ok(
                BindingHash::for_signature_family(family.as_str()),
            ),
        }
    }

    /// Concludes the channel binding; `digest` is the engine's digest of the
    /// server's certificate under the hash that [`Self::tls_server_end_point`]
    /// chose.
    pub fn bind_end_point(&self, digest: Result<Vec<u8>, NativeError>) -> (binding: Result<
        Option<Vec<u8>>,
        Error,
    >)
        ensures
            binding == match digest {
                Ok(bytes) => Ok::<Option<Vec<u8>>, Error>(Some(bytes)),
                Err(e) => Err::<Option<Vec<u8>>, Error>(Error(ErrorKind::Native(e))),
            },
    {
        match digest {
            Ok(bytes) => Ok(Some(bytes)),
            Err(e) => Err(Error(ErrorKind::Native(e))),
        }
    }

    /// Ends the session; `reply` is what the engine made of the close
    /// notification.
    pub fn shutdown(&mut self, reply: Result<(), NativeError>) -> (closed: Result<(), Error>)
        ensures
            *final(self) == *old(self),
            closed == match reply {
                Ok(_) => Ok::<(), Error>(()),
                Err(e) => Err::<(), Error>(Error(ErrorKind::Native(e))),
            },
    {
        match reply {
            Ok(_) => Ok(()),
            Err(e) => Err(Error(ErrorKind::Native(e))),
        }
    }
}

} // verus!
