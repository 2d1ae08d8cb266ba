//! Certificates and identities as this layer holds them.
//!
//! The native engine decodes archives and certificates. What it reported is
//! handed in, and this module decides what becomes of it.

use crate::error::{Error, ErrorKind, NativeError};
use vstd::prelude::*;
use vstd::string::StringSliceAdditionalSpecFns;
use vstd::utf8::valid_utf8;

verus! {

/// A single public certificate, held in its binary (DER) encoding.
///
/// Two certificates are the same when their encodings are equal byte for
/// byte.
#[derive(Clone, Debug, PartialEq, Eq)]
pub struct Certificate {
    der: Vec<u8>,
}

impl View for Certificate {
    type V = Seq<u8>;

    closed spec fn view(&self) -> Seq<u8> {
        self.der@
    }
}

/// `core::str::from_utf8`: the text that `buf` encodes, if and only if `buf`
/// is valid UTF-8; the text's bytes are then those of `buf`.
#[verifier::external_body]
fn utf8_text(buf: &[u8]) -> (text: Option<&str>)
    ensures
        text is Some <==> valid_utf8(buf@),
        text matches Some(s) ==> s.spec_bytes() == buf@,
{
    match core::str::from_utf8(buf) {
        Ok(s) => Some(s),
        Err(_) => None,
    }
}

pub(crate) fn copy_bytes(bytes: &[u8]) -> (copy: Vec<u8>)
    ensures
        copy@ == bytes@,
{
    let mut copy: Vec<u8> = Vec::new();
    let n: usize = bytes.len();
    for i in 0..n
        invariant
            n == bytes@.len(),
            copy@ == bytes@.take(i as int),
    {
        copy.push(bytes[i]);
    }
    assert(bytes@.take(n as int) == bytes@);
    copy
}

impl Certificate {
    /// Makes a certificate of the DER bytes `buf`, which the engine was asked
    /// to decode: `decoded` is its verdict.
    ///
    /// Bytes that the engine decoded become the certificate. Its refusal is
    /// the error.
    pub fn from_der(buf: &[u8], decoded: Result<(), NativeError>) -> (made: Result<
        Certificate,
        Error,
    >)
        ensures
            match decoded {
                Ok(_) => made matches Ok(certificate) && certificate@ == buf@,
                Err(e) => made == Err::<Certificate, Error>(Error(ErrorKind::Native(e))),
            },
    {
        match decoded {
            Ok(_) => Ok(Certificate { der: copy_bytes(buf) }),
            Err(e) => Err(Error(ErrorKind::Native(e))),
        }
    }

    /// Reads PEM input as text for the engine to decode.
    ///
    /// Input that is not UTF-8 is rejected here, before the engine sees it.
    pub fn pem_text(buf: &[u8]) -> (text: Result<&str, Error>)
        ensures
            match text {
                Ok(s) => valid_utf8(buf@) && s.spec_bytes() == buf@,
                Err(e) => !valid_utf8(buf@) && e == Error(ErrorKind::InvalidPem),
            },
    {
        match utf8_text(buf) {
            Some(s) => Ok(s),
            None => Err(Error(ErrorKind::InvalidPem)),
        }
    }

    /// Makes a certificate of the PEM input `buf`; `decoded` is what the
    /// engine made of the text: the DER bytes, or its refusal.
    ///
    /// Input that is not UTF-8 is rejected whatever `decoded` holds.
    pub fn from_pem(buf: &[u8], decoded: Result<Vec<u8>, NativeError>) -> (made: Result<
        Certificate,
        Error,
    >)
        ensures
            !valid_utf8(buf@) ==> made == Err::<Certificate, Error>(Error(ErrorKind::InvalidPem)),
            valid_utf8(buf@) ==> match decoded {
                Ok(der) => made matches Ok(certificate) && certificate@ == der@,
                Err(e) => made == Err::<Certificate, Error>(Error(ErrorKind::Native(e))),
            },
    {
        match Certificate::pem_text(buf) {
            Ok(_) => match decoded {
                Ok(der) => Ok(Certificate { der }),
                Err(e) => Err(Error(ErrorKind::Native(e))),
            },
            Err(e) => Err(e),
        }
    }

    /// Returns the binary (DER) encoding of the certificate.
    pub fn to_der(&self) -> (der: Result<Vec<u8>, Error>)
        ensures
            der matches Ok(bytes) && bytes@ == self@,
    {
        Ok(copy_bytes(self.der.as_slice()))
    }

    /// Tells whether two certificates are the same, byte for byte.
    pub fn same_as(&self, other: &Certificate) -> (same: bool)
        ensures
            same == (self@ == other@),
    {
        let n: usize = self.der.len();
        if n != other.der.len() {
            return false;
        }
        for i in 0..n
            invariant
                n == self.der@.len(),
                n == other.der@.len(),
                self.der@.take(i as int) == other.der@.take(i as int),
        {
            if self.der[i] != other.der[i] {
                return false;
            }
            assert(self.der@.take(i + 1) == self.der@.take(i as int).push(self.der@[i as int]));
            assert(other.der@.take(i + 1) == other.der@.take(i as int).push(other.der@[i as int]));
        }
        assert(self.der@.take(n as int) == self.der@);
        assert(other.der@.take(n as int) == other.der@);
        true
    }

    /// Returns a copy of the certificate.
    pub fn duplicate(&self) -> (copy: Certificate)
        ensures
            copy@ == self@,
    {
        Certificate { der: copy_bytes(self.der.as_slice()) }
    }
}

/// One certificate of an imported archive, as the engine reported it.
#[derive(Clone, Debug, PartialEq, Eq)]
pub struct ArchiveEntry {
    /// The certificate.
    pub certificate: Certificate,
    /// Whether the engine could acquire the private key that belongs to it.
    pub key_usable: bool,
}

/// Whether `i` is the position of the first entry with a usable private key.
pub open spec fn is_first_usable(entries: Seq<ArchiveEntry>, i: int) -> bool {
    &&& 0 <= i < entries.len()
    &&& entries[i].key_usable
    &&& forall|j: int| 0 <= j < i ==> !(#[trigger] entries[j]).key_usable
}

/// Whether `der` is the encoding of the first entry with a usable private
/// key.
pub open spec fn selects(entries: Seq<ArchiveEntry>, der: Seq<u8>) -> bool {
    exists|i: int| is_first_usable(entries, i) && der == entries[i].certificate@
}

/// Whether no entry has a usable private key.
pub open spec fn none_usable(entries: Seq<ArchiveEntry>) -> bool {
    forall|i: int| 0 <= i < entries.len() ==> !(#[trigger] entries[i]).key_usable
}

/// The entries up to the first usable key decide the identity: whatever
/// stands behind it, the same certificate is selected.
pub proof fn lemma_first_usable_decides(entries: Seq<ArchiveEntry>, i: int, der: Seq<u8>)
    requires
        is_first_usable(entries, i),
    ensures
        is_first_usable(entries.take(i + 1), i),
        selects(entries.take(i + 1), der) <==> selects(entries, der),
        selects(entries, der) <==> der == entries[i].certificate@,
{
    let probed = entries.take(i + 1);
    assert forall|j: int| 0 <= j < i implies !(#[trigger] probed[j]).key_usable by {
        assert(probed[j] == entries[j]);
    }
    assert(probed[i] == entries[i]);
    assert(is_first_usable(probed, i));
    assert forall|k: int| is_first_usable(entries, k) implies k == i by {
        if k < i {
            assert(!entries[k].key_usable);
        } else if i < k {
            assert(!entries[i].key_usable);
        }
    }
    assert forall|k: int| is_first_usable(probed, k) implies k == i by {
        if k < i {
            assert(!probed[k].key_usable);
        }
    }
}

/// A certificate bound to its private key, with which one side of a
/// connection proves who it is.
#[derive(Clone, Debug, PartialEq, Eq)]
pub struct Identity {
    cert: Certificate,
}

impl View for Identity {
    type V = Seq<u8>;

    closed spec fn view(&self) -> Seq<u8> {
        self.cert@
    }
}

impl Identity {
    /// Selects the identity of an imported archive; `archive` is what the
    /// engine made of the archive and its passphrase: the certificates in
    /// archive order, or its refusal.
    ///
    /// The identity is the first certificate whose private key is usable. An
    /// archive without one is rejected. What stands behind the first usable
    /// key decides nothing, so the engine need not be asked about it.
    pub fn from_pkcs12(archive: Result<Vec<ArchiveEntry>, NativeError>) -> (made: Result<
        Identity,
        Error,
    >)
        ensures
            match archive {
                Err(e) => made == Err::<Identity, Error>(Error(ErrorKind::Native(e))),
                Ok(entries) => match made {
                    Ok(identity) => selects(entries@, identity@),
                    Err(error) => error == Error(ErrorKind::NoIdentity) && none_usable(entries@),
                },
            },
    {
        let mut entries = match archive {
            Ok(entries) => entries,
            Err(e) => {
                return Err(Error(ErrorKind::Native(e)));
            },
        };
        match Identity::first_usable(&entries) {
            Some(i) => {
                let entry = entries.remove(i);
                Ok(Identity { cert: entry.certificate })
            },
            None => Err(Error(ErrorKind::NoIdentity)),
        }
    }

    /// Finds the entry of an archive that becomes the identity: the first
    /// whose private key is usable.
    pub fn first_usable(entries: &Vec<ArchiveEntry>) -> (found: Option<usize>)
        ensures
            match found {
                Some(i) => is_first_usable(entries@, i as int),
                None => none_usable(entries@),
            },
    {
        let n: usize = entries.len();
        let mut i: usize = 0;
        while i < n
            invariant
                i <= n,
                n == entries@.len(),
                forall|j: int| 0 <= j < i ==> !(#[trigger] entries@[j]).key_usable,
            decreases n - i,
        {
            if entries[i].key_usable {
                return Some(i);
            }
            i += 1;
        }
        None
    }

    /// Returns the certificate of the identity.
    pub fn certificate(&self) -> (certificate: &Certificate)
        ensures
            certificate@ == self@,
    {
        &self.cert
    }

    /// Returns a copy of the identity.
    pub fn duplicate(&self) -> (copy: Identity)
        ensures
            copy@ == self@,
    {
        Identity { cert: self.cert.duplicate() }
    }
}

} // verus!
