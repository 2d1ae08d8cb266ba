//! Translation of a cipher-suite policy into the engine's algorithm identifiers.

use vstd::prelude::*;
use vstd::std_specs::convert::FromSpecImpl;

verus! {

/// Key-exchange algorithms a cipher-suite policy may permit.
#[derive(Clone, Copy, Debug, PartialEq, Eq, Structural)]
pub enum TlsKeyExchangeAlgorithm {
    Dhe,
    Ecdhe,
    Rsa,
}

/// Signature algorithms a cipher-suite policy may permit.
#[derive(Clone, Copy, Debug, PartialEq, Eq, Structural)]
pub enum TlsSignatureAlgorithm {
    Dss,
    Ecdsa,
    Rsa,
}

/// Bulk-encryption algorithms a cipher-suite policy may permit.
#[derive(Clone, Copy, Debug, PartialEq, Eq, Structural)]
pub enum TlsBulkEncryptionAlgorithm {
    Aes128,
    Aes256,
    Des,
    Rc2,
    Rc4,
    TripleDes,
}

/// Hash algorithms a cipher-suite policy may permit.
#[derive(Clone, Copy, Debug, PartialEq, Eq, Structural)]
pub enum TlsHashAlgorithm {
    Md5,
    Sha1,
    Sha256,
    Sha384,
}

/// A declarative cipher-suite policy: the permitted algorithms of each of the
/// four families.
#[derive(Clone, Debug, PartialEq, Eq)]
pub struct CipherSuiteSet {
    pub key_exchange: Vec<TlsKeyExchangeAlgorithm>,
    pub signature: Vec<TlsSignatureAlgorithm>,
    pub bulk_encryption: Vec<TlsBulkEncryptionAlgorithm>,
    pub hash: Vec<TlsHashAlgorithm>,
}

/// An algorithm as the native engine names it.
#[derive(Clone, Copy, Debug, PartialEq, Eq, Structural)]
pub enum Algorithm {
    /// Ephemeral Diffie-Hellman key exchange.
    DhEphem,
    /// Ephemeral elliptic-curve Diffie-Hellman key exchange.
    EcdhEphem,
    /// RSA key exchange.
    RsaKeyx,
    /// DSA signatures.
    DssSign,
    /// Elliptic-curve DSA signatures.
    Ecdsa,
    /// RSA signatures.
    RsaSign,
    /// AES with 128-bit keys.
    Aes128,
    /// AES with 256-bit keys.
    Aes256,
    /// DES.
    Des,
    /// RC2.
    Rc2,
    /// RC4.
    Rc4,
    /// Triple DES.
    TripleDes,
    /// MD5.
    Md5,
    /// SHA-1.
    Sha1,
    /// SHA-256.
    Sha256,
    /// SHA-384.
    Sha384,
}

impl Algorithm {
    /// The engine's numeric identifier of the algorithm: its class, type and
    /// sub-identifier packed into one word.
    pub open spec fn native_id(self) -> u32 {
        match self {
            Algorithm::DhEphem => 0xaa02,
            Algorithm::EcdhEphem => 0xae06,
            Algorithm::RsaKeyx => 0xa400,
            Algorithm::DssSign => 0x2200,
            Algorithm::Ecdsa => 0x2203,
            Algorithm::RsaSign => 0x2400,
            Algorithm::Aes128 => 0x660e,
            Algorithm::Aes256 => 0x6610,
            Algorithm::Des => 0x6601,
            Algorithm::Rc2 => 0x6602,
            Algorithm::Rc4 => 0x6801,
            Algorithm::TripleDes => 0x6603,
            Algorithm::Md5 => 0x8003,
            Algorithm::Sha1 => 0x8004,
            Algorithm::Sha256 => 0x800c,
            Algorithm::Sha384 => 0x800d,
        }
    }

    /// Returns the engine's numeric identifier of the algorithm.
    pub fn id(self) -> (id: u32)
        ensures
            id == self.native_id(),
    {
        match self {
            Algorithm::DhEphem => 0xaa02,
            Algorithm::EcdhEphem => 0xae06,
            Algorithm::RsaKeyx => 0xa400,
            Algorithm::DssSign => 0x2200,
            Algorithm::Ecdsa => 0x2203,
            Algorithm::RsaSign => 0x2400,
            Algorithm::Aes128 => 0x660e,
            Algorithm::Aes256 => 0x6610,
            Algorithm::Des => 0x6601,
            Algorithm::Rc2 => 0x6602,
            Algorithm::Rc4 => 0x6801,
            Algorithm::TripleDes => 0x6603,
            Algorithm::Md5 => 0x8003,
            Algorithm::Sha1 => 0x8004,
            Algorithm::Sha256 => 0x800c,
            Algorithm::Sha384 => 0x800d,
        }
    }
}

impl From<TlsKeyExchangeAlgorithm> for Algorithm {
    fn from(other: TlsKeyExchangeAlgorithm) -> (native: Algorithm) {
        match other {
            TlsKeyExchangeAlgorithm::Dhe => Algorithm::DhEphem,
            TlsKeyExchangeAlgorithm::Ecdhe => Algorithm::EcdhEphem,
            TlsKeyExchangeAlgorithm::Rsa => Algorithm::RsaKeyx,
        }
    }
}

impl FromSpecImpl<TlsKeyExchangeAlgorithm> for Algorithm {
    open spec fn obeys_from_spec() -> bool {
        true
    }

    open spec fn from_spec(other: TlsKeyExchangeAlgorithm) -> Algorithm {
        other.native()
    }
}

impl TlsKeyExchangeAlgorithm {
    /// The engine's name for the algorithm.
    pub open spec fn native(self) -> Algorithm {
        match self {
            TlsKeyExchangeAlgorithm::Dhe => Algorithm::DhEphem,
            TlsKeyExchangeAlgorithm::Ecdhe => Algorithm::EcdhEphem,
            TlsKeyExchangeAlgorithm::Rsa => Algorithm::RsaKeyx,
        }
    }
}

impl From<TlsSignatureAlgorithm> for Algorithm {
    fn from(other: TlsSignatureAlgorithm) -> (native: Algorithm) {
        match other {
            TlsSignatureAlgorithm::Dss => Algorithm::DssSign,
            TlsSignatureAlgorithm::Ecdsa => Algorithm::Ecdsa,
            TlsSignatureAlgorithm::Rsa => Algorithm::RsaSign,
        }
    }
}

impl FromSpecImpl<TlsSignatureAlgorithm> for Algorithm {
    open spec fn obeys_from_spec() -> bool {
        true
    }

    open spec fn from_spec(other: TlsSignatureAlgorithm) -> Algorithm {
        other.native()
    }
}

impl TlsSignatureAlgorithm {
    /// The engine's name for the algorithm.
    pub open spec fn native(self) -> Algorithm {
        match self {
            TlsSignatureAlgorithm::Dss => Algorithm::DssSign,
            TlsSignatureAlgorithm::Ecdsa => Algorithm::Ecdsa,
            TlsSignatureAlgorithm::Rsa => Algorithm::RsaSign,
        }
    }
}

impl From<TlsBulkEncryptionAlgorithm> for Algorithm {
    fn from(other: TlsBulkEncryptionAlgorithm) -> (native: Algorithm) {
        match other {
            TlsBulkEncryptionAlgorithm::Aes128 => Algorithm::Aes128,
            TlsBulkEncryptionAlgorithm::Aes256 => Algorithm::Aes256,
            TlsBulkEncryptionAlgorithm::Des => Algorithm::Des,
            TlsBulkEncryptionAlgorithm::Rc2 => Algorithm::Rc2,
            TlsBulkEncryptionAlgorithm::Rc4 => Algorithm::Rc4,
            TlsBulkEncryptionAlgorithm::TripleDes => Algorithm::TripleDes,
        }
    }
}

impl FromSpecImpl<TlsBulkEncryptionAlgorithm> for Algorithm {
    open spec fn obeys_from_spec() -> bool {
        true
    }

    open spec fn from_spec(other: TlsBulkEncryptionAlgorithm) -> Algorithm {
        other.native()
    }
}

impl TlsBulkEncryptionAlgorithm {
    /// The engine's name for the algorithm.
    pub open spec fn native(self) -> Algorithm {
        match self {
            TlsBulkEncryptionAlgorithm::Aes128 => Algorithm::Aes128,
            TlsBulkEncryptionAlgorithm::Aes256 => Algorithm::Aes256,
            TlsBulkEncryptionAlgorithm::Des => Algorithm::Des,
            TlsBulkEncryptionAlgorithm::Rc2 => Algorithm::Rc2,
            TlsBulkEncryptionAlgorithm::Rc4 => Algorithm::Rc4,
            TlsBulkEncryptionAlgorithm::TripleDes => Algorithm::TripleDes,
        }
    }
}

impl From<TlsHashAlgorithm> for Algorithm {
    fn from(other: TlsHashAlgorithm) -> (native: Algorithm) {
        match other {
            TlsHashAlgorithm::Md5 => Algorithm::Md5,
            TlsHashAlgorithm::Sha1 => Algorithm::Sha1,
            TlsHashAlgorithm::Sha256 => Algorithm::Sha256,
            TlsHashAlgorithm::Sha384 => Algorithm::Sha384,
        }
    }
}

impl FromSpecImpl<TlsHashAlgorithm> for Algorithm {
    open spec fn obeys_from_spec() -> bool {
        true
    }

    open spec fn from_spec(other: TlsHashAlgorithm) -> Algorithm {
        other.native()
    }
}

impl TlsHashAlgorithm {
    /// The engine's name for the algorithm.
    pub open spec fn native(self) -> Algorithm {
        match self {
            TlsHashAlgorithm::Md5 => Algorithm::Md5,
            TlsHashAlgorithm::Sha1 => Algorithm::Sha1,
            TlsHashAlgorithm::Sha256 => Algorithm::Sha256,
            TlsHashAlgorithm::Sha384 => Algorithm::Sha384,
        }
    }
}

/// The engine's names for a whole policy: key exchange first, then signature,
/// bulk encryption and hash, each family in the order the policy lists it.
pub open spec fn expanded(
    key_exchange: Seq<TlsKeyExchangeAlgorithm>,
    signature: Seq<TlsSignatureAlgorithm>,
    bulk_encryption: Seq<TlsBulkEncryptionAlgorithm>,
    hash: Seq<TlsHashAlgorithm>,
) -> Seq<Algorithm> {
    key_exchange.map_values(|a: TlsKeyExchangeAlgorithm| a.native())
        + signature.map_values(|a: TlsSignatureAlgorithm| a.native())
        + bulk_encryption.map_values(|a: TlsBulkEncryptionAlgorithm| a.native())
        + hash.map_values(|a: TlsHashAlgorithm| a.native())
}

impl CipherSuiteSet {
    /// The engine's names for this policy.
    pub open spec fn native(&self) -> Seq<Algorithm> {
        expanded(self.key_exchange@, self.signature@, self.bulk_encryption@, self.hash@)
    }
}

/// Translates a policy into the engine's algorithm identifiers, the four
/// families concatenated in their fixed order.
pub fn expand_algorithms(cipher_suites: &CipherSuiteSet) -> (ret: Vec<Algorithm>)
    ensures
        ret@ == cipher_suites.native(),
{
    let mut ret: Vec<Algorithm> = Vec::new();
    let ghost kx = cipher_suites.key_exchange@.map_values(
        |a: TlsKeyExchangeAlgorithm| a.native(),
    );
    let ghost sig = cipher_suites.signature@.map_values(
        |a: TlsSignatureAlgorithm| a.native(),
    );
    let ghost bulk = cipher_suites.bulk_encryption@.map_values(
        |a: TlsBulkEncryptionAlgorithm| a.native(),
    );
    let ghost hash = cipher_suites.hash@.map_values(|a: TlsHashAlgorithm| a.native());

    let n_kx: usize = cipher_suites.key_exchange.len();
    for i in 0..n_kx
        invariant
            n_kx == cipher_suites.key_exchange@.len(),
            kx == cipher_suites.key_exchange@.map_values(
                |a: TlsKeyExchangeAlgorithm| a.native(),
            ),
            ret@ == kx.take(i as int),
    {
        ret.push(Algorithm::from(cipher_suites.key_exchange[i]));
    }
    assert(ret@ == kx);

    let n_sig: usize = cipher_suites.signature.len();
    for i in 0..n_sig
        invariant
            n_sig == cipher_suites.signature@.len(),
            sig == cipher_suites.signature@.map_values(
                |a: TlsSignatureAlgorithm| a.native(),
            ),
            ret@ == kx + sig.take(i as int),
    {
        ret.push(Algorithm::from(cipher_suites.signature[i]));
    }
    assert(ret@ == kx + sig);

    let n_bulk: usize = cipher_suites.bulk_encryption.len();
    for i in 0..n_bulk
        invariant
            n_bulk == cipher_suites.bulk_encryption@.len(),
            bulk == cipher_suites.bulk_encryption@.map_values(
                |a: TlsBulkEncryptionAlgorithm| a.native(),
            ),
            ret@ == kx + sig + bulk.take(i as int),
    {
        ret.push(Algorithm::from(cipher_suites.bulk_encryption[i]));
    }
    assert(ret@ == kx + sig + bulk);

    let n_hash: usize = cipher_suites.hash.len();
    for i in 0..n_hash
        invariant
            n_hash == cipher_suites.hash@.len(),
            hash == cipher_suites.hash@.map_values(|a: TlsHashAlgorithm| a.native()),
            ret@ == kx + sig + bulk + hash.take(i as int),
    {
        ret.push(Algorithm::from(cipher_suites.hash[i]));
    }
    assert(ret@ == kx + sig + bulk + hash);
    ret
}

/// An algorithm of any of the four families a policy speaks of.
pub enum PolicyAlgorithm {
    KeyExchange(TlsKeyExchangeAlgorithm),
    Signature(TlsSignatureAlgorithm),
    BulkEncryption(TlsBulkEncryptionAlgorithm),
    Hash(TlsHashAlgorithm),
}

impl PolicyAlgorithm {
    /// The engine's name for the algorithm.
    pub open spec fn native(self) -> Algorithm {
        match self {
            PolicyAlgorithm::KeyExchange(a) => a.native(),
            PolicyAlgorithm::Signature(a) => a.native(),
            PolicyAlgorithm::BulkEncryption(a) => a.native(),
            PolicyAlgorithm::Hash(a) => a.native(),
        }
    }
}

/// No two algorithms of a policy, of one family or of two, share a native
/// name or a native identifier.
pub proof fn lemma_mapping_is_injective(a: PolicyAlgorithm, b: PolicyAlgorithm)
    ensures
        a.native() == b.native() ==> a == b,
        a.native().native_id() == b.native().native_id() ==> a == b,
{
}

/// Distinct native names carry distinct native identifiers.
pub proof fn lemma_native_ids_are_distinct(x: Algorithm, y: Algorithm)
    ensures
        x.native_id() == y.native_id() ==> x == y,
{
}

/// Every native name is the image of an algorithm of the policy: the mapping
/// leaves none out.
pub proof fn lemma_mapping_is_onto(x: Algorithm)
    ensures
        exists|a: PolicyAlgorithm| #[trigger] a.native() == x,
{
    let a = match x {
        Algorithm::DhEphem => PolicyAlgorithm::KeyExchange(TlsKeyExchangeAlgorithm::Dhe),
        Algorithm::EcdhEphem => PolicyAlgorithm::KeyExchange(TlsKeyExchangeAlgorithm::Ecdhe),
        Algorithm::RsaKeyx => PolicyAlgorithm::KeyExchange(TlsKeyExchangeAlgorithm::Rsa),
        Algorithm::DssSign => PolicyAlgorithm::Signature(TlsSignatureAlgorithm::Dss),
        Algorithm::Ecdsa => PolicyAlgorithm::Signature(TlsSignatureAlgorithm::Ecdsa),
        Algorithm::RsaSign => PolicyAlgorithm::Signature(TlsSignatureAlgorithm::Rsa),
        Algorithm::Aes128 => PolicyAlgorithm::BulkEncryption(TlsBulkEncryptionAlgorithm::Aes128),
        Algorithm::Aes256 => PolicyAlgorithm::BulkEncryption(TlsBulkEncryptionAlgorithm::Aes256),
        Algorithm::Des => PolicyAlgorithm::BulkEncryption(TlsBulkEncryptionAlgorithm::Des),
        Algorithm::Rc2 => PolicyAlgorithm::BulkEncryption(TlsBulkEncryptionAlgorithm::Rc2),
        Algorithm::Rc4 => PolicyAlgorithm::BulkEncryption(TlsBulkEncryptionAlgorithm::Rc4),
        Algorithm::TripleDes => PolicyAlgorithm::BulkEncryption(
            TlsBulkEncryptionAlgorithm::TripleDes,
        ),
        Algorithm::Md5 => PolicyAlgorithm::Hash(TlsHashAlgorithm::Md5),
        Algorithm::Sha1 => PolicyAlgorithm::Hash(TlsHashAlgorithm::Sha1),
        Algorithm::Sha256 => PolicyAlgorithm::Hash(TlsHashAlgorithm::Sha256),
        Algorithm::Sha384 => PolicyAlgorithm::Hash(TlsHashAlgorithm::Sha384),
    };
    assert(a.native() == x);
}

} // verus!
