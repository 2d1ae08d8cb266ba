//! The trust policy laid over the platform's certificate validation.
//!
//! One of three policies is selected once per connection. The handshake
//! driver evaluates it on what platform validation found and on the chain the
//! peer presented.

use crate::certificate::Certificate;
use crate::error::{Error, ErrorKind, NativeError};
use vstd::prelude::*;

verus! {

/// The encodings of a run of certificates.
pub open spec fn encodings(certificates: Seq<Certificate>) -> Seq<Seq<u8>> {
    certificates.map_values(|c: Certificate| c@)
}

/// A trust policy as contracts see it.
pub enum Policy {
    /// Platform validation decides alone.
    Default,
    /// Every chain is accepted.
    AcceptAll,
    /// Platform validation must pass, and the chain must hold one of these
    /// caller-supplied roots.
    RequireOwnRootInChain(Seq<Seq<u8>>),
}

/// The policy of a connection, highest priority first: accepting invalid
/// certificates overrides everything; else, with the built-in roots disabled,
/// a caller-supplied root must be in the chain; else the platform decides.
pub open spec fn selected(
    accept_invalid_certs: bool,
    disable_built_in_roots: bool,
    roots: Seq<Seq<u8>>,
) -> Policy {
    if accept_invalid_certs {
        Policy::AcceptAll
    } else if disable_built_in_roots {
        Policy::RequireOwnRootInChain(roots)
    } else {
        Policy::Default
    }
}

/// Whether some certificate of `chain` equals, byte for byte, one of `roots`.
pub open spec fn holds_own_root(roots: Seq<Seq<u8>>, chain: Seq<Seq<u8>>) -> bool {
    exists|i: int, j: int|
        0 <= i < chain.len() && 0 <= j < roots.len() && #[trigger] chain[i] == #[trigger] roots[j]
}

/// The verdict of `policy` on a chain, given what platform validation found.
pub open spec fn verdict(
    policy: Policy,
    platform: Result<(), NativeError>,
    chain: Option<Seq<Seq<u8>>>,
) -> Result<(), Error> {
    match policy {
        Policy::AcceptAll => Ok(()),
        Policy::Default => match platform {
            Ok(_) => Ok(()),
            Err(e) => Err(Error(ErrorKind::Native(e))),
        },
        Policy::RequireOwnRootInChain(roots) => match platform {
            Err(e) => Err(Error(ErrorKind::Native(e))),
            Ok(_) => if chain matches Some(presented) && holds_own_root(roots, presented) {
                Ok(())
            } else {
                Err(Error(ErrorKind::NoCallerRoot))
            },
        },
    }
}

/// The trust policy of one connection.
#[derive(Clone, Debug, PartialEq, Eq)]
pub enum TrustPolicy {
    /// Platform validation decides alone.
    Default,
    /// Every chain is accepted.
    AcceptAll,
    /// Platform validation must pass, and the chain must hold one of these
    /// caller-supplied roots.
    RequireOwnRootInChain(Vec<Certificate>),
}

impl View for TrustPolicy {
    type V = Policy;

    open spec fn view(&self) -> Policy {
        match self {
            TrustPolicy::Default => Policy::Default,
            TrustPolicy::AcceptAll => Policy::AcceptAll,
            TrustPolicy::RequireOwnRootInChain(roots) => Policy::RequireOwnRootInChain(
                encodings(roots@),
            ),
        }
    }
}

/// Copies a run of certificates.
pub fn copy_certificates(certificates: &Vec<Certificate>) -> (copy: Vec<Certificate>)
    ensures
        encodings(copy@) == encodings(certificates@),
{
    let mut copy: Vec<Certificate> = Vec::new();
    let n: usize = certificates.len();
    for i in 0..n
        invariant
            n == certificates@.len(),
            copy@.len() == i,
            forall|k: int| 0 <= k < i ==> (#[trigger] copy@[k])@ == certificates@[k]@,
    {
        copy.push(certificates[i].duplicate());
    }
    assert(encodings(copy@) =~= encodings(certificates@));
    copy
}

fn is_among(certificate: &Certificate, roots: &Vec<Certificate>) -> (found: bool)
    ensures
        found == exists|j: int| 0 <= j < roots@.len() && certificate@ == (#[trigger] roots@[j])@,
{
    let n: usize = roots.len();
    for j in 0..n
        invariant
            n == roots@.len(),
            forall|k: int| 0 <= k < j ==> certificate@ != (#[trigger] roots@[k])@,
    {
        if certificate.same_as(&roots[j]) {
            return true;
        }
    }
    false
}

fn chain_holds_own_root(roots: &Vec<Certificate>, chain: &Vec<Certificate>) -> (found: bool)
    ensures
        found == holds_own_root(encodings(roots@), encodings(chain@)),
{
    let n: usize = chain.len();
    for i in 0..n
        invariant
            n == chain@.len(),
            forall|k: int, j: int|
                0 <= k < i && 0 <= j < roots@.len() ==> (#[trigger] chain@[k])@ != (
                #[trigger] roots@[j])@,
    {
        if is_among(&chain[i], roots) {
            let ghost j = choose|j: int| 0 <= j < roots@.len() && chain@[i as int]@ == (
            #[trigger] roots@[j])@;
            assert(encodings(chain@)[i as int] == encodings(roots@)[j]);
            return true;
        }
    }
    assert forall|k: int, j: int|
        0 <= k < chain@.len() && 0 <= j < roots@.len() implies #[trigger] encodings(chain@)[k]
        != #[trigger] encodings(roots@)[j] by {
        assert(chain@[k]@ != roots@[j]@);
    }
    false
}

impl TrustPolicy {
    /// Selects the policy of a connection from the two override toggles and
    /// the caller-supplied roots.
    pub fn select(
        accept_invalid_certs: bool,
        disable_built_in_roots: bool,
        roots: &Vec<Certificate>,
    ) -> (policy: TrustPolicy)
        ensures
            policy@ == selected(accept_invalid_certs, disable_built_in_roots, encodings(roots@)),
    {
        if accept_invalid_certs {
            TrustPolicy::AcceptAll
        } else if disable_built_in_roots {
            TrustPolicy::RequireOwnRootInChain(copy_certificates(roots))
        } else {
            TrustPolicy::Default
        }
    }

    /// Tells whether the policy replaces the platform's verdict, so that the
    /// engine has to ask it.
    pub fn overrides(&self) -> (installed: bool)
        ensures
            installed == !(self@ is Default),
    {
        match self {
            TrustPolicy::Default => false,
            _ => true,
        }
    }

    /// Gives the policy's verdict on the chain a peer presented.
    ///
    /// `platform` is the result of the platform's own validation and `chain`
    /// the final chain it built, if it built one. A platform failure is
    /// handed on unchanged; the error of a missing caller-supplied root is
    /// made only where platform validation passed.
    pub fn evaluate(&self, platform: Result<(), NativeError>, chain: Option<&Vec<Certificate>>) -> (
    result: Result<(), Error>)
        ensures
            result == verdict(
                self@,
                platform,
                match chain {
                    Some(presented) => Some(encodings(presented@)),
                    None => None,
                },
            ),
    {
        match self {
            TrustPolicy::AcceptAll => Ok(()),
            TrustPolicy::Default => match platform {
                Ok(_) => Ok(()),
                Err(e) => Err(Error(ErrorKind::Native(e))),
            },
            TrustPolicy::RequireOwnRootInChain(roots) => match platform {
                Err(e) => Err(Error(ErrorKind::Native(e))),
                Ok(_) => {
                    let trusted = match chain {
                        Some(presented) => chain_holds_own_root(roots, presented),
                        None => false,
                    };
                    if trusted {
                        Ok(())
                    } else {
                        Err(Error(ErrorKind::NoCallerRoot))
                    }
                },
            },
        }
    }
}

/// Accepting invalid certificates accepts every chain, also one that platform
/// validation rejects, and overrides the other toggle.
pub proof fn lemma_accept_all_accepts(
    disable_built_in_roots: bool,
    roots: Seq<Seq<u8>>,
    platform: Result<(), NativeError>,
    chain: Option<Seq<Seq<u8>>>,
)
    ensures
        verdict(selected(true, disable_built_in_roots, roots), platform, chain) == Ok::<(), Error>(
            (),
        ),
{
}

/// With the built-in roots disabled, a chain that platform validation passed
/// and whose leaf is one of the caller-supplied roots is accepted.
pub proof fn lemma_own_leaf_is_trusted(roots: Seq<Seq<u8>>, chain: Seq<Seq<u8>>)
    requires
        chain.len() > 0,
        roots.contains(chain[0]),
    ensures
        verdict(selected(false, true, roots), Ok(()), Some(chain)) == Ok::<(), Error>(()),
{
    let j = choose|j: int| 0 <= j < roots.len() && roots[j] == chain[0];
    assert(chain[0] == roots[j]);
}

/// With the built-in roots disabled, a chain that platform validation passed
/// but that holds none of the caller-supplied roots is rejected with the
/// error of this layer, which differs from `engine`, whatever the engine
/// reported there.
pub proof fn lemma_missing_root_is_rejected(
    roots: Seq<Seq<u8>>,
    chain: Option<Seq<Seq<u8>>>,
    engine: NativeError,
)
    requires
        chain matches Some(presented) ==> !holds_own_root(roots, presented),
    ensures
        verdict(selected(false, true, roots), Ok(()), chain) == Err::<(), Error>(
            Error(ErrorKind::NoCallerRoot),
        ),
        verdict(selected(false, true, roots), Ok(()), chain) != Err::<(), Error>(
            Error(ErrorKind::Native(engine)),
        ),
{
}

/// With the built-in roots disabled, a failure of platform validation is the
/// verdict, unchanged, whatever the chain holds: the policy never puts its
/// own error in the place of the platform's.
pub proof fn lemma_platform_failure_is_kept(
    roots: Seq<Seq<u8>>,
    failure: NativeError,
    chain: Option<Seq<Seq<u8>>>,
)
    ensures
        verdict(selected(false, true, roots), Err(failure), chain) == Err::<(), Error>(
            Error(ErrorKind::Native(failure)),
        ),
        verdict(selected(false, true, roots), Err(failure), chain) != Err::<(), Error>(
            Error(ErrorKind::NoCallerRoot),
        ),
{
}

/// With neither toggle set, the platform's verdict stands.
pub proof fn lemma_default_defers(
    roots: Seq<Seq<u8>>,
    platform: Result<(), NativeError>,
    chain: Option<Seq<Seq<u8>>>,
)
    ensures
        verdict(selected(false, false, roots), platform, chain) == match platform {
            Ok(_) => Ok::<(), Error>(()),
            Err(e) => Err::<(), Error>(Error(ErrorKind::Native(e))),
        },
{
}

} // verus!
