use tls_session::{Certificate, Error, ErrorKind, NativeError, TrustPolicy};

fn certificate(der: &[u8]) -> Certificate {
    Certificate::from_der(der, Ok(())).unwrap()
}

fn untrusted_root() -> NativeError {
    NativeError {
        code: Some(-2146762487),
        message: "A certificate chain processed, but terminated in a root certificate which is \
                  not trusted by the trust provider."
            .to_string(),
    }
}

#[test]
fn accepting_invalid_certs_has_priority() {
    let roots = vec![certificate(&[1])];
    assert_eq!(TrustPolicy::select(true, true, &roots), TrustPolicy::AcceptAll);
    assert_eq!(TrustPolicy::select(true, false, &roots), TrustPolicy::AcceptAll);
}

#[test]
fn disabling_built_in_roots_requires_an_own_root() {
    let roots = vec![certificate(&[1]), certificate(&[2])];
    assert_eq!(
        TrustPolicy::select(false, true, &roots),
        TrustPolicy::RequireOwnRootInChain(vec![certificate(&[1]), certificate(&[2])])
    );
}

#[test]
fn no_toggle_leaves_the_platform_in_charge() {
    assert_eq!(TrustPolicy::select(false, false, &vec![certificate(&[1])]), TrustPolicy::Default);
    assert!(!TrustPolicy::Default.overrides());
    assert!(TrustPolicy::AcceptAll.overrides());
    assert!(TrustPolicy::RequireOwnRootInChain(vec![]).overrides());
}

#[test]
fn accept_all_accepts_a_chain_the_platform_rejects() {
    let chain = vec![certificate(&[7])];
    assert_eq!(TrustPolicy::AcceptAll.evaluate(Err(untrusted_root()), Some(&chain)), Ok(()));
    assert_eq!(TrustPolicy::AcceptAll.evaluate(Err(untrusted_root()), None), Ok(()));
    assert_eq!(TrustPolicy::AcceptAll.evaluate(Ok(()), Some(&chain)), Ok(()));
}

#[test]
fn default_hands_the_platform_verdict_on() {
    let chain = vec![certificate(&[7])];
    assert_eq!(TrustPolicy::Default.evaluate(Ok(()), Some(&chain)), Ok(()));
    assert_eq!(
        TrustPolicy::Default.evaluate(Err(untrusted_root()), Some(&chain)),
        Err(Error(ErrorKind::Native(untrusted_root())))
    );
}

#[test]
fn own_leaf_among_the_roots_is_trusted() {
    let policy = TrustPolicy::select(false, true, &vec![certificate(&[1]), certificate(&[5, 5])]);
    let chain = vec![certificate(&[5, 5]), certificate(&[8])];
    assert_eq!(policy.evaluate(Ok(()), Some(&chain)), Ok(()));
}

#[test]
fn own_root_anywhere_in_the_chain_is_trusted() {
    let policy = TrustPolicy::select(false, true, &vec![certificate(&[1])]);
    let chain = vec![certificate(&[3]), certificate(&[2]), certificate(&[1])];
    assert_eq!(policy.evaluate(Ok(()), Some(&chain)), Ok(()));
}

#[test]
fn chain_without_an_own_root_gets_the_distinct_error() {
    let policy = TrustPolicy::select(false, true, &vec![certificate(&[1])]);
    let chain = vec![certificate(&[3]), certificate(&[2])];
    assert_eq!(policy.evaluate(Ok(()), Some(&chain)), Err(Error(ErrorKind::NoCallerRoot)));
}

#[test]
fn prefix_of_a_root_is_no_root() {
    let policy = TrustPolicy::select(false, true, &vec![certificate(&[1, 2, 3])]);
    let chain = vec![certificate(&[1, 2]), certificate(&[1, 2, 3, 4])];
    assert_eq!(policy.evaluate(Ok(()), Some(&chain)), Err(Error(ErrorKind::NoCallerRoot)));
}

#[test]
fn missing_chain_gets_the_distinct_error() {
    let policy = TrustPolicy::select(false, true, &vec![certificate(&[1])]);
    assert_eq!(policy.evaluate(Ok(()), None), Err(Error(ErrorKind::NoCallerRoot)));
    assert_eq!(policy.evaluate(Ok(()), Some(&vec![])), Err(Error(ErrorKind::NoCallerRoot)));
}

#[test]
fn no_roots_supplied_trusts_nothing() {
    let policy = TrustPolicy::select(false, true, &vec![]);
    let chain = vec![certificate(&[1])];
    assert_eq!(policy.evaluate(Ok(()), Some(&chain)), Err(Error(ErrorKind::NoCallerRoot)));
}

#[test]
fn platform_failure_is_not_masked_by_the_override() {
    let policy = TrustPolicy::select(false, true, &vec![certificate(&[1])]);
    let without_root = vec![certificate(&[2])];
    let with_root = vec![certificate(&[1])];
    let expected = Err(Error(ErrorKind::Native(untrusted_root())));
    assert_eq!(policy.evaluate(Err(untrusted_root()), Some(&without_root)), expected);
    assert_eq!(policy.evaluate(Err(untrusted_root()), Some(&with_root)), expected);
    assert_eq!(policy.evaluate(Err(untrusted_root()), None), expected);
}
