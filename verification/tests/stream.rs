use tls_session::{
    drive, BindingHash, Certificate, CertificateQuery, CertificateSource, Error, ErrorKind,
    NativeError, Role, StepOutcome, TlsStream, NO_CREDENTIALS,
};

fn session(role: Role) -> TlsStream<u8> {
    drive(0u8, role, StepOutcome::Complete).unwrap()
}

fn absent() -> NativeError {
    NativeError {
        code: Some(NO_CREDENTIALS),
        message: "No credentials are available in the security package".to_string(),
    }
}

fn broken() -> NativeError {
    NativeError { code: Some(-2146893055), message: "The handle specified is invalid".to_string() }
}

fn signed(family: &str) -> CertificateQuery {
    CertificateQuery::SignedWith(family.to_string())
}

#[test]
fn no_credentials_status_has_its_exact_value() {
    assert_eq!(NO_CREDENTIALS, 0x8009030Eu32 as i32);
    assert!(absent().is_no_credentials());
    assert!(!broken().is_no_credentials());
    assert!(!NativeError { code: None, message: String::new() }.is_no_credentials());
}

#[test]
fn sha384_family_binds_with_sha384() {
    assert_eq!(BindingHash::for_signature_family("RSA/SHA384"), Some(BindingHash::Sha384));
}

#[test]
fn sha512_family_binds_with_sha512() {
    assert_eq!(BindingHash::for_signature_family("RSA/SHA512"), Some(BindingHash::Sha512));
}

#[test]
fn md5_family_binds_with_sha256() {
    assert_eq!(BindingHash::for_signature_family("RSA/MD5"), Some(BindingHash::Sha256));
}

#[test]
fn sha1_and_sha256_families_bind_with_sha256() {
    assert_eq!(BindingHash::for_signature_family("RSA/SHA1"), Some(BindingHash::Sha256));
    assert_eq!(BindingHash::for_signature_family("RSA/SHA256"), Some(BindingHash::Sha256));
    assert_eq!(BindingHash::for_signature_family("ECDSA/SHA256"), Some(BindingHash::Sha256));
}

#[test]
fn unrecognized_family_gives_no_binding() {
    assert_eq!(BindingHash::for_signature_family("RSA/SHA3-256"), None);
    assert_eq!(BindingHash::for_signature_family("RSA/sha256"), None);
    assert_eq!(BindingHash::for_signature_family("RSA/SHA2567"), None);
    assert_eq!(BindingHash::for_signature_family("RSA/SHA25"), None);
    assert_eq!(BindingHash::for_signature_family("RSA/"), None);
    assert_eq!(BindingHash::for_signature_family("SHA256/RSA"), None);
    assert_eq!(BindingHash::for_signature_family(""), None);
    assert_eq!(BindingHash::for_signature_family("/"), None);
    assert_eq!(BindingHash::for_signature_family("RSA/SHA256 "), None);
}

#[test]
fn only_the_part_behind_the_last_slash_counts() {
    assert_eq!(BindingHash::for_signature_family("SHA512"), Some(BindingHash::Sha512));
    assert_eq!(BindingHash::for_signature_family("A/B/SHA384"), Some(BindingHash::Sha384));
    assert_eq!(BindingHash::for_signature_family("/MD5"), Some(BindingHash::Sha256));
    assert_eq!(BindingHash::for_signature_family("SHA384/SHA512"), Some(BindingHash::Sha512));
    assert_eq!(BindingHash::for_signature_family("R\u{e9}SA/SHA1"), Some(BindingHash::Sha256));
}

#[test]
fn client_binds_to_the_peer_certificate() {
    let stream = session(Role::Client);
    assert_eq!(stream.server_certificate(), CertificateSource::Peer);
    assert_eq!(stream.tls_server_end_point(signed("RSA/SHA384")), Ok(Some(BindingHash::Sha384)));
}

#[test]
fn server_binds_to_its_own_certificate() {
    let stream = session(Role::Server);
    assert_eq!(stream.server_certificate(), CertificateSource::Own);
    assert_eq!(stream.tls_server_end_point(signed("RSA/SHA512")), Ok(Some(BindingHash::Sha512)));
    assert_eq!(stream.tls_server_end_point(signed("RSA/MD5")), Ok(Some(BindingHash::Sha256)));
}

#[test]
fn absent_credential_means_no_binding() {
    assert_eq!(
        session(Role::Client).tls_server_end_point(CertificateQuery::Unavailable(absent())),
        Ok(None)
    );
    assert_eq!(
        session(Role::Server).tls_server_end_point(CertificateQuery::Unavailable(absent())),
        Ok(None)
    );
}

#[test]
fn failed_certificate_query_is_an_error() {
    assert_eq!(
        session(Role::Client).tls_server_end_point(CertificateQuery::Unavailable(broken())),
        Err(Error(ErrorKind::Native(broken())))
    );
    let uncoded = NativeError { code: None, message: "interrupted".to_string() };
    assert_eq!(
        session(Role::Server).tls_server_end_point(CertificateQuery::Unavailable(uncoded.clone())),
        Err(Error(ErrorKind::Native(uncoded)))
    );
}

#[test]
fn unreadable_family_is_an_error_even_with_the_absence_status() {
    assert_eq!(
        session(Role::Client).tls_server_end_point(CertificateQuery::Unreadable(absent())),
        Err(Error(ErrorKind::Native(absent())))
    );
    assert_eq!(
        session(Role::Server).tls_server_end_point(CertificateQuery::Unreadable(broken())),
        Err(Error(ErrorKind::Native(broken())))
    );
}

#[test]
fn unrecognized_family_of_the_server_certificate_is_no_error() {
    assert_eq!(session(Role::Client).tls_server_end_point(signed("RSA/WHIRLPOOL")), Ok(None));
}

#[test]
fn peer_certificate_is_handed_out() {
    let leaf = Certificate::from_der(&[0x30, 0x01, 0x00], Ok(())).unwrap();
    assert_eq!(session(Role::Client).peer_certificate(Ok(leaf.clone())), Ok(Some(leaf)));
}

#[test]
fn absent_peer_credential_is_an_empty_result() {
    assert_eq!(session(Role::Server).peer_certificate(Err(absent())), Ok(None));
}

#[test]
fn failed_peer_query_is_an_error() {
    assert_eq!(
        session(Role::Server).peer_certificate(Err(broken())),
        Err(Error(ErrorKind::Native(broken())))
    );
    let uncoded = NativeError { code: None, message: "interrupted".to_string() };
    assert_eq!(
        session(Role::Server).peer_certificate(Err(uncoded.clone())),
        Err(Error(ErrorKind::Native(uncoded)))
    );
}

#[test]
fn negotiated_alpn_is_handed_on() {
    let stream = session(Role::Client);
    assert_eq!(stream.negotiated_alpn(Ok(Some(b"h2".to_vec()))), Ok(Some(b"h2".to_vec())));
    assert_eq!(stream.negotiated_alpn(Ok(None)), Ok(None));
    assert_eq!(stream.negotiated_alpn(Err(broken())), Err(Error(ErrorKind::Native(broken()))));
}

#[test]
fn buffered_read_size_is_the_length_of_the_pending_bytes() {
    let stream = session(Role::Client);
    assert_eq!(stream.buffered_read_size(&[]), Ok(0));
    assert_eq!(stream.buffered_read_size(&[1, 2, 3, 4, 5]), Ok(5));
}

#[test]
fn shutdown_hands_the_engine_reply_on() {
    let mut stream = session(Role::Client);
    assert_eq!(stream.shutdown(Err(broken())), Err(Error(ErrorKind::Native(broken()))));
    assert_eq!(stream.shutdown(Ok(())), Ok(()));
    assert_eq!(*stream.get_ref(), 0);
    assert!(!stream.is_server());
}

#[test]
fn binding_is_the_digest_the_engine_computed() {
    let stream = session(Role::Client);
    assert_eq!(stream.bind_end_point(Ok(vec![0xab; 32])), Ok(Some(vec![0xab; 32])));
    assert_eq!(stream.bind_end_point(Err(broken())), Err(Error(ErrorKind::Native(broken()))));
}
