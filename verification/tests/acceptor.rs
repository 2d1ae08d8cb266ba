use tls_session::{
    AcceptEvent, ArchiveEntry, Certificate, Direction, Error, ErrorKind, HandshakeError, Identity,
    NativeError, NativeProtocol, Protocol, StepOutcome, TlsAcceptor, TlsAcceptorBuilder,
};

fn identity(der: &[u8]) -> Identity {
    let certificate = Certificate::from_der(der, Ok(())).unwrap();
    Identity::from_pkcs12(Ok(vec![ArchiveEntry { certificate, key_usable: true }])).unwrap()
}

fn refused() -> NativeError {
    NativeError { code: Some(-2146893043), message: "no key".to_string() }
}

#[test]
fn acceptor_asks_for_an_inbound_credential_bound_to_its_identity() {
    let acceptor = TlsAcceptorBuilder::new(identity(&[3, 1, 4])).build().unwrap();
    let request = acceptor.credential_request();
    assert_eq!(request.direction, Direction::Inbound);
    assert_eq!(
        request.protocols,
        vec![NativeProtocol::Tls10, NativeProtocol::Tls11, NativeProtocol::Tls12]
    );
    assert_eq!(request.certificate, Some(Certificate::from_der(&[3, 1, 4], Ok(())).unwrap()));
    assert_eq!(request.algorithms, None);
}

#[test]
fn acceptor_applies_its_protocol_bounds() {
    let mut builder = TlsAcceptorBuilder::new(identity(&[1]));
    builder.min_protocol_version(Some(Protocol::Tlsv11));
    builder.max_protocol_version(Some(Protocol::Tlsv12));
    let acceptor = TlsAcceptor::new(&builder).unwrap();
    assert_eq!(
        acceptor.credential_request().protocols,
        vec![NativeProtocol::Tls11, NativeProtocol::Tls12]
    );
}

#[test]
fn accept_yields_a_server_session() {
    let acceptor = TlsAcceptorBuilder::new(identity(&[1])).build().unwrap();
    let session = acceptor.accept(vec![5u8], AcceptEvent::Stepped(StepOutcome::Complete)).unwrap();
    assert!(session.is_server());
    assert_eq!(session.get_ref(), &vec![5u8]);
}

#[test]
fn accept_suspends_and_resumes_as_server() {
    let acceptor = TlsAcceptorBuilder::new(identity(&[1])).build().unwrap();
    let suspended = match acceptor.accept(8u8, AcceptEvent::Stepped(StepOutcome::WouldBlock)) {
        Err(HandshakeError::WouldBlock(suspended)) => suspended,
        _ => panic!("expected a suspended handshake"),
    };
    let session = suspended.handshake(StepOutcome::Complete).unwrap();
    assert!(session.is_server());
    assert_eq!(*session.get_ref(), 8);
}

#[test]
fn accept_fails_with_the_engine_error() {
    let acceptor = TlsAcceptorBuilder::new(identity(&[1])).build().unwrap();
    let result = acceptor.accept(0u8, AcceptEvent::Stepped(StepOutcome::Failure(refused())));
    assert!(matches!(result, Err(HandshakeError::Failure(e)) if e == Error(ErrorKind::Native(refused()))));
}

#[test]
fn accept_with_a_refused_credential_is_fatal() {
    let acceptor = TlsAcceptorBuilder::new(identity(&[1])).build().unwrap();
    let result = acceptor.accept(0u8, AcceptEvent::CredentialRefused(refused()));
    assert!(matches!(result, Err(HandshakeError::Failure(e)) if e == Error(ErrorKind::Native(refused()))));
}
