use tls_session::{ArchiveEntry, Certificate, Error, ErrorKind, Identity, NativeError};

fn refusal(code: i32, message: &str) -> NativeError {
    NativeError { code: Some(code), message: message.to_string() }
}

fn certificate(der: &[u8]) -> Certificate {
    Certificate::from_der(der, Ok(())).unwrap()
}

#[test]
fn from_der_keeps_the_bytes_the_engine_decoded() {
    let made = Certificate::from_der(&[0x30, 0x03, 0x01, 0x02, 0x03], Ok(())).unwrap();
    assert_eq!(made.to_der().unwrap(), vec![0x30, 0x03, 0x01, 0x02, 0x03]);
}

#[test]
fn from_der_hands_the_engine_refusal_on() {
    let e = refusal(-2146881269, "ASN1 bad tag value met.");
    let made = Certificate::from_der(&[0xff], Err(e.clone()));
    assert_eq!(made, Err(Error(ErrorKind::Native(e))));
}

#[test]
fn from_der_of_empty_input() {
    assert_eq!(certificate(&[]).to_der().unwrap(), Vec::<u8>::new());
}

#[test]
fn pem_text_reads_utf8() {
    let pem = b"-----BEGIN CERTIFICATE-----\nMAA=\n-----END CERTIFICATE-----\n";
    assert_eq!(
        Certificate::pem_text(pem),
        Ok("-----BEGIN CERTIFICATE-----\nMAA=\n-----END CERTIFICATE-----\n")
    );
    assert_eq!(Certificate::pem_text(b""), Ok(""));
    assert_eq!(Certificate::pem_text("zert\u{e9}".as_bytes()), Ok("zert\u{e9}"));
}

#[test]
fn pem_text_rejects_what_is_not_utf8() {
    assert_eq!(Certificate::pem_text(&[0x2d, 0xff, 0x2d]), Err(Error(ErrorKind::InvalidPem)));
    assert_eq!(Certificate::pem_text(&[0xc3]), Err(Error(ErrorKind::InvalidPem)));
    assert_eq!(Certificate::pem_text(&[0xed, 0xa0, 0x80]), Err(Error(ErrorKind::InvalidPem)));
}

#[test]
fn from_pem_takes_the_decoded_bytes() {
    let pem = b"-----BEGIN CERTIFICATE-----\nMAA=\n-----END CERTIFICATE-----\n";
    let made = Certificate::from_pem(pem, Ok(vec![0x30, 0x00])).unwrap();
    assert_eq!(made.to_der().unwrap(), vec![0x30, 0x00]);
}

#[test]
fn from_pem_rejects_non_utf8_whatever_the_engine_says() {
    let made = Certificate::from_pem(&[0x80, 0x81], Ok(vec![0x30, 0x00]));
    assert_eq!(made, Err(Error(ErrorKind::InvalidPem)));
    let made = Certificate::from_pem(&[0x80, 0x81], Err(refusal(13, "The data is invalid.")));
    assert_eq!(made, Err(Error(ErrorKind::InvalidPem)));
}

#[test]
fn from_pem_hands_the_engine_refusal_on() {
    let e = refusal(13, "The data is invalid.");
    let made = Certificate::from_pem(b"not a certificate", Err(e.clone()));
    assert_eq!(made, Err(Error(ErrorKind::Native(e))));
}

#[test]
fn certificates_are_the_same_byte_for_byte() {
    let a = certificate(&[1, 2, 3]);
    assert!(a.same_as(&certificate(&[1, 2, 3])));
    assert!(!a.same_as(&certificate(&[1, 2, 4])));
    assert!(!a.same_as(&certificate(&[1, 2])));
    assert!(!a.same_as(&certificate(&[1, 2, 3, 0])));
    assert!(certificate(&[]).same_as(&certificate(&[])));
    assert!(a.same_as(&a.duplicate()));
}

#[test]
fn identity_is_the_first_entry_with_a_usable_key() {
    let archive = vec![
        ArchiveEntry { certificate: certificate(&[1]), key_usable: false },
        ArchiveEntry { certificate: certificate(&[2]), key_usable: true },
        ArchiveEntry { certificate: certificate(&[3]), key_usable: true },
    ];
    let identity = Identity::from_pkcs12(Ok(archive)).unwrap();
    assert_eq!(identity.certificate().to_der().unwrap(), vec![2]);
}

#[test]
fn identity_of_a_single_entry_archive() {
    let archive = vec![ArchiveEntry { certificate: certificate(&[9, 9]), key_usable: true }];
    let identity = Identity::from_pkcs12(Ok(archive)).unwrap();
    assert_eq!(identity.certificate().to_der().unwrap(), vec![9, 9]);
    assert!(identity.duplicate().certificate().same_as(identity.certificate()));
}

#[test]
fn archive_without_a_usable_key_has_no_identity() {
    let archive = vec![
        ArchiveEntry { certificate: certificate(&[1]), key_usable: false },
        ArchiveEntry { certificate: certificate(&[2]), key_usable: false },
    ];
    let made = Identity::from_pkcs12(Ok(archive));
    assert_eq!(made, Err(Error(ErrorKind::NoIdentity)));
    assert_eq!(made.unwrap_err().message(), "No identity found in PKCS #12 archive");
}

#[test]
fn empty_archive_has_no_identity() {
    assert_eq!(Identity::from_pkcs12(Ok(vec![])), Err(Error(ErrorKind::NoIdentity)));
}

#[test]
fn archive_that_the_engine_refused_is_its_error() {
    let e = refusal(86, "The specified network password is not correct.");
    assert_eq!(Identity::from_pkcs12(Err(e.clone())), Err(Error(ErrorKind::Native(e))));
}

#[test]
fn error_messages_and_codes() {
    let e = Error(ErrorKind::Native(refusal(86, "wrong password")));
    assert_eq!(e.message(), "wrong password");
    assert_eq!(e.code(), Some(86));
    assert_eq!(
        Error(ErrorKind::InvalidPem).message(),
        "PEM representation contains non-UTF-8 bytes"
    );
    assert_eq!(
        Error(ErrorKind::NoCallerRoot).message(),
        "unable to find any user-specified roots in the final cert chain"
    );
    assert_eq!(Error(ErrorKind::NoCallerRoot).code(), None);
    assert_eq!(Error::from(refusal(5, "x")), Error(ErrorKind::Native(refusal(5, "x"))));
    let uncoded = NativeError { code: None, message: "broken pipe".to_string() };
    assert_eq!(Error::from(uncoded).code(), None);
}

#[test]
fn entries_behind_the_first_usable_key_decide_nothing() {
    let probed = vec![
        ArchiveEntry { certificate: certificate(&[1]), key_usable: false },
        ArchiveEntry { certificate: certificate(&[2]), key_usable: true },
    ];
    let mut whole = probed.clone();
    whole.push(ArchiveEntry { certificate: certificate(&[3]), key_usable: true });
    whole.push(ArchiveEntry { certificate: certificate(&[4]), key_usable: false });
    assert_eq!(Identity::first_usable(&probed), Some(1));
    assert_eq!(Identity::first_usable(&whole), Some(1));
    assert_eq!(Identity::from_pkcs12(Ok(probed)), Identity::from_pkcs12(Ok(whole)));
    assert_eq!(Identity::first_usable(&vec![]), None);
}
