use tls_session::{convert_protocols, NativeProtocol, Protocol};

#[test]
fn no_bounds_enable_every_supported_version() {
    assert_eq!(
        convert_protocols(None, None),
        vec![
            NativeProtocol::Ssl3,
            NativeProtocol::Tls10,
            NativeProtocol::Tls11,
            NativeProtocol::Tls12
        ]
    );
}

#[test]
fn lower_bound_is_inclusive() {
    assert_eq!(
        convert_protocols(Some(Protocol::Tlsv10), None),
        vec![NativeProtocol::Tls10, NativeProtocol::Tls11, NativeProtocol::Tls12]
    );
    assert_eq!(convert_protocols(Some(Protocol::Tlsv12), None), vec![NativeProtocol::Tls12]);
    assert_eq!(convert_protocols(Some(Protocol::Sslv3), None).len(), 4);
}

#[test]
fn upper_bound_is_inclusive() {
    assert_eq!(
        convert_protocols(None, Some(Protocol::Tlsv12)),
        vec![
            NativeProtocol::Ssl3,
            NativeProtocol::Tls10,
            NativeProtocol::Tls11,
            NativeProtocol::Tls12
        ]
    );
    assert_eq!(
        convert_protocols(None, Some(Protocol::Tlsv10)),
        vec![NativeProtocol::Ssl3, NativeProtocol::Tls10]
    );
    assert_eq!(convert_protocols(None, Some(Protocol::Sslv3)), vec![NativeProtocol::Ssl3]);
}

#[test]
fn both_bounds_cut_a_window() {
    assert_eq!(
        convert_protocols(Some(Protocol::Tlsv11), Some(Protocol::Tlsv12)),
        vec![NativeProtocol::Tls11, NativeProtocol::Tls12]
    );
    assert_eq!(
        convert_protocols(Some(Protocol::Tlsv10), Some(Protocol::Tlsv11)),
        vec![NativeProtocol::Tls10, NativeProtocol::Tls11]
    );
    assert_eq!(
        convert_protocols(Some(Protocol::Sslv3), Some(Protocol::Tlsv12)),
        vec![
            NativeProtocol::Ssl3,
            NativeProtocol::Tls10,
            NativeProtocol::Tls11,
            NativeProtocol::Tls12
        ]
    );
}

#[test]
fn equal_bounds_enable_that_version() {
    assert_eq!(
        convert_protocols(Some(Protocol::Tlsv12), Some(Protocol::Tlsv12)),
        vec![NativeProtocol::Tls12]
    );
    assert_eq!(
        convert_protocols(Some(Protocol::Tlsv11), Some(Protocol::Tlsv11)),
        vec![NativeProtocol::Tls11]
    );
    assert_eq!(
        convert_protocols(Some(Protocol::Sslv3), Some(Protocol::Sslv3)),
        vec![NativeProtocol::Ssl3]
    );
}

#[test]
fn minimum_above_the_maximum_enables_nothing() {
    assert!(convert_protocols(Some(Protocol::Tlsv12), Some(Protocol::Tlsv10)).is_empty());
    assert!(convert_protocols(Some(Protocol::Tlsv12), Some(Protocol::Tlsv11)).is_empty());
    assert!(convert_protocols(Some(Protocol::Tlsv10), Some(Protocol::Sslv3)).is_empty());
    assert!(convert_protocols(Some(Protocol::Tlsv12), Some(Protocol::Sslv3)).is_empty());
}

#[test]
fn every_pair_of_bounds_enables_exactly_what_lies_between() {
    let bounds = [Protocol::Sslv3, Protocol::Tlsv10, Protocol::Tlsv11, Protocol::Tlsv12];
    let all = [
        NativeProtocol::Ssl3,
        NativeProtocol::Tls10,
        NativeProtocol::Tls11,
        NativeProtocol::Tls12,
    ];
    for min in bounds {
        for max in bounds {
            let expected: Vec<NativeProtocol> = (0..4)
                .filter(|p| min.index() <= *p && *p <= max.index())
                .map(|p| all[p])
                .collect();
            assert_eq!(convert_protocols(Some(min), Some(max)), expected);
        }
    }
}

#[test]
fn positions_follow_the_supported_list() {
    assert_eq!(Protocol::Sslv3.index(), 0);
    assert_eq!(Protocol::Tlsv10.index(), 1);
    assert_eq!(Protocol::Tlsv11.index(), 2);
    assert_eq!(Protocol::Tlsv12.index(), 3);
}
