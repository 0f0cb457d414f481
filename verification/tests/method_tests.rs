use mevcat::method::Method;

const ALL_METHODS: [Method; 6] = [
    Method::SendBundle,
    Method::CancelBundle,
    Method::CallBundle,
    Method::SendPrivateTransaction,
    Method::CancelPrivateTransaction,
    Method::SendPrivateRawTransaction,
];

#[test]
fn test_wire_name_round_trip() {
    for m in ALL_METHODS {
        let name = m.wire_name();
        assert_eq!(Method::from_wire_name(&name), Some(m));
    }
}

#[test]
fn test_wire_names_exact() {
    assert_eq!(Method::SendBundle.wire_name(), "eth_sendBundle");
    assert_eq!(Method::CancelBundle.wire_name(), "eth_cancelBundle");
    assert_eq!(Method::CallBundle.wire_name(), "eth_callBundle");
    assert_eq!(Method::SendPrivateTransaction.wire_name(), "eth_sendPrivateTransaction");
    assert_eq!(Method::CancelPrivateTransaction.wire_name(), "eth_cancelPrivateTransaction");
    assert_eq!(Method::SendPrivateRawTransaction.wire_name(), "eth_sendPrivateRawTransaction");
}

#[test]
fn test_unknown_names_rejected() {
    assert_eq!(Method::from_wire_name("eth_unknown"), None);
    assert_eq!(Method::from_wire_name(""), None);
    assert_eq!(Method::from_wire_name("eth_sendbundle"), None);
    assert_eq!(Method::from_wire_name("eth_sendBundle "), None);
}

#[test]
fn test_wire_names_distinct() {
    for (i, a) in ALL_METHODS.iter().enumerate() {
        for (j, b) in ALL_METHODS.iter().enumerate() {
            if i != j {
                assert_ne!(a.wire_name(), b.wire_name());
            }
        }
    }
}

#[test]
fn test_default_method() {
    assert_eq!(Method::default(), Method::SendBundle);
}
