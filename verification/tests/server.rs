use backend::server::{after_bind, announcement, default_address, BindError, StartStep};

#[test]
fn default_address_is_loopback_8080() {
    let a = default_address();
    assert_eq!(a.octet0, 127);
    assert_eq!(a.octet1, 0);
    assert_eq!(a.octet2, 0);
    assert_eq!(a.octet3, 1);
    assert_eq!(a.port, 8080);
}

#[test]
fn announcement_line_is_exact() {
    assert_eq!(announcement(), "Server running at http://localhost:8080");
}

#[test]
fn successful_bind_leads_to_serving() {
    assert_eq!(after_bind(Ok(())), StartStep::Serve);
}

#[test]
fn failed_bind_aborts_with_same_error() {
    assert_eq!(
        after_bind(Err(BindError::AddressInUse)),
        StartStep::Abort(BindError::AddressInUse)
    );
    assert_eq!(
        after_bind(Err(BindError::PermissionDenied)),
        StartStep::Abort(BindError::PermissionDenied)
    );
    assert_eq!(
        after_bind(Err(BindError::InvalidAddress)),
        StartStep::Abort(BindError::InvalidAddress)
    );
}

#[test]
fn failed_bind_never_serves() {
    let errors = vec![
        BindError::AddressInUse,
        BindError::PermissionDenied,
        BindError::InvalidAddress,
    ];
    for e in errors {
        assert_ne!(after_bind(Err(e)), StartStep::Serve);
    }
}

#[test]
fn bind_error_messages_are_exact() {
    assert_eq!(BindError::AddressInUse.message(), "address already in use");
    assert_eq!(BindError::PermissionDenied.message(), "permission denied");
    assert_eq!(BindError::InvalidAddress.message(), "invalid address");
}

#[test]
fn second_bind_on_same_address_fails_fast() {
    let rt = tokio::runtime::Builder::new_current_thread()
        .enable_io()
        .build()
        .unwrap();
    rt.block_on(async {
        let first = tokio::net::TcpListener::bind("127.0.0.1:0").await.unwrap();
        let addr = first.local_addr().unwrap();
        let second = tokio::net::TcpListener::bind(addr).await;
        let outcome: Result<(), BindError> = match second {
            Ok(_) => Ok(()),
            Err(e) => {
                assert_eq!(e.kind(), std::io::ErrorKind::AddrInUse);
                Err(BindError::AddressInUse)
            }
        };
        assert!(outcome.is_err());
        assert_eq!(after_bind(outcome), StartStep::Abort(BindError::AddressInUse));
    });
}
