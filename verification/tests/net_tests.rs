use bytes::BytesMut;
use nitox::codec::{Op, OpCodec};
use nitox::error::NatsError;
use nitox::net::connection::{
    operation_admitted, InnerVerdict, NatsConnection, NatsConnectionState, OpOutcome,
};
use nitox::net::connection_inner::{FramedBuffers, NatsConnectionInner};
use nitox::net::NatsClientTlsConfig;

fn op(payload: &[u8]) -> Op {
    Op { payload: payload.to_vec() }
}

fn buffers_with(read: &[u8], write: &[u8]) -> FramedBuffers {
    FramedBuffers {
        codec: OpCodec::new(),
        read_buf: BytesMut::from(read),
        write_buf: BytesMut::from(write),
    }
}

#[test]
fn upgrade_preserves_buffered_bytes() {
    let plain = NatsConnectionInner::Tcp(buffers_with(b"half-a-frame", b"queued-out"));
    let upgraded = plain.upgrade_to_tls(Some(op(b"INFO")));

    match &upgraded {
        NatsConnectionInner::Tls(fb, pending) => {
            // No byte lost or duplicated across the upgrade, in either
            // direction.
            assert_eq!(&fb.read_buf[..], b"half-a-frame");
            assert_eq!(&fb.write_buf[..], b"queued-out");
            // Scan state never survives a socket swap.
            assert_eq!(fb.codec.scan_cursor(), 0);
            assert_eq!(pending, &Some(op(b"INFO")));
        },
        NatsConnectionInner::Tcp(_) => panic!("upgrade must yield the encrypted variant"),
    }
}

#[test]
fn pending_first_frame_is_retrievable_exactly_once() {
    let plain = NatsConnectionInner::Tcp(buffers_with(b"", b""));
    let mut upgraded = plain.upgrade_to_tls(Some(op(b"INFO")));

    assert_eq!(upgraded.first_op(), Some(op(b"INFO")));
    assert_eq!(upgraded.first_op(), None);
}

#[test]
fn plaintext_transport_has_no_pending_frame() {
    let mut plain = NatsConnectionInner::Tcp(buffers_with(b"x", b"y"));
    assert_eq!(plain.first_op(), None);
}

#[test]
fn upgrade_of_encrypted_transport_is_identity() {
    let tls = NatsConnectionInner::Tls(buffers_with(b"r", b"w"), Some(op(b"INFO")));
    let again = tls.upgrade_to_tls(None);
    match &again {
        NatsConnectionInner::Tls(fb, pending) => {
            assert_eq!(&fb.read_buf[..], b"r");
            assert_eq!(&fb.write_buf[..], b"w");
            assert_eq!(pending, &Some(op(b"INFO")));
        },
        NatsConnectionInner::Tcp(_) => panic!("an encrypted transport must stay encrypted"),
    }
}

#[test]
fn disconnection_drives_the_state_machine_back_to_connected() {
    let inner = NatsConnectionInner::fresh_tcp();
    let mut conn = NatsConnection::established(String::from("127.0.0.1:4222"), inner);
    assert_eq!(conn.state, NatsConnectionState::Connected);

    // A disconnection condition: state flips, the caller sees "not ready",
    // and a detached reconnection task must be scheduled.
    let (outcome, schedule) = conn.absorb_verdict(InnerVerdict::Disconnected);
    assert_eq!(outcome, OpOutcome::NotReady);
    assert!(schedule);
    assert_eq!(conn.state, NatsConnectionState::Disconnected);

    // While not connected, no operation is admitted to the transport.
    assert!(!operation_admitted(Some(conn.state), true));

    conn.reconnect_begin();
    assert_eq!(conn.state, NatsConnectionState::Reconnecting);
    assert!(!operation_admitted(Some(conn.state), true));

    conn.reconnect_complete(NatsConnectionInner::fresh_tcp());
    assert_eq!(conn.state, NatsConnectionState::Connected);
    assert!(operation_admitted(Some(conn.state), true));
}

#[test]
fn non_disconnection_verdicts_pass_through_unchanged() {
    let inner = NatsConnectionInner::fresh_tcp();
    let mut conn = NatsConnection::established(String::from("127.0.0.1:4222"), inner);

    let (outcome, schedule) = conn.absorb_verdict(InnerVerdict::Accepted);
    assert_eq!(outcome, OpOutcome::Accepted);
    assert!(!schedule);
    assert_eq!(conn.state, NatsConnectionState::Connected);

    let (outcome, schedule) = conn.absorb_verdict(InnerVerdict::Frame(op(b"MSG")));
    assert_eq!(outcome, OpOutcome::Frame(op(b"MSG")));
    assert!(!schedule);

    let (outcome, schedule) = conn.absorb_verdict(InnerVerdict::Failed(NatsError::IoError));
    assert_eq!(outcome, OpOutcome::Failed(NatsError::IoError));
    assert!(!schedule);
    assert_eq!(conn.state, NatsConnectionState::Connected);
}

#[test]
fn contended_operation_reports_not_ready() {
    // The transport slot is exclusively held elsewhere: not admitted.
    assert!(!operation_admitted(Some(NatsConnectionState::Connected), false));
    // The state read itself was contended: not admitted.
    assert!(!operation_admitted(None, true));
    // Both available: admitted.
    assert!(operation_admitted(Some(NatsConnectionState::Connected), true));
}

#[test]
fn established_tls_consumes_the_pending_frame() {
    let inner = NatsConnectionInner::Tcp(buffers_with(b"", b"")).upgrade_to_tls(Some(op(b"INFO")));
    let config = NatsClientTlsConfig::default();
    let conn = NatsConnection::established_tls(
        String::from("demo.nats.io"),
        String::from("127.0.0.1:4222"),
        config,
        inner,
    );
    assert!(conn.is_tls);
    assert_eq!(conn.host, Some(String::from("demo.nats.io")));
    assert_eq!(conn.first_op, Some(op(b"INFO")));
    match &conn.inner {
        NatsConnectionInner::Tls(_, pending) => assert_eq!(pending, &None),
        NatsConnectionInner::Tcp(_) => panic!("the upgraded transport must be encrypted"),
    }
}

#[test]
fn malformed_identity_is_rejected_at_configuration_time() {
    let config = NatsClientTlsConfig::default();
    let r = config.pkcs12_identity(b"not a pkcs12 archive".to_vec(), String::from("hunter2"));
    assert!(matches!(r, Err(NatsError::TlsError)));
}

#[test]
fn malformed_root_certificate_is_rejected_at_configuration_time() {
    let config = NatsClientTlsConfig::default();
    let r = config.root_cert_der(b"not a certificate".to_vec());
    assert!(matches!(r, Err(NatsError::TlsError)));
}

#[test]
fn empty_configuration_builds_and_yields_nothing() {
    let config = NatsClientTlsConfig::default();
    assert!(!config.identity_exists());
    assert!(!config.root_cert_exists());
    assert!(matches!(config.identity(), Ok(None)));
    assert!(matches!(config.root_cert(), Ok(None)));
    // An empty configuration still assembles a connector for the handshake.
    assert!(nitox::net::build_tls_connector(&config).is_ok());
}
