//! The PROXY-mode switchboard: ascending reservation, joining and
//! spending reservations, lazy reclamation of expired ones, and
//! exhaustion.

use libunftp::controlchan::InternalMsg;
use libunftp::ftpserver::Server;
use libunftp::proxy::{
    ConnectionTuple, Ipv4, ProxyProtocolSwitchboard, RESERVATION_TTL_MS,
};

fn client(d: u8) -> Ipv4 {
    Ipv4 { a: 10, b: 0, c: 0, d }
}

fn conn(from: Ipv4, to_port: u16) -> ConnectionTuple {
    ConnectionTuple {
        from_ip: from,
        from_port: 40000,
        to_ip: Ipv4 { a: 192, b: 0, c: 2, d: 1 },
        to_port,
    }
}

#[test]
fn ports_are_drawn_ascending() {
    let mut sb = ProxyProtocolSwitchboard::new(50000, 50100);
    assert_eq!(sb.reserve_next_free_port(client(1), 1, 0), Some(50000));
    assert_eq!(sb.reserve_next_free_port(client(2), 2, 0), Some(50001));
    assert_eq!(sb.reserve_next_free_port(client(3), 3, 0), Some(50002));
}

#[test]
fn a_reservation_joins_and_is_spent() {
    let mut sb = ProxyProtocolSwitchboard::new(50000, 50100);
    let port = sb.reserve_next_free_port(client(1), 42, 0).unwrap();
    let c = conn(client(1), port);
    assert_eq!(sb.get_session_by_incoming_data_connection(&c), Some(42));
    // a different client on the same port finds nothing
    let other = conn(client(9), port);
    assert_eq!(sb.get_session_by_incoming_data_connection(&other), None);
    sb.unregister(&c);
    assert_eq!(sb.get_session_by_incoming_data_connection(&c), None);
}

#[test]
fn expired_reservations_are_reclaimed_lazily() {
    let mut sb = ProxyProtocolSwitchboard::new(50000, 50002);
    assert_eq!(sb.reserve_next_free_port(client(1), 1, 0), Some(50000));
    assert_eq!(sb.reserve_next_free_port(client(2), 2, 0), Some(50001));
    // both reservations lapse; the next reservation reclaims them
    let later = RESERVATION_TTL_MS + 1;
    assert_eq!(sb.reserve_next_free_port(client(3), 3, later), Some(50000));
    let c = conn(client(1), 50000);
    assert_eq!(sb.get_session_by_incoming_data_connection(&c), None);
    let c = conn(client(3), 50000);
    assert_eq!(sb.get_session_by_incoming_data_connection(&c), Some(3));
}

#[test]
fn spending_one_reservation_keeps_the_others() {
    let mut server = Server::new()
        .passive_ports(50000, 50100)
        .proxy_protocol_mode(2121);
    let first = conn(client(1), 2121);
    let second = conn(client(2), 2121);
    server.select_and_register_passive_port(Some(first), 1, 0).unwrap();
    server.select_and_register_passive_port(Some(second), 2, 0).unwrap();

    // joining the first data connection spends only its own entry
    assert_eq!(server.dispatch_data_connection(&conn(client(1), 50000)), Some(1));
    assert_eq!(server.dispatch_data_connection(&conn(client(1), 50000)), None);
    assert_eq!(server.dispatch_data_connection(&conn(client(2), 50001)), Some(2));
}

#[test]
fn exhaustion_reports_425() {
    let mut server = Server::new()
        .passive_ports(60000, 60002)
        .proxy_protocol_mode(2121);
    let info = conn(client(1), 2121);
    let first = server.select_and_register_passive_port(Some(info), 1, 0).unwrap();
    let second = server.select_and_register_passive_port(Some(info), 2, 0).unwrap();
    for msg in [first, second] {
        match msg {
            InternalMsg::CommandChannelReply { code, .. } => assert_eq!(code.value(), 227),
            _ => panic!("expected a 227 reply"),
        }
    }
    let third = server.select_and_register_passive_port(Some(info), 3, 0).unwrap();
    match third {
        InternalMsg::CommandChannelReply { code, text } => {
            assert_eq!(code.value(), 425);
            assert_eq!(text, "No more passive ports available");
        }
        _ => panic!("expected the exhaustion reply"),
    }
}

#[test]
fn proxy_mode_without_a_tuple_posts_nothing() {
    let mut server = Server::new()
        .passive_ports(60000, 60002)
        .proxy_protocol_mode(2121);
    assert!(server.select_and_register_passive_port(None, 1, 0).is_none());
    // and a server outside proxy mode never answers
    let mut plain = Server::new();
    assert!(plain
        .select_and_register_passive_port(Some(conn(client(1), 2121)), 1, 0)
        .is_none());
}

#[test]
fn builders_compose() {
    let server = Server::new_with_fs_root("/srv/ftp".to_string())
        .greeting("Hello".to_string())
        .passive_ports(50000, 50100)
        .metrics()
        .idle_session_timeout(120);
    assert_eq!(server.storage_root.as_deref(), Some("/srv/ftp"));
    assert_eq!(server.greeting, "Hello");
    assert_eq!(server.passive_ports_lo, 50000);
    assert_eq!(server.passive_ports_hi, 50100);
    assert!(server.collect_metrics);
    assert_eq!(server.idle_session_timeout_secs, 120);

    let server = server.ftps("/c.pem".to_string(), "/k.pem".to_string());
    match &server.ftps_mode {
        libunftp::ftpserver::FtpsConfig::On { certs_file, key_file } => {
            assert_eq!(certs_file, "/c.pem");
            assert_eq!(key_file, "/k.pem");
        }
        _ => panic!("expected FTPS to be configured"),
    }

    let config = libunftp::ftpserver::LoopConfig::from_server(&server);
    assert_eq!(config.greeting, "Hello");
    assert_eq!(config.passive_ports_lo, 50000);
    assert_eq!(config.idle_session_timeout_secs, 120);
    assert!(config.collect_metrics);
}
