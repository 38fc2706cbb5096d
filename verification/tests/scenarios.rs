//! End-to-end scenarios driven against the session state machine, with
//! the embedding program's side (sockets, storage, authenticator)
//! simulated by the test.

use libunftp::commands::{Action, Command, DataCommand, TypeParam};
use libunftp::controlchan::{handle_auth_result, handle_event, greeting_reply, ControlCtx, InternalMsg};
use libunftp::datachan::{end_transfer, passive_reply, size_reply, start_transfer, transfer_len};
use libunftp::ftpserver::Server;
use libunftp::proxy::{ConnectionTuple, Ipv4, ProxyDispatch, dispatch_connection};
use libunftp::reply::{encode, Reply};
use libunftp::session::Session;

fn ctx_plain() -> ControlCtx {
    ControlCtx { tls_configured: false, storage_features: 0 }
}

fn code_of(r: &Reply) -> u16 {
    match r {
        Reply::Empty => 0,
        Reply::Single { code, .. } => code.value(),
        Reply::Multi { code, .. } => code.value(),
    }
}

fn login(session: &mut Session) {
    let out = libunftp::controlchan::session_step(
        session,
        Command::User { username: "anonymous".to_string() },
        &ctx_plain(),
    );
    assert_eq!(out.replies.len(), 1);
    let out = libunftp::controlchan::session_step(
        session,
        Command::Pass { password: "x".to_string() },
        &ctx_plain(),
    );
    assert_eq!(out.replies.len(), 0);
    assert!(matches!(out.actions[0], Action::Authenticate { .. }));
    let r = handle_auth_result(session, true);
    assert_eq!(code_of(&r), 230);
}

#[test]
fn s1_connect_login_syst() {
    let ctx = ctx_plain();
    let greeting = greeting_reply("Welcome to the libunftp FTP server");
    assert_eq!(
        encode(&greeting),
        "220 Welcome to the libunftp FTP server\r\n"
    );
    let mut session = Session::new(None);
    let out = libunftp::controlchan::session_step(
        &mut session,
        Command::User { username: "anonymous".to_string() },
        &ctx,
    );
    assert_eq!(encode(&out.replies[0]), "331 Password required\r\n");
    let out = libunftp::controlchan::session_step(
        &mut session,
        Command::Pass { password: "x".to_string() },
        &ctx,
    );
    match &out.actions[0] {
        Action::Authenticate { username, password } => {
            assert_eq!(username, "anonymous");
            assert_eq!(password, "x");
        }
        _ => panic!("expected an authenticate action"),
    }
    let r = handle_auth_result(&mut session, true);
    assert_eq!(encode(&r), "230 User logged in, proceed\r\n");
    let out = libunftp::controlchan::session_step(&mut session, Command::Syst, &ctx);
    assert_eq!(encode(&out.replies[0]), "215 UNIX Type: L8\r\n");
}

#[test]
fn s2_type_pasv_stor_size() {
    let ctx = ctx_plain();
    let mut session = Session::new(None);
    login(&mut session);
    let out = libunftp::controlchan::session_step(
        &mut session,
        Command::Type { param: TypeParam::Image },
        &ctx,
    );
    assert_eq!(code_of(&out.replies[0]), 200);

    // PASV: the slot is armed and the endpoint request goes out; the
    // embedding program binds a port and posts the 227.
    let out = libunftp::controlchan::session_step(&mut session, Command::Pasv, &ctx);
    assert_eq!(out.replies.len(), 0);
    assert!(matches!(out.actions[0], Action::RequestPassivePort));
    assert!(session.data_cmd_armed);
    let r = passive_reply(Ipv4 { a: 127, b: 0, c: 0, d: 1 }, 50000);
    assert_eq!(
        encode(&r),
        "227 Entering Passive Mode (127,0,0,1,195,80)\r\n"
    );
    assert_eq!(195 * 256 + 80, 50000);

    // STOR: the slot is consumed and the record goes to the data task.
    let out = libunftp::controlchan::session_step(
        &mut session,
        Command::Stor { path: "foo.bin".to_string() },
        &ctx,
    );
    assert_eq!(encode(&out.replies[0]), "150 Ready to receive data\r\n");
    match &out.actions[0] {
        Action::SendDataCommand { cmd: DataCommand::Stor { path } } => {
            assert_eq!(path, "/foo.bin");
        }
        _ => panic!("expected the data command"),
    }
    assert!(!session.data_cmd_armed);

    // The data task runs the transfer: 1024 bytes arrive, then EOF.
    let start = start_transfer(&mut session);
    assert_eq!(start, 0);
    let msg = end_transfer(&mut session, None);
    let outcome = handle_event(&mut session, msg);
    assert_eq!(encode(&outcome.reply), "226 Transfer complete\r\n");
    assert!(!outcome.disconnect);

    // SIZE: the metadata lands asynchronously as a 213.
    let out = libunftp::controlchan::session_step(
        &mut session,
        Command::Size { path: "foo.bin".to_string() },
        &ctx,
    );
    assert_eq!(out.replies.len(), 0);
    match &out.actions[0] {
        Action::QueryMetadata { path, start_pos } => {
            assert_eq!(path, "/foo.bin");
            assert_eq!(*start_pos, 0);
        }
        _ => panic!("expected the metadata query"),
    }
    let r = size_reply(1024, 0);
    assert_eq!(encode(&r), "213 1024\r\n");
}

#[test]
fn s3_rest_then_retr_transfers_the_tail() {
    let ctx = ctx_plain();
    let mut session = Session::new(None);
    login(&mut session);
    let out = libunftp::controlchan::session_step(
        &mut session,
        Command::Rest { offset: 100 },
        &ctx,
    );
    assert_eq!(encode(&out.replies[0]), "350 Restarting at 100\r\n");
    assert_eq!(session.start_pos, 100);

    let out = libunftp::controlchan::session_step(
        &mut session,
        Command::Port { ip: Ipv4 { a: 127, b: 0, c: 0, d: 1 }, port: 40000 },
        &ctx,
    );
    assert_eq!(code_of(&out.replies[0]), 200);
    let out = libunftp::controlchan::session_step(
        &mut session,
        Command::Retr { path: "foo.bin".to_string() },
        &ctx,
    );
    assert_eq!(encode(&out.replies[0]), "150 Opening data connection\r\n");

    let start = start_transfer(&mut session);
    assert_eq!(start, 100);
    assert_eq!(session.start_pos, 0);
    assert_eq!(transfer_len(1024, start), 924);
    let msg = end_transfer(&mut session, None);
    let outcome = handle_event(&mut session, msg);
    assert_eq!(code_of(&outcome.reply), 226);
}

#[test]
fn s4_interposed_command_spoils_the_rename() {
    let ctx = ctx_plain();
    let mut session = Session::new(None);
    login(&mut session);
    let out = libunftp::controlchan::session_step(
        &mut session,
        Command::Rnfr { path: "a.txt".to_string() },
        &ctx,
    );
    assert_eq!(code_of(&out.replies[0]), 350);
    assert_eq!(session.rename_from.as_deref(), Some("/a.txt"));

    let out = libunftp::controlchan::session_step(&mut session, Command::Noop, &ctx);
    assert_eq!(encode(&out.replies[0]), "200 Successfully did nothing\r\n");
    assert_eq!(session.rename_from, None);

    let out = libunftp::controlchan::session_step(
        &mut session,
        Command::Rnto { path: "b.txt".to_string() },
        &ctx,
    );
    assert_eq!(code_of(&out.replies[0]), 503);
    for action in &out.actions {
        assert!(!matches!(action, Action::Rename { .. }));
    }
}

#[test]
fn s4_counterpart_direct_rnfr_rnto_renames() {
    let ctx = ctx_plain();
    let mut session = Session::new(None);
    login(&mut session);
    libunftp::controlchan::session_step(
        &mut session,
        Command::Rnfr { path: "a.txt".to_string() },
        &ctx,
    );
    let out = libunftp::controlchan::session_step(
        &mut session,
        Command::Rnto { path: "b.txt".to_string() },
        &ctx,
    );
    assert_eq!(out.replies.len(), 0);
    match &out.actions[0] {
        Action::Rename { from, to } => {
            assert_eq!(from, "/a.txt");
            assert_eq!(to, "/b.txt");
        }
        _ => panic!("expected the rename action"),
    }
    assert_eq!(session.rename_from, None);
    let r = libunftp::controlchan::rnto_finish(None);
    assert_eq!(encode(&r), "250 Renamed\r\n");
}

#[test]
fn s5_auth_tls_then_ccc_downgrades() {
    let ctx = ControlCtx { tls_configured: true, storage_features: 0 };
    let mut session = Session::new(None);
    let out = libunftp::controlchan::session_step(&mut session, Command::Auth, &ctx);
    assert_eq!(encode(&out.replies[0]), "234 AUTH TLS successful\r\n");
    assert!(matches!(out.actions[0], Action::StartTls));
    // the handshake completes and the loop consumes the event
    let outcome = handle_event(&mut session, InternalMsg::SecureControlChannel);
    assert!(matches!(outcome.reply, Reply::Empty));
    assert!(session.cmd_tls);

    login(&mut session);
    assert!(session.user.is_some());

    let out = libunftp::controlchan::session_step(&mut session, Command::Ccc, &ctx);
    assert_eq!(
        encode(&out.replies[0]),
        "200 control channel in plaintext now\r\n"
    );
    assert!(matches!(out.actions[0], Action::PostPlaintext));
    // the acknowledgement is flushed, then the loop consumes the event
    let outcome = handle_event(&mut session, InternalMsg::PlaintextControlChannel);
    assert_eq!(encode(&outcome.reply), "");
    assert!(!session.cmd_tls);
}

#[test]
fn s6_proxy_control_then_data_joined() {
    let control_conn = ConnectionTuple {
        from_ip: Ipv4 { a: 10, b: 0, c: 0, d: 9 },
        from_port: 41000,
        to_ip: Ipv4 { a: 192, b: 0, c: 2, d: 7 },
        to_port: 2121,
    };
    assert_eq!(
        dispatch_connection(&control_conn, 2121, 50000, 50100),
        ProxyDispatch::Control
    );

    let mut server = Server::new()
        .passive_ports(50000, 50100)
        .proxy_protocol_mode(2121);
    let msg = server
        .select_and_register_passive_port(Some(control_conn), 7, 1000)
        .expect("proxy mode with a captured tuple must answer");
    match msg {
        InternalMsg::CommandChannelReply { code, text } => {
            assert_eq!(code.value(), 227);
            assert_eq!(text, "Entering Passive Mode (192,0,2,7,195,80)");
        }
        _ => panic!("expected the 227 reply"),
    }

    let data_conn = ConnectionTuple {
        from_ip: Ipv4 { a: 10, b: 0, c: 0, d: 9 },
        from_port: 41001,
        to_ip: Ipv4 { a: 192, b: 0, c: 2, d: 7 },
        to_port: 50000,
    };
    assert_eq!(
        dispatch_connection(&data_conn, 2121, 50000, 50100),
        ProxyDispatch::Data
    );
    assert_eq!(server.dispatch_data_connection(&data_conn), Some(7));
    // the reservation is spent: a second connection finds nobody
    assert_eq!(server.dispatch_data_connection(&data_conn), None);

    let stray = ConnectionTuple { to_port: 9999, ..data_conn };
    assert_eq!(
        dispatch_connection(&stray, 2121, 50000, 50100),
        ProxyDispatch::Refuse
    );
}
