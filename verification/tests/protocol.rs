//! Property spot checks on the session state machine: pre-auth gating,
//! reply classes, the abort path, the clear-command-channel path, the
//! error taxonomy, and the STOU name draw.

use libunftp::commands::{Action, Command, DataCommand, ModeParam, ProtParam, Stou};
use libunftp::controlchan::{
    handle_auth_result, handle_event, parse_error_reply, idle_timeout_reply, rnto_finish,
    cwd_finish, session_step, storage_error_reply, ControlCtx, InternalMsg, StorageErrorKind,
};
use libunftp::datachan::{start_transfer, stou_on_storage_error};
use libunftp::reply::{encode, Reply};
use libunftp::session::Session;

fn ctx_plain() -> ControlCtx {
    ControlCtx { tls_configured: false, storage_features: 0 }
}

fn code_of(r: &Reply) -> u16 {
    match r {
        Reply::Empty => 0,
        Reply::Single { code, .. } => code.value(),
        Reply::Multi { code, .. } => code.value(),
    }
}

fn login(session: &mut Session) {
    session_step(
        session,
        Command::User { username: "anonymous".to_string() },
        &ctx_plain(),
    );
    session_step(session, Command::Pass { password: "x".to_string() }, &ctx_plain());
    handle_auth_result(session, true);
}

#[test]
fn preauth_commands_outside_the_gate_get_530() {
    let ctx = ctx_plain();
    let gated = vec![
        Command::Stor { path: "f".to_string() },
        Command::Retr { path: "f".to_string() },
        Command::List,
        Command::Abor,
        Command::Ccc,
        Command::Rnfr { path: "f".to_string() },
        Command::Rnto { path: "g".to_string() },
        Command::Size { path: "f".to_string() },
        Command::Rest { offset: 1 },
        Command::Pasv,
        Command::Cwd { path: "d".to_string() },
        Command::Unknown,
    ];
    for cmd in gated {
        let mut session = Session::new(None);
        let out = session_step(&mut session, cmd, &ctx);
        assert_eq!(out.replies.len(), 1);
        assert_eq!(
            encode(&out.replies[0]),
            "530 Please authenticate with USER and PASS\r\n"
        );
        assert!(out.actions.is_empty());
        assert!(session.user.is_none());
    }
}

#[test]
fn preauth_gating_set_is_served() {
    let ctx = ctx_plain();
    let mut session = Session::new(None);
    let out = session_step(&mut session, Command::Noop, &ctx);
    assert_eq!(code_of(&out.replies[0]), 200);
    let out = session_step(&mut session, Command::Feat, &ctx);
    assert_eq!(code_of(&out.replies[0]), 211);
    let out = session_step(&mut session, Command::Quit, &ctx);
    assert_eq!(code_of(&out.replies[0]), 221);
    assert!(matches!(out.actions[0], Action::Disconnect));
}

#[test]
fn reply_classes_match_outcomes() {
    let ctx = ctx_plain();
    let mut session = Session::new(None);
    login(&mut session);
    // success of a simple command: class 2
    let out = session_step(&mut session, Command::Noop, &ctx);
    assert_eq!(code_of(&out.replies[0]) / 100, 2);
    // intermediate success: class 3
    let out = session_step(&mut session, Command::Rest { offset: 5 }, &ctx);
    assert_eq!(code_of(&out.replies[0]) / 100, 3);
    // unsupported parameter: class 5
    let out = session_step(
        &mut session,
        Command::Mode { param: ModeParam::Block },
        &ctx,
    );
    assert_eq!(encode(&out.replies[0]), "504 Only Stream transfer mode is supported\r\n");
    // supported parameter: class 2
    let out = session_step(
        &mut session,
        Command::Mode { param: ModeParam::Stream },
        &ctx,
    );
    assert_eq!(encode(&out.replies[0]), "200 Using Stream transfer mode\r\n");
    // a data command without an armed channel: class 4
    let out = session_step(
        &mut session,
        Command::Retr { path: "f".to_string() },
        &ctx,
    );
    assert_eq!(encode(&out.replies[0]), "425 No data connection established\r\n");
    // a data command with the channel armed: class 1
    session_step(&mut session, Command::Pasv, &ctx);
    let out = session_step(
        &mut session,
        Command::Retr { path: "f".to_string() },
        &ctx,
    );
    assert_eq!(code_of(&out.replies[0]) / 100, 1);
}

#[test]
fn prot_needs_tls_first() {
    let ctx = ControlCtx { tls_configured: true, storage_features: 0 };
    let mut session = Session::new(None);
    let out = session_step(
        &mut session,
        Command::Prot { param: ProtParam::Private },
        &ctx,
    );
    assert_eq!(encode(&out.replies[0]), "503 Secure the control channel first\r\n");
    // complete the handshake, then set the level
    session_step(&mut session, Command::Auth, &ctx);
    handle_event(&mut session, InternalMsg::SecureControlChannel);
    let out = session_step(
        &mut session,
        Command::Prot { param: ProtParam::Private },
        &ctx,
    );
    assert_eq!(code_of(&out.replies[0]), 200);
    assert!(session.data_tls);
    let out = session_step(
        &mut session,
        Command::Prot { param: ProtParam::Safe },
        &ctx,
    );
    assert_eq!(code_of(&out.replies[0]), 504);
    let out = session_step(
        &mut session,
        Command::Prot { param: ProtParam::Clear },
        &ctx,
    );
    assert_eq!(code_of(&out.replies[0]), 200);
    assert!(!session.data_tls);
}

#[test]
fn abor_during_transfer_gives_426_then_226() {
    let ctx = ctx_plain();
    let mut session = Session::new(None);
    login(&mut session);
    session_step(&mut session, Command::Pasv, &ctx);
    session_step(&mut session, Command::Retr { path: "f".to_string() }, &ctx);
    start_transfer(&mut session);
    assert!(session.abort_armed);

    let out = session_step(&mut session, Command::Abor, &ctx);
    assert_eq!(out.replies.len(), 2);
    assert_eq!(encode(&out.replies[0]), "426 Transfer aborted\r\n");
    assert_eq!(encode(&out.replies[1]), "226 Closed data channel\r\n");
    assert!(matches!(out.actions[0], Action::SignalAbort));
    assert!(!session.abort_armed);
}

#[test]
fn abor_outside_transfer_gives_one_226() {
    let ctx = ctx_plain();
    let mut session = Session::new(None);
    login(&mut session);
    let out = session_step(&mut session, Command::Abor, &ctx);
    assert_eq!(out.replies.len(), 1);
    assert_eq!(encode(&out.replies[0]), "226 Data channel already closed\r\n");
    assert!(out.actions.is_empty());
}

#[test]
fn ccc_on_plaintext_refuses_with_533() {
    let ctx = ctx_plain();
    let mut session = Session::new(None);
    login(&mut session);
    assert!(!session.cmd_tls);
    let out = session_step(&mut session, Command::Ccc, &ctx);
    assert_eq!(
        encode(&out.replies[0]),
        "533 control channel already in plaintext mode\r\n"
    );
    assert!(out.actions.is_empty());
    assert!(!session.cmd_tls);
}

#[test]
fn ccc_downgrade_is_spent_once() {
    let ctx = ControlCtx { tls_configured: true, storage_features: 0 };
    let mut session = Session::new(None);
    session_step(&mut session, Command::Auth, &ctx);
    handle_event(&mut session, InternalMsg::SecureControlChannel);
    login(&mut session);

    let out = session_step(&mut session, Command::Ccc, &ctx);
    assert_eq!(
        encode(&out.replies[0]),
        "200 control channel in plaintext now\r\n"
    );
    handle_event(&mut session, InternalMsg::PlaintextControlChannel);
    assert!(!session.cmd_tls);
    assert!(session.ccc_done);

    // even after securing the channel again, the one downgrade is spent
    session_step(&mut session, Command::Auth, &ctx);
    handle_event(&mut session, InternalMsg::SecureControlChannel);
    assert!(session.cmd_tls);
    let out = session_step(&mut session, Command::Ccc, &ctx);
    assert_eq!(
        encode(&out.replies[0]),
        "533 control channel already in plaintext mode\r\n"
    );
    assert!(out.actions.is_empty());
}

#[test]
fn storage_errors_translate_to_their_codes() {
    let cases = vec![
        (StorageErrorKind::PermissionDenied, 550, false),
        (StorageErrorKind::NotFound, 550, false),
        (StorageErrorKind::AlreadyExists, 550, false),
        (StorageErrorKind::TransientError, 451, false),
        (StorageErrorKind::Internal, 421, true),
    ];
    for (kind, code, disconnect) in cases {
        let r = storage_error_reply(kind);
        assert_eq!(code_of(&r), code);
        let mut session = Session::new(None);
        let outcome = handle_event(&mut session, InternalMsg::StorageError { kind });
        assert_eq!(code_of(&outcome.reply), code);
        assert_eq!(outcome.disconnect, disconnect);
    }
}

#[test]
fn rnto_finish_translates_the_outcome() {
    assert_eq!(code_of(&rnto_finish(None)), 250);
    assert_eq!(
        code_of(&rnto_finish(Some(StorageErrorKind::PermissionDenied))),
        550
    );
}

#[test]
fn cwd_finish_moves_only_on_approval() {
    let mut session = Session::new(None);
    let r = cwd_finish(&mut session, "/srv/sub".to_string(), None);
    assert_eq!(code_of(&r), 250);
    assert_eq!(session.cwd, "/srv/sub");
    let r = cwd_finish(
        &mut session,
        "/nowhere".to_string(),
        Some(StorageErrorKind::NotFound),
    );
    assert_eq!(code_of(&r), 550);
    assert_eq!(session.cwd, "/srv/sub");
}

#[test]
fn loop_edge_replies() {
    assert_eq!(encode(&parse_error_reply()), "500 Syntax error in command\r\n");
    assert_eq!(
        encode(&idle_timeout_reply()),
        "421 Session timed out, closing control connection\r\n"
    );
}

#[test]
fn bad_pass_without_user_and_failed_auth() {
    let ctx = ctx_plain();
    let mut session = Session::new(None);
    let out = session_step(
        &mut session,
        Command::Pass { password: "x".to_string() },
        &ctx,
    );
    assert_eq!(encode(&out.replies[0]), "503 Please provide a username first\r\n");

    session_step(
        &mut session,
        Command::User { username: "u".to_string() },
        &ctx,
    );
    session_step(&mut session, Command::Pass { password: "x".to_string() }, &ctx);
    let r = handle_auth_result(&mut session, false);
    assert_eq!(encode(&r), "530 Authentication failed\r\n");
    assert!(session.user.is_none());
}

#[test]
fn stou_draws_a_fresh_name() {
    let ctx = ctx_plain();
    let mut session = Session::new(None);
    login(&mut session);
    session_step(&mut session, Command::Pasv, &ctx);
    let out = session_step(&mut session, Command::Stou, &ctx);
    let name = match &out.replies[0] {
        Reply::Single { code, text } => {
            assert_eq!(code.value(), 150);
            text.clone()
        }
        _ => panic!("expected a one-line reply"),
    };
    assert_eq!(name.len(), 36);
    match &out.actions[0] {
        Action::SendDataCommand { cmd: DataCommand::Stor { path } } => {
            assert_eq!(path, &format!("/{}", name));
        }
        _ => panic!("expected the data command"),
    }

    // a second draw names a different file
    session_step(&mut session, Command::Pasv, &ctx);
    let out = session_step(&mut session, Command::Stou, &ctx);
    let second = match &out.replies[0] {
        Reply::Single { text, .. } => text.clone(),
        _ => panic!("expected a one-line reply"),
    };
    assert_eq!(second.len(), 36);
    assert_ne!(name, second);
}

#[test]
fn stou_collision_is_retried_once() {
    assert!(stou_on_storage_error(StorageErrorKind::AlreadyExists, false));
    assert!(!stou_on_storage_error(StorageErrorKind::AlreadyExists, true));
    assert!(!stou_on_storage_error(StorageErrorKind::NotFound, false));
}

#[test]
fn stou_without_data_channel_is_425() {
    let ctx = ctx_plain();
    let mut session = Session::new(None);
    login(&mut session);
    let out = session_step(&mut session, Command::Stou, &ctx);
    assert_eq!(encode(&out.replies[0]), "425 No data connection established\r\n");
}

#[test]
fn unknown_after_auth_is_502() {
    let ctx = ctx_plain();
    let mut session = Session::new(None);
    login(&mut session);
    let out = session_step(&mut session, Command::Unknown, &ctx);
    assert_eq!(encode(&out.replies[0]), "502 Command not implemented\r\n");
}

#[test]
fn stou_handler_with_given_name() {
    let mut session = Session::new(None);
    session.data_cmd_armed = true;
    let out = Stou.handle_with_name(&mut session, "upload-name".to_string());
    assert_eq!(encode(&out.replies[0]), "150 upload-name\r\n");
    match &out.actions[0] {
        Action::SendDataCommand { cmd: DataCommand::Stor { path } } => {
            assert_eq!(path, "/upload-name");
        }
        _ => panic!("expected the data command"),
    }
}
