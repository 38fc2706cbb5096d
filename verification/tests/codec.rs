//! The reply codec on the wire: one-line and multi-line formats,
//! CR/LF escaping, decimal rendering, path joining, and the FEAT body
//! in each configuration.

use libunftp::commands::{Command, Feat};
use libunftp::controlchan::{session_step, ControlCtx};
use libunftp::reply::{encode, Reply, ReplyCode};
use libunftp::session::Session;
use libunftp::text::{join_path, u64_to_dec};

#[test]
fn single_line_format() {
    let r = Reply::new(ReplyCode::CommandOkay, "OK");
    assert_eq!(encode(&r), "200 OK\r\n");
}

#[test]
fn empty_reply_writes_nothing() {
    assert_eq!(encode(&Reply::none()), "");
}

#[test]
fn bare_cr_and_lf_are_escaped_to_spaces() {
    let r = Reply::new(ReplyCode::CommandOkay, "a\rb\nc");
    assert_eq!(encode(&r), "200 a b c\r\n");
}

#[test]
fn multi_line_format() {
    let r = Reply::new_multiline(
        ReplyCode::SystemStatus,
        vec![
            "first".to_string(),
            " middle".to_string(),
            "last".to_string(),
        ],
    );
    assert_eq!(encode(&r), "211-first\r\n middle\r\n211 last\r\n");
}

#[test]
fn multi_line_with_one_line_degenerates() {
    let r = Reply::new_multiline(ReplyCode::SystemStatus, vec!["only".to_string()]);
    assert_eq!(encode(&r), "211 only\r\n");
}

#[test]
fn decimal_rendering() {
    assert_eq!(u64_to_dec(0), "0");
    assert_eq!(u64_to_dec(7), "7");
    assert_eq!(u64_to_dec(1024), "1024");
    assert_eq!(u64_to_dec(u64::MAX), "18446744073709551615");
}

#[test]
fn path_joining() {
    assert_eq!(join_path("/", "foo"), "/foo");
    assert_eq!(join_path("/srv", "foo.bin"), "/srv/foo.bin");
    assert_eq!(join_path("/srv", "/absolute"), "/absolute");
    assert_eq!(join_path("", "rel"), "/rel");
}

fn feat_lines(tls: bool, restart: bool) -> Vec<String> {
    let mut session = Session::new(None);
    let out = Feat.handle(
        &mut session,
        tls,
        if restart { libunftp::commands::FEATURE_RESTART } else { 0 },
    );
    match &out.replies[0] {
        Reply::Multi { code, lines } => {
            assert_eq!(code.value(), 211);
            lines.clone()
        }
        _ => panic!("expected the multi-line feature list"),
    }
}

#[test]
fn feat_body_is_sorted_and_complete() {
    for &(tls, restart) in &[(false, false), (false, true), (true, false), (true, true)] {
        let lines = feat_lines(tls, restart);
        assert_eq!(lines.first().map(String::as_str), Some("Extensions supported:"));
        assert_eq!(lines.last().map(String::as_str), Some("END"));
        let mid = &lines[1..lines.len() - 1];
        let mut sorted = mid.to_vec();
        sorted.sort();
        assert_eq!(mid, &sorted[..], "feature lines must be sorted");
        assert!(mid.contains(&" SIZE".to_string()));
        assert!(mid.contains(&" MDTM".to_string()));
        assert!(mid.contains(&" UTF8".to_string()));
        assert_eq!(mid.contains(&" AUTH TLS".to_string()), tls);
        assert_eq!(mid.contains(&" PBSZ".to_string()), tls);
        assert_eq!(mid.contains(&" PROT".to_string()), tls);
        assert_eq!(mid.contains(&" REST STREAM".to_string()), restart);
    }
}

#[test]
fn feat_on_the_wire() {
    let ctx = ControlCtx {
        tls_configured: true,
        storage_features: libunftp::commands::FEATURE_RESTART,
    };
    let mut session = Session::new(None);
    let out = session_step(&mut session, Command::Feat, &ctx);
    assert_eq!(
        encode(&out.replies[0]),
        "211-Extensions supported:\r\n AUTH TLS\r\n MDTM\r\n PBSZ\r\n PROT\r\n REST STREAM\r\n SIZE\r\n UTF8\r\n211 END\r\n"
    );
}
