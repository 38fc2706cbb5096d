//! Data-channel coordination: the handshake between a control command
//! and the eventual data connection, seen from the session's side.
//!
//! The sockets and the byte copying live with the embedding program;
//! this module owns the decisions: when a transfer may begin, how the
//! REST offset is consumed, how many bytes a restarted download owes,
//! which bus message a finished transfer posts, and the exact text of
//! the 227 and 213 replies.

use vstd::prelude::*;
use crate::commands::single;
use crate::controlchan::{InternalMsg, InternalMsgView, StorageErrorKind};
use crate::proxy::Ipv4;
use crate::reply::{Reply, ReplyCode};
use crate::session::{Session, SessionView};
use crate::text::{dec_digits, push_char, push_dec_u64, u64_to_dec};

verus! {

/// What beginning a transfer does: the REST offset is read and reset —
/// it is honored at most once — and the abort slot is armed for the
/// transfer's lifetime.
pub open spec fn start_transfer_spec(s: SessionView) -> (SessionView, u64) {
    (SessionView { start_pos: 0, abort_armed: true, ..s }, s.start_pos)
}

/// Begins a transfer: consumes the staged REST offset and arms the
/// abort slot. The data-command slot must already have been consumed by
/// the command that started this transfer, and no other transfer may be
/// in flight.
pub fn start_transfer(session: &mut Session) -> (start: u64)
    requires
        !old(session)@.abort_armed,
        !old(session)@.data_cmd_armed,
    ensures
        final(session)@ == start_transfer_spec(old(session)@).0,
        start == start_transfer_spec(old(session)@).1,
        final(session)@.wf(),
{
    let start = session.start_pos;
    session.start_pos = 0;
    session.abort_armed = true;
    start
}

/// How many bytes a download restarted at `start` owes: the whole file
/// but the skipped prefix.
pub open spec fn transfer_len_spec(file_len: u64, start: u64) -> int {
    file_len - start
}

/// The number of bytes a RETR restarted at `start` must copy.
pub fn transfer_len(file_len: u64, start: u64) -> (n: u64)
    requires
        start <= file_len,
    ensures
        n == transfer_len_spec(file_len, start),
{
    file_len - start
}

/// What ending a transfer does: the abort slot is released, and the bus
/// carries either the 226 completion or the storage failure.
pub open spec fn end_transfer_spec(s: SessionView, outcome: Option<StorageErrorKind>) -> (
    SessionView,
    InternalMsgView,
) {
    (
        SessionView { abort_armed: false, ..s },
        match outcome {
            Option::None => InternalMsgView::CommandChannelReply {
                code: ReplyCode::ClosingDataConnection,
                text: "Transfer complete"@,
            },
            Option::Some(kind) => InternalMsgView::StorageError { kind },
        },
    )
}

/// Ends a transfer: releases the abort slot and returns the message the
/// data task posts on the event bus — 226 on success, the storage
/// failure otherwise.
pub fn end_transfer(session: &mut Session, outcome: Option<StorageErrorKind>) -> (msg: InternalMsg)
    ensures
        final(session)@ == end_transfer_spec(old(session)@, outcome).0,
        msg@ == end_transfer_spec(old(session)@, outcome).1,
{
    session.abort_armed = false;
    match outcome {
        Option::None => InternalMsg::CommandChannelReply {
            code: ReplyCode::ClosingDataConnection,
            text: "Transfer complete".to_owned(),
        },
        Option::Some(kind) => InternalMsg::StorageError { kind },
    }
}

/// What a STOU data task does with a storage failure: a name collision
/// is retried once under a fresh name; everything else, and a second
/// collision, fails with the translated reply.
pub fn stou_on_storage_error(kind: StorageErrorKind, already_retried: bool) -> (retry: bool)
    ensures
        retry == (kind == StorageErrorKind::AlreadyExists && !already_retried),
{
    match kind {
        StorageErrorKind::AlreadyExists => !already_retried,
        _ => false,
    }
}

/// The 213 reply to SIZE: the length the client would receive from the
/// staged offset on, in decimal.
pub fn size_reply(len: u64, start_pos: u64) -> (r: Reply)
    requires
        start_pos <= len,
    ensures
        r@ == single(ReplyCode::FileStatus, dec_digits((len - start_pos) as nat)),
{
    Reply::new_with_string(ReplyCode::FileStatus, u64_to_dec(len - start_pos))
}

/// The text of a 227 reply with the six numbers written out.
pub open spec fn pasv_text_parts(h1: nat, h2: nat, h3: nat, h4: nat, p1: nat, p2: nat) -> Seq<
    char,
> {
    "Entering Passive Mode ("@ + dec_digits(h1) + ","@ + dec_digits(h2) + ","@ + dec_digits(h3)
        + ","@ + dec_digits(h4) + ","@ + dec_digits(p1) + ","@ + dec_digits(p2) + ")"@
}

/// The text of the 227 reply for a data endpoint: the four octets of
/// the address the client originally dialed, then the reserved port,
/// high byte first.
pub open spec fn pasv_text_spec(ip: Ipv4, port: u16) -> Seq<char> {
    pasv_text_parts(
        ip.a as nat,
        ip.b as nat,
        ip.c as nat,
        ip.d as nat,
        (port / 256) as nat,
        (port % 256) as nat,
    )
}

/// The (h1,h2,h3,h4,p1,p2) encoding names the original destination
/// address octet for octet, and two numbers that recombine to exactly
/// the reserved port.
pub proof fn lemma_passive_encoding(ip: Ipv4, port: u16)
    ensures
        exists|p1: nat, p2: nat|
            #[trigger] pasv_text_parts(
                ip.a as nat,
                ip.b as nat,
                ip.c as nat,
                ip.d as nat,
                p1,
                p2,
            ) == pasv_text_spec(ip, port) && p1 * 256 + p2 == port && p2 < 256,
{
    let p1 = (port / 256) as nat;
    let p2 = (port % 256) as nat;
    vstd::arithmetic::div_mod::lemma_fundamental_div_mod(port as int, 256);
    assert(p1 * 256 + p2 == port);
    assert(pasv_text_parts(ip.a as nat, ip.b as nat, ip.c as nat, ip.d as nat, p1, p2)
        == pasv_text_spec(ip, port));
}

/// The text of the 227 reply for this endpoint.
pub fn passive_reply_text(ip: Ipv4, port: u16) -> (t: String)
    ensures
        t@ == pasv_text_spec(ip, port),
{
    let mut t = "Entering Passive Mode (".to_owned();
    push_dec_u64(&mut t, ip.a as u64);
    push_char(&mut t, ',');
    push_dec_u64(&mut t, ip.b as u64);
    push_char(&mut t, ',');
    push_dec_u64(&mut t, ip.c as u64);
    push_char(&mut t, ',');
    push_dec_u64(&mut t, ip.d as u64);
    push_char(&mut t, ',');
    push_dec_u64(&mut t, (port / 256) as u64);
    push_char(&mut t, ',');
    push_dec_u64(&mut t, (port % 256) as u64);
    push_char(&mut t, ')');
    proof {
        assert(","@ =~= seq![',']) by {
            reveal_strlit(",");
        }
        assert(")"@ =~= seq![')']) by {
            reveal_strlit(")");
        }
        assert(t@ =~= pasv_text_spec(ip, port));
    }
    t
}

/// The 227 reply for this endpoint.
pub fn passive_reply(ip: Ipv4, port: u16) -> (r: Reply)
    ensures
        r@ == single(ReplyCode::EnteringPassiveMode, pasv_text_spec(ip, port)),
{
    Reply::new_with_string(ReplyCode::EnteringPassiveMode, passive_reply_text(ip, port))
}

/// The bus message carrying the 227 reply for this endpoint.
pub fn passive_reply_msg(ip: Ipv4, port: u16) -> (m: InternalMsg)
    ensures
        m@ == (InternalMsgView::CommandChannelReply {
            code: ReplyCode::EnteringPassiveMode,
            text: pasv_text_spec(ip, port),
        }),
{
    InternalMsg::CommandChannelReply {
        code: ReplyCode::EnteringPassiveMode,
        text: passive_reply_text(ip, port),
    }
}

/// REST followed by a transfer: the staged offset is what the transfer
/// starts at, it is reset before the transfer runs, and a download of a
/// file of `file_len` bytes moves exactly `file_len - n` of them.
pub proof fn lemma_rest_then_transfer(
    s: SessionView,
    ctx: crate::controlchan::ControlCtx,
    fresh: Seq<char>,
    n: u64,
    file_len: u64,
)
    requires
        s.logged_in(),
        n <= file_len,
    ensures
        ({
            let r = crate::controlchan::step_spec(
                s,
                crate::commands::CommandView::Rest { offset: n },
                ctx,
                fresh,
            );
            let (s2, start) = start_transfer_spec(r.session);
            &&& r.session.start_pos == n
            &&& start == n
            &&& s2.start_pos == 0
            &&& transfer_len_spec(file_len, start) == file_len - n
        }),
{
}

} // verus!
