//! Parsed commands, the actions a handler can ask of its surroundings,
//! and the command handlers.
//!
//! A handler is a pure decision: it reads and updates the session and
//! returns the replies to write now together with the actions the
//! embedding program must perform (send a data command to the data task,
//! fire the abort slot, run a rename against the storage backend, ...).
//! Replies that depend on outside work arrive later through the event
//! bus, not from the handler.

use vstd::prelude::*;
use crate::reply::{Reply, ReplyCode, ReplyView};
use crate::session::{Session, SessionView};
use crate::text::join_spec;
use crate::text::join_path;

verus! {

/// The transfer mode requested by MODE. Only `Stream` is supported; the
/// command itself is kept for compatibility.
#[derive(Clone, Copy, Debug, PartialEq, Eq, Structural)]
pub enum ModeParam {
    /// Data is sent in a continuous stream of bytes.
    Stream,
    /// Data is sent as a series of blocks preceded by header bytes.
    Block,
    /// Some round-about way of sending compressed data.
    Compressed,
}

/// The representation type requested by TYPE.
#[derive(Clone, Copy, Debug, PartialEq, Eq, Structural)]
pub enum TypeParam {
    Ascii,
    Image,
}

/// The data-channel protection level requested by PROT.
#[derive(Clone, Copy, Debug, PartialEq, Eq, Structural)]
pub enum ProtParam {
    Clear,
    Safe,
    Confidential,
    Private,
}

/// The record sent through the data-command slot to the data task.
pub enum DataCommand {
    Retr { path: String },
    Stor { path: String },
    Appe { path: String },
    List,
    Nlst,
    Mlsd,
}

/// The mathematical value of a [`DataCommand`].
pub enum DataCommandView {
    Retr { path: Seq<char> },
    Stor { path: Seq<char> },
    Appe { path: Seq<char> },
    List,
    Nlst,
    Mlsd,
}

impl View for DataCommand {
    type V = DataCommandView;

    open spec fn view(&self) -> DataCommandView {
        match self {
            DataCommand::Retr { path } => DataCommandView::Retr { path: path@ },
            DataCommand::Stor { path } => DataCommandView::Stor { path: path@ },
            DataCommand::Appe { path } => DataCommandView::Appe { path: path@ },
            DataCommand::List => DataCommandView::List,
            DataCommand::Nlst => DataCommandView::Nlst,
            DataCommand::Mlsd => DataCommandView::Mlsd,
        }
    }
}

/// One parsed control-channel command. The wire decoder that produces
/// these lives with the embedding program.
pub enum Command {
    User { username: String },
    Pass { password: String },
    Auth,
    Pbsz,
    Prot { param: ProtParam },
    Feat,
    Help,
    Quit,
    Noop,
    Syst,
    Opts,
    Type { param: TypeParam },
    Mode { param: ModeParam },
    Rest { offset: u64 },
    Pasv,
    Port { ip: crate::proxy::Ipv4, port: u16 },
    Retr { path: String },
    Stor { path: String },
    Stou,
    Appe { path: String },
    List,
    Nlst,
    Mlsd,
    Abor,
    Ccc,
    Rnfr { path: String },
    Rnto { path: String },
    Size { path: String },
    Cwd { path: String },
    Unknown,
}

/// The mathematical value of a [`Command`].
pub enum CommandView {
    User { username: Seq<char> },
    Pass { password: Seq<char> },
    Auth,
    Pbsz,
    Prot { param: ProtParam },
    Feat,
    Help,
    Quit,
    Noop,
    Syst,
    Opts,
    Type { param: TypeParam },
    Mode { param: ModeParam },
    Rest { offset: u64 },
    Pasv,
    Port { ip: crate::proxy::Ipv4, port: u16 },
    Retr { path: Seq<char> },
    Stor { path: Seq<char> },
    Stou,
    Appe { path: Seq<char> },
    List,
    Nlst,
    Mlsd,
    Abor,
    Ccc,
    Rnfr { path: Seq<char> },
    Rnto { path: Seq<char> },
    Size { path: Seq<char> },
    Cwd { path: Seq<char> },
    Unknown,
}

impl View for Command {
    type V = CommandView;

    open spec fn view(&self) -> CommandView {
        match self {
            Command::User { username } => CommandView::User { username: username@ },
            Command::Pass { password } => CommandView::Pass { password: password@ },
            Command::Auth => CommandView::Auth,
            Command::Pbsz => CommandView::Pbsz,
            Command::Prot { param } => CommandView::Prot { param: *param },
            Command::Feat => CommandView::Feat,
            Command::Help => CommandView::Help,
            Command::Quit => CommandView::Quit,
            Command::Noop => CommandView::Noop,
            Command::Syst => CommandView::Syst,
            Command::Opts => CommandView::Opts,
            Command::Type { param } => CommandView::Type { param: *param },
            Command::Mode { param } => CommandView::Mode { param: *param },
            Command::Rest { offset } => CommandView::Rest { offset: *offset },
            Command::Pasv => CommandView::Pasv,
            Command::Port { ip, port } => CommandView::Port { ip: *ip, port: *port },
            Command::Retr { path } => CommandView::Retr { path: path@ },
            Command::Stor { path } => CommandView::Stor { path: path@ },
            Command::Stou => CommandView::Stou,
            Command::Appe { path } => CommandView::Appe { path: path@ },
            Command::List => CommandView::List,
            Command::Nlst => CommandView::Nlst,
            Command::Mlsd => CommandView::Mlsd,
            Command::Abor => CommandView::Abor,
            Command::Ccc => CommandView::Ccc,
            Command::Rnfr { path } => CommandView::Rnfr { path: path@ },
            Command::Rnto { path } => CommandView::Rnto { path: path@ },
            Command::Size { path } => CommandView::Size { path: path@ },
            Command::Cwd { path } => CommandView::Cwd { path: path@ },
            Command::Unknown => CommandView::Unknown,
        }
    }
}

/// What a handler asks its surroundings to do.
pub enum Action {
    /// The data-command slot was taken: hand this record to the data task.
    SendDataCommand { cmd: DataCommand },
    /// The abort slot was taken: fire it at the in-flight transfer.
    SignalAbort,
    /// Perform this rename against the storage backend, then feed the
    /// outcome to [`crate::controlchan::rnto_finish`].
    Rename { from: String, to: String },
    /// Look the path up in the storage backend, then feed its length to
    /// [`crate::datachan::size_reply`].
    QueryMetadata { path: String, start_pos: u64 },
    /// Ask the storage backend whether this directory exists, then feed
    /// the outcome to [`crate::controlchan::cwd_finish`].
    ChangeDirectory { path: String },
    /// Arrange a passive data endpoint and post the 227 reply built by
    /// [`crate::datachan::passive_reply`] on the event bus.
    RequestPassivePort,
    /// The 234 reply was sent: run the TLS handshake on the control
    /// socket, then post `SecureControlChannel` on the event bus.
    StartTls,
    /// The 200 reply was sent: post `PlaintextControlChannel` on the
    /// event bus; consuming it downgrades the control channel.
    PostPlaintext,
    /// Run the authenticator, then feed the outcome to
    /// [`crate::controlchan::handle_auth_result`].
    Authenticate { username: String, password: String },
    /// Close the control connection after the replies are flushed.
    Disconnect,
}

/// The mathematical value of an [`Action`].
pub enum ActionView {
    SendDataCommand { cmd: DataCommandView },
    SignalAbort,
    Rename { from: Seq<char>, to: Seq<char> },
    QueryMetadata { path: Seq<char>, start_pos: u64 },
    ChangeDirectory { path: Seq<char> },
    RequestPassivePort,
    StartTls,
    PostPlaintext,
    Authenticate { username: Seq<char>, password: Seq<char> },
    Disconnect,
}

impl View for Action {
    type V = ActionView;

    open spec fn view(&self) -> ActionView {
        match self {
            Action::SendDataCommand { cmd } => ActionView::SendDataCommand { cmd: cmd@ },
            Action::SignalAbort => ActionView::SignalAbort,
            Action::Rename { from, to } => ActionView::Rename { from: from@, to: to@ },
            Action::QueryMetadata { path, start_pos } => ActionView::QueryMetadata {
                path: path@,
                start_pos: *start_pos,
            },
            Action::ChangeDirectory { path } => ActionView::ChangeDirectory { path: path@ },
            Action::RequestPassivePort => ActionView::RequestPassivePort,
            Action::StartTls => ActionView::StartTls,
            Action::PostPlaintext => ActionView::PostPlaintext,
            Action::Authenticate { username, password } => ActionView::Authenticate {
                username: username@,
                password: password@,
            },
            Action::Disconnect => ActionView::Disconnect,
        }
    }
}

/// What one step of the state machine hands back: replies to write now,
/// in order, and actions for the embedding program.
pub struct StepOutput {
    pub replies: Vec<Reply>,
    pub actions: Vec<Action>,
}

/// The mathematical value of a [`StepOutput`].
pub struct StepOutputView {
    pub replies: Seq<ReplyView>,
    pub actions: Seq<ActionView>,
}

impl View for StepOutput {
    type V = StepOutputView;

    open spec fn view(&self) -> StepOutputView {
        StepOutputView {
            replies: self.replies@.map_values(|r: Reply| r@),
            actions: self.actions@.map_values(|a: Action| a@),
        }
    }
}

/// The specified outcome of one step: the new session and the output.
pub struct StepResultView {
    pub session: SessionView,
    pub replies: Seq<ReplyView>,
    pub actions: Seq<ActionView>,
}

/// Whether an executed step produced exactly the specified outcome.
pub open spec fn result_matches(s1: SessionView, out: StepOutputView, r: StepResultView) -> bool {
    s1 == r.session && out.replies == r.replies && out.actions == r.actions
}

/// An output with nothing in it.
pub fn output_empty() -> (o: StepOutput)
    ensures
        o@.replies == Seq::<ReplyView>::empty(),
        o@.actions == Seq::<ActionView>::empty(),
{
    let o = StepOutput { replies: Vec::new(), actions: Vec::new() };
    proof {
        assert(o@.replies =~= Seq::<ReplyView>::empty());
        assert(o@.actions =~= Seq::<ActionView>::empty());
    }
    o
}

/// An output of one reply.
pub fn output_reply(reply: Reply) -> (o: StepOutput)
    ensures
        o@.replies == seq![reply@],
        o@.actions == Seq::<ActionView>::empty(),
{
    let ghost rv = reply@;
    let mut replies: Vec<Reply> = Vec::new();
    replies.push(reply);
    let o = StepOutput { replies, actions: Vec::new() };
    proof {
        assert(o@.replies =~= seq![rv]);
        assert(o@.actions =~= Seq::<ActionView>::empty());
    }
    o
}

/// An output of one action and no reply.
pub fn output_action(action: Action) -> (o: StepOutput)
    ensures
        o@.replies == Seq::<ReplyView>::empty(),
        o@.actions == seq![action@],
{
    let ghost av = action@;
    let mut actions: Vec<Action> = Vec::new();
    actions.push(action);
    let o = StepOutput { replies: Vec::new(), actions };
    proof {
        assert(o@.replies =~= Seq::<ReplyView>::empty());
        assert(o@.actions =~= seq![av]);
    }
    o
}

/// An output of one reply and one action.
pub fn output_reply_action(reply: Reply, action: Action) -> (o: StepOutput)
    ensures
        o@.replies == seq![reply@],
        o@.actions == seq![action@],
{
    let ghost rv = reply@;
    let ghost av = action@;
    let mut replies: Vec<Reply> = Vec::new();
    replies.push(reply);
    let mut actions: Vec<Action> = Vec::new();
    actions.push(action);
    let o = StepOutput { replies, actions };
    proof {
        assert(o@.replies =~= seq![rv]);
        assert(o@.actions =~= seq![av]);
    }
    o
}

/// A one-line reply value.
pub open spec fn single(code: ReplyCode, text: Seq<char>) -> ReplyView {
    ReplyView::Single { code, text }
}

/// An output of two replies, in order, and one action.
pub fn output_two_replies_action(first: Reply, second: Reply, action: Action) -> (o: StepOutput)
    ensures
        o@.replies == seq![first@, second@],
        o@.actions == seq![action@],
{
    let ghost rv1 = first@;
    let ghost rv2 = second@;
    let ghost av = action@;
    let mut replies: Vec<Reply> = Vec::new();
    replies.push(first);
    replies.push(second);
    let mut actions: Vec<Action> = Vec::new();
    actions.push(action);
    let o = StepOutput { replies, actions };
    proof {
        assert(o@.replies =~= seq![rv1, rv2]);
        assert(o@.actions =~= seq![av]);
    }
    o
}

/// The RFC 959 Abort (ABOR) command.
///
/// During a transfer the session owes the client two replies, in order:
/// 426 for the interrupted transfer, then 226 for the closed data
/// channel; the abort slot is fired so the data task stops. Outside a
/// transfer a single 226 says the data channel was already closed.
#[derive(Debug)]
pub struct Abor;

/// What ABOR does to a session.
pub open spec fn abor_spec(s: SessionView) -> StepResultView {
    if s.abort_armed {
        StepResultView {
            session: SessionView { abort_armed: false, ..s },
            replies: seq![
                single(ReplyCode::TransferAborted, "Transfer aborted"@),
                single(ReplyCode::ClosingDataConnection, "Closed data channel"@),
            ],
            actions: seq![ActionView::SignalAbort],
        }
    } else {
        StepResultView {
            session: s,
            replies: seq![
                single(ReplyCode::ClosingDataConnection, "Data channel already closed"@),
            ],
            actions: Seq::empty(),
        }
    }
}

impl Abor {
    pub fn handle(&self, session: &mut Session) -> (out: StepOutput)
        ensures
            result_matches(final(session)@, out@, abor_spec(old(session)@)),
    {
        if session.abort_armed {
            session.abort_armed = false;
            output_two_replies_action(
                Reply::new(ReplyCode::TransferAborted, "Transfer aborted"),
                Reply::new(ReplyCode::ClosingDataConnection, "Closed data channel"),
                Action::SignalAbort,
            )
        } else {
            output_reply(
                Reply::new(ReplyCode::ClosingDataConnection, "Data channel already closed"),
            )
        }
    }
}

/// The RFC 2228 Clear Command Channel (CCC) command.
///
/// On an encrypted control channel, once per session, it acknowledges
/// with 200 and asks the surroundings to post `PlaintextControlChannel`
/// on the event bus; the loop downgrades when it consumes that event,
/// after the acknowledgement is flushed. On a plaintext channel, or
/// after the session has already spent its one downgrade, it refuses
/// with 533.
#[derive(Debug)]
pub struct Ccc;

/// What CCC does to a session.
pub open spec fn ccc_spec(s: SessionView) -> StepResultView {
    if s.cmd_tls && !s.ccc_done {
        StepResultView {
            session: SessionView { ccc_done: true, ..s },
            replies: seq![single(ReplyCode::CommandOkay, "control channel in plaintext now"@)],
            actions: seq![ActionView::PostPlaintext],
        }
    } else {
        StepResultView {
            session: s,
            replies: seq![
                single(ReplyCode::Resp533, "control channel already in plaintext mode"@),
            ],
            actions: Seq::empty(),
        }
    }
}

impl Ccc {
    pub fn handle(&self, session: &mut Session) -> (out: StepOutput)
        ensures
            result_matches(final(session)@, out@, ccc_spec(old(session)@)),
    {
        if session.cmd_tls && !session.ccc_done {
            session.ccc_done = true;
            output_reply_action(
                Reply::new(ReplyCode::CommandOkay, "control channel in plaintext now"),
                Action::PostPlaintext,
            )
        } else {
            output_reply(
                Reply::new(ReplyCode::Resp533, "control channel already in plaintext mode"),
            )
        }
    }
}

/// The storage-feature bit saying the backend supports restarting a
/// transfer at an offset (REST).
pub const FEATURE_RESTART: u32 = 1;

/// The feature lines of the FEAT reply, in sorted order, for a given
/// TLS configuration and storage feature set. Each feature line carries
/// its own leading space, as RFC 2389 asks.
pub open spec fn feat_lines_spec(tls: bool, restart: bool) -> Seq<Seq<char>> {
    seq!["Extensions supported:"@] + (if tls {
        seq![" AUTH TLS"@]
    } else {
        Seq::empty()
    }) + seq![" MDTM"@] + (if tls {
        seq![" PBSZ"@, " PROT"@]
    } else {
        Seq::empty()
    }) + (if restart {
        seq![" REST STREAM"@]
    } else {
        Seq::empty()
    }) + seq![" SIZE"@, " UTF8"@, "END"@]
}

/// Lexicographic order on text lines, by character code.
pub open spec fn lex_le(a: Seq<char>, b: Seq<char>) -> bool
    decreases a.len(),
{
    if a.len() == 0 {
        true
    } else if b.len() == 0 {
        false
    } else if (a[0] as int) < (b[0] as int) {
        true
    } else if (a[0] as int) > (b[0] as int) {
        false
    } else {
        lex_le(a.drop_first(), b.drop_first())
    }
}

/// Whether each line is at most its successor, lexicographically.
pub open spec fn sorted_lines(lines: Seq<Seq<char>>) -> bool {
    forall|i: int| 0 <= i < lines.len() - 1 ==> lex_le(#[trigger] lines[i], lines[i + 1])
}

/// The FEAT body opens with its banner and closes with `END`; the
/// feature lines between them are sorted; `SIZE`, `MDTM` and `UTF8` are
/// always offered; `AUTH TLS`, `PBSZ` and `PROT` exactly when TLS is
/// configured; `REST STREAM` exactly when the backend can restart a
/// transfer.
pub proof fn lemma_feat_lines(tls: bool, restart: bool)
    ensures
        ({
            let lines = feat_lines_spec(tls, restart);
            &&& lines.len() >= 2
            &&& lines[0] == "Extensions supported:"@
            &&& lines[lines.len() - 1] == "END"@
            &&& sorted_lines(lines.subrange(1, lines.len() - 1))
            &&& lines.contains(" SIZE"@)
            &&& lines.contains(" MDTM"@)
            &&& lines.contains(" UTF8"@)
            &&& (lines.contains(" AUTH TLS"@) <==> tls)
            &&& (lines.contains(" PBSZ"@) <==> tls)
            &&& (lines.contains(" PROT"@) <==> tls)
            &&& (lines.contains(" REST STREAM"@) <==> restart)
        }),
{
    reveal_strlit("Extensions supported:");
    reveal_strlit(" AUTH TLS");
    reveal_strlit(" MDTM");
    reveal_strlit(" PBSZ");
    reveal_strlit(" PROT");
    reveal_strlit(" REST STREAM");
    reveal_strlit(" SIZE");
    reveal_strlit(" UTF8");
    reveal_strlit("END");
    let lines = feat_lines_spec(tls, restart);
    assert(lex_le(" AUTH TLS"@, " MDTM"@)) by {
        reveal_with_fuel(lex_le, 4);
    }
    assert(lex_le(" MDTM"@, " PBSZ"@)) by {
        reveal_with_fuel(lex_le, 4);
    }
    assert(lex_le(" MDTM"@, " REST STREAM"@)) by {
        reveal_with_fuel(lex_le, 4);
    }
    assert(lex_le(" MDTM"@, " SIZE"@)) by {
        reveal_with_fuel(lex_le, 4);
    }
    assert(lex_le(" PBSZ"@, " PROT"@)) by {
        reveal_with_fuel(lex_le, 4);
    }
    assert(lex_le(" PROT"@, " REST STREAM"@)) by {
        reveal_with_fuel(lex_le, 4);
    }
    assert(lex_le(" PROT"@, " SIZE"@)) by {
        reveal_with_fuel(lex_le, 4);
    }
    assert(lex_le(" REST STREAM"@, " SIZE"@)) by {
        reveal_with_fuel(lex_le, 4);
    }
    assert(lex_le(" SIZE"@, " UTF8"@)) by {
        reveal_with_fuel(lex_le, 4);
    }
    if tls && restart {
        assert(lines =~= seq![
            "Extensions supported:"@,
            " AUTH TLS"@,
            " MDTM"@,
            " PBSZ"@,
            " PROT"@,
            " REST STREAM"@,
            " SIZE"@,
            " UTF8"@,
            "END"@,
        ]);
        let mid = lines.subrange(1, lines.len() - 1);
        assert forall|i: int| 0 <= i < mid.len() - 1 implies lex_le(
            #[trigger] mid[i],
            mid[i + 1],
        ) by {
            assert(mid[i] == lines[i + 1]);
            assert(mid[i + 1] == lines[i + 2]);
        }
        assert(lines.contains(" SIZE"@)) by {
            assert(lines[6] == " SIZE"@);
        }
        assert(lines.contains(" MDTM"@)) by {
            assert(lines[2] == " MDTM"@);
        }
        assert(lines.contains(" UTF8"@)) by {
            assert(lines[7] == " UTF8"@);
        }
        assert(lines.contains(" AUTH TLS"@)) by {
            assert(lines[1] == " AUTH TLS"@);
        }
        assert(lines.contains(" PBSZ"@)) by {
            assert(lines[3] == " PBSZ"@);
        }
        assert(lines.contains(" PROT"@)) by {
            assert(lines[4] == " PROT"@);
        }
        assert(lines.contains(" REST STREAM"@)) by {
            assert(lines[5] == " REST STREAM"@);
        }
    } else if tls {
        assert(lines =~= seq![
            "Extensions supported:"@,
            " AUTH TLS"@,
            " MDTM"@,
            " PBSZ"@,
            " PROT"@,
            " SIZE"@,
            " UTF8"@,
            "END"@,
        ]);
        let mid = lines.subrange(1, lines.len() - 1);
        assert forall|i: int| 0 <= i < mid.len() - 1 implies lex_le(
            #[trigger] mid[i],
            mid[i + 1],
        ) by {
            assert(mid[i] == lines[i + 1]);
            assert(mid[i + 1] == lines[i + 2]);
        }
        assert(lines.contains(" SIZE"@)) by {
            assert(lines[5] == " SIZE"@);
        }
        assert(lines.contains(" MDTM"@)) by {
            assert(lines[2] == " MDTM"@);
        }
        assert(lines.contains(" UTF8"@)) by {
            assert(lines[6] == " UTF8"@);
        }
        assert(lines.contains(" AUTH TLS"@)) by {
            assert(lines[1] == " AUTH TLS"@);
        }
        assert(lines.contains(" PBSZ"@)) by {
            assert(lines[3] == " PBSZ"@);
        }
        assert(lines.contains(" PROT"@)) by {
            assert(lines[4] == " PROT"@);
        }
        assert(!lines.contains(" REST STREAM"@)) by {
            assert forall|i: int| 0 <= i < lines.len() implies (#[trigger] lines[i])
                != " REST STREAM"@ by {
                assert(" REST STREAM"@.len() == 12);
            }
        }
    } else if restart {
        assert(lines =~= seq![
            "Extensions supported:"@,
            " MDTM"@,
            " REST STREAM"@,
            " SIZE"@,
            " UTF8"@,
            "END"@,
        ]);
        let mid = lines.subrange(1, lines.len() - 1);
        assert forall|i: int| 0 <= i < mid.len() - 1 implies lex_le(
            #[trigger] mid[i],
            mid[i + 1],
        ) by {
            assert(mid[i] == lines[i + 1]);
            assert(mid[i + 1] == lines[i + 2]);
        }
        assert(lines.contains(" SIZE"@)) by {
            assert(lines[3] == " SIZE"@);
        }
        assert(lines.contains(" MDTM"@)) by {
            assert(lines[1] == " MDTM"@);
        }
        assert(lines.contains(" UTF8"@)) by {
            assert(lines[4] == " UTF8"@);
        }
        assert(lines.contains(" REST STREAM"@)) by {
            assert(lines[2] == " REST STREAM"@);
        }
        assert(!lines.contains(" AUTH TLS"@)) by {
            assert forall|i: int| 0 <= i < lines.len() implies (#[trigger] lines[i])
                != " AUTH TLS"@ by {
                assert(" AUTH TLS"@.len() == 9);
            }
        }
        assert(!lines.contains(" PBSZ"@)) by {
            assert forall|i: int| 0 <= i < lines.len() implies (#[trigger] lines[i]) != " PBSZ"@ by {
                assert(" PBSZ"@[1] == 'P');
                assert(" PBSZ"@.len() == 5);
            }
        }
        assert(!lines.contains(" PROT"@)) by {
            assert forall|i: int| 0 <= i < lines.len() implies (#[trigger] lines[i]) != " PROT"@ by {
                assert(" PROT"@[1] == 'P');
                assert(" PROT"@.len() == 5);
            }
        }
    } else {
        assert(lines =~= seq![
            "Extensions supported:"@,
            " MDTM"@,
            " SIZE"@,
            " UTF8"@,
            "END"@,
        ]);
        let mid = lines.subrange(1, lines.len() - 1);
        assert forall|i: int| 0 <= i < mid.len() - 1 implies lex_le(
            #[trigger] mid[i],
            mid[i + 1],
        ) by {
            assert(mid[i] == lines[i + 1]);
            assert(mid[i + 1] == lines[i + 2]);
        }
        assert(lines.contains(" SIZE"@)) by {
            assert(lines[2] == " SIZE"@);
        }
        assert(lines.contains(" MDTM"@)) by {
            assert(lines[1] == " MDTM"@);
        }
        assert(lines.contains(" UTF8"@)) by {
            assert(lines[3] == " UTF8"@);
        }
        assert(!lines.contains(" AUTH TLS"@)) by {
            assert forall|i: int| 0 <= i < lines.len() implies (#[trigger] lines[i])
                != " AUTH TLS"@ by {
                assert(" AUTH TLS"@.len() == 9);
            }
        }
        assert(!lines.contains(" PBSZ"@)) by {
            assert forall|i: int| 0 <= i < lines.len() implies (#[trigger] lines[i]) != " PBSZ"@ by {
                assert(" PBSZ"@[1] == 'P');
                assert(" PBSZ"@.len() == 5);
            }
        }
        assert(!lines.contains(" PROT"@)) by {
            assert forall|i: int| 0 <= i < lines.len() implies (#[trigger] lines[i]) != " PROT"@ by {
                assert(" PROT"@[1] == 'P');
                assert(" PROT"@.len() == 5);
            }
        }
        assert(!lines.contains(" REST STREAM"@)) by {
            assert forall|i: int| 0 <= i < lines.len() implies (#[trigger] lines[i])
                != " REST STREAM"@ by {
                assert(" REST STREAM"@.len() == 12);
            }
        }
    }
}

/// The RFC 2389 Feature (FEAT) command: a multi-line 211 reply listing
/// the extensions this server supports, alphabetically.
#[derive(Debug)]
pub struct Feat;

/// What FEAT does: the session is untouched; the reply lists `SIZE`,
/// `MDTM` and `UTF8` always, `AUTH TLS`, `PBSZ` and `PROT` when TLS is
/// configured, and `REST STREAM` when the backend advertises restart.
pub open spec fn feat_spec(s: SessionView, tls_configured: bool, storage_features: u32) -> StepResultView {
    StepResultView {
        session: s,
        replies: seq![
            ReplyView::Multi {
                code: ReplyCode::SystemStatus,
                lines: feat_lines_spec(tls_configured, storage_features & FEATURE_RESTART > 0),
            },
        ],
        actions: Seq::empty(),
    }
}

impl Feat {
    pub fn handle(&self, session: &mut Session, tls_configured: bool, storage_features: u32) -> (out: StepOutput)
        ensures
            result_matches(
                final(session)@,
                out@,
                feat_spec(old(session)@, tls_configured, storage_features),
            ),
    {
        let restart = storage_features & FEATURE_RESTART > 0;
        let mut lines: Vec<String> = Vec::new();
        lines.push("Extensions supported:".to_owned());
        if tls_configured {
            lines.push(" AUTH TLS".to_owned());
        }
        lines.push(" MDTM".to_owned());
        if tls_configured {
            lines.push(" PBSZ".to_owned());
            lines.push(" PROT".to_owned());
        }
        if restart {
            lines.push(" REST STREAM".to_owned());
        }
        lines.push(" SIZE".to_owned());
        lines.push(" UTF8".to_owned());
        lines.push("END".to_owned());
        proof {
            assert(lines@.map_values(|s: String| s@) =~= feat_lines_spec(tls_configured, restart));
        }
        output_reply(Reply::new_multiline(ReplyCode::SystemStatus, lines))
    }
}

/// The RFC 959 Transfer Mode (MODE) command. Only `Stream` is
/// supported; anything else gets 504.
#[derive(Debug)]
pub struct Mode {
    params: ModeParam,
}

/// What MODE does to a session.
pub open spec fn mode_spec(s: SessionView, param: ModeParam) -> StepResultView {
    if param == ModeParam::Stream {
        StepResultView {
            session: s,
            replies: seq![single(ReplyCode::CommandOkay, "Using Stream transfer mode"@)],
            actions: Seq::empty(),
        }
    } else {
        StepResultView {
            session: s,
            replies: seq![
                single(
                    ReplyCode::CommandNotImplementedForParameter,
                    "Only Stream transfer mode is supported"@,
                ),
            ],
            actions: Seq::empty(),
        }
    }
}

impl Mode {
    /// The parameter this command was parsed with.
    pub closed spec fn spec_params(&self) -> ModeParam {
        self.params
    }

    pub fn new(params: ModeParam) -> (m: Mode)
        ensures
            m.spec_params() == params,
    {
        Mode { params }
    }

    pub fn handle(&self, session: &mut Session) -> (out: StepOutput)
        ensures
            result_matches(final(session)@, out@, mode_spec(old(session)@, self.spec_params())),
    {
        match self.params {
            ModeParam::Stream => output_reply(
                Reply::new(ReplyCode::CommandOkay, "Using Stream transfer mode"),
            ),
            _ => output_reply(
                Reply::new(
                    ReplyCode::CommandNotImplementedForParameter,
                    "Only Stream transfer mode is supported",
                ),
            ),
        }
    }
}

/// The RFC 2228 Protection Buffer Size (PBSZ) command. FTP over TLS is
/// a streaming protection mechanism, so the buffer size is always zero
/// and the command just acknowledges.
#[derive(Debug)]
pub struct Pbsz;

/// What PBSZ does to a session.
pub open spec fn pbsz_spec(s: SessionView) -> StepResultView {
    StepResultView {
        session: s,
        replies: seq![single(ReplyCode::CommandOkay, "OK"@)],
        actions: Seq::empty(),
    }
}

impl Pbsz {
    pub fn handle(&self, session: &mut Session) -> (out: StepOutput)
        ensures
            result_matches(final(session)@, out@, pbsz_spec(old(session)@)),
    {
        output_reply(Reply::new(ReplyCode::CommandOkay, "OK"))
    }
}

/// The RFC 959 Rename To (RNTO) command.
///
/// With a source staged by an immediately preceding RNFR, the rename is
/// handed to the storage backend as an action and the reply follows its
/// outcome through [`crate::controlchan::rnto_finish`]. With no staged
/// source — RNFR never ran, or another command intervened and cleared
/// it — the command is out of sequence: 503, and nothing touches the
/// filesystem.
#[derive(Debug)]
pub struct Rnto {
    path: String,
}

/// What RNTO does to a session.
pub open spec fn rnto_spec(s: SessionView, path: Seq<char>) -> StepResultView {
    match s.rename_from {
        Option::Some(from) => StepResultView {
            session: SessionView { rename_from: Option::None, ..s },
            replies: Seq::empty(),
            actions: seq![ActionView::Rename { from, to: join_spec(s.cwd, path) }],
        },
        Option::None => StepResultView {
            session: s,
            replies: seq![
                single(
                    ReplyCode::BadCommandSequence,
                    "Please tell me what file you want to rename first"@,
                ),
            ],
            actions: Seq::empty(),
        },
    }
}

impl Rnto {
    /// The target path this command was parsed with.
    pub closed spec fn spec_path(&self) -> Seq<char> {
        self.path@
    }

    pub fn new(path: String) -> (r: Rnto)
        ensures
            r.spec_path() == path@,
    {
        Rnto { path }
    }

    pub fn handle(self, session: &mut Session) -> (out: StepOutput)
        ensures
            result_matches(final(session)@, out@, rnto_spec(old(session)@, self.spec_path())),
    {
        let staged = session.rename_from.take();
        match staged {
            Option::Some(from) => {
                let to = join_path(session.cwd.as_str(), self.path.as_str());
                output_action(Action::Rename { from, to })
            },
            Option::None => output_reply(
                Reply::new(
                    ReplyCode::BadCommandSequence,
                    "Please tell me what file you want to rename first",
                ),
            ),
        }
    }
}

/// The RFC 3659 SIZE command. The metadata call runs outside; the
/// handler resolves the path and replies nothing now — the 213 line is
/// built by [`crate::datachan::size_reply`] and arrives through the
/// event bus.
#[derive(Debug)]
pub struct Size {
    path: String,
}

/// What SIZE does to a session.
pub open spec fn size_spec(s: SessionView, path: Seq<char>) -> StepResultView {
    StepResultView {
        session: s,
        replies: Seq::empty(),
        actions: seq![
            ActionView::QueryMetadata {
                path: join_spec(s.cwd, path),
                start_pos: s.start_pos,
            },
        ],
    }
}

impl Size {
    /// The path this command was parsed with.
    pub closed spec fn spec_path(&self) -> Seq<char> {
        self.path@
    }

    pub fn new(path: String) -> (r: Size)
        ensures
            r.spec_path() == path@,
    {
        Size { path }
    }

    pub fn handle(self, session: &mut Session) -> (out: StepOutput)
        ensures
            result_matches(final(session)@, out@, size_spec(old(session)@, self.spec_path())),
    {
        let path = join_path(session.cwd.as_str(), self.path.as_str());
        output_action(Action::QueryMetadata { path, start_pos: session.start_pos })
    }
}

/// The RFC 959 Store (STOR) command: with the data channel armed, the
/// slot is consumed, the record goes to the data task, and 150 says the
/// server is ready to receive; otherwise 425.
#[derive(Debug)]
pub struct Stor;

/// What STOR does to a session.
pub open spec fn stor_spec(s: SessionView, path: Seq<char>) -> StepResultView {
    if s.data_cmd_armed {
        StepResultView {
            session: SessionView { data_cmd_armed: false, ..s },
            replies: seq![single(ReplyCode::FileStatusOkay, "Ready to receive data"@)],
            actions: seq![
                ActionView::SendDataCommand {
                    cmd: DataCommandView::Stor { path: join_spec(s.cwd, path) },
                },
            ],
        }
    } else {
        StepResultView {
            session: s,
            replies: seq![
                single(ReplyCode::CantOpenDataConnection, "No data connection established"@),
            ],
            actions: Seq::empty(),
        }
    }
}

impl Stor {
    pub fn handle(&self, session: &mut Session, path: String) -> (out: StepOutput)
        ensures
            result_matches(final(session)@, out@, stor_spec(old(session)@, path@)),
    {
        if session.data_cmd_armed {
            session.data_cmd_armed = false;
            let resolved = join_path(session.cwd.as_str(), path.as_str());
            output_reply_action(
                Reply::new(ReplyCode::FileStatusOkay, "Ready to receive data"),
                Action::SendDataCommand { cmd: DataCommand::Stor { path: resolved } },
            )
        } else {
            output_reply(
                Reply::new(ReplyCode::CantOpenDataConnection, "No data connection established"),
            )
        }
    }
}

/// The name a STOU upload gets: a freshly drawn universally unique
/// identifier in its canonical hyphenated form.
///
/// Relies on `uuid::Uuid::new_v4` and its `Display` implementation: a
/// random version-4 identifier, formatted as 36 hyphenated lowercase
/// hexadecimal characters. The value is random, so nothing more is
/// promised of it.
#[verifier::external_body]
fn fresh_unique_name() -> (r: String)
    ensures
        r@.len() == 36,
{
    uuid::Uuid::new_v4().to_string()
}

/// The RFC 959 Store Unique (STOU) command: STOR under a fresh
/// server-chosen name, which the 150 reply carries back to the client.
#[derive(Debug)]
pub struct Stou;

/// What STOU does to a session, once the fresh name is drawn.
pub open spec fn stou_spec(s: SessionView, name: Seq<char>) -> StepResultView {
    if s.data_cmd_armed {
        StepResultView {
            session: SessionView { data_cmd_armed: false, ..s },
            replies: seq![single(ReplyCode::FileStatusOkay, name)],
            actions: seq![
                ActionView::SendDataCommand {
                    cmd: DataCommandView::Stor { path: join_spec(s.cwd, name) },
                },
            ],
        }
    } else {
        StepResultView {
            session: s,
            replies: seq![
                single(ReplyCode::CantOpenDataConnection, "No data connection established"@),
            ],
            actions: Seq::empty(),
        }
    }
}

impl Stou {
    /// STOU with the upload name given: what remains once the unique
    /// name is drawn, fully determined by its arguments.
    pub fn handle_with_name(&self, session: &mut Session, name: String) -> (out: StepOutput)
        ensures
            result_matches(final(session)@, out@, stou_spec(old(session)@, name@)),
    {
        if session.data_cmd_armed {
            session.data_cmd_armed = false;
            let resolved = join_path(session.cwd.as_str(), name.as_str());
            output_reply_action(
                Reply::new_with_string(ReplyCode::FileStatusOkay, name),
                Action::SendDataCommand { cmd: DataCommand::Stor { path: resolved } },
            )
        } else {
            output_reply(
                Reply::new(ReplyCode::CantOpenDataConnection, "No data connection established"),
            )
        }
    }

    /// STOU proper: draws a fresh 36-character name, then behaves as
    /// [`Stou::handle_with_name`] on it.
    pub fn handle(&self, session: &mut Session) -> (out: StepOutput)
        ensures
            exists|name: Seq<char>|
                name.len() == 36 && #[trigger] result_matches(
                    final(session)@,
                    out@,
                    stou_spec(old(session)@, name),
                ),
    {
        let name = fresh_unique_name();
        let ghost n = name@;
        let out = self.handle_with_name(session, name);
        proof {
            assert(n.len() == 36 && result_matches(session@, out@, stou_spec(old(session)@, n)));
        }
        out
    }
}

} // verus!
