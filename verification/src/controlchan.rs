//! The control-channel state machine: pre-auth gating, the dispatch of
//! one parsed command to its handler, and the event bus that carries
//! asynchronously produced replies and storage outcomes back into the
//! loop.
//!
//! The loop around this module — reading lines, writing replies, timers,
//! TLS plumbing — lives with the embedding program. Everything that
//! decides is here: `session_step` for commands, `handle_event` for bus
//! events, and the small finishers that turn an outside outcome into a
//! reply.

use vstd::prelude::*;
use crate::commands::{
    Abor, Action, ActionView, Ccc, Command, CommandView, DataCommand, DataCommandView, Feat, Mode,
    ModeParam, Pbsz, ProtParam, Rnto, Size, StepOutput, StepOutputView, StepResultView, Stor, Stou,
    output_action, output_reply, output_reply_action, result_matches, single,
    abor_spec, ccc_spec, feat_spec, mode_spec, pbsz_spec, rnto_spec, size_spec, stor_spec,
    stou_spec,
};
use crate::reply::{Reply, ReplyCode, ReplyView};
use crate::session::{Session, SessionView};
use crate::text::{dec_digits, join_path, join_spec, push_dec_u64};

verus! {

/// What a handler may know about its surroundings: whether TLS is
/// configured on the server, and the storage backend's optional
/// feature bits.
#[derive(Clone, Copy, Debug, PartialEq, Eq, Structural)]
pub struct ControlCtx {
    pub tls_configured: bool,
    pub storage_features: u32,
}

/// The commands a session may use before authentication. Everything
/// else is refused with 530 until USER and PASS have succeeded.
pub open spec fn gating_allows(c: CommandView) -> bool {
    match c {
        CommandView::User { .. } => true,
        CommandView::Pass { .. } => true,
        CommandView::Auth => true,
        CommandView::Pbsz => true,
        CommandView::Prot { .. } => true,
        CommandView::Feat => true,
        CommandView::Help => true,
        CommandView::Quit => true,
        CommandView::Noop => true,
        CommandView::Syst => true,
        CommandView::Opts => true,
        _ => false,
    }
}

/// The session with its staged rename source cleared: what any command
/// other than RNFR leaves behind (RNTO consumes it instead).
pub open spec fn cleared(s: SessionView) -> SessionView {
    SessionView { rename_from: Option::None, ..s }
}

/// What USER does: stage the name and ask for a password.
pub open spec fn user_spec(s: SessionView, username: Seq<char>) -> StepResultView {
    StepResultView {
        session: SessionView { username: Option::Some(username), ..s },
        replies: seq![single(ReplyCode::NeedPassword, "Password required"@)],
        actions: Seq::empty(),
    }
}

/// What PASS does: with a staged name, hand both to the authenticator;
/// its verdict comes back through `handle_auth_result`. Without one the
/// command is out of sequence.
pub open spec fn pass_spec(s: SessionView, password: Seq<char>) -> StepResultView {
    match s.username {
        Option::Some(username) => StepResultView {
            session: s,
            replies: Seq::empty(),
            actions: seq![ActionView::Authenticate { username, password }],
        },
        Option::None => StepResultView {
            session: s,
            replies: seq![
                single(ReplyCode::BadCommandSequence, "Please provide a username first"@),
            ],
            actions: Seq::empty(),
        },
    }
}

/// What AUTH TLS does: with TLS configured, acknowledge with 234 and
/// hand the handshake to the surroundings; otherwise 504.
pub open spec fn auth_spec(s: SessionView, tls_configured: bool) -> StepResultView {
    if tls_configured {
        StepResultView {
            session: s,
            replies: seq![single(ReplyCode::AuthOkayNoDataNeeded, "AUTH TLS successful"@)],
            actions: seq![ActionView::StartTls],
        }
    } else {
        StepResultView {
            session: s,
            replies: seq![
                single(ReplyCode::CommandNotImplementedForParameter, "TLS is not configured"@),
            ],
            actions: Seq::empty(),
        }
    }
}

/// What PROT does: only on an already encrypted control channel, and
/// only the Clear and Private levels.
pub open spec fn prot_spec(s: SessionView, param: ProtParam) -> StepResultView {
    if !s.cmd_tls {
        StepResultView {
            session: s,
            replies: seq![
                single(ReplyCode::BadCommandSequence, "Secure the control channel first"@),
            ],
            actions: Seq::empty(),
        }
    } else {
        match param {
            ProtParam::Clear => StepResultView {
                session: SessionView { data_tls: false, ..s },
                replies: seq![single(ReplyCode::CommandOkay, "Protection level set to Clear"@)],
                actions: Seq::empty(),
            },
            ProtParam::Private => StepResultView {
                session: SessionView { data_tls: true, ..s },
                replies: seq![single(ReplyCode::CommandOkay, "Protection level set to Private"@)],
                actions: Seq::empty(),
            },
            _ => StepResultView {
                session: s,
                replies: seq![
                    single(
                        ReplyCode::CommandNotImplementedForParameter,
                        "Only Clear and Private protection levels are supported"@,
                    ),
                ],
                actions: Seq::empty(),
            },
        }
    }
}

/// What HELP does.
pub open spec fn help_spec(s: SessionView) -> StepResultView {
    StepResultView {
        session: s,
        replies: seq![single(ReplyCode::HelpMessage, "Help is on the way"@)],
        actions: Seq::empty(),
    }
}

/// What QUIT does: say goodbye and ask the surroundings to close.
pub open spec fn quit_spec(s: SessionView) -> StepResultView {
    StepResultView {
        session: s,
        replies: seq![single(ReplyCode::ClosingControlConnection, "Goodbye"@)],
        actions: seq![ActionView::Disconnect],
    }
}

/// What NOOP does.
pub open spec fn noop_spec(s: SessionView) -> StepResultView {
    StepResultView {
        session: s,
        replies: seq![single(ReplyCode::CommandOkay, "Successfully did nothing"@)],
        actions: Seq::empty(),
    }
}

/// What SYST does.
pub open spec fn syst_spec(s: SessionView) -> StepResultView {
    StepResultView {
        session: s,
        replies: seq![single(ReplyCode::SystemType, "UNIX Type: L8"@)],
        actions: Seq::empty(),
    }
}

/// What OPTS does: the server always talks UTF-8.
pub open spec fn opts_spec(s: SessionView) -> StepResultView {
    StepResultView {
        session: s,
        replies: seq![single(ReplyCode::CommandOkay, "Always in UTF-8 mode"@)],
        actions: Seq::empty(),
    }
}

/// What TYPE does: the server always transfers in binary.
pub open spec fn type_spec(s: SessionView) -> StepResultView {
    StepResultView {
        session: s,
        replies: seq![single(ReplyCode::CommandOkay, "Always in binary mode"@)],
        actions: Seq::empty(),
    }
}

/// What REST does: stage the offset for the next transfer.
pub open spec fn rest_spec(s: SessionView, offset: u64) -> StepResultView {
    StepResultView {
        session: SessionView { start_pos: offset, ..s },
        replies: seq![
            single(ReplyCode::FileActionPending, "Restarting at "@ + dec_digits(offset as nat)),
        ],
        actions: Seq::empty(),
    }
}

/// What PASV does: with no transfer in flight, arm the data-command
/// slot and ask the surroundings for a passive endpoint; the 227 reply
/// follows through the event bus. During a transfer: 425.
pub open spec fn pasv_spec(s: SessionView) -> StepResultView {
    if s.abort_armed {
        StepResultView {
            session: s,
            replies: seq![
                single(ReplyCode::CantOpenDataConnection, "Can't open data connection"@),
            ],
            actions: Seq::empty(),
        }
    } else {
        StepResultView {
            session: SessionView { data_cmd_armed: true, ..s },
            replies: Seq::empty(),
            actions: seq![ActionView::RequestPassivePort],
        }
    }
}

/// What PORT does: with no transfer in flight, record that the client
/// supplied a data endpoint by arming the data-command slot.
pub open spec fn port_spec(s: SessionView) -> StepResultView {
    if s.abort_armed {
        StepResultView {
            session: s,
            replies: seq![
                single(ReplyCode::CantOpenDataConnection, "Can't open data connection"@),
            ],
            actions: Seq::empty(),
        }
    } else {
        StepResultView {
            session: SessionView { data_cmd_armed: true, ..s },
            replies: seq![single(ReplyCode::CommandOkay, "PORT command successful"@)],
            actions: Seq::empty(),
        }
    }
}

/// What a data-initiating command does: with the slot armed, consume it,
/// hand the record to the data task and announce with 150; otherwise
/// 425.
pub open spec fn data_cmd_spec(s: SessionView, cmd: DataCommandView, text: Seq<char>) -> StepResultView {
    if s.data_cmd_armed {
        StepResultView {
            session: SessionView { data_cmd_armed: false, ..s },
            replies: seq![single(ReplyCode::FileStatusOkay, text)],
            actions: seq![ActionView::SendDataCommand { cmd }],
        }
    } else {
        StepResultView {
            session: s,
            replies: seq![
                single(ReplyCode::CantOpenDataConnection, "No data connection established"@),
            ],
            actions: Seq::empty(),
        }
    }
}

/// What RNFR does: stage the resolved source path for the RNTO that
/// must follow immediately.
pub open spec fn rnfr_spec(s: SessionView, path: Seq<char>) -> StepResultView {
    StepResultView {
        session: SessionView { rename_from: Option::Some(join_spec(s.cwd, path)), ..s },
        replies: seq![
            single(ReplyCode::FileActionPending, "Tell me what the new name will be"@),
        ],
        actions: Seq::empty(),
    }
}

/// What CWD does: ask the storage backend about the resolved path; the
/// directory change lands through `cwd_finish`.
pub open spec fn cwd_spec(s: SessionView, path: Seq<char>) -> StepResultView {
    StepResultView {
        session: s,
        replies: Seq::empty(),
        actions: seq![ActionView::ChangeDirectory { path: join_spec(s.cwd, path) }],
    }
}

/// What an unrecognized command gets after authentication.
pub open spec fn unknown_spec(s: SessionView) -> StepResultView {
    StepResultView {
        session: s,
        replies: seq![single(ReplyCode::CommandNotImplemented, "Command not implemented"@)],
        actions: Seq::empty(),
    }
}

/// The 530 a gated command gets before authentication.
pub open spec fn gated_spec(s: SessionView) -> StepResultView {
    StepResultView {
        session: cleared(s),
        replies: seq![
            single(ReplyCode::NotLoggedIn, "Please authenticate with USER and PASS"@),
        ],
        actions: Seq::empty(),
    }
}

/// One step of the control-channel state machine: what dispatching the
/// command `c` does to the session `s`, which replies it writes, in
/// order, and which actions it asks of the surroundings. `fresh` is the
/// unique name a STOU in this step would store under; every other
/// command ignores it.
pub open spec fn step_spec(s: SessionView, c: CommandView, ctx: ControlCtx, fresh: Seq<char>) -> StepResultView {
    if !s.logged_in() && !gating_allows(c) {
        gated_spec(s)
    } else {
        match c {
            CommandView::User { username } => user_spec(cleared(s), username),
            CommandView::Pass { password } => pass_spec(cleared(s), password),
            CommandView::Auth => auth_spec(cleared(s), ctx.tls_configured),
            CommandView::Pbsz => pbsz_spec(cleared(s)),
            CommandView::Prot { param } => prot_spec(cleared(s), param),
            CommandView::Feat => feat_spec(cleared(s), ctx.tls_configured, ctx.storage_features),
            CommandView::Help => help_spec(cleared(s)),
            CommandView::Quit => quit_spec(cleared(s)),
            CommandView::Noop => noop_spec(cleared(s)),
            CommandView::Syst => syst_spec(cleared(s)),
            CommandView::Opts => opts_spec(cleared(s)),
            CommandView::Type { .. } => type_spec(cleared(s)),
            CommandView::Mode { param } => mode_spec(cleared(s), param),
            CommandView::Rest { offset } => rest_spec(cleared(s), offset),
            CommandView::Pasv => pasv_spec(cleared(s)),
            CommandView::Port { .. } => port_spec(cleared(s)),
            CommandView::Retr { path } => data_cmd_spec(
                cleared(s),
                DataCommandView::Retr { path: join_spec(s.cwd, path) },
                "Opening data connection"@,
            ),
            CommandView::Stor { path } => stor_spec(cleared(s), path),
            CommandView::Stou => stou_spec(cleared(s), fresh),
            CommandView::Appe { path } => data_cmd_spec(
                cleared(s),
                DataCommandView::Appe { path: join_spec(s.cwd, path) },
                "Ready to receive data"@,
            ),
            CommandView::List => data_cmd_spec(
                cleared(s),
                DataCommandView::List,
                "Opening data connection"@,
            ),
            CommandView::Nlst => data_cmd_spec(
                cleared(s),
                DataCommandView::Nlst,
                "Opening data connection"@,
            ),
            CommandView::Mlsd => data_cmd_spec(
                cleared(s),
                DataCommandView::Mlsd,
                "Opening data connection"@,
            ),
            CommandView::Abor => abor_spec(cleared(s)),
            CommandView::Ccc => ccc_spec(cleared(s)),
            CommandView::Rnfr { path } => rnfr_spec(cleared(s), path),
            CommandView::Rnto { path } => rnto_spec(s, path),
            CommandView::Size { path } => size_spec(cleared(s), path),
            CommandView::Cwd { path } => cwd_spec(cleared(s), path),
            CommandView::Unknown => unknown_spec(cleared(s)),
        }
    }
}

/// Whether an executed step produced exactly what `step_spec` says for
/// some admissible fresh name.
pub open spec fn step_matches(
    s0: SessionView,
    c: CommandView,
    ctx: ControlCtx,
    fresh: Seq<char>,
    s1: SessionView,
    out: StepOutputView,
) -> bool {
    result_matches(s1, out, step_spec(s0, c, ctx, fresh))
}

/// Whether this command may run before authentication.
fn gating_allowed(cmd: &Command) -> (b: bool)
    ensures
        b == gating_allows(cmd@),
{
    match cmd {
        Command::User { .. } => true,
        Command::Pass { .. } => true,
        Command::Auth => true,
        Command::Pbsz => true,
        Command::Prot { .. } => true,
        Command::Feat => true,
        Command::Help => true,
        Command::Quit => true,
        Command::Noop => true,
        Command::Syst => true,
        Command::Opts => true,
        _ => false,
    }
}

/// Dispatches one parsed command against the session: enforces the
/// pre-auth gate, clears or consumes the staged rename source, runs the
/// handler, and returns the replies to write now together with the
/// actions for the embedding program. The outcome is exactly
/// `step_spec`, with the existential covering only the fresh name a
/// STOU draws.
#[verifier::rlimit(100)]
pub fn session_step(session: &mut Session, cmd: Command, ctx: &ControlCtx) -> (out: StepOutput)
    ensures
        exists|fresh: Seq<char>|
            fresh.len() == 36 && #[trigger] step_matches(
                old(session)@,
                cmd@,
                *ctx,
                fresh,
                final(session)@,
                out@,
            ),
{
    let ghost s0 = old(session)@;
    let ghost c = cmd@;
    // any admissible name witnesses the existential for the commands
    // that ignore it
    let ghost blank: Seq<char> = Seq::new(36, |i: int| ' ');
    let logged_in = session.user.is_some();
    if !logged_in && !gating_allowed(&cmd) {
        session.rename_from = Option::None;
        let out = output_reply(
            Reply::new(ReplyCode::NotLoggedIn, "Please authenticate with USER and PASS"),
        );
        proof {
            assert(blank.len() == 36);
            assert(step_matches(s0, c, *ctx, blank, session@, out@));
        }
        return out;
    }
    let out = match cmd {
        Command::User { username } => {
            session.rename_from = Option::None;
            session.username = Option::Some(username);
            output_reply(Reply::new(ReplyCode::NeedPassword, "Password required"))
        },
        Command::Pass { password } => {
            session.rename_from = Option::None;
            match &session.username {
                Option::Some(username) => {
                    let username = username.clone();
                    output_action(Action::Authenticate { username, password })
                },
                Option::None => output_reply(
                    Reply::new(ReplyCode::BadCommandSequence, "Please provide a username first"),
                ),
            }
        },
        Command::Auth => {
            session.rename_from = Option::None;
            if ctx.tls_configured {
                output_reply_action(
                    Reply::new(ReplyCode::AuthOkayNoDataNeeded, "AUTH TLS successful"),
                    Action::StartTls,
                )
            } else {
                output_reply(
                    Reply::new(
                        ReplyCode::CommandNotImplementedForParameter,
                        "TLS is not configured",
                    ),
                )
            }
        },
        Command::Pbsz => {
            session.rename_from = Option::None;
            Pbsz.handle(session)
        },
        Command::Prot { param } => {
            session.rename_from = Option::None;
            if !session.cmd_tls {
                output_reply(
                    Reply::new(ReplyCode::BadCommandSequence, "Secure the control channel first"),
                )
            } else {
                match param {
                    ProtParam::Clear => {
                        session.data_tls = false;
                        output_reply(
                            Reply::new(ReplyCode::CommandOkay, "Protection level set to Clear"),
                        )
                    },
                    ProtParam::Private => {
                        session.data_tls = true;
                        output_reply(
                            Reply::new(ReplyCode::CommandOkay, "Protection level set to Private"),
                        )
                    },
                    _ => output_reply(
                        Reply::new(
                            ReplyCode::CommandNotImplementedForParameter,
                            "Only Clear and Private protection levels are supported",
                        ),
                    ),
                }
            }
        },
        Command::Feat => {
            session.rename_from = Option::None;
            Feat.handle(session, ctx.tls_configured, ctx.storage_features)
        },
        Command::Help => {
            session.rename_from = Option::None;
            output_reply(Reply::new(ReplyCode::HelpMessage, "Help is on the way"))
        },
        Command::Quit => {
            session.rename_from = Option::None;
            output_reply_action(
                Reply::new(ReplyCode::ClosingControlConnection, "Goodbye"),
                Action::Disconnect,
            )
        },
        Command::Noop => {
            session.rename_from = Option::None;
            output_reply(Reply::new(ReplyCode::CommandOkay, "Successfully did nothing"))
        },
        Command::Syst => {
            session.rename_from = Option::None;
            output_reply(Reply::new(ReplyCode::SystemType, "UNIX Type: L8"))
        },
        Command::Opts => {
            session.rename_from = Option::None;
            output_reply(Reply::new(ReplyCode::CommandOkay, "Always in UTF-8 mode"))
        },
        Command::Type { .. } => {
            session.rename_from = Option::None;
            output_reply(Reply::new(ReplyCode::CommandOkay, "Always in binary mode"))
        },
        Command::Mode { param } => {
            session.rename_from = Option::None;
            Mode::new(param).handle(session)
        },
        Command::Rest { offset } => {
            session.rename_from = Option::None;
            session.start_pos = offset;
            let mut text = "Restarting at ".to_owned();
            push_dec_u64(&mut text, offset);
            output_reply(Reply::new_with_string(ReplyCode::FileActionPending, text))
        },
        Command::Pasv => {
            session.rename_from = Option::None;
            if session.abort_armed {
                output_reply(
                    Reply::new(ReplyCode::CantOpenDataConnection, "Can't open data connection"),
                )
            } else {
                session.data_cmd_armed = true;
                output_action(Action::RequestPassivePort)
            }
        },
        Command::Port { .. } => {
            session.rename_from = Option::None;
            if session.abort_armed {
                output_reply(
                    Reply::new(ReplyCode::CantOpenDataConnection, "Can't open data connection"),
                )
            } else {
                session.data_cmd_armed = true;
                output_reply(Reply::new(ReplyCode::CommandOkay, "PORT command successful"))
            }
        },
        Command::Retr { path } => {
            session.rename_from = Option::None;
            let resolved = join_path(session.cwd.as_str(), path.as_str());
            do_data_cmd(session, DataCommand::Retr { path: resolved }, "Opening data connection")
        },
        Command::Stor { path } => {
            session.rename_from = Option::None;
            Stor.handle(session, path)
        },
        Command::Stou => {
            session.rename_from = Option::None;
            Stou.handle(session)
        },
        Command::Appe { path } => {
            session.rename_from = Option::None;
            let resolved = join_path(session.cwd.as_str(), path.as_str());
            do_data_cmd(session, DataCommand::Appe { path: resolved }, "Ready to receive data")
        },
        Command::List => {
            session.rename_from = Option::None;
            do_data_cmd(session, DataCommand::List, "Opening data connection")
        },
        Command::Nlst => {
            session.rename_from = Option::None;
            do_data_cmd(session, DataCommand::Nlst, "Opening data connection")
        },
        Command::Mlsd => {
            session.rename_from = Option::None;
            do_data_cmd(session, DataCommand::Mlsd, "Opening data connection")
        },
        Command::Abor => {
            session.rename_from = Option::None;
            Abor.handle(session)
        },
        Command::Ccc => {
            session.rename_from = Option::None;
            Ccc.handle(session)
        },
        Command::Rnfr { path } => {
            let staged = join_path(session.cwd.as_str(), path.as_str());
            session.rename_from = Option::Some(staged);
            output_reply(
                Reply::new(ReplyCode::FileActionPending, "Tell me what the new name will be"),
            )
        },
        Command::Rnto { path } => Rnto::new(path).handle(session),
        Command::Size { path } => {
            session.rename_from = Option::None;
            Size::new(path).handle(session)
        },
        Command::Cwd { path } => {
            session.rename_from = Option::None;
            let resolved = join_path(session.cwd.as_str(), path.as_str());
            output_action(Action::ChangeDirectory { path: resolved })
        },
        Command::Unknown => {
            session.rename_from = Option::None;
            output_reply(Reply::new(ReplyCode::CommandNotImplemented, "Command not implemented"))
        },
    };
    proof {
        if c is Stou {
            let n = choose|n: Seq<char>|
                n.len() == 36 && #[trigger] result_matches(
                    session@,
                    out@,
                    stou_spec(cleared(s0), n),
                );
            assert(step_matches(s0, c, *ctx, n, session@, out@));
        } else {
            assert(blank.len() == 36);
            assert(step_matches(s0, c, *ctx, blank, session@, out@));
        }
    }
    out
}

/// The shared tail of the data-initiating commands whose handler is not
/// one of the named structs: consume the armed slot and announce, or
/// refuse with 425.
fn do_data_cmd(session: &mut Session, cmd: DataCommand, text: &str) -> (out: StepOutput)
    ensures
        result_matches(final(session)@, out@, data_cmd_spec(old(session)@, cmd@, text@)),
{
    if session.data_cmd_armed {
        session.data_cmd_armed = false;
        output_reply_action(
            Reply::new(ReplyCode::FileStatusOkay, text),
            Action::SendDataCommand { cmd },
        )
    } else {
        output_reply(
            Reply::new(ReplyCode::CantOpenDataConnection, "No data connection established"),
        )
    }
}

/// Why a storage call failed, as the backend reports it.
#[derive(Clone, Copy, Debug, PartialEq, Eq, Structural)]
pub enum StorageErrorKind {
    /// The user may not touch the path: 550.
    PermissionDenied,
    /// No such file or directory: 550.
    NotFound,
    /// The path already exists: 550.
    AlreadyExists,
    /// A transient local failure: 451.
    TransientError,
    /// A bug or an unexpected condition: 421, and the connection closes.
    Internal,
}

/// One message on the internal event bus: a bounded ordered channel with
/// the control loop as its one receiver and handlers, the data task and
/// storage callbacks as senders.
pub enum InternalMsg {
    /// Deliver an asynchronously produced reply.
    CommandChannelReply { code: ReplyCode, text: String },
    /// A data transfer or metadata call failed.
    StorageError { kind: StorageErrorKind },
    /// Downgrade the control channel to plaintext (CCC was acknowledged).
    PlaintextControlChannel,
    /// The TLS handshake on the control channel completed.
    SecureControlChannel,
    /// A data transfer began (observability bracketing).
    DataTransferBegin,
    /// A data transfer ended (observability bracketing).
    DataTransferEnd { ok: bool },
}

/// The mathematical value of an [`InternalMsg`].
pub enum InternalMsgView {
    CommandChannelReply { code: ReplyCode, text: Seq<char> },
    StorageError { kind: StorageErrorKind },
    PlaintextControlChannel,
    SecureControlChannel,
    DataTransferBegin,
    DataTransferEnd { ok: bool },
}

impl View for InternalMsg {
    type V = InternalMsgView;

    open spec fn view(&self) -> InternalMsgView {
        match self {
            InternalMsg::CommandChannelReply { code, text } => InternalMsgView::CommandChannelReply {
                code: *code,
                text: text@,
            },
            InternalMsg::StorageError { kind } => InternalMsgView::StorageError { kind: *kind },
            InternalMsg::PlaintextControlChannel => InternalMsgView::PlaintextControlChannel,
            InternalMsg::SecureControlChannel => InternalMsgView::SecureControlChannel,
            InternalMsg::DataTransferBegin => InternalMsgView::DataTransferBegin,
            InternalMsg::DataTransferEnd { ok } => InternalMsgView::DataTransferEnd { ok: *ok },
        }
    }
}

/// The FTP reply for a storage failure. The control loop is the single
/// translator from the error taxonomy to reply codes.
pub open spec fn storage_error_reply_spec(kind: StorageErrorKind) -> ReplyView {
    match kind {
        StorageErrorKind::PermissionDenied => single(ReplyCode::FileError, "Permission denied"@),
        StorageErrorKind::NotFound => single(ReplyCode::FileError, "File not found"@),
        StorageErrorKind::AlreadyExists => single(ReplyCode::FileError, "File already exists"@),
        StorageErrorKind::TransientError => single(
            ReplyCode::LocalError,
            "Requested action aborted, local error in processing"@,
        ),
        StorageErrorKind::Internal => single(
            ReplyCode::ServiceNotAvailable,
            "Internal server error, closing connection"@,
        ),
    }
}

/// Translates a storage failure to its FTP reply.
pub fn storage_error_reply(kind: StorageErrorKind) -> (r: Reply)
    ensures
        r@ == storage_error_reply_spec(kind),
{
    match kind {
        StorageErrorKind::PermissionDenied => Reply::new(ReplyCode::FileError, "Permission denied"),
        StorageErrorKind::NotFound => Reply::new(ReplyCode::FileError, "File not found"),
        StorageErrorKind::AlreadyExists => Reply::new(ReplyCode::FileError, "File already exists"),
        StorageErrorKind::TransientError => Reply::new(
            ReplyCode::LocalError,
            "Requested action aborted, local error in processing",
        ),
        StorageErrorKind::Internal => Reply::new(
            ReplyCode::ServiceNotAvailable,
            "Internal server error, closing connection",
        ),
    }
}

/// What consuming one bus event leaves behind: the reply to write, if
/// any, and whether the connection must close afterwards.
pub struct EventOutcome {
    pub reply: Reply,
    pub disconnect: bool,
}

/// The mathematical value of an [`EventOutcome`].
pub struct EventOutcomeView {
    pub reply: ReplyView,
    pub disconnect: bool,
}

impl View for EventOutcome {
    type V = EventOutcomeView;

    open spec fn view(&self) -> EventOutcomeView {
        EventOutcomeView { reply: self.reply@, disconnect: self.disconnect }
    }
}

/// The specified outcome of consuming one bus event.
pub struct EventResultView {
    pub session: SessionView,
    pub reply: ReplyView,
    pub disconnect: bool,
}

/// What consuming one bus event does: forward an asynchronous reply,
/// translate a storage failure (an internal one also closes the
/// connection), swap the control channel's TLS flag on the two channel
/// events, and ignore the observability brackets.
pub open spec fn handle_event_spec(s: SessionView, m: InternalMsgView) -> EventResultView {
    match m {
        InternalMsgView::CommandChannelReply { code, text } => EventResultView {
            session: s,
            reply: single(code, text),
            disconnect: false,
        },
        InternalMsgView::StorageError { kind } => EventResultView {
            session: s,
            reply: storage_error_reply_spec(kind),
            disconnect: kind == StorageErrorKind::Internal,
        },
        InternalMsgView::PlaintextControlChannel => EventResultView {
            session: SessionView { cmd_tls: false, ..s },
            reply: ReplyView::Empty,
            disconnect: false,
        },
        InternalMsgView::SecureControlChannel => EventResultView {
            session: SessionView { cmd_tls: true, ..s },
            reply: ReplyView::Empty,
            disconnect: false,
        },
        InternalMsgView::DataTransferBegin => EventResultView {
            session: s,
            reply: ReplyView::Empty,
            disconnect: false,
        },
        InternalMsgView::DataTransferEnd { .. } => EventResultView {
            session: s,
            reply: ReplyView::Empty,
            disconnect: false,
        },
    }
}

/// Consumes one event from the internal bus.
pub fn handle_event(session: &mut Session, msg: InternalMsg) -> (out: EventOutcome)
    ensures
        ({
            let r = handle_event_spec(old(session)@, msg@);
            final(session)@ == r.session && out@.reply == r.reply && out@.disconnect
                == r.disconnect
        }),
{
    match msg {
        InternalMsg::CommandChannelReply { code, text } => EventOutcome {
            reply: Reply::new_with_string(code, text),
            disconnect: false,
        },
        InternalMsg::StorageError { kind } => {
            let disconnect = match kind {
                StorageErrorKind::Internal => true,
                _ => false,
            };
            EventOutcome { reply: storage_error_reply(kind), disconnect }
        },
        InternalMsg::PlaintextControlChannel => {
            session.cmd_tls = false;
            EventOutcome { reply: Reply::none(), disconnect: false }
        },
        InternalMsg::SecureControlChannel => {
            session.cmd_tls = true;
            EventOutcome { reply: Reply::none(), disconnect: false }
        },
        InternalMsg::DataTransferBegin => EventOutcome {
            reply: Reply::none(),
            disconnect: false,
        },
        InternalMsg::DataTransferEnd { .. } => EventOutcome {
            reply: Reply::none(),
            disconnect: false,
        },
    }
}

/// What the authenticator's verdict does: on success the staged name
/// becomes the logged-in principal and 230 is owed; on failure the
/// session is unchanged but for the cleared stage, and 530 is owed.
pub open spec fn auth_result_spec(s: SessionView, ok: bool) -> (SessionView, ReplyView) {
    if ok {
        (
            SessionView { user: s.username, username: Option::None, ..s },
            single(ReplyCode::UserLoggedIn, "User logged in, proceed"@),
        )
    } else {
        (s, single(ReplyCode::NotLoggedIn, "Authentication failed"@))
    }
}

/// Applies the authenticator's verdict to the session. Only meaningful
/// right after an `Authenticate` action, which PASS only issues with a
/// staged username.
pub fn handle_auth_result(session: &mut Session, ok: bool) -> (r: Reply)
    requires
        old(session)@.username is Some,
    ensures
        final(session)@ == auth_result_spec(old(session)@, ok).0,
        r@ == auth_result_spec(old(session)@, ok).1,
{
    if ok {
        session.user = session.username.take();
        Reply::new(ReplyCode::UserLoggedIn, "User logged in, proceed")
    } else {
        Reply::new(ReplyCode::NotLoggedIn, "Authentication failed")
    }
}

/// The reply owed after the rename a RNTO asked for: 250 when the
/// backend renamed, else the translated storage failure.
pub fn rnto_finish(outcome: Option<StorageErrorKind>) -> (r: Reply)
    ensures
        outcome is None ==> r@ == single(ReplyCode::FileActionOkay, "Renamed"@),
        forall|kind: StorageErrorKind|
            outcome == Option::Some(kind) ==> r@ == storage_error_reply_spec(kind),
{
    match outcome {
        Option::None => Reply::new(ReplyCode::FileActionOkay, "Renamed"),
        Option::Some(kind) => storage_error_reply(kind),
    }
}

/// The reply owed after the directory probe a CWD asked for: the
/// working directory moves only when the backend approved the path.
pub fn cwd_finish(session: &mut Session, path: String, outcome: Option<StorageErrorKind>) -> (r:
    Reply)
    ensures
        outcome is None ==> final(session)@ == (SessionView { cwd: path@, ..old(session)@ }) && r@
            == single(ReplyCode::FileActionOkay, "Okay"@),
        outcome is Some ==> final(session)@ == old(session)@ && r@ == storage_error_reply_spec(
            outcome->Some_0,
        ),
{
    match outcome {
        Option::None => {
            session.cwd = path;
            Reply::new(ReplyCode::FileActionOkay, "Okay")
        },
        Option::Some(kind) => storage_error_reply(kind),
    }
}

/// The 220 greeting sent when the control connection opens.
pub fn greeting_reply(text: &str) -> (r: Reply)
    ensures
        r@ == single(ReplyCode::ServiceReady, text@),
{
    Reply::new(ReplyCode::ServiceReady, text)
}

/// The 500 for a line the decoder could not parse; the connection
/// stays open.
pub fn parse_error_reply() -> (r: Reply)
    ensures
        r@ == single(ReplyCode::CommandSyntaxError, "Syntax error in command"@),
{
    Reply::new(ReplyCode::CommandSyntaxError, "Syntax error in command")
}

/// The 421 sent when the idle watchdog fires; the connection closes.
pub fn idle_timeout_reply() -> (r: Reply)
    ensures
        r@ == single(ReplyCode::ServiceNotAvailable, "Session timed out, closing control connection"@),
{
    Reply::new(ReplyCode::ServiceNotAvailable, "Session timed out, closing control connection")
}

/// Before a successful USER+PASS, every command outside the gating set
/// draws exactly one reply, the 530, changes nothing but the cleared
/// rename stage, and asks nothing of the surroundings.
pub proof fn lemma_preauth_gating(s: SessionView, c: CommandView, ctx: ControlCtx, fresh: Seq<char>)
    requires
        !s.logged_in(),
        !gating_allows(c),
    ensures
        ({
            let r = step_spec(s, c, ctx, fresh);
            &&& r.replies == seq![
                single(ReplyCode::NotLoggedIn, "Please authenticate with USER and PASS"@),
            ]
            &&& r.actions.len() == 0
            &&& r.session == cleared(s)
        }),
{
}

/// RNFR immediately followed by RNTO stages exactly one rename, of the
/// resolved source to the resolved target, and the stage is spent.
pub proof fn lemma_rnfr_then_rnto_renames(
    s: SessionView,
    p: Seq<char>,
    q: Seq<char>,
    ctx: ControlCtx,
    f1: Seq<char>,
    f2: Seq<char>,
)
    requires
        s.logged_in(),
    ensures
        ({
            let r1 = step_spec(s, CommandView::Rnfr { path: p }, ctx, f1);
            let r2 = step_spec(r1.session, CommandView::Rnto { path: q }, ctx, f2);
            &&& r2.actions == seq![
                ActionView::Rename { from: join_spec(s.cwd, p), to: join_spec(s.cwd, q) },
            ]
            &&& r2.replies.len() == 0
            &&& r2.session.rename_from is None
        }),
{
}

/// Any command interposed between RNFR and RNTO clears the staged
/// source: the RNTO is then out of sequence, replies 503, and asks for
/// no rename, so the filesystem is untouched.
pub proof fn lemma_rnto_after_interposed_command(
    s: SessionView,
    p: Seq<char>,
    c: CommandView,
    q: Seq<char>,
    ctx: ControlCtx,
    f1: Seq<char>,
    f2: Seq<char>,
    f3: Seq<char>,
)
    requires
        s.logged_in(),
        !(c is Rnfr),
        !(c is Rnto),
    ensures
        ({
            let r1 = step_spec(s, CommandView::Rnfr { path: p }, ctx, f1);
            let r2 = step_spec(r1.session, c, ctx, f2);
            let r3 = step_spec(r2.session, CommandView::Rnto { path: q }, ctx, f3);
            &&& r2.session.rename_from is None
            &&& r3.replies == seq![
                single(
                    ReplyCode::BadCommandSequence,
                    "Please tell me what file you want to rename first"@,
                ),
            ]
            &&& forall|i: int| 0 <= i < r2.actions.len() ==> !((#[trigger] r2.actions[i]) is Rename)
            &&& forall|i: int| 0 <= i < r3.actions.len() ==> !((#[trigger] r3.actions[i]) is Rename)
        }),
{
}

/// ABOR during a transfer draws exactly two replies, in order: first
/// the 426 for the interrupted transfer, then the 226 for the closed
/// data channel, and the abort slot is fired. ABOR outside a transfer
/// draws exactly one 226, and nothing is fired.
pub proof fn lemma_abor_replies(s: SessionView, ctx: ControlCtx, fresh: Seq<char>)
    requires
        s.logged_in(),
    ensures
        ({
            let r = step_spec(s, CommandView::Abor, ctx, fresh);
            &&& s.abort_armed ==> {
                &&& r.replies == seq![
                    single(ReplyCode::TransferAborted, "Transfer aborted"@),
                    single(ReplyCode::ClosingDataConnection, "Closed data channel"@),
                ]
                &&& r.actions == seq![ActionView::SignalAbort]
                &&& !r.session.abort_armed
            }
            &&& !s.abort_armed ==> {
                &&& r.replies == seq![
                    single(ReplyCode::ClosingDataConnection, "Data channel already closed"@),
                ]
                &&& r.actions.len() == 0
            }
        }),
{
}

/// CCC on a plaintext control channel replies 533 and the channel stays
/// plaintext. On an encrypted one whose downgrade is still unspent it
/// replies 200, and consuming the plaintext event it posts leaves
/// `cmd_tls` false; once spent, a further CCC is refused with 533.
pub proof fn lemma_ccc_downgrade(s: SessionView, ctx: ControlCtx, fresh: Seq<char>)
    requires
        s.logged_in(),
    ensures
        ({
            let r = step_spec(s, CommandView::Ccc, ctx, fresh);
            &&& !s.cmd_tls ==> {
                &&& r.replies == seq![
                    single(ReplyCode::Resp533, "control channel already in plaintext mode"@),
                ]
                &&& r.actions.len() == 0
                &&& r.session.cmd_tls == false
            }
            &&& (s.cmd_tls && !s.ccc_done) ==> {
                &&& r.replies == seq![
                    single(ReplyCode::CommandOkay, "control channel in plaintext now"@),
                ]
                &&& r.actions == seq![ActionView::PostPlaintext]
                &&& r.session.ccc_done
                &&& handle_event_spec(
                    r.session,
                    InternalMsgView::PlaintextControlChannel,
                ).session.cmd_tls == false
            }
            &&& (s.cmd_tls && s.ccc_done) ==> {
                &&& r.replies == seq![
                    single(ReplyCode::Resp533, "control channel already in plaintext mode"@),
                ]
                &&& r.actions.len() == 0
            }
        }),
{
}

/// The downgrade is spent at most once per session: after a granted CCC
/// and its downgrade, even a renewed AUTH TLS handshake leaves a second
/// CCC refused with 533, and neither a command step nor a bus event
/// hands the spent downgrade back.
pub proof fn lemma_ccc_at_most_once(
    s: SessionView,
    c: CommandView,
    m: InternalMsgView,
    ctx: ControlCtx,
    fresh: Seq<char>,
)
    requires
        s.ccc_done,
        s.logged_in(),
    ensures
        step_spec(s, c, ctx, fresh).session.ccc_done,
        handle_event_spec(s, m).session.ccc_done,
        ({
            let resecured = handle_event_spec(s, InternalMsgView::SecureControlChannel).session;
            step_spec(resecured, CommandView::Ccc, ctx, fresh).replies == seq![
                single(ReplyCode::Resp533, "control channel already in plaintext mode"@),
            ]
        }),
{
}

/// The class a command's straight success replies carry: 1 for the
/// data-initiating commands (their completion follows on the bus), 3
/// for the intermediates USER, REST and RNFR, 2 for the rest.
pub open spec fn success_class(c: CommandView) -> u16 {
    match c {
        CommandView::Retr { .. } => 1,
        CommandView::Stor { .. } => 1,
        CommandView::Stou => 1,
        CommandView::Appe { .. } => 1,
        CommandView::List => 1,
        CommandView::Nlst => 1,
        CommandView::Mlsd => 1,
        CommandView::User { .. } => 3,
        CommandView::Rest { .. } => 3,
        CommandView::Rnfr { .. } => 3,
        _ => 2,
    }
}

/// Whether the step takes the command's happy path on this session.
pub open spec fn step_succeeds(s: SessionView, c: CommandView, ctx: ControlCtx) -> bool {
    &&& (s.logged_in() || gating_allows(c))
    &&& match c {
        CommandView::User { .. } => true,
        CommandView::Pass { .. } => s.username is Some,
        CommandView::Auth => ctx.tls_configured,
        CommandView::Pbsz => true,
        CommandView::Prot { param } => s.cmd_tls && (param == ProtParam::Clear || param
            == ProtParam::Private),
        CommandView::Feat => true,
        CommandView::Help => true,
        CommandView::Quit => true,
        CommandView::Noop => true,
        CommandView::Syst => true,
        CommandView::Opts => true,
        CommandView::Type { .. } => true,
        CommandView::Mode { param } => param == ModeParam::Stream,
        CommandView::Rest { .. } => true,
        CommandView::Pasv => !s.abort_armed,
        CommandView::Port { .. } => !s.abort_armed,
        CommandView::Retr { .. } => s.data_cmd_armed,
        CommandView::Stor { .. } => s.data_cmd_armed,
        CommandView::Stou => s.data_cmd_armed,
        CommandView::Appe { .. } => s.data_cmd_armed,
        CommandView::List => s.data_cmd_armed,
        CommandView::Nlst => s.data_cmd_armed,
        CommandView::Mlsd => s.data_cmd_armed,
        CommandView::Abor => true,
        CommandView::Ccc => s.cmd_tls && !s.ccc_done,
        CommandView::Rnfr { .. } => true,
        CommandView::Rnto { .. } => s.rename_from is Some,
        CommandView::Size { .. } => true,
        CommandView::Cwd { .. } => true,
        CommandView::Unknown => false,
    }
}

/// The class digit of a reply, 0 for the empty one.
pub open spec fn reply_class(r: ReplyView) -> u16 {
    match r.code() {
        Option::Some(code) => code.spec_class(),
        Option::None => 0,
    }
}

/// Every reply a step emits carries a code, and its first digit is the
/// RFC 959 semantic class of the outcome: the command's success class
/// on the happy path — with ABOR's in-transfer pair of 426 then 226 as
/// the one commanded exception — and a transient (4) or permanent (5)
/// failure class otherwise.
#[verifier::rlimit(100)]
pub proof fn lemma_reply_semantic_class(
    s: SessionView,
    c: CommandView,
    ctx: ControlCtx,
    fresh: Seq<char>,
)
    requires
        !(c is Unknown),
    ensures
        ({
            let r = step_spec(s, c, ctx, fresh);
            &&& forall|i: int| 0 <= i < r.replies.len() ==> (#[trigger] r.replies[i]).code() is Some
            &&& (step_succeeds(s, c, ctx) && !(c is Abor)) ==> forall|i: int|
                0 <= i < r.replies.len() ==> reply_class(#[trigger] r.replies[i])
                    == success_class(c)
            &&& (c is Abor && s.logged_in() && s.abort_armed) ==> r.replies.len() == 2
                && reply_class(r.replies[0]) == 4 && reply_class(r.replies[1]) == 2
            &&& (c is Abor && s.logged_in() && !s.abort_armed) ==> r.replies.len() == 1
                && reply_class(r.replies[0]) == 2
            &&& !step_succeeds(s, c, ctx) ==> forall|i: int|
                0 <= i < r.replies.len() ==> reply_class(#[trigger] r.replies[i]) == 4
                    || reply_class(#[trigger] r.replies[i]) == 5
        }),
{
}

/// A step keeps the session well formed: the data-command slot stays
/// armed only while no transfer is in flight.
pub proof fn lemma_step_preserves_wf(
    s: SessionView,
    c: CommandView,
    ctx: ControlCtx,
    fresh: Seq<char>,
)
    requires
        s.wf(),
    ensures
        step_spec(s, c, ctx, fresh).session.wf(),
{
}

/// No command moves the control channel's TLS flag by itself: it rises
/// only when the handshake's completion event is consumed, and falls
/// only when the plaintext event a CCC posts is consumed.
pub proof fn lemma_cmd_tls_moves_only_by_event(
    s: SessionView,
    c: CommandView,
    ctx: ControlCtx,
    fresh: Seq<char>,
)
    ensures
        step_spec(s, c, ctx, fresh).session.cmd_tls == s.cmd_tls,
{
}

} // verus!
