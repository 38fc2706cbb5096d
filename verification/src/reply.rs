//! FTP replies: the code enumeration and the wire codec.
//!
//! A reply is a three-digit code plus one or more text lines. One line is
//! encoded as `NNN SP text CRLF`; a multi-line reply opens with `NNN-text`,
//! continues with ` text` lines and closes with `NNN SP text` (RFC 959
//! continuation format). Text lines must not contain bare CR or LF on the
//! wire; offending characters are escaped to a space.

use vstd::prelude::*;

verus! {

/// The FTP reply codes this server emits.
#[derive(Clone, Copy, Debug, PartialEq, Eq, Structural)]
pub enum ReplyCode {
    /// 150: file status okay, about to open the data connection.
    FileStatusOkay,
    /// 200: command okay.
    CommandOkay,
    /// 211: system status or help reply.
    SystemStatus,
    /// 213: file status (SIZE reply).
    FileStatus,
    /// 214: help message.
    HelpMessage,
    /// 215: NAME system type (SYST reply).
    SystemType,
    /// 220: service ready for a new user.
    ServiceReady,
    /// 221: service closing the control connection.
    ClosingControlConnection,
    /// 226: closing the data connection, requested action successful.
    ClosingDataConnection,
    /// 227: entering passive mode.
    EnteringPassiveMode,
    /// 230: user logged in.
    UserLoggedIn,
    /// 234: security data exchange complete (AUTH TLS accepted).
    AuthOkayNoDataNeeded,
    /// 250: requested file action okay, completed.
    FileActionOkay,
    /// 331: user name okay, need password.
    NeedPassword,
    /// 350: requested file action pending further information.
    FileActionPending,
    /// 421: service not available, closing the control connection.
    ServiceNotAvailable,
    /// 425: can't open the data connection.
    CantOpenDataConnection,
    /// 426: connection closed, transfer aborted.
    TransferAborted,
    /// 450: requested file action not taken (transient).
    TransientFileError,
    /// 451: requested action aborted, local error in processing.
    LocalError,
    /// 500: syntax error, command unrecognized.
    CommandSyntaxError,
    /// 501: syntax error in parameters or arguments.
    ParameterSyntaxError,
    /// 502: command not implemented.
    CommandNotImplemented,
    /// 503: bad sequence of commands.
    BadCommandSequence,
    /// 504: command not implemented for that parameter.
    CommandNotImplementedForParameter,
    /// 530: not logged in.
    NotLoggedIn,
    /// 533: command protection level denied for policy reasons.
    Resp533,
    /// 550: requested action not taken, file unavailable.
    FileError,
}

impl ReplyCode {
    /// The numeric value of the code.
    pub open spec fn spec_value(self) -> u16 {
        match self {
            ReplyCode::FileStatusOkay => 150,
            ReplyCode::CommandOkay => 200,
            ReplyCode::SystemStatus => 211,
            ReplyCode::FileStatus => 213,
            ReplyCode::HelpMessage => 214,
            ReplyCode::SystemType => 215,
            ReplyCode::ServiceReady => 220,
            ReplyCode::ClosingControlConnection => 221,
            ReplyCode::ClosingDataConnection => 226,
            ReplyCode::EnteringPassiveMode => 227,
            ReplyCode::UserLoggedIn => 230,
            ReplyCode::AuthOkayNoDataNeeded => 234,
            ReplyCode::FileActionOkay => 250,
            ReplyCode::NeedPassword => 331,
            ReplyCode::FileActionPending => 350,
            ReplyCode::ServiceNotAvailable => 421,
            ReplyCode::CantOpenDataConnection => 425,
            ReplyCode::TransferAborted => 426,
            ReplyCode::TransientFileError => 450,
            ReplyCode::LocalError => 451,
            ReplyCode::CommandSyntaxError => 500,
            ReplyCode::ParameterSyntaxError => 501,
            ReplyCode::CommandNotImplemented => 502,
            ReplyCode::BadCommandSequence => 503,
            ReplyCode::CommandNotImplementedForParameter => 504,
            ReplyCode::NotLoggedIn => 530,
            ReplyCode::Resp533 => 533,
            ReplyCode::FileError => 550,
        }
    }

    /// The RFC 959 semantic class of the code: its first digit.
    /// 1 = positive preliminary, 2 = positive completion,
    /// 3 = positive intermediate, 4 = transient negative, 5 = permanent negative.
    pub open spec fn spec_class(self) -> u16 {
        self.spec_value() / 100
    }

    /// The numeric value of the code.
    pub fn value(self) -> (v: u16)
        ensures
            v == self.spec_value(),
    {
        match self {
            ReplyCode::FileStatusOkay => 150,
            ReplyCode::CommandOkay => 200,
            ReplyCode::SystemStatus => 211,
            ReplyCode::FileStatus => 213,
            ReplyCode::HelpMessage => 214,
            ReplyCode::SystemType => 215,
            ReplyCode::ServiceReady => 220,
            ReplyCode::ClosingControlConnection => 221,
            ReplyCode::ClosingDataConnection => 226,
            ReplyCode::EnteringPassiveMode => 227,
            ReplyCode::UserLoggedIn => 230,
            ReplyCode::AuthOkayNoDataNeeded => 234,
            ReplyCode::FileActionOkay => 250,
            ReplyCode::NeedPassword => 331,
            ReplyCode::FileActionPending => 350,
            ReplyCode::ServiceNotAvailable => 421,
            ReplyCode::CantOpenDataConnection => 425,
            ReplyCode::TransferAborted => 426,
            ReplyCode::TransientFileError => 450,
            ReplyCode::LocalError => 451,
            ReplyCode::CommandSyntaxError => 500,
            ReplyCode::ParameterSyntaxError => 501,
            ReplyCode::CommandNotImplemented => 502,
            ReplyCode::BadCommandSequence => 503,
            ReplyCode::CommandNotImplementedForParameter => 504,
            ReplyCode::NotLoggedIn => 530,
            ReplyCode::Resp533 => 533,
            ReplyCode::FileError => 550,
        }
    }

    /// The class digit of the code.
    pub fn class(self) -> (c: u16)
        ensures
            c == self.spec_class(),
    {
        self.value() / 100
    }
}

/// The mathematical value of a [`Reply`].
pub enum ReplyView {
    Empty,
    Single { code: ReplyCode, text: Seq<char> },
    Multi { code: ReplyCode, lines: Seq<Seq<char>> },
}

impl ReplyView {
    /// The code of the reply, if it carries one.
    pub open spec fn code(self) -> Option<ReplyCode> {
        match self {
            ReplyView::Empty => Option::None,
            ReplyView::Single { code, .. } => Option::Some(code),
            ReplyView::Multi { code, .. } => Option::Some(code),
        }
    }
}

/// A reply to be written to the control channel: nothing (the reply will
/// arrive later through the event bus), one line, or several lines.
pub enum Reply {
    Empty,
    Single { code: ReplyCode, text: String },
    Multi { code: ReplyCode, lines: Vec<String> },
}

impl View for Reply {
    type V = ReplyView;

    open spec fn view(&self) -> ReplyView {
        match self {
            Reply::Empty => ReplyView::Empty,
            Reply::Single { code, text } => ReplyView::Single { code: *code, text: text@ },
            Reply::Multi { code, lines } => ReplyView::Multi {
                code: *code,
                lines: lines@.map_values(|s: String| s@),
            },
        }
    }
}

impl Reply {
    /// A one-line reply from a string slice.
    pub fn new(code: ReplyCode, text: &str) -> (r: Reply)
        ensures
            r@ == (ReplyView::Single { code, text: text@ }),
    {
        Reply::Single { code, text: text.to_owned() }
    }

    /// A one-line reply from an owned string.
    pub fn new_with_string(code: ReplyCode, text: String) -> (r: Reply)
        ensures
            r@ == (ReplyView::Single { code, text: text@ }),
    {
        Reply::Single { code, text }
    }

    /// A multi-line reply.
    pub fn new_multiline(code: ReplyCode, lines: Vec<String>) -> (r: Reply)
        ensures
            r@ == (ReplyView::Multi { code, lines: lines@.map_values(|s: String| s@) }),
    {
        Reply::Multi { code, lines }
    }

    /// The empty reply: nothing is written now; the real reply arrives
    /// asynchronously through the event bus.
    pub fn none() -> (r: Reply)
        ensures
            r@ == ReplyView::Empty,
    {
        Reply::Empty
    }
}

/// A text line with every bare CR or LF escaped to a space, as the wire
/// format demands.
pub open spec fn sanitize_spec(line: Seq<char>) -> Seq<char> {
    line.map_values(
        |c: char|
            if c == '\r' || c == '\n' {
                ' '
            } else {
                c
            },
    )
}

/// The three digits of a reply code.
pub open spec fn code_digits(code: ReplyCode) -> Seq<char> {
    crate::text::dec_digits(code.spec_value() as nat)
}

/// The line terminator.
pub open spec fn crlf() -> Seq<char> {
    seq!['\r', '\n']
}

/// One line on the wire: `NNN SP text CRLF`.
pub open spec fn encode_single_spec(code: ReplyCode, text: Seq<char>) -> Seq<char> {
    code_digits(code) + seq![' '] + sanitize_spec(text) + crlf()
}

/// The middle lines of a multi-line reply, each written as it stands
/// (by convention such lines carry their own leading space) and
/// terminated by CRLF.
pub open spec fn encode_body_spec(lines: Seq<Seq<char>>) -> Seq<char>
    decreases lines.len(),
{
    if lines.len() == 0 {
        Seq::empty()
    } else {
        sanitize_spec(lines[0]) + crlf() + encode_body_spec(lines.drop_first())
    }
}

/// The whole reply on the wire. A multi-line reply opens with `NNN-text`,
/// continues with its middle lines, and closes with `NNN SP text`; with
/// fewer than two lines it degenerates to the one-line format.
pub open spec fn encode_spec(r: ReplyView) -> Seq<char> {
    match r {
        ReplyView::Empty => Seq::empty(),
        ReplyView::Single { code, text } => encode_single_spec(code, text),
        ReplyView::Multi { code, lines } => {
            if lines.len() == 0 {
                Seq::empty()
            } else if lines.len() == 1 {
                encode_single_spec(code, lines[0])
            } else {
                code_digits(code) + seq!['-'] + sanitize_spec(lines[0]) + crlf()
                    + encode_body_spec(lines.subrange(1, lines.len() - 1)) + code_digits(code)
                    + seq![' '] + sanitize_spec(lines[lines.len() - 1]) + crlf()
            }
        },
    }
}

/// Appending one line to the middle of a reply appends its encoding.
proof fn lemma_encode_body_push(lines: Seq<Seq<char>>, x: Seq<char>)
    ensures
        encode_body_spec(lines.push(x)) == encode_body_spec(lines) + sanitize_spec(x) + crlf(),
    decreases lines.len(),
{
    if lines.len() == 0 {
        assert(lines.push(x).drop_first() =~= Seq::<Seq<char>>::empty());
        assert(encode_body_spec(Seq::<Seq<char>>::empty()) == Seq::<char>::empty());
        assert(lines.push(x)[0] == x);
        assert(encode_body_spec(lines.push(x)) =~= encode_body_spec(lines) + sanitize_spec(x)
            + crlf());
    } else {
        let l0 = lines[0];
        let rest = lines.drop_first();
        assert(lines.push(x).drop_first() =~= rest.push(x));
        lemma_encode_body_push(rest, x);
        assert(lines.push(x)[0] == l0);
        assert(encode_body_spec(lines.push(x)) == sanitize_spec(l0) + crlf() + encode_body_spec(
            rest.push(x),
        ));
        assert(encode_body_spec(rest.push(x)) == encode_body_spec(rest) + sanitize_spec(x)
            + crlf());
        assert(encode_body_spec(lines) == sanitize_spec(l0) + crlf() + encode_body_spec(rest));
        assert(sanitize_spec(l0) + crlf() + (encode_body_spec(rest) + sanitize_spec(x) + crlf())
            =~= (sanitize_spec(l0) + crlf() + encode_body_spec(rest)) + sanitize_spec(x) + crlf());
    }
}

/// Appends `text` to `out` with CR and LF escaped to spaces.
#[verifier::loop_isolation(false)]
fn push_sanitized(out: &mut String, text: &str)
    ensures
        final(out)@ == old(out)@ + sanitize_spec(text@),
{
    let n = text.unicode_len();
    let mut i: usize = 0;
    while i < n
        invariant
            n == text@.len(),
            0 <= i <= n,
            out@ == old(out)@ + sanitize_spec(text@).subrange(0, i as int),
        decreases n - i,
    {
        let c = text.get_char(i);
        if c == '\r' || c == '\n' {
            crate::text::push_char(out, ' ');
        } else {
            crate::text::push_char(out, c);
        }
        proof {
            assert(out@ =~= old(out)@ + sanitize_spec(text@).subrange(0, i + 1));
        }
        i = i + 1;
    }
    proof {
        assert(sanitize_spec(text@).subrange(0, n as int) =~= sanitize_spec(text@));
    }
}

/// Appends the three digits of `code` to `out`.
fn push_code(out: &mut String, code: ReplyCode)
    ensures
        final(out)@ == old(out)@ + code_digits(code),
{
    let v = code.value();
    crate::text::push_dec_u64(out, v as u64);
}

/// Appends one encoded line `NNN SP text CRLF` to `out`.
fn push_single(out: &mut String, code: ReplyCode, text: &str)
    ensures
        final(out)@ == old(out)@ + encode_single_spec(code, text@),
{
    push_code(out, code);
    crate::text::push_char(out, ' ');
    push_sanitized(out, text);
    crate::text::push_char(out, '\r');
    crate::text::push_char(out, '\n');
    proof {
        assert(out@ =~= old(out)@ + encode_single_spec(code, text@));
    }
}

/// Encodes a reply for the wire.
#[verifier::loop_isolation(false)]
pub fn encode(reply: &Reply) -> (out: String)
    ensures
        out@ == encode_spec(reply@),
{
    let mut out = String::new();
    match reply {
        Reply::Empty => {},
        Reply::Single { code, text } => {
            push_single(&mut out, *code, text.as_str());
        },
        Reply::Multi { code, lines } => {
            let n = lines.len();
            if n == 1 {
                push_single(&mut out, *code, lines[0].as_str());
                proof {
                    let ls = lines@.map_values(|s: String| s@);
                    assert(ls[0] == lines@[0]@);
                }
            } else if n >= 2 {
                let ghost ls = lines@.map_values(|s: String| s@);
                push_code(&mut out, *code);
                crate::text::push_char(&mut out, '-');
                push_sanitized(&mut out, lines[0].as_str());
                crate::text::push_char(&mut out, '\r');
                crate::text::push_char(&mut out, '\n');
                let ghost head = out@;
                proof {
                    assert(head =~= code_digits(*code) + seq!['-'] + sanitize_spec(ls[0])
                        + crlf());
                }
                let mut k: usize = 1;
                while k < n - 1
                    invariant
                        1 <= k <= n - 1,
                        out@ == head + encode_body_spec(ls.subrange(1, k as int)),
                    decreases n - 1 - k,
                {
                    proof {
                        assert(ls.subrange(1, k as int).push(ls[k as int]) =~= ls.subrange(
                            1,
                            k + 1 as int,
                        ));
                        lemma_encode_body_push(ls.subrange(1, k as int), ls[k as int]);
                    }
                    push_sanitized(&mut out, lines[k].as_str());
                    crate::text::push_char(&mut out, '\r');
                    crate::text::push_char(&mut out, '\n');
                    proof {
                        assert(out@ =~= head + encode_body_spec(ls.subrange(1, k + 1 as int)));
                    }
                    k = k + 1;
                }
                push_code(&mut out, *code);
                crate::text::push_char(&mut out, ' ');
                push_sanitized(&mut out, lines[n - 1].as_str());
                crate::text::push_char(&mut out, '\r');
                crate::text::push_char(&mut out, '\n');
                proof {
                    assert(ls.len() == n);
                    assert(out@ =~= encode_spec(reply@));
                }
            }
        },
    }
    out
}

} // verus!
