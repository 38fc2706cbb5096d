//! Per-connection session state.
//!
//! One `Session` exists per control connection. It records who is logged in,
//! the working directory, the staged rename source, the REST offset, the TLS
//! state of the two channels, and whether the two single-slot outboxes —
//! the "next data command" slot and the "abort the transfer" slot — are
//! currently armed. The slots themselves (channel handles) live with the
//! embedding program; this state machine tracks only their occupancy, which
//! is what every protocol decision depends on.

use vstd::prelude::*;
use crate::proxy::ConnectionTuple;

verus! {

/// The mathematical value of a [`Session`]: the same record with every
/// string read as its sequence of characters.
pub struct SessionView {
    pub user: Option<Seq<char>>,
    pub username: Option<Seq<char>>,
    pub cwd: Seq<char>,
    pub rename_from: Option<Seq<char>>,
    pub start_pos: u64,
    pub cmd_tls: bool,
    pub ccc_done: bool,
    pub data_tls: bool,
    pub data_cmd_armed: bool,
    pub abort_armed: bool,
    pub control_connection_info: Option<ConnectionTuple>,
}

/// Mutable state of one control connection.
pub struct Session {
    /// The authenticated principal, `None` until USER+PASS succeeded.
    pub user: Option<String>,
    /// The name staged by USER, awaiting PASS.
    pub username: Option<String>,
    /// Current working directory, an absolute logical path.
    pub cwd: String,
    /// Path staged by RNFR; cleared by any command other than RNTO,
    /// which consumes it.
    pub rename_from: Option<String>,
    /// REST offset for the next transfer; read and reset when one begins.
    pub start_pos: u64,
    /// Whether the control channel is currently encrypted.
    pub cmd_tls: bool,
    /// Whether this session has already spent its one CCC downgrade:
    /// the control channel returns to plaintext at most once.
    pub ccc_done: bool,
    /// Whether data channels are to be encrypted.
    pub data_tls: bool,
    /// Whether the "next data command" slot is armed (PASV/PORT done,
    /// no transfer in flight).
    pub data_cmd_armed: bool,
    /// Whether a transfer is in flight, so the abort slot is armed.
    pub abort_armed: bool,
    /// Peer/destination tuple captured at accept time (PROXY mode), used
    /// to synthesize the PASV reply.
    pub control_connection_info: Option<ConnectionTuple>,
}

impl View for Session {
    type V = SessionView;

    open spec fn view(&self) -> SessionView {
        SessionView {
            user: match self.user {
                Option::Some(ref s) => Option::Some(s@),
                Option::None => Option::None,
            },
            username: match self.username {
                Option::Some(ref s) => Option::Some(s@),
                Option::None => Option::None,
            },
            cwd: self.cwd@,
            rename_from: match self.rename_from {
                Option::Some(ref s) => Option::Some(s@),
                Option::None => Option::None,
            },
            start_pos: self.start_pos,
            cmd_tls: self.cmd_tls,
            ccc_done: self.ccc_done,
            data_tls: self.data_tls,
            data_cmd_armed: self.data_cmd_armed,
            abort_armed: self.abort_armed,
            control_connection_info: self.control_connection_info,
        }
    }
}

impl SessionView {
    /// Whether USER+PASS has succeeded on this session.
    pub open spec fn logged_in(self) -> bool {
        self.user is Some
    }

    /// Well-formedness: the data-command slot is armed only while no
    /// transfer is in flight (the slot is consumed when one begins).
    pub open spec fn wf(self) -> bool {
        self.data_cmd_armed ==> !self.abort_armed
    }
}

impl Session {
    /// A fresh session: nobody logged in, root working directory, no
    /// staged rename, zero REST offset, both channels plaintext, both
    /// slots empty.
    pub fn new(control_connection_info: Option<ConnectionTuple>) -> (s: Session)
        ensures
            s@ == (SessionView {
                user: Option::None,
                username: Option::None,
                cwd: "/"@,
                rename_from: Option::None,
                start_pos: 0,
                cmd_tls: false,
                ccc_done: false,
                data_tls: false,
                data_cmd_armed: false,
                abort_armed: false,
                control_connection_info,
            }),
            s@.wf(),
    {
        Session {
            user: Option::None,
            username: Option::None,
            cwd: "/".to_owned(),
            rename_from: Option::None,
            start_pos: 0,
            cmd_tls: false,
            ccc_done: false,
            data_tls: false,
            data_cmd_armed: false,
            abort_armed: false,
            control_connection_info,
        }
    }
}

} // verus!
