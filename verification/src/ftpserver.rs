//! The server configuration and its builder surface, and the two
//! PROXY-mode duties the listener owns: matching incoming data
//! connections to waiting sessions, and reserving passive ports on a
//! session's behalf.
//!
//! The listener itself — sockets, accept loops, task spawning — lives
//! with the embedding program; it reads this configuration and calls
//! the two dispatch methods with plain values.

use vstd::prelude::*;
use crate::controlchan::{InternalMsg, InternalMsgView};
use crate::datachan::{passive_reply_msg, pasv_text_spec};
use crate::proxy::{
    ConnectionTuple, ProxyMode, ProxyProtocolSwitchboard, RESERVATION_TTL_MS, live_port_reserved,
};
use crate::reply::ReplyCode;

verus! {

/// The greeting sent to every client that connects, unless the builder
/// overrides it.
pub const DEFAULT_GREETING: &'static str = "Welcome to the libunftp FTP server";

/// How long a session may stay idle before it is closed, unless the
/// builder overrides it.
pub const DEFAULT_IDLE_SESSION_TIMEOUT_SECS: u64 = 600;

/// The principal the anonymous authenticator hands out.
#[derive(Clone, Copy, Debug, PartialEq, Eq, Structural)]
pub struct DefaultUser;

/// An authenticator that accepts everyone.
#[derive(Clone, Copy, Debug, PartialEq, Eq, Structural)]
pub struct AnonymousAuthenticator;

impl AnonymousAuthenticator {
    /// Accepts any username and password.
    pub fn authenticate(&self, _username: &str, _password: &str) -> (r: Option<DefaultUser>)
        ensures
            r == Option::Some(DefaultUser),
    {
        Option::Some(DefaultUser)
    }
}

/// Whether, and with which key material, the server offers TLS.
#[derive(Debug)]
pub enum FtpsConfig {
    Off,
    On { certs_file: String, key_file: String },
}

impl Clone for FtpsConfig {
    fn clone(&self) -> (r: Self)
        ensures
            r == self,
    {
        match self {
            FtpsConfig::Off => FtpsConfig::Off,
            FtpsConfig::On { certs_file, key_file } => FtpsConfig::On {
                certs_file: certs_file.clone(),
                key_file: key_file.clone(),
            },
        }
    }
}

/// An instance of an FTP server: its configuration, the authenticator
/// it will hand every session, and — in PROXY mode — the switchboard
/// joining data connections to sessions. The embedding program starts
/// it by running a listener over this value.
#[derive(Debug)]
pub struct Server<A> {
    /// The root the filesystem backend should serve, when the server
    /// was built over one.
    pub storage_root: Option<String>,
    /// The text of the 220 greeting.
    pub greeting: String,
    /// The authenticator consulted by USER+PASS.
    pub authenticator: A,
    /// The passive range `[lo, hi)`.
    pub passive_ports_lo: u16,
    pub passive_ports_hi: u16,
    /// Whether metrics are collected.
    pub collect_metrics: bool,
    /// Whether, and how, TLS is offered.
    pub ftps_mode: FtpsConfig,
    /// The idle watchdog's threshold.
    pub idle_session_timeout_secs: u64,
    /// Whether connections arrive through a PROXY-protocol balancer.
    pub proxy_protocol_mode: ProxyMode,
    /// The data-connection switchboard, present only in PROXY mode.
    pub proxy_protocol_switchboard: Option<ProxyProtocolSwitchboard>,
}

impl Server<AnonymousAuthenticator> {
    /// A server over the filesystem backend rooted at `path`, with the
    /// anonymous authenticator and every other knob at its default.
    pub fn new_with_fs_root(path: String) -> (s: Server<AnonymousAuthenticator>)
        ensures
            s.storage_root == Option::Some(path),
            s.greeting@ == DEFAULT_GREETING@,
            s.passive_ports_lo == 49152 && s.passive_ports_hi == 65535,
            !s.collect_metrics,
            s.ftps_mode is Off,
            s.idle_session_timeout_secs == DEFAULT_IDLE_SESSION_TIMEOUT_SECS,
            s.proxy_protocol_mode is Off,
            s.proxy_protocol_switchboard is None,
    {
        let mut s = Server::new();
        s.storage_root = Option::Some(path);
        s
    }

    /// A server with the anonymous authenticator and every knob at its
    /// default; the embedding program supplies the storage backend.
    pub fn new() -> (s: Server<AnonymousAuthenticator>)
        ensures
            s.storage_root is None,
            s.greeting@ == DEFAULT_GREETING@,
            s.passive_ports_lo == 49152 && s.passive_ports_hi == 65535,
            !s.collect_metrics,
            s.ftps_mode is Off,
            s.idle_session_timeout_secs == DEFAULT_IDLE_SESSION_TIMEOUT_SECS,
            s.proxy_protocol_mode is Off,
            s.proxy_protocol_switchboard is None,
    {
        Server::new_with_authenticator(AnonymousAuthenticator)
    }
}

impl<A> Server<A> {
    /// A server with the given authenticator and every other knob at
    /// its default.
    pub fn new_with_authenticator(authenticator: A) -> (s: Server<A>)
        ensures
            s.storage_root is None,
            s.greeting@ == DEFAULT_GREETING@,
            s.authenticator == authenticator,
            s.passive_ports_lo == 49152 && s.passive_ports_hi == 65535,
            !s.collect_metrics,
            s.ftps_mode is Off,
            s.idle_session_timeout_secs == DEFAULT_IDLE_SESSION_TIMEOUT_SECS,
            s.proxy_protocol_mode is Off,
            s.proxy_protocol_switchboard is None,
    {
        Server {
            storage_root: Option::None,
            greeting: DEFAULT_GREETING.to_owned(),
            authenticator,
            passive_ports_lo: 49152,
            passive_ports_hi: 65535,
            collect_metrics: false,
            ftps_mode: FtpsConfig::Off,
            idle_session_timeout_secs: DEFAULT_IDLE_SESSION_TIMEOUT_SECS,
            proxy_protocol_mode: ProxyMode::Off,
            proxy_protocol_switchboard: Option::None,
        }
    }

    /// Sets the greeting sent to every client after connecting.
    pub fn greeting(self, greeting: String) -> (s: Server<A>)
        ensures
            s == (Server { greeting, ..self }),
    {
        Server { greeting, ..self }
    }

    /// Sets the authenticator consulted by USER+PASS.
    pub fn authenticator<B>(self, authenticator: B) -> (s: Server<B>)
        ensures
            s.authenticator == authenticator,
            s.storage_root == self.storage_root,
            s.greeting == self.greeting,
            s.passive_ports_lo == self.passive_ports_lo,
            s.passive_ports_hi == self.passive_ports_hi,
            s.collect_metrics == self.collect_metrics,
            s.ftps_mode == self.ftps_mode,
            s.idle_session_timeout_secs == self.idle_session_timeout_secs,
            s.proxy_protocol_mode == self.proxy_protocol_mode,
            s.proxy_protocol_switchboard == self.proxy_protocol_switchboard,
    {
        Server {
            storage_root: self.storage_root,
            greeting: self.greeting,
            authenticator,
            passive_ports_lo: self.passive_ports_lo,
            passive_ports_hi: self.passive_ports_hi,
            collect_metrics: self.collect_metrics,
            ftps_mode: self.ftps_mode,
            idle_session_timeout_secs: self.idle_session_timeout_secs,
            proxy_protocol_mode: self.proxy_protocol_mode,
            proxy_protocol_switchboard: self.proxy_protocol_switchboard,
        }
    }

    /// Sets the range `[lo, hi)` of ports offered for passive
    /// connections.
    pub fn passive_ports(self, lo: u16, hi: u16) -> (s: Server<A>)
        ensures
            s == (Server { passive_ports_lo: lo, passive_ports_hi: hi, ..self }),
    {
        Server { passive_ports_lo: lo, passive_ports_hi: hi, ..self }
    }

    /// Configures the certificate and key files that turn FTPS on.
    pub fn ftps(self, certs_file: String, key_file: String) -> (s: Server<A>)
        ensures
            s == (Server { ftps_mode: FtpsConfig::On { certs_file, key_file }, ..self }),
    {
        Server { ftps_mode: FtpsConfig::On { certs_file, key_file }, ..self }
    }

    /// Enables the collection of metrics.
    pub fn metrics(self) -> (s: Server<A>)
        ensures
            s == (Server { collect_metrics: true, ..self }),
    {
        Server { collect_metrics: true, ..self }
    }

    /// Sets the idle session timeout in seconds.
    pub fn idle_session_timeout(self, secs: u64) -> (s: Server<A>)
        ensures
            s == (Server { idle_session_timeout_secs: secs, ..self }),
    {
        Server { idle_session_timeout_secs: secs, ..self }
    }

    /// Enables PROXY protocol mode: every incoming connection must
    /// carry a PROXY header, control connections are the ones whose
    /// original destination is `external_control_port`, and a fresh
    /// switchboard over the passive range joins the data connections to
    /// their sessions.
    pub fn proxy_protocol_mode(self, external_control_port: u16) -> (s: Server<A>)
        ensures
            s.proxy_protocol_mode == (ProxyMode::On { external_control_port }),
            s.proxy_protocol_switchboard is Some,
            s.proxy_protocol_switchboard->Some_0.wf(),
            s.proxy_protocol_switchboard->Some_0.entries_seq() == Seq::<
                crate::proxy::SwitchboardEntry,
            >::empty(),
            s.proxy_protocol_switchboard->Some_0.spec_lo() == self.passive_ports_lo,
            s.proxy_protocol_switchboard->Some_0.spec_hi() == self.passive_ports_hi,
            s.storage_root == self.storage_root,
            s.greeting == self.greeting,
            s.authenticator == self.authenticator,
            s.passive_ports_lo == self.passive_ports_lo,
            s.passive_ports_hi == self.passive_ports_hi,
            s.collect_metrics == self.collect_metrics,
            s.ftps_mode == self.ftps_mode,
            s.idle_session_timeout_secs == self.idle_session_timeout_secs,
    {
        let switchboard = ProxyProtocolSwitchboard::new(
            self.passive_ports_lo,
            self.passive_ports_hi,
        );
        Server {
            proxy_protocol_mode: ProxyMode::On { external_control_port },
            proxy_protocol_switchboard: Option::Some(switchboard),
            ..self
        }
    }

    /// Finds the session that asked for the data connection this PROXY
    /// header describes, removing its reservation: the stream is handed
    /// to that session's data task, and a second connection for the
    /// same key finds nothing. `None` means no session was waiting and
    /// the stream must be closed.
    pub fn dispatch_data_connection(&mut self, conn: &ConnectionTuple) -> (r: Option<u64>)
        requires
            old(self).proxy_protocol_switchboard is Some ==> old(self).proxy_protocol_switchboard->Some_0.wf(),
        ensures
            final(self).proxy_protocol_switchboard is Some <==> old(self).proxy_protocol_switchboard is Some,
            match old(self).proxy_protocol_switchboard {
                Option::Some(sb) => {
                    &&& r == sb.lookup_spec(*conn)
                    &&& final(self).proxy_protocol_switchboard->Some_0.wf()
                    &&& final(self).proxy_protocol_switchboard->Some_0.lookup_spec(*conn) is None
                    // the table only loses the spent reservation: every
                    // remaining entry was there, and every entry not
                    // keyed by this connection is kept
                    &&& forall|i: int|
                        0 <= i < final(self).proxy_protocol_switchboard->Some_0.entries_seq().len()
                            ==> sb.entries_seq().contains(
                            #[trigger] final(self).proxy_protocol_switchboard->Some_0.entries_seq()[i],
                        )
                    &&& forall|i: int|
                        0 <= i < sb.entries_seq().len() && !((#[trigger] sb.entries_seq()[i]).from_ip
                            == conn.from_ip && sb.entries_seq()[i].port == conn.to_port)
                            ==> final(self).proxy_protocol_switchboard->Some_0.entries_seq().contains(
                            sb.entries_seq()[i],
                        )
                    &&& r is None ==> *final(self) == *old(self)
                },
                Option::None => r is None && final(self).proxy_protocol_switchboard is None,
            },
    {
        match &mut self.proxy_protocol_switchboard {
            Option::Some(switchboard) => {
                let found = switchboard.get_session_by_incoming_data_connection(conn);
                match found {
                    Option::Some(session_id) => {
                        switchboard.unregister(conn);
                        Option::Some(session_id)
                    },
                    Option::None => {
                        proof {
                            let es = switchboard.entries_seq();
                            assert forall|i: int| 0 <= i < es.len() implies es.contains(
                                #[trigger] es[i],
                            ) by {
                                assert(es[i] == es[i]);
                            }
                        }
                        Option::None
                    },
                }
            },
            Option::None => Option::None,
        }
    }

    /// Reserves the next free passive port for a session, keyed by the
    /// client address of its control connection, and builds the bus
    /// message answering its PASV: a 227 whose address is the one the
    /// client originally dialed and whose two port numbers recombine to
    /// the reserved port. When every port is taken the message is a
    /// 425. `None` means the server is not in PROXY mode, or the
    /// session's connection tuple was never captured.
    pub fn select_and_register_passive_port(
        &mut self,
        conn_info: Option<ConnectionTuple>,
        session_id: u64,
        now: u64,
    ) -> (r: Option<InternalMsg>)
        requires
            old(self).proxy_protocol_switchboard is Some ==> old(self).proxy_protocol_switchboard->Some_0.wf(),
            now <= u64::MAX - RESERVATION_TTL_MS,
        ensures
            final(self).proxy_protocol_switchboard is Some <==> old(self).proxy_protocol_switchboard is Some,
            old(self).proxy_protocol_switchboard is Some ==> final(self).proxy_protocol_switchboard->Some_0.wf(),
            match (old(self).proxy_protocol_switchboard, conn_info) {
                (Option::Some(sb), Option::Some(info)) => match r {
                    Option::Some(msg) => {
                        ||| exists|port: u16|
                            {
                                &&& sb.spec_lo() <= port < sb.spec_hi()
                                &&& msg@ == (InternalMsgView::CommandChannelReply {
                                    code: ReplyCode::EnteringPassiveMode,
                                    text: pasv_text_spec(info.to_ip, port),
                                })
                                &&& #[trigger] final(self).proxy_protocol_switchboard->Some_0.lookup_key(info.from_ip, port)
                                    == Option::Some(session_id)
                                // the drawn port held no live reservation,
                                // and it is the lowest such port
                                &&& forall|i: int|
                                    0 <= i < sb.entries_seq().len() && (
                                    #[trigger] sb.entries_seq()[i]).expires_at > now
                                        ==> sb.entries_seq()[i].port != port
                                &&& forall|p: u16|
                                    sb.spec_lo() <= p < port ==> #[trigger] live_port_reserved(
                                        sb.entries_seq(),
                                        now,
                                        p,
                                    )
                                // the reservation is recorded whole, with
                                // its deadline, and no live entry is lost
                                &&& final(self).proxy_protocol_switchboard->Some_0.entries_seq().len() >= 1
                                &&& final(self).proxy_protocol_switchboard->Some_0.entries_seq().last()
                                    == (crate::proxy::SwitchboardEntry {
                                    from_ip: info.from_ip,
                                    port,
                                    session_id,
                                    expires_at: (now + RESERVATION_TTL_MS) as u64,
                                })
                                &&& forall|i: int|
                                    0 <= i < sb.entries_seq().len() && (
                                    #[trigger] sb.entries_seq()[i]).expires_at > now
                                        ==> final(self).proxy_protocol_switchboard->Some_0.entries_seq().contains(
                                        sb.entries_seq()[i],
                                    )
                            }
                        ||| {
                            &&& msg@ == (InternalMsgView::CommandChannelReply {
                                code: ReplyCode::CantOpenDataConnection,
                                text: "No more passive ports available"@,
                            })
                            &&& forall|p: u16|
                                sb.spec_lo() <= p < sb.spec_hi() ==> #[trigger] live_port_reserved(
                                    sb.entries_seq(),
                                    now,
                                    p,
                                )
                            &&& forall|i: int|
                                0 <= i < sb.entries_seq().len() && (
                                #[trigger] sb.entries_seq()[i]).expires_at > now
                                    ==> final(self).proxy_protocol_switchboard->Some_0.entries_seq().contains(
                                    sb.entries_seq()[i],
                                )
                        }
                    },
                    Option::None => false,
                },
                _ => r is None && *final(self) == *old(self),
            },
    {
        let mut result: Option<InternalMsg> = Option::None;
        let ghost mut gport: u16 = 0;
        let ghost mut got_port: bool = false;
        match &mut self.proxy_protocol_switchboard {
            Option::Some(switchboard) => {
                match conn_info {
                    Option::Some(info) => {
                        let reserved = switchboard.reserve_next_free_port(
                            info.from_ip,
                            session_id,
                            now,
                        );
                        match reserved {
                            Option::Some(port) => {
                                proof {
                                    gport = port;
                                    got_port = true;
                                }
                                result = Option::Some(passive_reply_msg(info.to_ip, port));
                            },
                            Option::None => {
                                result = Option::Some(
                                    InternalMsg::CommandChannelReply {
                                        code: ReplyCode::CantOpenDataConnection,
                                        text: "No more passive ports available".to_owned(),
                                    },
                                );
                            },
                        }
                    },
                    Option::None => {},
                }
            },
            Option::None => {},
        }
        proof {
            if got_port {
                let info = conn_info->Some_0;
                assert(self.proxy_protocol_switchboard->Some_0.lookup_key(info.from_ip, gport)
                    == Option::Some(session_id));
            }
        }
        result
    }
}

/// The per-session slice of the server's configuration, handed to each
/// control-channel loop when a connection is accepted.
#[derive(Debug)]
pub struct LoopConfig<A> {
    pub authenticator: A,
    pub storage_root: Option<String>,
    pub ftps_config: FtpsConfig,
    pub collect_metrics: bool,
    pub greeting: String,
    pub idle_session_timeout_secs: u64,
    pub passive_ports_lo: u16,
    pub passive_ports_hi: u16,
}

impl<A: Clone> LoopConfig<A> {
    /// The slice of this server's configuration that one session needs.
    pub fn from_server(server: &Server<A>) -> (c: LoopConfig<A>)
        ensures
            c.storage_root == server.storage_root,
            c.ftps_config == server.ftps_mode,
            c.collect_metrics == server.collect_metrics,
            c.greeting == server.greeting,
            c.idle_session_timeout_secs == server.idle_session_timeout_secs,
            c.passive_ports_lo == server.passive_ports_lo,
            c.passive_ports_hi == server.passive_ports_hi,
    {
        let storage_root = match &server.storage_root {
            Option::Some(root) => Option::Some(root.clone()),
            Option::None => Option::None,
        };
        LoopConfig {
            authenticator: server.authenticator.clone(),
            storage_root,
            ftps_config: server.ftps_mode.clone(),
            collect_metrics: server.collect_metrics,
            greeting: server.greeting.clone(),
            idle_session_timeout_secs: server.idle_session_timeout_secs,
            passive_ports_lo: server.passive_ports_lo,
            passive_ports_hi: server.passive_ports_hi,
        }
    }
}

} // verus!
