//! Core of an embeddable FTP/FTPS server: the per-session control-channel
//! state machine, the reply codec, the data-channel coordination protocol,
//! and the PROXY-mode switchboard. All protocol decisions are made by
//! verified functions on plain values; sockets, TLS plumbing, the storage
//! backend and the authenticator live outside and talk to this crate
//! through commands, actions and events.

pub mod commands;
pub mod controlchan;
pub mod datachan;
pub mod ftpserver;
pub mod proxy;
pub mod reply;
pub mod session;
pub mod text;
