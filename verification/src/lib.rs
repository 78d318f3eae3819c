//! Forwarding core of a two-tier HTTP reverse proxy.
//!
//! An edge instance forwards external traffic to the application tier; a
//! worker instance balances traffic among the workers of one application.
//! This crate holds the decisions of both: where a request goes, how it is
//! rewritten, and what the caller is told. Sockets and streams stay with the
//! program that drives it.

pub mod error;
pub mod exchange;
pub mod header;
pub mod laws;
pub mod listen;
pub mod message;
pub mod mode;
pub mod resolve;
pub mod respond;
pub mod rewrite;
pub mod tables;
pub mod uri;

pub use error::ForwardError;
pub use exchange::{step, Action, Event, Exchange, Phase};
pub use header::Header;
pub use message::{Outbound, Request, Response};
pub use mode::{select_protocol, ForwardMode, Protocol};
pub use resolve::Route;
pub use tables::RoutingTables;
