//! A dual-upstream D-Bus router: the routing rules, the fake unique name
//! scheme and the wire-format rewriting that decide where each message of a
//! sandboxed client goes and how it is changed on the way.

use vstd::prelude::*;

pub mod bus;
pub mod text;
pub mod wire;
pub mod error;
pub mod codec;
pub mod message;
pub mod rewrite;
pub mod daemon;
pub mod config;
pub mod routing;
pub mod auth;
pub mod conn;
pub mod socket;
pub mod format;
pub mod fake_name;
pub mod session;
pub mod router;

pub use bus::Bus;
pub use config::{Config, RouteRule};
pub use error::Error;
pub use router::Router;
