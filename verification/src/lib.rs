//! Connector protocol for extract-load pipelines: the messages that taps and
//! targets exchange, the capability interfaces a connector may offer, the
//! catalog of streams with its selection flags, and the bookmark ledger with
//! its merge rule.

pub mod capabilities;
pub mod catalog;
pub mod client;
pub mod columnar;
pub mod config;
pub mod errors;
pub mod http;
pub mod ids;
pub mod json;
pub mod pagination;
pub mod protocol;
pub mod state;
pub mod string_map;
pub mod time;
pub mod traits;
