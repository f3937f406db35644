//! Verified core logic of an LNP (Lightning Network Protocol) node: parsing of
//! user input, failure codes and client reports, service identifiers, channel
//! workflow state machines, funding coin selection, configuration helpers
//! and first-time initialisation.
pub mod text;
pub mod amount;
pub mod hex;
pub mod service;
pub mod rpc;
pub mod channel;
pub mod launcher;
pub mod funding;
pub mod script;
pub mod config;
pub mod client;
pub mod link;
pub mod cli;
pub mod responder;
pub mod addr;
pub mod init;
