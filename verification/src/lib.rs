//! Verified core of a campus-network (SRUN portal) login client: the
//! request encodings, the portal response handling, the URL and address
//! rules, the login and logout conversations as state machines, the
//! reconnect watcher's policy, the settings form, the diagnosis report,
//! and the reading and classification of network adapters.
use vstd::prelude::*;

pub mod client;
pub mod config;
pub mod crypto;
pub mod diag;
pub mod error;
pub mod flow;
pub mod ip;
pub mod ipconfig;
pub mod ipv6;
pub mod localaddr;
pub mod monitor;
pub mod json;
pub mod netif;
pub mod portal;
pub mod probe;
pub mod report;
pub mod response;
pub mod settings;
pub mod startup;
pub mod text;
pub mod url;
pub mod xencode;

verus! {

} // verus!
