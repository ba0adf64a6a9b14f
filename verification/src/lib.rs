//! Single-active-session SFTP browsing core: a registry of local and remote
//! project records, a connection state machine that holds at most one live
//! session at a time, and the mapping from raw directory-listing entries to a
//! typed filesystem model.
//!
//! Network transport and persistence are left to the caller; every decision
//! the core makes (which record a connect resolves, which error each failed
//! step reports, how a raw entry is classified) is stated in contracts and
//! verified.

pub mod entries;
pub mod errors;
pub mod registry;
pub mod session;
