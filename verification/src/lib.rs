//! Locators that tell a host code editor how to launch an external
//! language-server process: which executable to run and with which arguments,
//! resolved through a short chain of fallback strategies.
//!
//! The decision logic is pure: each locator takes the outcomes of the host's
//! collaborator services (package installation, filesystem existence checks,
//! search-path lookups) as plain values and returns either a [`command::Command`]
//! descriptor or an error message. The host-facing glue that performs the
//! actual lookups lives outside this crate.

pub mod command;
pub mod laws;
pub mod naite;
pub mod sonamu;
