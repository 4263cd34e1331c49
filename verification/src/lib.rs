//! Establishing a control channel to a remote mirroring agent.
//!
//! A client needs exactly one live agent endpoint. It prefers a centrally
//! managed one (an operator service that creates or reuses agents on demand)
//! and falls back to provisioning an agent directly in the cluster when no
//! such service is available. This crate holds the decision protocol of that
//! orchestration: which path to try, how to classify each collaborator
//! outcome, when the provisioning deadline has passed, and which progress
//! notes to emit. The asynchronous collaborators themselves (operator
//! discovery, cluster client, channel establishment) are driven by the
//! embedding program, which performs each requested [`connection::SessionAction`]
//! and feeds the outcome back as a [`connection::SessionEvent`].

pub mod config;
pub mod connection;
pub mod laws;
pub mod progress;
