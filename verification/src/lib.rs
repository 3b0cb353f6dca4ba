//! Turns raw version-control changesets into prompts for a text-generation
//! service and checks what the service sends back.
//!
//! The crate holds the decisions only: which resolution tier to consult next,
//! how patch lines become a changeset, what a digest looks like, which
//! instruction goes with which task, in which order the commit command takes
//! its steps, and whether a grouping answer is consistent with the files that
//! really changed. Reading the repository and talking to the service are left
//! to the caller.
//!
//! - [`identity`]: commit identities and their spelling
//! - [`resolver`]: from a user's reference to a commit identity
//! - [`changeset`]: from patch lines to file deltas
//! - [`digest`]: from changesets to prompt text
//! - [`synthesis`]: instructions, requests and the reading of answers
//! - [`grouping`]: validation of grouping answers
//! - [`orchestrator`]: what the commands ask and report
//! - [`commit_flow`]: the steps of the commit command

pub mod changeset;
pub mod commit_flow;
pub mod digest;
pub mod grouping;
pub mod identity;
pub mod orchestrator;
pub mod resolver;
pub mod synthesis;
