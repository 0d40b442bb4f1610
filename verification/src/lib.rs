//! Hardening of a worker process before it compiles and executes untrusted code.
//!
//! A worker is confined in three ways. It leaves the user and mount namespaces
//! of its host and takes its own directory as root ([`isolation`]). It gives
//! up all file system access but for a list of exceptions ([`restriction`],
//! with the rights in [`access`] and their meaning in [`policy`]). And it
//! drops the environment variables that it was started with ([`environment`]).
//! [`hardening`] puts the three in order and decides whether untrusted code may
//! run.
//!
//! System calls, the process environment and threads are the caller's. This
//! crate holds the decisions: which steps are taken, in which order, with
//! which arguments, and what each outcome means.

pub mod access;
pub mod bytes;
pub mod environment;
pub mod hardening;
pub mod isolation;
pub mod paths;
pub mod policy;
pub mod restriction;
pub mod status;
