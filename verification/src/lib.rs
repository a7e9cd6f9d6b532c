//! Decision logic of a supervisor for one local backend process.
//!
//! The supervisor launches a single child server, waits until its health
//! endpoint answers, and tears it down again. Everything that touches the
//! operating system stays with the caller: this crate decides what to do
//! next from what the caller observed, and every decision carries a
//! contract that Verus proves.
//!
//! A caller keeps one [`supervisor::Supervisor`] behind a lock. To start
//! the backend it calls [`supervisor::Supervisor::begin_start`], carries
//! out the request it gets, and reports the result to
//! [`start::StartSession::step`], until the start is done; a stop runs
//! the same way through [`stop::StopSession::step`]. The lock is held
//! for each call and never in between.
//!
//! - [`config`]: the settings and their defaults
//! - [`ports`]: the order in which candidate ports are tried
//! - [`paths`]: where the backend is looked for and how it is launched
//! - [`health`]: the health request and the reading of its answer
//! - [`supervisor`]: the record of the child, and the status check
//! - [`start`], [`stop`]: the two conversations
//! - [`lifecycle`]: the tie to the application shell
//! - [`info`], [`error`]: what is reported
//! - [`laws`]: what holds across operations
//! - [`text`]: numerals and joined lists

pub mod config;
pub mod error;
pub mod health;
pub mod info;
pub mod laws;
pub mod lifecycle;
pub mod paths;
pub mod ports;
pub mod start;
pub mod stop;
pub mod supervisor;
pub mod text;
