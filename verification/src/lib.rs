//! Lifecycle engine for a named tunnel that exposes a developer machine
//! through a remote relay.
//!
//! The engine decides; it performs no I/O. Whatever takes outside work is an
//! operation: a value that is advanced with the answer to its last question
//! and that comes back with its next question or with its result (see
//! `protocol`). The caller runs the loop: it performs what is asked and hands
//! back what came of it. Every operation is specified by a function from its
//! state and an answer to its next step, and the laws of the engine are
//! proved of these functions.
//!
//! - `names` and `arbitration` validate a tunnel name, derive one from the
//!   host name and make it unique among the names in use.
//! - `tags` keeps the three tags of a tunnel: its name, the version of its
//!   protocol and the mark of this application.
//! - `create`, `resolve`, `rename` and `launcher` provision the launcher's
//!   tunnel; `dev_tunnels` is the entry to them.
//! - `tokens`, `backoff` and `supervisor` make up the loop that keeps a tunnel
//!   connected; `active` is the owner's handle on that loop.
//! - `command` and `async_pipe` serve the processes and the pipes around the
//!   agent.
//! - `outside` holds the few calls whose contracts are trusted rather than
//!   proved; `ambient` and `text` are helpers around them.

pub mod outside;
pub mod text;
pub mod names;
pub mod backoff;
pub mod errors;
pub mod tunnel;
pub mod tags;
pub mod protocol;
pub mod ambient;
pub mod arbitration;
pub mod create;
pub mod resolve;
pub mod rename;
pub mod launcher;
pub mod tokens;
pub mod supervisor;
pub mod active;
pub mod dev_tunnels;
pub mod command;
pub mod async_pipe;
