//! Client-side core of an interactive shell for a remote database service:
//! command-line options, transport set-up, connection retries, the session
//! lifecycle and the line editor, each as plain verified logic. Terminal and
//! network I/O live outside this library and feed it events.

pub mod text;
pub mod transport;
pub mod retry;
pub mod editor;
pub mod command;
pub mod session;
pub mod args;
pub mod queue;
pub mod bridge;
