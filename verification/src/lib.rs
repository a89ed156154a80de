//! The controller of a terminal dashboard for a proxy engine's control API.
//!
//! The crate holds the parts of the dashboard that decide something: which
//! page is shown, what a key press does, how a streamed log payload becomes a
//! bounded scrollback buffer, what a finished fetch does to the session, and
//! which request a control operation sends. Every function states its result
//! in a contract and is proved against it. Terminal drawing and the network
//! stay with the caller, which performs the [`session::Effect`] that an
//! operation returns and hands the outcome back to the session.

pub mod client;
pub mod input;
pub mod json;
pub mod logs;
pub mod page;
pub mod screen;
pub mod session;
pub mod text;
