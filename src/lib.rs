//! Decision core of a tool that turns the pending changes of a git work tree
//! into a commit message written by a chat-completion model.
//!
//! The library never touches the terminal, the network or a subprocess: it
//! interprets what those returned and says what to do next.
pub mod commit;
pub mod git;
pub mod request;
pub mod session;
pub mod spinner;
