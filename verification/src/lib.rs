//! Core of an HTTP/1.1 server: the per-request dispatcher.
//!
//! Given an already-parsed request and the per-virtual-host configuration,
//! the library decides which response the server sends: a redirect, a
//! directory listing, a static file (possibly through CGI), an upload, a
//! deletion, a folder creation, or an error page. Every decision is stated
//! in a contract and proved. The surrounding process (sockets, filesystem,
//! subprocesses) performs the actions the library decides on and feeds the
//! outcomes back in.

pub mod actions;
pub mod config;
pub mod dispatch;
pub mod listing;
pub mod logging;
pub mod outside;
pub mod paths;
pub mod redirect;
pub mod request;
pub mod response;
pub mod text;

pub use config::{Redirection, Server};
pub use request::{FormField, Request};
pub use response::Response;
pub use text::{remove_prefix, remove_suffix};
