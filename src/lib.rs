//! Matrix federation server discovery: derives the `m.server` value from the
//! server-name and port settings and serves it as the document of
//! `/.well-known/matrix/server`.

pub mod config;
pub mod json;
pub mod server;
