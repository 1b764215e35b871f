//! A small pastebin service: configuration, request validation, paste
//! creation, lookup replies and HTML pages, each with a proved contract.
//! The HTTP server, the database and the environment stay outside the
//! library, which decides what they are asked and what is answered.

pub mod status;
pub mod validation;
pub mod number;
pub mod config;
pub mod id;
pub mod clock;
pub mod schema;
pub mod paste;
pub mod fetch;
pub mod html;
pub mod ui;
pub mod laws;
