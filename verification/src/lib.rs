//! cftun: Cloudflare Tunnels as persistent webhook endpoints.
//!
//! A command is a [`session::Session`]. It starts with a request and goes on with
//! the event that answers it, until it ends; each step says what to show to the
//! user and what to carry out next ([`dialog`]). Carrying out is left to the
//! program around the library: files, the terminal and cloudflared itself.
//!
//! - [`create`], [`update`], [`delete`], [`import`] and [`inspect`] hold the
//!   commands, and [`session`] any one of them.
//! - [`metadata`], [`config`] and [`paths`] say what is kept and where.
//! - [`service`] and [`cloudflared`] read what users and cloudflared write.
//! - [`report`] says what is shown of the tunnels, and [`error`] what went wrong.
//! - [`text`] has the operations on text that all of these are stated over.
//! - [`laws`] states what holds of every run of a command.
pub mod cloudflared;
pub mod config;
pub mod create;
pub mod delete;
pub mod dialog;
pub mod error;
pub mod import;
pub mod inspect;
pub mod laws;
pub mod metadata;
pub mod paths;
pub mod report;
pub mod service;
pub mod session;
pub mod text;
pub mod update;
