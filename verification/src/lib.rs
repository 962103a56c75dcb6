//! Mail-session assembly and delivery for a mail vault.
//!
//! Inbound emails are admitted against a recipient directory, their
//! attachments are counted down in a session cache, and each attachment is
//! planned for upload to the recipient's storage backend. The crate holds
//! the decisions; the service around it performs the database and network
//! work that the decisions ask for.

pub mod address;
pub mod admission;
pub mod auth;
pub mod db;
pub mod dispatch;
pub mod dropbox;
pub mod email;
pub mod ident;
pub mod log_level;
pub mod reply;
pub mod session;
pub mod storage;
pub mod text;
pub mod webhook;
