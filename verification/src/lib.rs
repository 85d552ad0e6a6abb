//! Decision logic of a video-clip voting server: the server parameters,
//! the per-round voter records, the admin session tokens, the rules that
//! accept or reject a submitted vote, and the replies of each route.
//!
//! Everything that touches the database, the network or the file system
//! happens outside this crate; the functions here take what was read and
//! say what is to be written or answered.

pub mod admin_data;
pub mod auth;
pub mod config;
pub mod login;
pub mod password;
pub mod reply;
pub mod server_config;
pub mod server_tables;
pub mod state;
pub mod vote;
