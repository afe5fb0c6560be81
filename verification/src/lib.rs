//! The logic of a WeChat protocol plugin for libpurple: the contacts and
//! group chats it reads, the login session and its cookies, and the steps of
//! the QR-code login over the web protocol.

pub mod chatroom;
pub mod json;
pub mod plugin_pointer;
pub mod server;
pub mod session;
pub mod text;
pub mod user;
pub mod util;
