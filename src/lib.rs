pub mod ipc;
pub mod post_login;
pub mod ui;
