pub mod tables;
pub mod service;
pub mod server;
pub mod client;
pub mod download_manage;
