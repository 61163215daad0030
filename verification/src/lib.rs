pub mod dto;
pub mod error;
pub mod http;
pub mod laws;
pub mod text;
pub mod types;
pub mod utils;
