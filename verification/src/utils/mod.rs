pub mod file;
pub mod file_entropy;
pub mod gen_id;
pub mod security;
