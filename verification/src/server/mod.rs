pub mod fs;
pub mod path;
pub mod ttl;
pub mod state;
pub mod proc;
pub mod dir;
pub mod file;
pub mod action;
