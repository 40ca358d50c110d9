pub mod manager;
pub mod mqtt;
pub mod state_file;
