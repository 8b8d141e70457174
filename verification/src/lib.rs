pub mod addresses;
pub mod discovery;
pub mod models;
pub mod proxmox;
pub mod targets;
pub mod text;
pub mod transcript;
pub mod utils;
