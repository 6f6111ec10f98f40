pub mod cliente;
pub mod config;
pub mod laws;
pub mod registry;
pub mod servidor;
pub mod text;
