pub mod backend;
pub mod types;
pub mod device;
pub mod nova_engine;
