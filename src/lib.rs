pub mod execution;
pub mod service;
pub mod status;
pub mod store;
pub mod workers;
