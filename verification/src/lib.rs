pub mod bytes;
pub mod idgen;
pub mod laws;
pub mod service;
pub mod store;
pub mod validate;
