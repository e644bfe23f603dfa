//! Backend core of a todo-list service: the todo entity, its lifecycle
//! rules, a storage contract with an in-memory implementation, and the
//! mapping of storage errors to the outward status vocabulary.

pub mod error;
pub mod gateway;
pub mod idgen;
pub mod laws;
pub mod memory;
pub mod model;
pub mod repository;
pub mod service;
pub mod settings;
pub mod status;
pub mod timestamp;
pub mod wire;
