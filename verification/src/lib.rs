//! A minimal layered content/auth backend: domain models, store capabilities
//! (abstract interfaces), in-memory repositories implementing them, and the
//! use-case services that the transport layer calls.

pub mod content;
pub mod content_interface;
pub mod content_repository;
pub mod content_usecase;
pub mod types;
pub mod user;
pub mod user_interface;
pub mod user_repository;
pub mod user_usecase;
