//! Authentication module: user accounts and session management over
//! interchangeable storage backends.

pub mod codec;
pub mod database;
pub mod document;
pub mod memory;
pub mod models;
pub mod redis;
pub mod service;
pub mod sqlite;

pub use database::AuthDatabase;
pub use database::DatabaseBackend;
pub use models::Session;
pub use models::User;
pub use service::AuthService;
