//! Identity layer of a self-hosted media server: credential hashing, signed
//! bearer tokens, an account index with strict username uniqueness, and the
//! registration / login orchestration built on them.

pub mod clock;
pub mod config;
pub mod credentials;
pub mod error;
pub mod health;
pub mod ids;
pub mod jwt;
pub mod middleware;
pub mod models;
pub mod service;
pub mod user_repository;

pub use error::{AppError, AppResult, ErrorResponse, OptionExt};
