//! Verified core of the Mudzidzi learning-platform backend: request
//! validation, configuration parsing, token claims, refresh-session
//! rules, password hashing and the study-streak computation.

pub mod auth;
pub mod config;
pub mod error;
pub mod flows;
pub mod ids;
pub mod jwt;
pub mod number;
pub mod password;
pub mod streak;
pub mod students;
pub mod text;
pub mod validation;
