//! Cryptographic primitives and shared helpers.

pub mod encrypt;
pub mod error;
pub mod jwt;
pub mod password_hashing;
pub mod redis;
pub mod text;
