//! Session token lifecycle: credential records, password hashing, token
//! issuance and verification, refresh rotation and request authentication.

pub mod clock;
pub mod config;
pub mod errors;
pub mod jwt;
pub mod jwt_extractor;
pub mod password_hashing;
pub mod payload;
pub mod policy;
pub mod session;
pub mod text;
pub mod user;
