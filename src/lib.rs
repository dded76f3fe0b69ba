pub mod decimal;
pub mod error;
pub mod outside;
pub mod text;
pub mod search;
pub mod route;
pub mod wire;
pub mod body;
pub mod access;
pub mod user_access;
pub mod laws;
