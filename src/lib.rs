//! Request construction and response rendering for a small command-line HTTP client.
pub mod error;
pub mod kv;
pub mod render;
pub mod request;
pub mod url_check;
