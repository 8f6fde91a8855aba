//! Resource views of the remote API.
pub mod pages;
