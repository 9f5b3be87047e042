pub mod auth;
pub mod pages;
