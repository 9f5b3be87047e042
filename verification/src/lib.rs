//! Treasury: the verified core of a personal-finance web service.
//!
//! The library holds the rules of the service as plain values: who may do
//! what (`authorization`), what an authenticated token says
//! (`authentication`), the records the service keeps (`model`), the SQL
//! statements that read and write them (`resource`), request parameters and
//! paging (`schema`), the decisions each service makes for a request
//! (`service`), how errors are answered (`api`), and the rules of sign-in and
//! of the pages (`web`).
pub mod api;
pub mod authentication;
pub mod authorization;
pub mod model;
pub mod resource;
pub mod schema;
pub mod service;
pub mod web;
