//! Subscription, source-registry and alert-routing logic of the disaster
//! alert service, with its contracts.
pub mod text;
pub mod models;
pub mod source_registry;
pub mod services;
pub mod routes;
pub mod db;
pub mod backend;
