//! Request validation, gateway authentication, status-transition rules and
//! notification texts of the military-portal backend, with a model of the
//! applications table that states what each endpoint does to it.

pub mod text;
pub mod http;
pub mod model;
pub mod store;
pub mod identity;
pub mod citizen;
pub mod officer;
pub mod admin;
pub mod cli;
pub mod email;
pub mod laws;
