//! A WebP conversion service as a library: API-key authentication, image
//! transcoding and the responses of the HTTP endpoints, with the behaviour of
//! each stated as a contract.

pub mod cli;
pub mod config;
pub mod pidfile;
pub mod web;
