//! Core logic of the support desk backend: configuration resolution, text
//! handling for secrets and certificate settings, storage naming, the endpoint
//! and role tables, row conversions and migrations, and the decisions that
//! each request handler takes.

pub mod text;
pub mod config;
pub mod doppler;
pub mod storage;
pub mod model;
pub mod ids;
pub mod rows;
pub mod migration;
pub mod handlers;
