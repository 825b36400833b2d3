//! Reconciliation logic and configuration generation for a PostgreSQL
//! topology operator: password verifiers, the connection pooler's
//! configuration files, and the decisions its control loops make.

pub mod digests;
pub mod encoding;
pub mod ini_builder;
pub mod postgres_password;
pub mod pooler_config;
pub mod pooler_laws;
pub mod pooler_reconciler;
pub mod reconcile;
pub mod role_reconciler;
pub mod schema_reconciler;
pub mod types;
