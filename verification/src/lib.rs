//! A directory of projects and publishers: the storage layer that keeps
//! their records in two namespaces of an embedded transactional store, the
//! records' own types, what an endpoint answers to the outcome of a storage
//! operation, and the drawing of an address as a QR code.

pub mod db;
pub mod encoding;
pub mod engine;
pub mod errors;
pub mod laws;
pub mod model;
pub mod namespace;
pub mod order;
pub mod projects;
pub mod qr;
pub mod utils;

pub use db::{DbState, DbView, Kv, PROJECTS_DB, PUBLISHERS_DB};
pub use errors::{BackendError, BackendResult, JsonResponse};
pub use namespace::Namespace;
pub use projects::{CodeLanguage, Merch, Phishing, Project, ProjectCategory, Publisher};
pub use utils::{Outcome, REST_ENDPOINT};
