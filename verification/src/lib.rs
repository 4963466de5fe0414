//! An HTTP service for one resource, the owner: create, read, update, delete,
//! and a liveness probe.
//!
//! The library decides and the caller acts. A handler in [`api`] turns a
//! request into a [`api::Plan`]; the caller runs the plan's statement, which
//! [`store`] writes, and hands the outcome back for the response. [`model`]
//! states what a client sees when the database behaves as expected.

pub mod api;
pub mod decimal;
pub mod model;
pub mod settings;
pub mod store;
pub mod telemetry;

pub use api::owner::{
    create_owner, select_owner, ApiPayload, CreateOwner, CreateOwnerResponse, ErrorResponse,
    OwnerSummary, Owners, UpdateCredentials, UpdateProfile,
};
pub use settings::Settings;
