//! The orchestration service's data, as the relay sees it.
pub mod endpoints;
pub mod types;

pub use types::{CreateExperimentRequest, Experiment, ExperimentList, ExperimentStatus, WebhookCallback};
