//! The two inbound flows: comment webhooks from the platform and state
//! callbacks from the orchestration service.
pub mod callback;
pub mod receiver;

pub use callback::CallbackHandler;
pub use receiver::{GitCodeWebhook, WebhookReceiver};
