//! The library's error type.
use vstd::prelude::*;

verus! {

/// What can go wrong while relaying a command or a callback. Each variant
/// carries a human-readable description.
#[derive(Debug)]
pub enum BotError {
    Config(String),
    Http(String),
    Json(String),
    InvalidCommand(String),
    Platform(String),
    CraterApi(String),
    WebhookVerification(String),
    Io(String),
    Internal(String),
}

impl BotError {
    /// The heading that introduces the description in the rendered error.
    pub open spec fn heading(&self) -> Seq<char> {
        match self {
            BotError::Config(_) => "Configuration error: "@,
            BotError::Http(_) => "HTTP request failed: "@,
            BotError::Json(_) => "JSON parsing error: "@,
            BotError::InvalidCommand(_) => "Invalid command: "@,
            BotError::Platform(_) => "Platform error: "@,
            BotError::CraterApi(_) => "Crater API error: "@,
            BotError::WebhookVerification(_) => "Webhook verification failed: "@,
            BotError::Io(_) => "IO error: "@,
            BotError::Internal(_) => "Internal error: "@,
        }
    }

    /// The description carried by the error.
    pub open spec fn detail(&self) -> Seq<char> {
        match self {
            BotError::Config(m) => m@,
            BotError::Http(m) => m@,
            BotError::Json(m) => m@,
            BotError::InvalidCommand(m) => m@,
            BotError::Platform(m) => m@,
            BotError::CraterApi(m) => m@,
            BotError::WebhookVerification(m) => m@,
            BotError::Io(m) => m@,
            BotError::Internal(m) => m@,
        }
    }

    /// The rendered error: its heading followed by its description.
    pub open spec fn text(&self) -> Seq<char> {
        self.heading() + self.detail()
    }

    /// Renders the error as text for logs and for comments.
    pub fn message(&self) -> (r: String)
        ensures
            r@ == self.text(),
    {
        let (heading, detail) = match self {
            BotError::Config(m) => ("Configuration error: ", m),
            BotError::Http(m) => ("HTTP request failed: ", m),
            BotError::Json(m) => ("JSON parsing error: ", m),
            BotError::InvalidCommand(m) => ("Invalid command: ", m),
            BotError::Platform(m) => ("Platform error: ", m),
            BotError::CraterApi(m) => ("Crater API error: ", m),
            BotError::WebhookVerification(m) => ("Webhook verification failed: ", m),
            BotError::Io(m) => ("IO error: ", m),
            BotError::Internal(m) => ("Internal error: ", m),
        };
        let mut r = String::from_str(heading);
        r.append(detail.as_str());
        r
    }
}

} // verus!
