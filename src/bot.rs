//! Bot commands: the grammar of comment text, the answers, and the dispatch
//! decisions.
pub mod commands;
pub mod processor;
pub mod replies;

pub use commands::BotCommand;
pub use processor::CommandProcessor;
