//! Comment webhooks: verify, route, dispatch, answer on the issue.
use vstd::prelude::*;
use crate::bot::commands::{parse_outcome, BotCommand};
use crate::config::Config;
use crate::error::BotError;
use crate::platforms::PlatformAdapter;
use crate::text::{chars_of, text_is};

verus! {

/// A webhook from GitCode. Only `note` events, with all three parts
/// present, carry a comment to act on.
#[derive(Debug, Clone)]
pub struct GitCodeWebhook {
    pub object_kind: String,
    pub project: Option<GitCodeProject>,
    pub issue: Option<GitCodeIssue>,
    pub object_attributes: Option<GitCodeNote>,
}

#[derive(Debug, Clone)]
pub struct GitCodeProject {
    pub path_with_namespace: String,
}

#[derive(Debug, Clone)]
pub struct GitCodeIssue {
    pub iid: u64,
}

#[derive(Debug, Clone)]
pub struct GitCodeNote {
    pub note: String,
}

/// A comment to post on an issue.
#[derive(Debug)]
pub struct Comment {
    pub project: String,
    pub issue_id: u64,
    pub body: String,
}

/// The comment that answers a command, and the error to report once it is
/// posted, if the command failed.
#[derive(Debug)]
pub struct Answer {
    pub comment: Comment,
    pub failure: Option<BotError>,
}

/// Where a verified webhook goes.
#[derive(Debug)]
pub enum Route {
    /// Nothing to do: not a comment, or not a command.
    Ignore,
    /// Carry out `command` for the issue.
    Dispatch { project: String, issue_id: u64, command: BotCommand },
    /// The comment held an invalid command: answer with the error.
    Report(Answer),
}

/// The comment that reports a failed command.
pub open spec fn error_comment_text(e: BotError) -> Seq<char> {
    "❌ Error: "@ + e.text()
}

/// Receives the platform's comment webhooks.
pub struct WebhookReceiver {
    pub trigger_prefix: String,
}

impl WebhookReceiver {
    pub fn new(config: &Config) -> (r: Self)
        ensures
            r.trigger_prefix@ == config.bot.trigger_prefix@,
    {
        WebhookReceiver { trigger_prefix: config.bot.trigger_prefix.clone() }
    }

    /// Checks the webhook's token against the platform before the body is
    /// read. A refused token is a verification error; a platform that cannot
    /// check gives its own error.
    pub fn authenticate<P: PlatformAdapter>(
        &self,
        platform: &P,
        payload: &[u8],
        signature: &str,
    ) -> (r: Result<(), BotError>)
        requires
            platform.inv(),
        ensures
            r is Ok <==> platform.serves() && platform.accepts(signature@),
            platform.serves() && !platform.accepts(signature@) ==> r matches Err(
                BotError::WebhookVerification(_),
            ),
    {
        if !platform.verify_webhook(payload, signature)? {
            return Err(
                BotError::WebhookVerification(String::from_str("Invalid webhook signature")),
            );
        }
        Ok(())
    }

    /// The answer to a command on an issue: its reply, or the error it gave,
    /// which is then reported to the caller once the comment is posted.
    pub fn answer(project: String, issue_id: u64, result: Result<String, BotError>) -> (r: Answer)
        ensures
            r.comment.project@ == project@,
            r.comment.issue_id == issue_id,
            match result {
                Ok(m) => r.comment.body@ == m@ && r.failure is None,
                Err(e) => r.comment.body@ == error_comment_text(e) && r.failure == Some(e),
            },
    {
        match result {
            Ok(body) => Answer { comment: Comment { project, issue_id, body }, failure: None },
            Err(e) => {
                let mut body = String::from_str("❌ Error: ");
                let text = e.message();
                body.append(text.as_str());
                Answer { comment: Comment { project, issue_id, body }, failure: Some(e) }
            },
        }
    }

    /// How the webhook ends once the answer's comment was posted, or failed
    /// to be: a failed command gives its own error whatever became of the
    /// comment; otherwise a failure to post is the error.
    pub fn settle(failure: Option<BotError>, posted: Result<(), BotError>) -> (r: Result<(), BotError>)
        ensures
            match failure {
                Some(e) => r == Err::<(), BotError>(e),
                None => r == posted,
            },
    {
        match failure {
            Some(e) => Err(e),
            None => posted,
        }
    }

    /// Routes a verified webhook. Events other than `note` are ignored. A
    /// note lacking its project, issue or comment is a platform error. A
    /// comment that is no command is ignored; an invalid command is answered
    /// with the error; a command is dispatched for the issue.
    pub fn route(&self, webhook: GitCodeWebhook) -> (r: Result<Route, BotError>)
        ensures
            webhook.object_kind@ != "note"@ ==> r matches Ok(Route::Ignore),
            webhook.object_kind@ == "note"@ ==> match (
                webhook.project,
                webhook.issue,
                webhook.object_attributes,
            ) {
                (Some(p), Some(i), Some(n)) => match r {
                    Ok(Route::Ignore) => parse_outcome(n.note@, self.trigger_prefix@, Ok(None)),
                    Ok(Route::Dispatch { project, issue_id, command }) => project@
                        == p.path_with_namespace@ && issue_id == i.iid && parse_outcome(
                        n.note@,
                        self.trigger_prefix@,
                        Ok(Some(command)),
                    ),
                    Ok(Route::Report(a)) => a.failure matches Some(e) && a.comment.project@
                        == p.path_with_namespace@ && a.comment.issue_id == i.iid && a.comment.body@
                        == error_comment_text(e) && parse_outcome(
                        n.note@,
                        self.trigger_prefix@,
                        Err(e),
                    ),
                    Err(_) => false,
                },
                _ => r matches Err(BotError::Platform(_)),
            },
    {
        let kind = chars_of(webhook.object_kind.as_str());
        if !text_is(kind.as_slice(), "note") {
            return Ok(Route::Ignore);
        }
        let project = match webhook.project {
            Some(p) => p,
            None => return Err(BotError::Platform(String::from_str("Missing project information"))),
        };
        let issue = match webhook.issue {
            Some(i) => i,
            None => return Err(BotError::Platform(String::from_str("Missing issue information"))),
        };
        let note = match webhook.object_attributes {
            Some(n) => n,
            None => return Err(BotError::Platform(String::from_str("Missing note information"))),
        };
        match BotCommand::parse(note.note.as_str(), self.trigger_prefix.as_str()) {
            Ok(None) => Ok(Route::Ignore),
            Ok(Some(command)) => Ok(
                Route::Dispatch { project: project.path_with_namespace, issue_id: issue.iid, command },
            ),
            Err(e) => Ok(
                Route::Report(WebhookReceiver::answer(project.path_with_namespace, issue.iid, Err(e))),
            ),
        }
    }
}

} // verus!
