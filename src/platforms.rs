//! The capabilities that a code-hosting back-end offers the relay: checking
//! its webhooks, and keeping which experiment belongs to which issue.
//! Posting comments is the caller's part: the relay hands it the comment to
//! post.
pub mod gitcode;
pub mod gitee;
pub mod github;

use vstd::prelude::*;
use crate::error::BotError;

verus! {

/// A code-hosting back-end.
pub trait PlatformAdapter {
    /// Whether the adapter's own state is consistent.
    spec fn inv(&self) -> bool;

    /// Whether this back-end is implemented; one that is not fails every call.
    spec fn serves(&self) -> bool;

    /// Whether a webhook carrying `token` comes from the platform.
    spec fn accepts(&self, token: Seq<char>) -> bool;

    /// The experiment kept for each issue, by project path and issue number.
    spec fn mappings(&self) -> Map<(Seq<char>, u64), Seq<char>>;

    /// Checks a webhook's token, before its body is read.
    fn verify_webhook(&self, payload: &[u8], signature: &str) -> (r: Result<bool, BotError>)
        requires
            self.inv(),
        ensures
            r is Ok <==> self.serves(),
            r matches Ok(b) ==> b == self.accepts(signature@),
    ;

    /// Keeps `experiment_name` as the experiment of the issue.
    fn store_experiment_mapping(&mut self, project: &str, issue_id: u64, experiment_name: &str) -> (r:
        Result<(), BotError>)
        requires
            old(self).inv(),
        ensures
            final(self).inv(),
            final(self).serves() == old(self).serves(),
            forall|t: Seq<char>| final(self).accepts(t) == old(self).accepts(t),
            r is Ok <==> old(self).serves(),
            r is Ok ==> final(self).mappings() == old(self).mappings().insert(
                (project@, issue_id),
                experiment_name@,
            ),
            r is Err ==> final(self).mappings() == old(self).mappings(),
    ;

    /// The experiment kept for the issue, if any.
    fn get_experiment_mapping(&self, project: &str, issue_id: u64) -> (r: Result<
        Option<String>,
        BotError,
    >)
        requires
            self.inv(),
        ensures
            r is Ok <==> self.serves(),
            r matches Ok(found) ==> match found {
                Some(name) => self.mappings().contains_key((project@, issue_id)) && name@
                    == self.mappings()[(project@, issue_id)],
                None => !self.mappings().contains_key((project@, issue_id)),
            },
    ;
}

} // verus!
