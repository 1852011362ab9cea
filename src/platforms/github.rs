//! The GitHub back-end, not implemented yet: every call fails.
use vstd::prelude::*;
use crate::config::PlatformConfig;
use crate::error::BotError;
use crate::platforms::PlatformAdapter;

verus! {

/// The GitHub back-end.
pub struct GitHubAdapter {
    _config: PlatformConfig,
}

impl GitHubAdapter {
    pub fn new(config: PlatformConfig) -> (r: Result<Self, BotError>)
        ensures
            r is Ok,
    {
        Ok(GitHubAdapter { _config: config })
    }
}

/// The error every call of this back-end gives.
fn not_implemented() -> (r: BotError)
    ensures
        r is Platform,
{
    BotError::Platform(String::from_str("GitHub adapter not implemented yet"))
}

impl PlatformAdapter for GitHubAdapter {
    open spec fn inv(&self) -> bool {
        true
    }

    open spec fn serves(&self) -> bool {
        false
    }

    open spec fn accepts(&self, token: Seq<char>) -> bool {
        false
    }

    open spec fn mappings(&self) -> Map<(Seq<char>, u64), Seq<char>> {
        Map::empty()
    }

    fn verify_webhook(&self, _payload: &[u8], _signature: &str) -> (r: Result<bool, BotError>) {
        Err(not_implemented())
    }

    fn store_experiment_mapping(&mut self, _project: &str, _issue_id: u64, _experiment_name: &str) -> (r:
        Result<(), BotError>) {
        Err(not_implemented())
    }

    fn get_experiment_mapping(&self, _project: &str, _issue_id: u64) -> (r: Result<
        Option<String>,
        BotError,
    >) {
        Err(not_implemented())
    }
}

} // verus!
