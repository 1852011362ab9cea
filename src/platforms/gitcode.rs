//! The GitCode back-end: webhooks carry the shared secret as a token, and
//! experiment mappings are kept in memory for the life of the process.
use vstd::prelude::*;
use crate::auth::tokens_match;
use crate::config::PlatformConfig;
use crate::error::BotError;
use crate::platforms::PlatformAdapter;
use crate::store::{lemma_mapping_key_injective, make_mapping_key, mapping_key_of, MappingStore};
use crate::text::{decimal, push_decimal};

verus! {

/// The GitCode back-end.
pub struct GitCodeAdapter {
    config: PlatformConfig,
    experiment_mappings: MappingStore,
}

impl GitCodeAdapter {
    /// The secret that the platform's webhooks carry.
    pub closed spec fn webhook_secret(&self) -> Seq<char> {
        self.config.webhook_secret@
    }

    /// An adapter with no experiment kept yet.
    pub fn new(config: PlatformConfig) -> (r: Result<Self, BotError>)
        ensures
            r matches Ok(a) && a.inv() && a.webhook_secret() == config.webhook_secret@ && a.mappings() == Map::<
                (Seq<char>, u64),
                Seq<char>,
            >::empty(),
    {
        let a = GitCodeAdapter { config, experiment_mappings: MappingStore::new() };
        assert(a.mappings() =~= Map::<(Seq<char>, u64), Seq<char>>::empty());
        Ok(a)
    }

    /// The key under which the experiment of an issue is kept.
    fn make_mapping_key(&self, project: &str, issue_id: u64) -> (r: String)
        ensures
            r@ == mapping_key_of(project@, issue_id),
    {
        make_mapping_key(project, issue_id)
    }
}

/// The address that comments on an issue are posted to.
pub fn comment_url(api_url: &str, project: &str, issue_id: u64) -> (r: String)
    ensures
        r@ == api_url@ + "/repos/"@ + project@ + "/issues/"@ + decimal(issue_id as nat) + "/comments"@,
{
    let mut r = String::from_str(api_url);
    r.append("/repos/");
    r.append(project);
    r.append("/issues/");
    push_decimal(&mut r, issue_id);
    r.append("/comments");
    r
}

/// The `Authorization` header value for a GitCode access token.
pub fn token_header(access_token: &str) -> (r: String)
    ensures
        r@ == "token "@ + access_token@,
{
    let mut r = String::from_str("token ");
    r.append(access_token);
    r
}

impl PlatformAdapter for GitCodeAdapter {
    closed spec fn inv(&self) -> bool {
        self.experiment_mappings.wf()
    }

    open spec fn serves(&self) -> bool {
        true
    }

    open spec fn accepts(&self, token: Seq<char>) -> bool {
        token == self.webhook_secret()
    }

    closed spec fn mappings(&self) -> Map<(Seq<char>, u64), Seq<char>> {
        Map::new(
            |id: (Seq<char>, u64)| self.experiment_mappings.view().contains_key(mapping_key_of(id.0, id.1)),
            |id: (Seq<char>, u64)| self.experiment_mappings.view()[mapping_key_of(id.0, id.1)],
        )
    }

    /// The token is the platform's shared secret; the body is not looked at.
    fn verify_webhook(&self, _payload: &[u8], signature: &str) -> (r: Result<bool, BotError>) {
        Ok(tokens_match(self.config.webhook_secret.as_str(), signature))
    }

    fn store_experiment_mapping(&mut self, project: &str, issue_id: u64, experiment_name: &str) -> (r:
        Result<(), BotError>) {
        let key = self.make_mapping_key(project, issue_id);
        let ghost before = self.mappings();
        self.experiment_mappings.put(key, String::from_str(experiment_name));
        proof {
            assert forall|id: (Seq<char>, u64)| #[trigger] self.mappings().contains_key(id)
                == before.insert((project@, issue_id), experiment_name@).contains_key(id) by {
                if mapping_key_of(id.0, id.1) == mapping_key_of(project@, issue_id) {
                    lemma_mapping_key_injective(id.0, id.1, project@, issue_id);
                }
            }
            assert forall|id: (Seq<char>, u64)| #[trigger] self.mappings().contains_key(id) implies
                self.mappings()[id] == before.insert((project@, issue_id), experiment_name@)[id] by {
                if mapping_key_of(id.0, id.1) == mapping_key_of(project@, issue_id) {
                    lemma_mapping_key_injective(id.0, id.1, project@, issue_id);
                }
            }
            assert(self.mappings() =~= before.insert((project@, issue_id), experiment_name@));
        }
        Ok(())
    }

    fn get_experiment_mapping(&self, project: &str, issue_id: u64) -> (r: Result<
        Option<String>,
        BotError,
    >) {
        let key = self.make_mapping_key(project, issue_id);
        Ok(self.experiment_mappings.get(&key))
    }
}

} // verus!
