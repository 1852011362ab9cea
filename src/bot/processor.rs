//! The command dispatcher. Each command becomes a short exchange with the
//! orchestration service: `start` says which call to make first, `resume`
//! takes what the call returned and says which call comes next or what to
//! answer. The caller makes the calls; every call is made once, and a failed
//! call ends the exchange with its error.
use vstd::prelude::*;
use crate::bot::commands::{texts, BotCommand};
use crate::bot::replies::{
    aborted_message, aborted_text, help_message, help_text, list_message, list_text,
    no_experiment_text, nothing_to_abort_text, started_message, started_text, status_message,
    status_text,
};
use crate::config::{BotConfig, Config};
use crate::crater::types::{status_label, CreateExperimentRequest, Experiment};
use crate::error::BotError;
use crate::platforms::PlatformAdapter;
use crate::utils::{experiment_name, generate_experiment_name};

verus! {

/// A call to the orchestration service.
#[derive(Debug)]
pub enum CraterCall {
    Create(CreateExperimentRequest),
    Run(String),
    Get(String),
    Abort(String),
    List,
}

/// What a call to the orchestration service returned.
#[derive(Debug)]
pub enum CraterReply {
    Created(Experiment),
    Started,
    Fetched(Experiment),
    Aborted,
    Listed(Vec<Experiment>),
}

/// What an exchange waits for.
#[derive(Debug)]
pub enum Pending {
    /// The experiment `name` is being created for `toolchains`.
    Creating { name: String, toolchains: Vec<String> },
    /// The created `experiment` is being started.
    Starting { name: String, toolchains: Vec<String>, experiment: Experiment },
    /// The experiment of the issue is being fetched.
    Fetching,
    /// The experiment `name` is being aborted.
    Aborting { name: String },
    /// All experiments are being listed.
    Listing,
}

/// What to do next.
#[derive(Debug)]
pub enum Step {
    /// Make `call`, then resume with `pending` and what it returned.
    Call { call: CraterCall, pending: Pending },
    /// Answer with this text.
    Reply(String),
}

/// Copies of the strings of `v`.
fn copy_texts(v: &Vec<String>) -> (r: Vec<String>)
    ensures
        texts(r@) == texts(v@),
{
    let mut r: Vec<String> = Vec::new();
    let mut i: usize = 0;
    while i < v.len()
        invariant
            0 <= i <= v@.len(),
            texts(r@) == texts(v@).take(i as int),
        decreases v@.len() - i,
    {
        let ghost before = r@;
        r.push(v[i].clone());
        assert(texts(r@) =~= texts(before).push(v@[i as int]@));
        i = i + 1;
        assert(texts(v@).take(i as int) =~= texts(v@).take(i - 1).push(v@[i - 1]@));
    }
    assert(texts(v@).take(i as int) =~= texts(v@));
    r
}

/// Decides how commands are carried out, for one deployment.
pub struct CommandProcessor {
    pub config: BotConfig,
    pub callback_base_url: String,
}

impl CommandProcessor {
    pub fn new(config: &Config) -> (r: Self)
        ensures
            r.config.name@ == config.bot.name@,
            r.config.trigger_prefix@ == config.bot.trigger_prefix@,
            r.config.default_mode@ == config.bot.default_mode@,
            r.config.default_crate_select@ == config.bot.default_crate_select@,
            r.callback_base_url@ == config.crater.callback_base_url@,
    {
        CommandProcessor {
            config: BotConfig {
                name: config.bot.name.clone(),
                trigger_prefix: config.bot.trigger_prefix.clone(),
                default_mode: config.bot.default_mode.clone(),
                default_crate_select: config.bot.default_crate_select.clone(),
            },
            callback_base_url: config.crater.callback_base_url.clone(),
        }
    }

    /// The address the service reports state changes to.
    pub open spec fn callback_url(&self) -> Seq<char> {
        self.callback_base_url@ + "/callback/crater"@
    }

    /// The request that creates the experiment for `run` on an issue: named
    /// after the issue, for the toolchains in order, in the configured mode
    /// and crate selection, at priority 0, reporting back to this relay.
    pub open spec fn is_create_request(
        &self,
        req: CreateExperimentRequest,
        project: Seq<char>,
        issue_id: u64,
        toolchains: Seq<Seq<char>>,
    ) -> bool {
        &&& req.name@ == experiment_name(project, issue_id as nat)
        &&& texts(req.toolchains@) == toolchains
        &&& req.mode@ == self.config.default_mode@
        &&& req.crate_select@ == self.config.default_crate_select@
        &&& req.priority == 0
        &&& req.callback_url matches Some(u) && u@ == self.callback_url()
    }

    /// The first step of carrying out `command` on an issue. `run` first
    /// creates the experiment; `status` and `abort` look up the issue's
    /// experiment and answer at once, with no call, when there is none;
    /// `help` answers at once; `list` lists the experiments.
    pub fn process<P: PlatformAdapter>(
        &self,
        command: BotCommand,
        platform: &P,
        project: &str,
        issue_id: u64,
    ) -> (r: Result<Step, BotError>)
        requires
            platform.inv(),
        ensures
            match command {
                BotCommand::Run { toolchains } => r matches Ok(
                    Step::Call {
                        call: CraterCall::Create(req),
                        pending: Pending::Creating { name, toolchains: ts },
                    },
                ) && self.is_create_request(req, project@, issue_id, texts(toolchains@)) && name@
                    == req.name@ && texts(ts@) == texts(toolchains@),
                BotCommand::Status => if !platform.serves() {
                    r is Err
                } else if !platform.mappings().contains_key((project@, issue_id)) {
                    r matches Ok(Step::Reply(m)) && m@ == no_experiment_text()
                } else {
                    r matches Ok(Step::Call { call: CraterCall::Get(n), pending: Pending::Fetching })
                        && n@ == platform.mappings()[(project@, issue_id)]
                },
                BotCommand::Abort => if !platform.serves() {
                    r is Err
                } else if !platform.mappings().contains_key((project@, issue_id)) {
                    r matches Ok(Step::Reply(m)) && m@ == nothing_to_abort_text()
                } else {
                    r matches Ok(
                        Step::Call { call: CraterCall::Abort(n), pending: Pending::Aborting { name } },
                    ) && n@ == platform.mappings()[(project@, issue_id)] && name@ == n@
                },
                BotCommand::Help => r matches Ok(Step::Reply(m)) && m@ == help_text(
                    self.config.name@,
                    self.config.trigger_prefix@,
                ),
                BotCommand::List => r matches Ok(
                    Step::Call { call: CraterCall::List, pending: Pending::Listing },
                ),
            },
    {
        match command {
            BotCommand::Run { toolchains } => {
                let name = generate_experiment_name(project, issue_id);
                let mut callback_url = self.callback_base_url.clone();
                callback_url.append("/callback/crater");
                let request = CreateExperimentRequest {
                    name: name.clone(),
                    toolchains: copy_texts(&toolchains),
                    mode: self.config.default_mode.clone(),
                    crate_select: self.config.default_crate_select.clone(),
                    priority: 0,
                    callback_url: Some(callback_url),
                };
                Ok(
                    Step::Call {
                        call: CraterCall::Create(request),
                        pending: Pending::Creating { name, toolchains },
                    },
                )
            },
            BotCommand::Status => {
                match platform.get_experiment_mapping(project, issue_id)? {
                    Some(name) => Ok(
                        Step::Call { call: CraterCall::Get(name), pending: Pending::Fetching },
                    ),
                    None => Ok(Step::Reply(String::from_str("当前没有与此 Issue 关联的实验。"))),
                }
            },
            BotCommand::Abort => {
                match platform.get_experiment_mapping(project, issue_id)? {
                    Some(name) => {
                        let call = CraterCall::Abort(name.clone());
                        Ok(Step::Call { call, pending: Pending::Aborting { name } })
                    },
                    None => Ok(
                        Step::Reply(String::from_str("当前没有与此 Issue 关联的实验可以中止。")),
                    ),
                }
            },
            BotCommand::Help => Ok(
                Step::Reply(
                    help_message(self.config.name.as_str(), self.config.trigger_prefix.as_str()),
                ),
            ),
            BotCommand::List => Ok(Step::Call { call: CraterCall::List, pending: Pending::Listing }),
        }
    }
    /// The step after a call returned `outcome`. A failed call ends the
    /// exchange with its error. Once the created experiment is created, it is
    /// started; once it is started, the issue's experiment is kept on the
    /// platform and the answer names the experiment and the toolchains. A
    /// fetched, aborted or listed experiment is answered at once. A reply of
    /// another kind than the call expects is an internal error. The platform
    /// changes only when a started experiment is kept.
    pub fn resume<P: PlatformAdapter>(
        &self,
        pending: Pending,
        outcome: Result<CraterReply, BotError>,
        platform: &mut P,
        project: &str,
        issue_id: u64,
    ) -> (r: Result<Step, BotError>)
        requires
            old(platform).inv(),
        ensures
            final(platform).inv(),
            final(platform).serves() == old(platform).serves(),
            forall|t: Seq<char>| final(platform).accepts(t) == old(platform).accepts(t),
            match (pending, outcome) {
                (_, Err(e)) => r == Err::<Step, BotError>(e) && final(platform).mappings() == old(
                    platform,
                ).mappings(),
                (Pending::Creating { name, toolchains }, Ok(CraterReply::Created(exp))) => r matches Ok(
                    Step::Call {
                        call: CraterCall::Run(n),
                        pending: Pending::Starting { name: name2, toolchains: ts, experiment },
                    },
                ) && n@ == exp.name@ && name2@ == name@ && texts(ts@) == texts(toolchains@)
                    && experiment == exp && final(platform).mappings() == old(platform).mappings(),
                (
                    Pending::Starting { name, toolchains, experiment },
                    Ok(CraterReply::Started),
                ) => if old(platform).serves() {
                    r matches Ok(Step::Reply(m)) && m@ == started_text(
                        experiment.name@,
                        texts(toolchains@),
                        experiment.mode@,
                        status_label(experiment.status),
                    ) && final(platform).mappings() == old(platform).mappings().insert(
                        (project@, issue_id),
                        name@,
                    )
                } else {
                    r is Err && final(platform).mappings() == old(platform).mappings()
                },
                (Pending::Fetching, Ok(CraterReply::Fetched(exp))) => r matches Ok(Step::Reply(m))
                    && m@ == status_text(exp) && final(platform).mappings() == old(platform).mappings(),
                (Pending::Aborting { name }, Ok(CraterReply::Aborted)) => r matches Ok(Step::Reply(m))
                    && m@ == aborted_text(name@) && final(platform).mappings() == old(platform).mappings(),
                (Pending::Listing, Ok(CraterReply::Listed(es))) => r matches Ok(Step::Reply(m)) && m@
                    == list_text(es@) && final(platform).mappings() == old(platform).mappings(),
                _ => r matches Err(BotError::Internal(_)) && final(platform).mappings() == old(
                    platform,
                ).mappings(),
            },
    {
        let reply = match outcome {
            Ok(reply) => reply,
            Err(e) => return Err(e),
        };
        match (pending, reply) {
            (Pending::Creating { name, toolchains }, CraterReply::Created(experiment)) => {
                let call = CraterCall::Run(experiment.name.clone());
                Ok(Step::Call { call, pending: Pending::Starting { name, toolchains, experiment } })
            },
            (Pending::Starting { name, toolchains, experiment }, CraterReply::Started) => {
                let message = started_message(&experiment, &toolchains);
                platform.store_experiment_mapping(project, issue_id, name.as_str())?;
                Ok(Step::Reply(message))
            },
            (Pending::Fetching, CraterReply::Fetched(experiment)) => Ok(
                Step::Reply(status_message(&experiment)),
            ),
            (Pending::Aborting { name }, CraterReply::Aborted) => Ok(
                Step::Reply(aborted_message(name.as_str())),
            ),
            (Pending::Listing, CraterReply::Listed(experiments)) => Ok(
                Step::Reply(list_message(&experiments)),
            ),
            _ => Err(
                BotError::Internal(
                    String::from_str("the experiment service answered a different call"),
                ),
            ),
        }
    }
}

} // verus!
