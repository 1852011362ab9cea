//! Requests to and answers from the orchestration service.
use vstd::prelude::*;

verus! {

/// What is sent to create an experiment.
#[derive(Debug, Clone)]
pub struct CreateExperimentRequest {
    pub name: String,
    pub toolchains: Vec<String>,
    pub mode: String,
    pub crate_select: String,
    pub priority: i32,
    pub callback_url: Option<String>,
}

/// An experiment as the service reports it.
#[derive(Debug, Clone)]
pub struct Experiment {
    pub name: String,
    pub toolchains: Vec<String>,
    pub mode: String,
    pub crate_select: String,
    pub priority: i32,
    pub status: ExperimentStatus,
    pub report_url: Option<String>,
}

/// The state of an experiment.
#[derive(Debug, Clone, Copy, PartialEq, Eq, Structural)]
pub enum ExperimentStatus {
    Queued,
    Running,
    Completed,
    Failed,
    Aborted,
}

/// How a state is shown in comments.
pub open spec fn status_label(s: ExperimentStatus) -> Seq<char> {
    match s {
        ExperimentStatus::Queued => "排队中"@,
        ExperimentStatus::Running => "运行中"@,
        ExperimentStatus::Completed => "已完成"@,
        ExperimentStatus::Failed => "失败"@,
        ExperimentStatus::Aborted => "已中止"@,
    }
}

impl ExperimentStatus {
    /// The label under which the state is shown in comments.
    pub fn label(&self) -> (r: &'static str)
        ensures
            r@ == status_label(*self),
    {
        match self {
            ExperimentStatus::Queued => "排队中",
            ExperimentStatus::Running => "运行中",
            ExperimentStatus::Completed => "已完成",
            ExperimentStatus::Failed => "失败",
            ExperimentStatus::Aborted => "已中止",
        }
    }
}

/// A notice from the service that an experiment changed state. `status` is
/// open: values beyond the known ones may come.
#[derive(Debug, Clone)]
pub struct WebhookCallback {
    pub experiment: String,
    pub status: String,
    pub report_url: Option<String>,
}

/// The experiments that the service lists.
#[derive(Debug, Clone)]
pub struct ExperimentList {
    pub experiments: Vec<Experiment>,
}

} // verus!
