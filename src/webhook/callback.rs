//! State callbacks from the orchestration service: the experiment name
//! gives the issue back, and the new state is reported on it.
use vstd::prelude::*;
use crate::crater::types::WebhookCallback;
use crate::text::{chars_of, text_is};
use crate::utils::{decode_name, parse_experiment_name};
use crate::webhook::receiver::Comment;

verus! {

/// The comment that reports a state: `completed` (with the report link when
/// there is one), `failed`, `aborted`, or any other state quoted as is.
pub open spec fn callback_text(name: Seq<char>, status: Seq<char>, report_url: Option<String>) -> Seq<
    char,
> {
    if status == "completed"@ {
        match report_url {
            Some(u) => "🎉 实验 `"@ + name + "` 已完成！\n\n📊 查看完整报告：[点击查看]("@ + u@ + ")"@,
            None => "🎉 实验 `"@ + name + "` 已完成！"@,
        }
    } else if status == "failed"@ {
        "❌ 实验 `"@ + name + "` 失败。"@
    } else if status == "aborted"@ {
        "⏹️ 实验 `"@ + name + "` 已中止。"@
    } else {
        "📊 实验 `"@ + name + "` 状态更新："@ + status
    }
}

/// Turns the service's callbacks into comments.
pub struct CallbackHandler {}

impl CallbackHandler {
    pub fn new() -> (r: Self) {
        CallbackHandler {  }
    }

    /// The comment that a callback asks for, on the issue its experiment
    /// name stands for. A name that does not decode, or decodes to issue 0,
    /// is not this relay's: no comment.
    pub fn handle_crater_callback(&self, callback: &WebhookCallback) -> (r: Option<Comment>)
        ensures
            match decode_name(callback.experiment@) {
                Some((project, issue_id)) => if issue_id == 0 {
                    r is None
                } else {
                    r matches Some(c) && c.project@ == project && c.issue_id == issue_id && c.body@
                        == callback_text(callback.experiment@, callback.status@, callback.report_url)
                },
                None => r is None,
            },
    {
        let (project, issue_id) = match parse_experiment_name(callback.experiment.as_str()) {
            Ok(found) => found,
            Err(_) => return None,
        };
        if issue_id == 0 {
            return None;
        }
        let name = callback.experiment.as_str();
        let status = chars_of(callback.status.as_str());
        let body = if text_is(status.as_slice(), "completed") {
            match &callback.report_url {
                Some(u) => {
                    let mut s = String::from_str("🎉 实验 `");
                    s.append(name);
                    s.append("` 已完成！\n\n📊 查看完整报告：[点击查看](");
                    s.append(u.as_str());
                    s.append(")");
                    s
                },
                None => {
                    let mut s = String::from_str("🎉 实验 `");
                    s.append(name);
                    s.append("` 已完成！");
                    s
                },
            }
        } else if text_is(status.as_slice(), "failed") {
            let mut s = String::from_str("❌ 实验 `");
            s.append(name);
            s.append("` 失败。");
            s
        } else if text_is(status.as_slice(), "aborted") {
            let mut s = String::from_str("⏹️ 实验 `");
            s.append(name);
            s.append("` 已中止。");
            s
        } else {
            let mut s = String::from_str("📊 实验 `");
            s.append(name);
            s.append("` 状态更新：");
            s.append(callback.status.as_str());
            s
        };
        Some(Comment { project, issue_id, body })
    }
}

} // verus!
