//! The texts the bot answers with.
use vstd::prelude::*;
use crate::bot::commands::texts;
use crate::crater::types::{status_label, Experiment};
use crate::text::{decimal, push_decimal};

verus! {

/// The texts joined by ` vs `.
pub open spec fn join_vs(ts: Seq<Seq<char>>) -> Seq<char>
    decreases ts.len(),
{
    if ts.len() == 0 {
        seq![]
    } else if ts.len() == 1 {
        ts[0]
    } else {
        join_vs(ts.drop_last()) + " vs "@ + ts.last()
    }
}

/// Appends the texts of `ts`, joined by ` vs `.
pub fn push_joined(s: &mut String, ts: &Vec<String>)
    ensures
        final(s)@ == old(s)@ + join_vs(texts(ts@)),
{
    let ghost start = s@;
    let mut i: usize = 0;
    assert(texts(ts@).take(0) =~= Seq::<Seq<char>>::empty());
    assert(s@ =~= start + join_vs(texts(ts@).take(0)));
    while i < ts.len()
        invariant
            0 <= i <= ts@.len(),
            s@ == start + join_vs(texts(ts@).take(i as int)),
        decreases ts@.len() - i,
    {
        let ghost before = s@;
        let ghost prefix = texts(ts@).take(i as int);
        let ghost next = texts(ts@).take(i + 1);
        assert(next.drop_last() =~= prefix);
        assert(next.last() == ts@[i as int]@);
        if i > 0 {
            s.append(" vs ");
        }
        s.append(ts[i].as_str());
        proof {
            if i > 0 {
                assert(s@ =~= start + (join_vs(prefix) + " vs "@ + ts@[i as int]@));
            } else {
                assert(join_vs(prefix) =~= Seq::<char>::empty());
                assert(next.len() == 1);
                assert(s@ =~= start + ts@[i as int]@);
            }
        }
        i = i + 1;
    }
    assert(texts(ts@).take(i as int) =~= texts(ts@));
}

/// The answer to `run` once the experiment is created and started.
pub open spec fn started_text(
    name: Seq<char>,
    toolchains: Seq<Seq<char>>,
    mode: Seq<char>,
    status: Seq<char>,
) -> Seq<char> {
    "✅ 实验 `"@ + name + "` 已创建并开始执行。\n\n工具链："@ + join_vs(toolchains) + "\n模式："@ + mode
        + "\n状态："@ + status + "\n\n我会在实验完成后通知您。"@
}

pub fn started_message(experiment: &Experiment, toolchains: &Vec<String>) -> (r: String)
    ensures
        r@ == started_text(
            experiment.name@,
            texts(toolchains@),
            experiment.mode@,
            status_label(experiment.status),
        ),
{
    let mut s = String::from_str("✅ 实验 `");
    s.append(experiment.name.as_str());
    s.append("` 已创建并开始执行。\n\n工具链：");
    push_joined(&mut s, toolchains);
    s.append("\n模式：");
    s.append(experiment.mode.as_str());
    s.append("\n状态：");
    s.append(experiment.status.label());
    s.append("\n\n我会在实验完成后通知您。");
    s
}

/// The answer to `status` for an experiment.
pub open spec fn status_text(e: Experiment) -> Seq<char> {
    "📊 实验状态\n\n名称：`"@ + e.name@ + "`\n工具链："@ + join_vs(texts(e.toolchains@)) + "\n状态："@
        + status_label(e.status) + "\n模式："@ + e.mode@
}

pub fn status_message(e: &Experiment) -> (r: String)
    ensures
        r@ == status_text(*e),
{
    let mut s = String::from_str("📊 实验状态\n\n名称：`");
    s.append(e.name.as_str());
    s.append("`\n工具链：");
    push_joined(&mut s, &e.toolchains);
    s.append("\n状态：");
    s.append(e.status.label());
    s.append("\n模式：");
    s.append(e.mode.as_str());
    s
}

/// The answer to `status` when the issue has no experiment.
pub open spec fn no_experiment_text() -> Seq<char> {
    "当前没有与此 Issue 关联的实验。"@
}

/// The answer to `abort` when the issue has no experiment.
pub open spec fn nothing_to_abort_text() -> Seq<char> {
    "当前没有与此 Issue 关联的实验可以中止。"@
}

/// The answer to `abort` once the experiment is aborted.
pub open spec fn aborted_text(name: Seq<char>) -> Seq<char> {
    "⏹️ 实验 `"@ + name + "` 已中止。"@
}

pub fn aborted_message(name: &str) -> (r: String)
    ensures
        r@ == aborted_text(name@),
{
    let mut s = String::from_str("⏹️ 实验 `");
    s.append(name);
    s.append("` 已中止。");
    s
}

/// The usage message, for the bot's name and trigger prefix.
pub open spec fn help_text(name: Seq<char>, p: Seq<char>) -> Seq<char> {
    "## "@ + name + " 帮助\n\n### 可用命令\n\n- `"@ + p + " run <toolchain1> <toolchain2>` - 创建并运行实验\n- `"@
        + p + " status` - 查看当前实验状态\n- `"@ + p + " abort` - 中止当前实验\n- `"@ + p
        + " list` - 列出所有实验\n- `"@ + p + " help` - 显示此帮助信息\n\n### 示例\n\n```\n"@ + p
        + " run stable beta\n"@ + p + " run nightly-2024-01-01 stable\n```"@
}

pub fn help_message(name: &str, p: &str) -> (r: String)
    ensures
        r@ == help_text(name@, p@),
{
    let mut s = String::from_str("## ");
    s.append(name);
    s.append(" 帮助\n\n### 可用命令\n\n- `");
    s.append(p);
    s.append(" run <toolchain1> <toolchain2>` - 创建并运行实验\n- `");
    s.append(p);
    s.append(" status` - 查看当前实验状态\n- `");
    s.append(p);
    s.append(" abort` - 中止当前实验\n- `");
    s.append(p);
    s.append(" list` - 列出所有实验\n- `");
    s.append(p);
    s.append(" help` - 显示此帮助信息\n\n### 示例\n\n```\n");
    s.append(p);
    s.append(" run stable beta\n");
    s.append(p);
    s.append(" run nightly-2024-01-01 stable\n```");
    s
}

/// How many experiments the list shows at most.
pub const LIST_LIMIT: usize = 10;

/// One line of the list.
pub open spec fn list_line(e: Experiment) -> Seq<char> {
    "- `"@ + e.name@ + "` - "@ + status_label(e.status) + " ("@ + join_vs(texts(e.toolchains@))
        + ")\n"@
}

/// The lines of the list, one per experiment.
pub open spec fn list_lines(es: Seq<Experiment>) -> Seq<char>
    decreases es.len(),
{
    if es.len() == 0 {
        seq![]
    } else {
        list_lines(es.drop_last()) + list_line(es.last())
    }
}

/// The answer to `list`: the first ten experiments in the order given, and
/// how many more there are.
pub open spec fn list_text(es: Seq<Experiment>) -> Seq<char> {
    if es.len() == 0 {
        "当前没有实验。"@
    } else {
        let shown = if es.len() > LIST_LIMIT { LIST_LIMIT as int } else { es.len() as int };
        "## 实验列表\n\n"@ + list_lines(es.take(shown)) + if es.len() > LIST_LIMIT {
            "\n_...还有 "@ + decimal((es.len() - LIST_LIMIT) as nat) + " 个实验_"@
        } else {
            seq![]
        }
    }
}

pub fn list_message(es: &Vec<Experiment>) -> (r: String)
    ensures
        r@ == list_text(es@),
{
    if es.len() == 0 {
        return String::from_str("当前没有实验。");
    }
    let shown: usize = if es.len() > LIST_LIMIT { LIST_LIMIT } else { es.len() };
    let mut s = String::from_str("## 实验列表\n\n");
    let ghost head = s@;
    let mut i: usize = 0;
    assert(es@.take(0) =~= Seq::<Experiment>::empty());
    assert(s@ =~= head + list_lines(es@.take(0)));
    while i < shown
        invariant
            0 <= i <= shown <= es@.len(),
            s@ == head + list_lines(es@.take(i as int)),
        decreases shown - i,
    {
        let e = &es[i];
        let ghost before = s@;
        s.append("- `");
        s.append(e.name.as_str());
        s.append("` - ");
        s.append(e.status.label());
        s.append(" (");
        push_joined(&mut s, &e.toolchains);
        s.append(")\n");
        assert(es@.take(i + 1).drop_last() =~= es@.take(i as int));
        assert(s@ =~= before + list_line(es@[i as int]));
        i = i + 1;
        assert(s@ =~= head + list_lines(es@.take(i as int)));
    }
    if es.len() > LIST_LIMIT {
        let ghost before = s@;
        s.append("\n_...还有 ");
        push_decimal(&mut s, (es.len() - LIST_LIMIT) as u64);
        s.append(" 个实验_");
        assert(s@ =~= before + ("\n_...还有 "@ + decimal((es@.len() - LIST_LIMIT) as nat) + " 个实验_"@));
    } else {
        assert(s@ =~= s@ + Seq::<char>::empty());
    }
    s
}

} // verus!
