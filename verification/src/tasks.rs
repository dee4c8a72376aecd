//! The experimental task scheduler: which `task` commands are offered, and
//! the preset task templates.
use vstd::prelude::*;
use crate::commands::analysis::TaskCommands;
use crate::error::QuantixError;

verus! {

/// The message refusing `task add`.
pub open spec fn task_add_message() -> Seq<char> {
    "Foundation P0 仅支持预置任务模板；`task add` 暂不开放"@
}

/// The message refusing `task start --daemon`.
pub open spec fn task_daemon_message() -> Seq<char> {
    "Foundation P0 仅支持前台直接执行；`task start --daemon` 暂不支持"@
}

/// Only preset templates run, and only in the foreground: `task add` and
/// `task start --daemon` are refused as unsupported, every other task
/// command is accepted.
pub fn ensure_task_command_supported_for_p0(cmd: &TaskCommands) -> (r: Result<(), QuantixError>)
    ensures
        match cmd {
            TaskCommands::Add { .. } => r matches Err(QuantixError::Unsupported(m)) && m@
                == task_add_message(),
            TaskCommands::Start { daemon } => if *daemon {
                r matches Err(QuantixError::Unsupported(m)) && m@ == task_daemon_message()
            } else {
                r is Ok
            },
            _ => r is Ok,
        },
{
    match cmd {
        TaskCommands::Add { .. } => Err(
            QuantixError::Unsupported("Foundation P0 仅支持预置任务模板；`task add` 暂不开放".to_string()),
        ),
        TaskCommands::Start { daemon } => {
            if *daemon {
                Err(
                    QuantixError::Unsupported(
                        "Foundation P0 仅支持前台直接执行；`task start --daemon` 暂不支持".to_string(),
                    ),
                )
            } else {
                Ok(())
            }
        },
        _ => Ok(()),
    }
}

/// A preset scheduled task: its name, what it does, and its cron expression.
#[derive(Clone, Debug, PartialEq, Eq)]
pub struct TaskTemplate {
    pub name: String,
    pub command: String,
    pub cron_expr: String,
}

/// The preset templates, in order, as (name, description, cron expression).
pub open spec fn preset_templates() -> Seq<(Seq<char>, Seq<char>, Seq<char>)> {
    seq![
        ("pre_market_check"@, "检查盘前数据"@, "0 8 * * 1-5"@),
        ("auction_collection"@, "竞价数据采集"@, "30,0 9 * * 1-5"@),
        ("market_open"@, "开盘检查"@, "30 9 * * 1-5"@),
        ("market_close"@, "收盘检查"@, "0 15 * * 1-5"@),
        ("post_market_process"@, "盘后数据处理"@, "30 15 * * 1-5"@),
        ("data_sync"@, "数据同步"@, "0 16 * * *"@),
    ]
}

fn template(name: &str, command: &str, cron_expr: &str) -> (r: TaskTemplate)
    ensures
        r.name@ == name@,
        r.command@ == command@,
        r.cron_expr@ == cron_expr@,
{
    TaskTemplate { name: name.to_string(), command: command.to_string(), cron_expr: cron_expr.to_string() }
}

/// The preset task templates, in the order the scheduler adds them.
pub fn task_templates() -> (r: Vec<TaskTemplate>)
    ensures
        r@.len() == preset_templates().len(),
        forall|i: int|
            0 <= i < r@.len() ==> (#[trigger] r@[i]).name@ == preset_templates()[i].0 && r@[i].command@
                == preset_templates()[i].1 && r@[i].cron_expr@ == preset_templates()[i].2,
{
    let mut v: Vec<TaskTemplate> = Vec::new();
    v.push(template("pre_market_check", "检查盘前数据", "0 8 * * 1-5"));
    v.push(template("auction_collection", "竞价数据采集", "30,0 9 * * 1-5"));
    v.push(template("market_open", "开盘检查", "30 9 * * 1-5"));
    v.push(template("market_close", "收盘检查", "0 15 * * 1-5"));
    v.push(template("post_market_process", "盘后数据处理", "30 15 * * 1-5"));
    v.push(template("data_sync", "数据同步", "0 16 * * *"));
    v
}

/// The preset templates as (name, description, cron expression), in order.
pub fn foundation_p0_task_template_descriptions() -> (r: Vec<(String, String, String)>)
    ensures
        r@.len() == preset_templates().len(),
        forall|i: int|
            0 <= i < r@.len() ==> (#[trigger] r@[i]).0@ == preset_templates()[i].0 && r@[i].1@
                == preset_templates()[i].1 && r@[i].2@ == preset_templates()[i].2,
{
    let templates = task_templates();
    let mut out: Vec<(String, String, String)> = Vec::new();
    let mut i: usize = 0;
    while i < templates.len()
        invariant
            i <= templates@.len(),
            templates@.len() == preset_templates().len(),
            out@.len() == i,
            forall|k: int|
                0 <= k < templates@.len() ==> (#[trigger] templates@[k]).name@ == preset_templates()[k].0
                    && templates@[k].command@ == preset_templates()[k].1 && templates@[k].cron_expr@
                    == preset_templates()[k].2,
            forall|k: int|
                0 <= k < i ==> (#[trigger] out@[k]).0@ == preset_templates()[k].0 && out@[k].1@
                    == preset_templates()[k].1 && out@[k].2@ == preset_templates()[k].2,
        decreases templates.len() - i,
    {
        let t = &templates[i];
        out.push((t.name.clone(), t.command.clone(), t.cron_expr.clone()));
        i = i + 1;
    }
    out
}

} // verus!
