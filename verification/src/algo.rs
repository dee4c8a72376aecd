//! Algorithmic order execution (TWAP/VWAP): the checks of `algo create` and
//! `algo plan` arguments, and how a task's state is shown.
use vstd::prelude::*;
use crate::error::QuantixError;
use crate::text::{str_eq, to_lowercase, unicode_lowercase};

verus! {

/// The states of an algorithmic execution task.
#[derive(Clone, Copy, Debug, PartialEq, Eq)]
pub enum AlgoStatus {
    Pending,
    Running,
    Paused,
    Completed,
    Cancelled,
    Error,
}

/// How a task state is shown.
pub open spec fn algo_status_text(status: AlgoStatus) -> Seq<char> {
    match status {
        AlgoStatus::Pending => "⏳ 等待启动"@,
        AlgoStatus::Running => "🟢 运行中"@,
        AlgoStatus::Paused => "⏸️ 已暂停"@,
        AlgoStatus::Completed => "✅ 已完成"@,
        AlgoStatus::Cancelled => "❌ 已取消"@,
        AlgoStatus::Error => "⚠️ 错误"@,
    }
}

/// The task state as shown to the user.
pub fn format_status(status: AlgoStatus) -> (r: String)
    ensures
        r@ == algo_status_text(status),
{
    match status {
        AlgoStatus::Pending => "⏳ 等待启动".to_string(),
        AlgoStatus::Running => "🟢 运行中".to_string(),
        AlgoStatus::Paused => "⏸️ 已暂停".to_string(),
        AlgoStatus::Completed => "✅ 已完成".to_string(),
        AlgoStatus::Cancelled => "❌ 已取消".to_string(),
        AlgoStatus::Error => "⚠️ 错误".to_string(),
    }
}


/// The execution algorithms offered.
#[derive(Clone, Copy, Debug, PartialEq, Eq)]
pub enum AlgoKind {
    Twap,
    Vwap,
}

/// The algorithm a name selects, compared lower-cased: `twap` or `vwap`.
pub open spec fn algo_kind_spec(name: Seq<char>) -> Option<AlgoKind> {
    if unicode_lowercase(name) == "twap"@ {
        Some(AlgoKind::Twap)
    } else if unicode_lowercase(name) == "vwap"@ {
        Some(AlgoKind::Vwap)
    } else {
        None
    }
}

/// The message refusing an algorithm name.
pub open spec fn algo_kind_message(name: Seq<char>) -> Seq<char> {
    "不支持的算法类型: "@ + name
}

/// The algorithm an `--algo-type` names, in any letter case.
pub fn algo_kind_named(name: &str) -> (r: Option<AlgoKind>)
    ensures
        r == algo_kind_spec(name@),
{
    let lowered = to_lowercase(name);
    if str_eq(lowered.as_str(), "twap") {
        Some(AlgoKind::Twap)
    } else if str_eq(lowered.as_str(), "vwap") {
        Some(AlgoKind::Vwap)
    } else {
        None
    }
}

fn algo_kind_refusal(name: &str) -> (r: String)
    ensures
        r@ == algo_kind_message(name@),
{
    let mut m = "不支持的算法类型: ".to_string();
    m.append(name);
    m
}

/// The arguments of `algo create`: the algorithm first (refused as not
/// supported), then the side, which must be `buy` or `sell`.
pub fn check_algo_create_args(side: &str, algo_type: &str) -> (r: Result<AlgoKind, QuantixError>)
    ensures
        match algo_kind_spec(algo_type@) {
            None => r matches Err(QuantixError::Unsupported(m)) && m@ == algo_kind_message(algo_type@),
            Some(kind) => if side@ == "buy"@ || side@ == "sell"@ {
                r == Ok::<AlgoKind, QuantixError>(kind)
            } else {
                r matches Err(QuantixError::Other(m)) && m@ == "方向必须是 buy 或 sell: "@ + side@
            },
        },
{
    let kind = match algo_kind_named(algo_type) {
        Some(k) => k,
        None => {
            return Err(QuantixError::Unsupported(algo_kind_refusal(algo_type)));
        },
    };
    if !str_eq(side, "buy") && !str_eq(side, "sell") {
        let mut m = "方向必须是 buy 或 sell: ".to_string();
        m.append(side);
        return Err(QuantixError::Other(m));
    }
    Ok(kind)
}

/// How `algo plan` prints the slice plan.
#[derive(Clone, Copy, Debug, PartialEq, Eq)]
pub enum AlgoPlanFormat {
    Table,
    Json,
}

/// The arguments of `algo plan`: the algorithm, then the output format
/// (`table` or `json`, in any letter case).
pub fn check_algo_plan_args(algo_type: &str, output: &str) -> (r: Result<(AlgoKind, AlgoPlanFormat), QuantixError>)
    ensures
        match algo_kind_spec(algo_type@) {
            None => r matches Err(QuantixError::Other(m)) && m@ == algo_kind_message(algo_type@),
            Some(kind) => if unicode_lowercase(output@) == "json"@ {
                r == Ok::<(AlgoKind, AlgoPlanFormat), QuantixError>((kind, AlgoPlanFormat::Json))
            } else if unicode_lowercase(output@) == "table"@ {
                r == Ok::<(AlgoKind, AlgoPlanFormat), QuantixError>((kind, AlgoPlanFormat::Table))
            } else {
                r matches Err(QuantixError::Other(m)) && m@ == "不支持的输出格式: "@ + output@
                    + "，仅支持 table 或 json"@
            },
        },
{
    let kind = match algo_kind_named(algo_type) {
        Some(k) => k,
        None => {
            return Err(QuantixError::Other(algo_kind_refusal(algo_type)));
        },
    };
    let lowered = to_lowercase(output);
    if str_eq(lowered.as_str(), "json") {
        Ok((kind, AlgoPlanFormat::Json))
    } else if str_eq(lowered.as_str(), "table") {
        Ok((kind, AlgoPlanFormat::Table))
    } else {
        let mut m = "不支持的输出格式: ".to_string();
        m.append(output);
        m.append("，仅支持 table 或 json");
        Err(QuantixError::Other(m))
    }
}

/// The side as shown: `买入` for `buy`, `卖出` for anything else.
pub fn algo_side_label(side: &str) -> (r: &'static str)
    ensures
        r@ == (if side@ == "buy"@ {
            "买入"@
        } else {
            "卖出"@
        }),
{
    if str_eq(side, "buy") {
        "买入"
    } else {
        "卖出"
    }
}

} // verus!
