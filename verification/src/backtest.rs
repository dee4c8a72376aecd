//! Backtests: the checks and parsing of `backtest run` arguments before the
//! engine runs, the bar count it needs, and the menu shortcut.
use vstd::prelude::*;
use crate::commands::backtest::BacktestCommands;
use crate::dates::{chrono_date_parse, date_triple, parse_naive_date, CalendarDate};
use crate::decimal::{decimal_parse, decimal_parts, parse_decimal_text, DecimalValue};
use crate::error::QuantixError;
use crate::text::{dec_text, opt_as_str, opt_str_text, opt_text, path_join, path_join_text, push_u64, str_eq};

verus! {

/// The command behind the menu entry "backtest history": list the saved reports.
pub fn backtest_history_menu_command() -> (r: BacktestCommands)
    ensures
        r == BacktestCommands::List,
{
    BacktestCommands::List
}

/// The message of a date that is not `YYYYMMDD`.
pub open spec fn yyyymmdd_message(err: Seq<char>) -> Seq<char> {
    "日期格式应为 YYYYMMDD: "@ + err
}

/// An optional `YYYYMMDD` date of `backtest run`.
pub fn parse_optional_yyyymmdd(raw: Option<&str>) -> (r: Result<Option<CalendarDate>, QuantixError>)
    ensures
        raw is None ==> r == Ok::<Option<CalendarDate>, QuantixError>(None),
        raw matches Some(v) ==> match chrono_date_parse(v@, "%Y%m%d"@) {
            Ok(ymd) => r matches Ok(Some(d)) && date_triple(d) == ymd,
            Err(e) => r matches Err(QuantixError::Config(m)) && m@ == yyyymmdd_message(e),
        },
{
    match raw {
        None => Ok(None),
        Some(value) => match parse_naive_date(value, "%Y%m%d") {
            Ok(d) => Ok(Some(d)),
            Err(e) => {
                let mut m = "日期格式应为 YYYYMMDD: ".to_string();
                m.append(e.as_str());
                Err(QuantixError::Config(m))
            },
        },
    }
}

/// The message of a backtest argument that is not a decimal.
pub open spec fn decimal_arg_message(name: Seq<char>, err: Seq<char>) -> Seq<char> {
    name + " 不是合法数字: "@ + err
}

/// The decimal argument `name` of `backtest run`.
pub fn parse_decimal_arg(name: &str, raw: &str) -> (r: Result<DecimalValue, QuantixError>)
    ensures
        match decimal_parse(raw@) {
            Ok(p) => r matches Ok(d) && decimal_parts(d) == p && d.wf(),
            Err(e) => r matches Err(QuantixError::Config(m)) && m@ == decimal_arg_message(name@, e),
        },
{
    match parse_decimal_text(raw) {
        Ok(d) => Ok(d),
        Err(e) => {
            let mut m = name.to_string();
            m.append(" 不是合法数字: ");
            m.append(e.as_str());
            Err(QuantixError::Config(m))
        },
    }
}

/// The engine settings of a backtest.
#[derive(Clone, Debug, PartialEq, Eq)]
pub struct BacktestConfig {
    pub initial_capital: DecimalValue,
    pub commission_rate: DecimalValue,
    pub slippage_bps: u32,
    pub max_positions: usize,
    pub max_position_ratio: DecimalValue,
    pub risk_free_rate: DecimalValue,
}

/// The checked arguments of a moving average cross backtest.
#[derive(Clone, Debug, PartialEq, Eq)]
pub struct BacktestRunPlan {
    pub start_date: Option<CalendarDate>,
    pub end_date: Option<CalendarDate>,
    pub config: BacktestConfig,
}

/// The message refusing a strategy other than `ma_cross`.
pub open spec fn strategy_message(strategy: Seq<char>) -> Seq<char> {
    "当前仅支持 ma_cross，收到: "@ + strategy
}

/// The message refusing moving average periods.
pub open spec fn periods_message(short: nat, long: nat) -> Seq<char> {
    "无效均线参数: short="@ + dec_text(short) + ", long="@ + dec_text(long)
}

/// The error of an optional date, if it has one.
pub open spec fn date_error(raw: Option<Seq<char>>) -> Option<Seq<char>> {
    match raw {
        Some(v) => match chrono_date_parse(v, "%Y%m%d"@) {
            Err(e) => Some(yyyymmdd_message(e)),
            Ok(_) => None,
        },
        None => None,
    }
}

/// The error of a decimal argument, if it has one.
pub open spec fn decimal_error(name: Seq<char>, raw: Seq<char>) -> Option<Seq<char>> {
    match decimal_parse(raw) {
        Err(e) => Some(decimal_arg_message(name, e)),
        Ok(_) => None,
    }
}

/// Why `backtest run` refuses its arguments, if it does, checked in this
/// order: the strategy (an `Unsupported` refusal, `true` below), the
/// periods, the start and end dates, then capital, commission rate, maximum
/// position ratio and risk free rate (`Config` refusals, `false`).
pub open spec fn backtest_run_error(
    strategy: Seq<char>,
    start: Option<Seq<char>>,
    end: Option<Seq<char>>,
    capital: Seq<char>,
    commission_rate: Seq<char>,
    short_period: nat,
    long_period: nat,
    max_position_ratio: Seq<char>,
    risk_free_rate: Seq<char>,
) -> Option<(bool, Seq<char>)> {
    if strategy != "ma_cross"@ {
        Some((true, strategy_message(strategy)))
    } else if short_period == 0 || long_period == 0 || short_period >= long_period {
        Some((false, periods_message(short_period, long_period)))
    } else if date_error(start) is Some {
        Some((false, date_error(start)->0))
    } else if date_error(end) is Some {
        Some((false, date_error(end)->0))
    } else if decimal_error("capital"@, capital) is Some {
        Some((false, decimal_error("capital"@, capital)->0))
    } else if decimal_error("commission_rate"@, commission_rate) is Some {
        Some((false, decimal_error("commission_rate"@, commission_rate)->0))
    } else if decimal_error("max_position_ratio"@, max_position_ratio) is Some {
        Some((false, decimal_error("max_position_ratio"@, max_position_ratio)->0))
    } else if decimal_error("risk_free_rate"@, risk_free_rate) is Some {
        Some((false, decimal_error("risk_free_rate"@, risk_free_rate)->0))
    } else {
        None
    }
}

/// The date an accepted optional date argument denotes.
pub open spec fn date_matches(d: Option<CalendarDate>, raw: Option<Seq<char>>) -> bool {
    match raw {
        None => d is None,
        Some(v) => d matches Some(x) && chrono_date_parse(v, "%Y%m%d"@) == Ok::<
            (int, int, int),
            Seq<char>,
        >(date_triple(x)),
    }
}

/// The decimal an accepted decimal argument denotes.
pub open spec fn decimal_matches(d: DecimalValue, raw: Seq<char>) -> bool {
    decimal_parse(raw) == Ok::<(int, int, bool), Seq<char>>(decimal_parts(d)) && d.wf()
}

/// The checked arguments of `backtest run`: only `ma_cross`, a short period
/// below the long one (both positive), `YYYYMMDD` dates and decimal amounts.
pub fn prepare_backtest_run(
    strategy: &str,
    start: &Option<String>,
    end: &Option<String>,
    capital: &str,
    commission_rate: &str,
    slippage_bps: u32,
    short_period: usize,
    long_period: usize,
    max_positions: usize,
    max_position_ratio: &str,
    risk_free_rate: &str,
) -> (r: Result<BacktestRunPlan, QuantixError>)
    ensures
        match backtest_run_error(
            strategy@,
            opt_text(*start),
            opt_text(*end),
            capital@,
            commission_rate@,
            short_period as nat,
            long_period as nat,
            max_position_ratio@,
            risk_free_rate@,
        ) {
            Some((true, msg)) => r matches Err(QuantixError::Unsupported(m)) && m@ == msg,
            Some((false, msg)) => r matches Err(QuantixError::Config(m)) && m@ == msg,
            None => r matches Ok(plan) && {
                &&& date_matches(plan.start_date, opt_text(*start))
                &&& date_matches(plan.end_date, opt_text(*end))
                &&& decimal_matches(plan.config.initial_capital, capital@)
                &&& decimal_matches(plan.config.commission_rate, commission_rate@)
                &&& plan.config.slippage_bps == slippage_bps
                &&& plan.config.max_positions == max_positions
                &&& decimal_matches(plan.config.max_position_ratio, max_position_ratio@)
                &&& decimal_matches(plan.config.risk_free_rate, risk_free_rate@)
            },
        },
{
    if !str_eq(strategy, "ma_cross") {
        let mut m = "当前仅支持 ma_cross，收到: ".to_string();
        m.append(strategy);
        return Err(QuantixError::Unsupported(m));
    }
    if short_period == 0 || long_period == 0 || short_period >= long_period {
        let mut m = "无效均线参数: short=".to_string();
        push_u64(&mut m, short_period as u64);
        m.append(", long=");
        push_u64(&mut m, long_period as u64);
        return Err(QuantixError::Config(m));
    }
    let start_date = parse_optional_yyyymmdd(opt_as_str(start))?;
    let end_date = parse_optional_yyyymmdd(opt_as_str(end))?;
    let initial_capital = parse_decimal_arg("capital", capital)?;
    let commission = parse_decimal_arg("commission_rate", commission_rate)?;
    let ratio = parse_decimal_arg("max_position_ratio", max_position_ratio)?;
    let rfr = parse_decimal_arg("risk_free_rate", risk_free_rate)?;
    Ok(
        BacktestRunPlan {
            start_date,
            end_date,
            config: BacktestConfig {
                initial_capital,
                commission_rate: commission,
                slippage_bps,
                max_positions,
                max_position_ratio: ratio,
                risk_free_rate: rfr,
            },
        },
    )
}

/// The message when fewer bars came back than the long period needs.
pub open spec fn bar_count_message(long_period: nat, count: nat) -> Seq<char> {
    "数据不足，至少需要 "@ + dec_text(long_period) + " 条 K 线，当前 "@ + dec_text(count)
}

/// The backtest has at least as many bars as the long period.
pub fn check_backtest_bar_count(bar_count: usize, long_period: usize) -> (r: Result<
    (),
    QuantixError,
>)
    ensures
        bar_count >= long_period ==> r is Ok,
        bar_count < long_period ==> (r matches Err(QuantixError::Other(m)) && m@
            == bar_count_message(long_period as nat, bar_count as nat)),
{
    if bar_count < long_period {
        let mut m = "数据不足，至少需要 ".to_string();
        push_u64(&mut m, long_period as u64);
        m.append(" 条 K 线，当前 ");
        push_u64(&mut m, bar_count as u64);
        return Err(QuantixError::Other(m));
    }
    Ok(())
}

/// The message when `backtest compare` gets fewer than two reports.
pub open spec fn compare_count_message() -> Seq<char> {
    "backtest compare 至少需要两个 --id"@
}

/// `backtest compare` needs at least two report ids.
pub fn check_backtest_compare_ids(ids: &Vec<String>) -> (r: Result<(), QuantixError>)
    ensures
        ids@.len() >= 2 ==> r is Ok,
        ids@.len() < 2 ==> (r matches Err(QuantixError::Other(m)) && m@ == compare_count_message()),
{
    if ids.len() < 2 {
        return Err(QuantixError::Other("backtest compare 至少需要两个 --id".to_string()));
    }
    Ok(())
}

/// Accepted `backtest run` arguments name `ma_cross` with a positive short
/// period below the long one.
pub proof fn lemma_accepted_backtest_periods(
    strategy: Seq<char>,
    start: Option<Seq<char>>,
    end: Option<Seq<char>>,
    capital: Seq<char>,
    commission_rate: Seq<char>,
    short_period: nat,
    long_period: nat,
    max_position_ratio: Seq<char>,
    risk_free_rate: Seq<char>,
)
    requires
        backtest_run_error(
            strategy,
            start,
            end,
            capital,
            commission_rate,
            short_period,
            long_period,
            max_position_ratio,
            risk_free_rate,
        ) is None,
    ensures
        strategy == "ma_cross"@,
        0 < short_period < long_period,
{
}


/// Where saved backtest reports live: `.quantix/backtest/reports` under the
/// home directory when `HOME` is set, else relative to the working directory.
pub open spec fn reports_dir_text(home: Option<Seq<char>>) -> Seq<char> {
    match home {
        Some(h) => path_join_text(path_join_text(path_join_text(h, ".quantix"@), "backtest"@), "reports"@),
        None => path_join_text(path_join_text(".quantix"@, "backtest"@), "reports"@),
    }
}

/// The directory of saved backtest reports, given the value of `HOME`.
pub fn backtest_reports_dir(home: Option<&str>) -> (r: String)
    ensures
        r@ == reports_dir_text(opt_str_text(home)),
{
    let base = match home {
        Some(h) => path_join(h, ".quantix"),
        None => ".quantix".to_string(),
    };
    let backtest = path_join(base.as_str(), "backtest");
    path_join(backtest.as_str(), "reports")
}

/// The file of the saved report `id`: `<id>.json` in the reports directory.
pub fn backtest_report_path(dir: &str, id: &str) -> (r: String)
    ensures
        r@ == path_join_text(dir@, id@ + ".json"@),
{
    let mut name = id.to_string();
    name.append(".json");
    path_join(dir, name.as_str())
}

} // verus!
