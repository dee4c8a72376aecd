//! Market analysis: board and strong-sector models, argument checks of the
//! `market` commands, and the ranking of strong-sector stocks.
use vstd::prelude::*;
use crate::commands::market::{MarketCommands, StrengthStockMetric};
use crate::dates::{chrono_date_parse, date_triple, market_date_message, parse_market_date, CalendarDate};
use crate::decimal::{DecimalValue, decimal_order, decimal_order_spec, sign};
use crate::error::QuantixError;
use crate::text::{opt_as_str, opt_str_text};

verus! {

/// Industry boards and concept boards.
#[derive(Clone, Copy, Debug, PartialEq, Eq)]
pub enum BoardType {
    Sector,
    Concept,
}

/// One row of a board ranking. The percentage change is held as the text
/// that the report prints for it (two decimals).
#[derive(Clone, Debug, PartialEq, Eq)]
pub struct BoardRankRow {
    pub board_code: String,
    pub board_name: String,
    pub board_type: BoardType,
    pub rank: usize,
    pub change_pct_text: String,
}

/// How many stocks an industry holds.
#[derive(Clone, Debug, PartialEq, Eq)]
pub struct SectorCoverageRow {
    pub industry_name: String,
    pub stock_count: usize,
}

/// Counts over the whole A-share market and its industry classification.
#[derive(Clone, Debug, PartialEq, Eq)]
pub struct MarketFoundationSummary {
    pub total_stocks: usize,
    pub classified_stocks: usize,
    pub unclassified_stocks: usize,
    pub sector_count: usize,
    pub top_sectors: Vec<SectorCoverageRow>,
}

/// A stock of a strong sector. `latest_price_text` is the latest price as the
/// report prints it (two decimals); `change_order_key` orders stocks as
/// their latest percentage change does (a larger key for a larger change).
#[derive(Clone, Debug, PartialEq, Eq)]
pub struct StrongSectorStockRow {
    pub sector_name: String,
    pub code: String,
    pub name: String,
    pub latest_price_text: String,
    pub change_order_key: i64,
    pub market_cap: Option<DecimalValue>,
    pub latest_report_profit: Option<DecimalValue>,
}

/// The strong/weak sector analysis.
#[derive(Clone, Debug, PartialEq, Eq)]
pub struct MarketStrengthReport {
    pub foundation: MarketFoundationSummary,
    pub strong_sectors: Vec<BoardRankRow>,
    pub weak_sectors: Vec<BoardRankRow>,
    pub candidate_stocks: Vec<StrongSectorStockRow>,
    pub top_by_market_cap: Vec<StrongSectorStockRow>,
    pub top_by_profit: Vec<StrongSectorStockRow>,
    pub candidate_stock_count: usize,
    pub market_cap_coverage_count: usize,
    pub profit_coverage_count: usize,
    pub valuation_error_count: usize,
    pub earnings_error_count: usize,
}

/// The ranking of strong-sector stocks by one metric.
#[derive(Clone, Debug, PartialEq, Eq)]
pub struct MarketStrengthStockRankingOutput {
    pub metric: StrengthStockMetric,
    pub strong_top: usize,
    pub sector_filter: Option<String>,
    pub candidate_stock_count: usize,
    pub covered_count: usize,
    pub rows: Vec<StrongSectorStockRow>,
}

/// Which leaders to find: those of one industry, of one concept, or of the whole market.
#[derive(Clone, Debug, PartialEq, Eq)]
pub enum LeaderFilter {
    Sector(String),
    Concept(String),
    All,
}

/// How board rankings are sorted.
#[derive(Clone, Copy, Debug, PartialEq, Eq)]
pub enum BoardSortBy {
    ChangePct,
}

impl StrongSectorStockRow {
    /// Both decimal amounts can be held by `rust_decimal`.
    pub open spec fn wf(self) -> bool {
        &&& (self.market_cap matches Some(d) ==> d.wf())
        &&& (self.latest_report_profit matches Some(d) ==> d.wf())
    }

    /// A copy of the row.
    pub fn duplicate(&self) -> (r: Self)
        ensures
            r == *self,
    {
        StrongSectorStockRow {
            sector_name: self.sector_name.clone(),
            code: self.code.clone(),
            name: self.name.clone(),
            latest_price_text: self.latest_price_text.clone(),
            change_order_key: self.change_order_key,
            market_cap: self.market_cap,
            latest_report_profit: self.latest_report_profit,
        }
    }
}

/// The message of a leader filter that is not exactly one choice.
pub open spec fn leader_filter_message() -> Seq<char> {
    "leader 必须且只能指定 --sector、--concept 或 --all 之一"@
}

/// Turns the three `market leader` options into a filter; exactly one of
/// them must be given.
pub fn build_leader_filter(sector: Option<String>, concept: Option<String>, all: bool) -> (r: Result<
    LeaderFilter,
    QuantixError,
>)
    ensures
        match (sector, concept, all) {
            (Some(name), None, false) => r == Ok::<LeaderFilter, QuantixError>(
                LeaderFilter::Sector(name),
            ),
            (None, Some(name), false) => r == Ok::<LeaderFilter, QuantixError>(
                LeaderFilter::Concept(name),
            ),
            (None, None, true) => r == Ok::<LeaderFilter, QuantixError>(LeaderFilter::All),
            _ => r matches Err(QuantixError::Other(m)) && m@ == leader_filter_message(),
        },
{
    let mut filter_count: usize = 0;
    if sector.is_some() {
        filter_count += 1;
    }
    if concept.is_some() {
        filter_count += 1;
    }
    if all {
        filter_count += 1;
    }
    if filter_count != 1 {
        return Err(QuantixError::Other("leader 必须且只能指定 --sector、--concept 或 --all 之一".to_string()));
    }
    match (sector, concept, all) {
        (Some(name), None, false) => Ok(LeaderFilter::Sector(name)),
        (None, Some(name), false) => Ok(LeaderFilter::Concept(name)),
        (None, None, true) => Ok(LeaderFilter::All),
        _ => Err(QuantixError::Other("leader 必须且只能指定 --sector、--concept 或 --all 之一".to_string())),
    }
}

/// The message refusing a board sort field.
pub open spec fn board_sort_by_message(other: Seq<char>) -> Seq<char> {
    "不支持的 sort_by: "@ + other + "，仅支持 change 或 change_pct"@
}

/// The board sort field: `change` or `change_pct` (the default when none is given).
pub fn parse_board_sort_by(raw: Option<&str>) -> (r: Result<BoardSortBy, QuantixError>)
    ensures
        match raw {
            None => r == Ok::<BoardSortBy, QuantixError>(BoardSortBy::ChangePct),
            Some(v) => if v@ == "change"@ || v@ == "change_pct"@ {
                r == Ok::<BoardSortBy, QuantixError>(BoardSortBy::ChangePct)
            } else {
                r matches Err(QuantixError::Other(m)) && m@ == board_sort_by_message(v@)
            },
        },
{
    match raw {
        None => Ok(BoardSortBy::ChangePct),
        Some(v) => {
            if crate::text::str_eq(v, "change") || crate::text::str_eq(v, "change_pct") {
                Ok(BoardSortBy::ChangePct)
            } else {
                let mut m = "不支持的 sort_by: ".to_string();
                m.append(v);
                m.append("，仅支持 change 或 change_pct");
                Err(QuantixError::Other(m))
            }
        },
    }
}

/// The message when a command needs the runtime risk state path.
pub open spec fn risk_path_message() -> Seq<char> {
    "当前 market 命令需要运行时 risk_path 上下文"@
}

/// The risk state path, which the strength commands need.
pub fn require_risk_state_path(risk_state_path: Option<&str>) -> (r: Result<&str, QuantixError>)
    ensures
        match risk_state_path {
            Some(p) => r == Ok::<&str, QuantixError>(p),
            None => r matches Err(QuantixError::Other(m)) && m@ == risk_path_message(),
        },
{
    match risk_state_path {
        Some(p) => Ok(p),
        None => Err(QuantixError::Other("当前 market 命令需要运行时 risk_path 上下文".to_string())),
    }
}

/// Lexicographic order of two texts by code point: -1, 0 or 1 (the order of
/// `String` comparison, since UTF-8 keeps the code point order).
pub open spec fn lex_order(a: Seq<char>, b: Seq<char>) -> int
    decreases a.len(),
{
    if a.len() == 0 {
        if b.len() == 0 {
            0
        } else {
            -1
        }
    } else if b.len() == 0 {
        1
    } else if a[0] < b[0] {
        -1
    } else if a[0] > b[0] {
        1
    } else {
        lex_order(a.drop_first(), b.drop_first())
    }
}

/// The amount a metric ranks by.
pub open spec fn metric_amount(row: StrongSectorStockRow, metric: StrengthStockMetric) -> Option<
    DecimalValue,
> {
    match metric {
        StrengthStockMetric::MarketCap => row.market_cap,
        StrengthStockMetric::Profit => row.latest_report_profit,
    }
}

/// Larger amounts first, missing amounts last.
pub open spec fn optional_amount_desc(a: Option<DecimalValue>, b: Option<DecimalValue>) -> int {
    match (a, b) {
        (Some(x), Some(y)) => decimal_order_spec(y, x),
        (Some(_), None) => -1,
        (None, Some(_)) => 1,
        (None, None) => 0,
    }
}

/// The ranking order of two rows: -1 when `l` ranks before `r`, 1 when after,
/// 0 when tied. By the metric (larger first, missing last), then by the
/// percentage change (larger first), then by code.
pub open spec fn row_rank_order(
    l: StrongSectorStockRow,
    r: StrongSectorStockRow,
    metric: StrengthStockMetric,
) -> int {
    let m = optional_amount_desc(metric_amount(l, metric), metric_amount(r, metric));
    if m != 0 {
        m
    } else {
        let c = sign(r.change_order_key - l.change_order_key);
        if c != 0 {
            c
        } else {
            lex_order(l.code@, r.code@)
        }
    }
}

/// The row has the amount that `metric` ranks by.
pub open spec fn has_metric(row: StrongSectorStockRow, metric: StrengthStockMetric) -> bool {
    metric_amount(row, metric) is Some
}

/// Whether the row has the amount that `metric` ranks by.
pub fn has_metric_value(row: &StrongSectorStockRow, metric: StrengthStockMetric) -> (r: bool)
    ensures
        r == has_metric(*row, metric),
{
    match metric {
        StrengthStockMetric::MarketCap => row.market_cap.is_some(),
        StrengthStockMetric::Profit => row.latest_report_profit.is_some(),
    }
}

/// Swapping two texts negates their order, and texts of order 0 are equal.
pub proof fn lemma_lex_antisym(a: Seq<char>, b: Seq<char>)
    ensures
        lex_order(a, b) == -lex_order(b, a),
        lex_order(a, b) == 0 ==> a == b,
    decreases a.len(),
{
    if a.len() > 0 && b.len() > 0 && a[0] == b[0] {
        lemma_lex_antisym(a.drop_first(), b.drop_first());
        if lex_order(a, b) == 0 {
            assert(a =~= seq![a[0]] + a.drop_first());
            assert(b =~= seq![b[0]] + b.drop_first());
        }
    }
    if a.len() == 0 && b.len() == 0 {
        assert(a =~= b);
    }
}

/// The text order is transitive.
pub proof fn lemma_lex_trans(a: Seq<char>, b: Seq<char>, c: Seq<char>)
    requires
        lex_order(a, b) <= 0,
        lex_order(b, c) <= 0,
    ensures
        lex_order(a, c) <= 0,
    decreases a.len(),
{
    if a.len() > 0 && b.len() > 0 && c.len() > 0 && a[0] == b[0] && b[0] == c[0] {
        lemma_lex_trans(a.drop_first(), b.drop_first(), c.drop_first());
    }
}

proof fn lemma_rank_antisym(l: StrongSectorStockRow, r: StrongSectorStockRow, metric: StrengthStockMetric)
    ensures
        row_rank_order(l, r, metric) == -row_rank_order(r, l, metric),
        -1 <= row_rank_order(l, r, metric) <= 1,
{
    lemma_lex_antisym(l.code@, r.code@);
    lemma_lex_range(l.code@, r.code@);
}

/// The text order is -1, 0 or 1.
pub proof fn lemma_lex_range(a: Seq<char>, b: Seq<char>)
    ensures
        -1 <= lex_order(a, b) <= 1,
    decreases a.len(),
{
    if a.len() > 0 && b.len() > 0 {
        lemma_lex_range(a.drop_first(), b.drop_first());
    }
}

proof fn lemma_rank_trans(
    a: StrongSectorStockRow,
    b: StrongSectorStockRow,
    c: StrongSectorStockRow,
    metric: StrengthStockMetric,
)
    requires
        row_rank_order(a, b, metric) <= 0,
        row_rank_order(b, c, metric) <= 0,
    ensures
        row_rank_order(a, c, metric) <= 0,
{
    let ma = metric_amount(a, metric);
    let mb = metric_amount(b, metric);
    let mc = metric_amount(c, metric);
    if optional_amount_desc(ma, mb) == 0 && optional_amount_desc(mb, mc) == 0 && sign(
        b.change_order_key - a.change_order_key,
    ) == 0 && sign(c.change_order_key - b.change_order_key) == 0 {
        lemma_lex_trans(a.code@, b.code@, c.code@);
    }
}

/// Strict after non-strict is strict.
proof fn lemma_rank_trans_strict(
    a: StrongSectorStockRow,
    b: StrongSectorStockRow,
    c: StrongSectorStockRow,
    metric: StrengthStockMetric,
)
    requires
        row_rank_order(a, b, metric) < 0,
        row_rank_order(b, c, metric) <= 0,
    ensures
        row_rank_order(a, c, metric) < 0,
{
    lemma_rank_antisym(a, b, metric);
    lemma_rank_antisym(a, c, metric);
    lemma_rank_antisym(b, c, metric);
    if row_rank_order(a, c, metric) >= 0 {
        // then c ranks no later than a, so b ranks no later than a
        lemma_rank_trans(b, c, a, metric);
    }
}

/// Lexicographic order of two texts: -1, 0 or 1.
pub fn text_order(a: &str, b: &str) -> (r: i8)
    ensures
        r == lex_order(a@, b@),
{
    let x = crate::text::chars_of(a);
    let y = crate::text::chars_of(b);
    let mut i: usize = 0;
    proof {
        assert(a@.subrange(0, a@.len() as int) =~= a@);
        assert(b@.subrange(0, b@.len() as int) =~= b@);
    }
    while i < x.len() && i < y.len() && x[i] == y[i]
        invariant
            i <= x.len(),
            i <= y.len(),
            x@ == a@,
            y@ == b@,
            lex_order(a@, b@) == lex_order(a@.subrange(i as int, a@.len() as int), b@.subrange(i as int, b@.len() as int)),
        decreases x.len() - i,
    {
        proof {
            let sa = a@.subrange(i as int, a@.len() as int);
            let sb = b@.subrange(i as int, b@.len() as int);
            assert(sa.drop_first() =~= a@.subrange(i + 1, a@.len() as int));
            assert(sb.drop_first() =~= b@.subrange(i + 1, b@.len() as int));
        }
        i = i + 1;
    }
    proof {
        let sa = a@.subrange(i as int, a@.len() as int);
        let sb = b@.subrange(i as int, b@.len() as int);
        if i < x.len() && i < y.len() {
            assert(sa[0] == x@[i as int]);
            assert(sb[0] == y@[i as int]);
        }
    }
    if i == x.len() {
        if i == y.len() {
            0
        } else {
            -1
        }
    } else if i == y.len() {
        1
    } else if x[i] < y[i] {
        -1
    } else {
        1
    }
}

/// The ranking order of two rows (see `row_rank_order`): -1, 0 or 1.
pub fn compare_metric_rows_desc(
    left: &StrongSectorStockRow,
    right: &StrongSectorStockRow,
    metric: StrengthStockMetric,
) -> (r: i8)
    requires
        left.wf(),
        right.wf(),
    ensures
        r == row_rank_order(*left, *right, metric),
{
    let (la, ra) = match metric {
        StrengthStockMetric::MarketCap => (left.market_cap, right.market_cap),
        StrengthStockMetric::Profit => (left.latest_report_profit, right.latest_report_profit),
    };
    let m: i8 = match (la, ra) {
        (Some(x), Some(y)) => decimal_order(&y, &x),
        (Some(_), None) => -1,
        (None, Some(_)) => 1,
        (None, None) => 0,
    };
    if m != 0 {
        return m;
    }
    if right.change_order_key < left.change_order_key {
        -1
    } else if right.change_order_key > left.change_order_key {
        1
    } else {
        text_order(left.code.as_str(), right.code.as_str())
    }
}

/// `out` is `src` sorted by the ranking order, stably: `p` tells where each
/// row of `out` stands in `src`.
pub open spec fn stable_sort_witness(
    out: Seq<StrongSectorStockRow>,
    src: Seq<StrongSectorStockRow>,
    metric: StrengthStockMetric,
    p: Seq<int>,
) -> bool {
    &&& p.len() == out.len()
    &&& out.len() == src.len()
    &&& forall|i: int| 0 <= i < out.len() ==> 0 <= #[trigger] p[i] < src.len() && out[i] == src[p[i]]
    &&& forall|i: int, j: int| 0 <= i < j < out.len() ==> #[trigger] p[i] != #[trigger] p[j]
    &&& forall|i: int, j: int|
        0 <= i < j < out.len() ==> row_rank_order(#[trigger] out[i], #[trigger] out[j], metric) <= 0
    &&& forall|i: int, j: int|
        0 <= i < j < out.len() && row_rank_order(#[trigger] out[i], #[trigger] out[j], metric) == 0
            ==> p[i] < p[j]
}

/// `out` holds the rows of `src` in ranking order, rows that tie keeping their order in `src`.
pub open spec fn is_stable_ranking_of(
    out: Seq<StrongSectorStockRow>,
    src: Seq<StrongSectorStockRow>,
    metric: StrengthStockMetric,
) -> bool {
    exists|p: Seq<int>| stable_sort_witness(out, src, metric, p)
}

/// Every row's amounts can be held by `rust_decimal`.
pub open spec fn rows_wf(rows: Seq<StrongSectorStockRow>) -> bool {
    forall|i: int| 0 <= i < rows.len() ==> (#[trigger] rows[i]).wf()
}

fn decimal_fits(d: &Option<DecimalValue>) -> (r: bool)
    ensures
        r == (d matches Some(x) ==> x.wf()),
{
    match d {
        Some(x) => x.fits(),
        None => true,
    }
}

/// Whether every amount of the rows can be held by `rust_decimal`, which
/// the ranking asks of its rows.
pub fn rows_fit(rows: &Vec<StrongSectorStockRow>) -> (r: bool)
    ensures
        r == rows_wf(rows@),
{
    let mut i: usize = 0;
    while i < rows.len()
        invariant
            i <= rows.len(),
            forall|k: int| 0 <= k < i ==> (#[trigger] rows@[k]).wf(),
        decreases rows.len() - i,
    {
        if !(decimal_fits(&rows[i].market_cap) && decimal_fits(&rows[i].latest_report_profit)) {
            return false;
        }
        i = i + 1;
    }
    true
}

/// The rows sorted by the ranking order; rows that tie keep their order.
pub fn sort_rows_by_rank(rows: &Vec<StrongSectorStockRow>, metric: StrengthStockMetric) -> (r: Vec<
    StrongSectorStockRow,
>)
    requires
        rows_wf(rows@),
    ensures
        is_stable_ranking_of(r@, rows@, metric),
{
    let mut out: Vec<StrongSectorStockRow> = Vec::new();
    let ghost mut p: Seq<int> = Seq::empty();
    let mut k: usize = 0;
    while k < rows.len()
        invariant
            k <= rows.len(),
            rows_wf(rows@),
            rows_wf(out@),
            p.len() == out@.len(),
            out@.len() == k,
            forall|i: int| 0 <= i < out@.len() ==> 0 <= #[trigger] p[i] < k && out@[i] == rows@[p[i]],
            forall|i: int, j: int| 0 <= i < j < out@.len() ==> #[trigger] p[i] != #[trigger] p[j],
            forall|i: int, j: int|
                0 <= i < j < out@.len() ==> row_rank_order(
                    #[trigger] out@[i],
                    #[trigger] out@[j],
                    metric,
                ) <= 0,
            forall|i: int, j: int|
                0 <= i < j < out@.len() && row_rank_order(
                    #[trigger] out@[i],
                    #[trigger] out@[j],
                    metric,
                ) == 0 ==> p[i] < p[j],
        decreases rows.len() - k,
    {
        let x = rows[k].duplicate();
        assert(x.wf());
        let mut pos: usize = 0;
        while pos < out.len() && compare_metric_rows_desc(&out[pos], &x, metric) <= 0
            invariant
                pos <= out@.len(),
                x.wf(),
                rows_wf(rows@),
                rows_wf(out@),
                forall|i: int| 0 <= i < out@.len() ==> 0 <= #[trigger] p[i] < k && out@[i] == rows@[p[i]],
                forall|i: int| 0 <= i < pos ==> row_rank_order(#[trigger] out@[i], x, metric) <= 0,
            decreases out@.len() - pos,
        {
            pos = pos + 1;
        }
        let ghost old_out = out@;
        let ghost old_p = p;
        out.insert(pos, x);
        proof {
            p = old_p.insert(pos as int, k as int);
            assert forall|i: int| 0 <= i < out@.len() implies (#[trigger] out@[i]).wf() by {
                if i > pos {
                    assert(out@[i] == old_out[i - 1]);
                }
            }
            assert forall|i: int| 0 <= i < out@.len() implies 0 <= #[trigger] p[i] < k + 1 && out@[i]
                == rows@[p[i]] by {
                if i < pos {
                } else if i == pos {
                } else {
                    assert(out@[i] == old_out[i - 1]);
                    assert(p[i] == old_p[i - 1]);
                }
            }
            assert forall|i: int, j: int| 0 <= i < j < out@.len() implies #[trigger] p[i]
                != #[trigger] p[j] by {
                if i < pos && j < pos {
                } else if i < pos && j == pos {
                } else if i < pos && j > pos {
                    assert(p[j] == old_p[j - 1]);
                } else if i == pos {
                    assert(p[j] == old_p[j - 1]);
                } else {
                    assert(p[i] == old_p[i - 1]);
                    assert(p[j] == old_p[j - 1]);
                }
            }
            assert forall|i: int, j: int| 0 <= i < j < out@.len() implies row_rank_order(
                #[trigger] out@[i],
                #[trigger] out@[j],
                metric,
            ) <= 0 && (row_rank_order(out@[i], out@[j], metric) == 0 ==> p[i] < p[j]) by {
                if j < pos {
                } else if j == pos {
                    assert(out@[i] == old_out[i]);
                    assert(out@[j] == x);
                } else if i == pos {
                    // x ranks strictly before the row that stood at pos
                    assert(out@[j] == old_out[j - 1]);
                    lemma_rank_antisym(old_out[pos as int], x, metric);
                    if j - 1 > pos {
                        lemma_rank_trans_strict(x, old_out[pos as int], old_out[j - 1], metric);
                    }
                } else if i < pos {
                    assert(out@[i] == old_out[i]);
                    assert(out@[j] == old_out[j - 1]);
                    assert(p[j] == old_p[j - 1]);
                } else {
                    assert(out@[i] == old_out[i - 1]);
                    assert(out@[j] == old_out[j - 1]);
                    assert(p[i] == old_p[i - 1]);
                    assert(p[j] == old_p[j - 1]);
                }
            }
        }
        k = k + 1;
    }
    assert(stable_sort_witness(out@, rows@, metric, p));
    out
}

/// The rows of `rows` in the given sector, in order.
pub open spec fn rows_in_sector(rows: Seq<StrongSectorStockRow>, sector: Seq<char>) -> Seq<
    StrongSectorStockRow,
> {
    rows.filter(|row: StrongSectorStockRow| row.sector_name@ == sector)
}

/// The rows of `rows` that have the metric's amount, in order.
pub open spec fn rows_with_metric(rows: Seq<StrongSectorStockRow>, metric: StrengthStockMetric) -> Seq<
    StrongSectorStockRow,
> {
    rows.filter(|row: StrongSectorStockRow| has_metric(row, metric))
}

/// The rows of the given sector.
fn filter_sector(rows: &Vec<StrongSectorStockRow>, sector: &str) -> (r: Vec<StrongSectorStockRow>)
    ensures
        r@ == rows_in_sector(rows@, sector@),
{
    let ghost pred = |row: StrongSectorStockRow| row.sector_name@ == sector@;
    let mut out: Vec<StrongSectorStockRow> = Vec::new();
    let mut i: usize = 0;
    while i < rows.len()
        invariant
            i <= rows.len(),
            pred == (|row: StrongSectorStockRow| row.sector_name@ == sector@),
            out@ == rows@.take(i as int).filter(pred),
        decreases rows.len() - i,
    {
        proof {
            reveal_with_fuel(Seq::<StrongSectorStockRow>::filter, 1);
            assert(rows@.take(i + 1).drop_last() =~= rows@.take(i as int));
        }
        if crate::text::str_eq(rows[i].sector_name.as_str(), sector) {
            out.push(rows[i].duplicate());
        }
        i = i + 1;
    }
    assert(rows@.take(rows.len() as int) =~= rows@);
    out
}

/// The rows that have the metric's amount.
fn filter_metric(rows: &Vec<StrongSectorStockRow>, metric: StrengthStockMetric) -> (r: Vec<
    StrongSectorStockRow,
>)
    ensures
        r@ == rows_with_metric(rows@, metric),
{
    let ghost pred = |row: StrongSectorStockRow| has_metric(row, metric);
    let mut out: Vec<StrongSectorStockRow> = Vec::new();
    let mut i: usize = 0;
    while i < rows.len()
        invariant
            i <= rows.len(),
            pred == (|row: StrongSectorStockRow| has_metric(row, metric)),
            out@ == rows@.take(i as int).filter(pred),
        decreases rows.len() - i,
    {
        proof {
            reveal_with_fuel(Seq::<StrongSectorStockRow>::filter, 1);
            assert(rows@.take(i + 1).drop_last() =~= rows@.take(i as int));
        }
        if has_metric_value(&rows[i], metric) {
            out.push(rows[i].duplicate());
        }
        i = i + 1;
    }
    assert(rows@.take(rows.len() as int) =~= rows@);
    out
}

proof fn lemma_filter_keeps_wf(rows: Seq<StrongSectorStockRow>, pred: spec_fn(StrongSectorStockRow) -> bool)
    requires
        rows_wf(rows),
    ensures
        rows_wf(rows.filter(pred)),
    decreases rows.len(),
{
    reveal_with_fuel(Seq::<StrongSectorStockRow>::filter, 1);
    if rows.len() > 0 {
        assert forall|i: int| 0 <= i < rows.drop_last().len() implies (#[trigger] rows.drop_last()[i]).wf() by {
            assert(rows.drop_last()[i] == rows[i]);
        }
        lemma_filter_keeps_wf(rows.drop_last(), pred);
        assert(rows.last().wf());
    }
}

/// The number of rows a ranking keeps: `top`, and at least one.
pub open spec fn ranking_limit(top: usize) -> nat {
    if top == 0 {
        1
    } else {
        top as nat
    }
}

/// What `build_market_strength_stock_ranking_output` returns. With a sector
/// filter: the candidates of that sector are counted, those with the metric's
/// amount are counted as covered, and the first `max(top, 1)` of those in
/// ranking order are the rows. Without a filter, the report's own top list
/// and coverage count for the metric are taken over.
pub open spec fn ranking_output_matches(
    out: MarketStrengthStockRankingOutput,
    report: MarketStrengthReport,
    metric: StrengthStockMetric,
    strong_top: usize,
    sector_filter: Option<String>,
    top: usize,
) -> bool {
    &&& out.metric == metric
    &&& out.strong_top == strong_top
    &&& out.sector_filter == sector_filter
    &&& match sector_filter {
        Some(name) => {
            let candidates = rows_in_sector(report.candidate_stocks@, name@);
            let covered = rows_with_metric(candidates, metric);
            &&& out.candidate_stock_count == candidates.len()
            &&& out.covered_count == covered.len()
            &&& exists|sorted: Seq<StrongSectorStockRow>|
                is_stable_ranking_of(sorted, covered, metric) && out.rows@ == sorted.take(
                    if covered.len() < ranking_limit(top) {
                        covered.len() as int
                    } else {
                        ranking_limit(top) as int
                    },
                )
        },
        None => {
            &&& out.candidate_stock_count == report.candidate_stock_count
            &&& match metric {
                StrengthStockMetric::MarketCap => {
                    &&& out.rows@ == report.top_by_market_cap@
                    &&& out.covered_count == report.market_cap_coverage_count
                },
                StrengthStockMetric::Profit => {
                    &&& out.rows@ == report.top_by_profit@
                    &&& out.covered_count == report.profit_coverage_count
                },
            }
        },
    }
}

/// Ranks the stocks of the strong sectors by `metric`, within one sector when
/// `sector_filter` names it.
pub fn build_market_strength_stock_ranking_output(
    report: MarketStrengthReport,
    metric: StrengthStockMetric,
    strong_top: usize,
    sector_filter: Option<String>,
    top: usize,
) -> (r: MarketStrengthStockRankingOutput)
    requires
        rows_wf(report.candidate_stocks@),
    ensures
        ranking_output_matches(r, report, metric, strong_top, sector_filter, top),
{
    let limit: usize = if top == 0 {
        1
    } else {
        top
    };
    let ghost old_report = report;
    match sector_filter {
        Some(name) => {
            let candidates = filter_sector(&report.candidate_stocks, name.as_str());
            let covered = filter_metric(&candidates, metric);
            proof {
                lemma_filter_keeps_wf(
                    report.candidate_stocks@,
                    |row: StrongSectorStockRow| row.sector_name@ == name@,
                );
                lemma_filter_keeps_wf(candidates@, |row: StrongSectorStockRow| has_metric(row, metric));
            }
            let covered_count = covered.len();
            let mut rows = sort_rows_by_rank(&covered, metric);
            let ghost sorted = rows@;
            rows.truncate(limit);
            let out = MarketStrengthStockRankingOutput {
                metric,
                strong_top,
                sector_filter: Some(name),
                candidate_stock_count: candidates.len(),
                covered_count,
                rows,
            };
            assert(out.rows@ == sorted.take(
                if covered@.len() < ranking_limit(top) {
                    covered@.len() as int
                } else {
                    ranking_limit(top) as int
                },
            ));
            out
        },
        None => {
            let (rows, covered_count) = match metric {
                StrengthStockMetric::MarketCap => (
                    report.top_by_market_cap,
                    report.market_cap_coverage_count,
                ),
                StrengthStockMetric::Profit => (report.top_by_profit, report.profit_coverage_count),
            };
            MarketStrengthStockRankingOutput {
                metric,
                strong_top,
                sector_filter: None,
                candidate_stock_count: report.candidate_stock_count,
                covered_count,
                rows,
            }
        },
    }
}


/// The market data request a `market` command makes once its arguments are
/// read, with the parsed date, filter and sort field.
#[derive(Clone, Debug, PartialEq, Eq)]
pub enum MarketRequest {
    /// The analysis foundation, read from the risk state.
    Foundation { risk_path: String },
    /// Board rankings of one board type.
    BoardRankings { board: BoardType, date: Option<CalendarDate>, top: Option<usize>, sort_by: BoardSortBy },
    /// The northbound flow of a day.
    NorthFlow { date: Option<CalendarDate> },
    /// The market sentiment of a day.
    Sentiment { date: Option<CalendarDate> },
    /// The leading stocks under a filter.
    Leaders { filter: LeaderFilter, limit: Option<usize>, date: Option<CalendarDate> },
    /// The market overview.
    Overview { date: Option<CalendarDate>, top: Option<usize> },
    /// The strength analysis, shown as a report.
    Strength {
        date: Option<CalendarDate>,
        risk_path: String,
        strong_top: usize,
        weak_top: usize,
        stock_top: usize,
    },
    /// The strength analysis, shown as a stock ranking by `metric`, of one
    /// sector when `sector` is given.
    StrengthStocks {
        date: Option<CalendarDate>,
        risk_path: String,
        strong_top: usize,
        weak_top: usize,
        stock_top: usize,
        sector: Option<String>,
        metric: StrengthStockMetric,
        top: usize,
    },
}

/// The date option read: absent, or the date the parser reads from it.
pub open spec fn market_date_is(raw: Option<String>, d: Option<CalendarDate>) -> bool {
    match raw {
        None => d is None,
        Some(v) => chrono_date_parse(v@, "%Y-%m-%d"@) matches Ok(ymd) && d matches Some(x)
            && date_triple(x) == ymd,
    }
}

/// The date option is given and is not a `YYYY-MM-DD` date.
pub open spec fn market_date_fails(raw: Option<String>) -> bool {
    raw matches Some(v) && chrono_date_parse(v@, "%Y-%m-%d"@) is Err
}

/// The error refusing the date option.
pub open spec fn market_date_error(raw: Option<String>, e: QuantixError) -> bool {
    raw matches Some(v) && e matches QuantixError::Other(m) && m@ == market_date_message(v@)
}

/// The sort option is given and is neither `change` nor `change_pct`.
pub open spec fn board_sort_fails(raw: Option<String>) -> bool {
    raw matches Some(v) && !(v@ == "change"@ || v@ == "change_pct"@)
}

/// Exactly one of `--sector`, `--concept` and `--all` is given.
pub open spec fn leader_choice_valid(sector: Option<String>, concept: Option<String>, all: bool) -> bool {
    ||| (sector is Some && concept is None && !all)
    ||| (sector is None && concept is Some && !all)
    ||| (sector is None && concept is None && all)
}

/// The filter the leader options choose.
pub open spec fn leader_choice(sector: Option<String>, concept: Option<String>) -> LeaderFilter {
    match (sector, concept) {
        (Some(name), _) => LeaderFilter::Sector(name),
        (None, Some(name)) => LeaderFilter::Concept(name),
        (None, None) => LeaderFilter::All,
    }
}

/// A refusal with this message.
pub open spec fn other_error(r: Result<MarketRequest, QuantixError>, message: Seq<char>) -> bool {
    r matches Err(QuantixError::Other(m)) && m@ == message
}

/// The outcome of a strength command, checked in order: the
/// date first, then the risk state path.
pub open spec fn strength_checks(
    date: Option<String>,
    risk_path: Option<&str>,
    r: Result<MarketRequest, QuantixError>,
) -> bool {
    if market_date_fails(date) {
        r matches Err(e) && market_date_error(date, e)
    } else if risk_path is None {
        other_error(r, risk_path_message())
    } else {
        r is Ok
    }
}

/// What `market_request` gives for each command.
pub open spec fn market_request_spec(
    cmd: MarketCommands,
    risk_path: Option<&str>,
    r: Result<MarketRequest, QuantixError>,
) -> bool {
    match cmd {
        MarketCommands::Foundation => match risk_path {
            Some(p) => r matches Ok(MarketRequest::Foundation { risk_path }) && risk_path@ == p@,
            None => other_error(r, risk_path_message()),
        },
        MarketCommands::Sector { top, date, sort_by } | MarketCommands::Concept { top, date, sort_by } => {
            if market_date_fails(date) {
                r matches Err(e) && market_date_error(date, e)
            } else if board_sort_fails(sort_by) {
                other_error(r, board_sort_by_message(sort_by->Some_0@))
            } else {
                r matches Ok(MarketRequest::BoardRankings { board, date: d, top: t, sort_by: s })
                    && board == (if cmd is Sector {
                    BoardType::Sector
                } else {
                    BoardType::Concept
                }) && market_date_is(date, d) && t == top && s == BoardSortBy::ChangePct
            }
        },
        MarketCommands::North { date } => if market_date_fails(date) {
            r matches Err(e) && market_date_error(date, e)
        } else {
            r matches Ok(MarketRequest::NorthFlow { date: d }) && market_date_is(date, d)
        },
        MarketCommands::Sentiment { date } => if market_date_fails(date) {
            r matches Err(e) && market_date_error(date, e)
        } else {
            r matches Ok(MarketRequest::Sentiment { date: d }) && market_date_is(date, d)
        },
        MarketCommands::Leader { sector, concept, all, limit, date } => if !leader_choice_valid(
            sector,
            concept,
            all,
        ) {
            other_error(r, leader_filter_message())
        } else if market_date_fails(date) {
            r matches Err(e) && market_date_error(date, e)
        } else {
            r matches Ok(MarketRequest::Leaders { filter, limit: l, date: d }) && filter
                == leader_choice(sector, concept) && l == limit && market_date_is(date, d)
        },
        MarketCommands::Overview { top, date } => if market_date_fails(date) {
            r matches Err(e) && market_date_error(date, e)
        } else {
            r matches Ok(MarketRequest::Overview { date: d, top: t }) && market_date_is(date, d) && t
                == top
        },
        MarketCommands::Strength { date, strong_top, weak_top, stock_top } => strength_checks(
            date,
            risk_path,
            r,
        ) && (r matches Ok(req) ==> (req matches MarketRequest::Strength {
            date: d,
            risk_path: p,
            strong_top: s,
            weak_top: w,
            stock_top: k,
        } && market_date_is(date, d) && opt_str_text(risk_path) == Some(p@) && s == strong_top && w
            == weak_top && k == stock_top)),
        MarketCommands::StrengthStocks { date, strong_top, sector, metric, top } => strength_checks(
            date,
            risk_path,
            r,
        ) && (r matches Ok(req) ==> (req matches MarketRequest::StrengthStocks {
            date: d,
            risk_path: p,
            strong_top: s,
            weak_top: w,
            stock_top: k,
            sector: f,
            metric: m,
            top: t,
        } && market_date_is(date, d) && opt_str_text(risk_path) == Some(p@) && s == strong_top && w
            == 1 && k == top && f == sector && m == metric && t == top)),
    }
}

fn copy_opt_text(o: &Option<String>) -> (r: Option<String>)
    ensures
        r == *o,
{
    match o {
        Some(t) => Some(t.clone()),
        None => None,
    }
}

fn read_market_date(raw: &Option<String>) -> (r: Result<Option<CalendarDate>, QuantixError>)
    ensures
        market_date_fails(*raw) ==> (r matches Err(e) && market_date_error(*raw, e)),
        !market_date_fails(*raw) ==> (r matches Ok(d) && market_date_is(*raw, d)),
{
    let r = parse_market_date(opt_as_str(raw));
    proof {
        if let Ok(Some(x)) = r {
            assert(date_triple(x) == (x.year as int, x.month as int, x.day as int));
        }
    }
    r
}

/// The request a `market` command makes, with its arguments checked in the
/// order the command checks them; the strength commands and the foundation
/// need the risk state path of the runtime.
pub fn market_request(cmd: &MarketCommands, risk_path: Option<&str>) -> (r: Result<MarketRequest, QuantixError>)
    ensures
        market_request_spec(*cmd, risk_path, r),
{
    match cmd {
        MarketCommands::Foundation => {
            let p = require_risk_state_path(risk_path)?;
            Ok(MarketRequest::Foundation { risk_path: p.to_string() })
        },
        MarketCommands::Sector { top, date, sort_by } | MarketCommands::Concept { top, date, sort_by } => {
            let board = if matches!(cmd, MarketCommands::Sector { .. }) {
                BoardType::Sector
            } else {
                BoardType::Concept
            };
            let d = read_market_date(date)?;
            let s = parse_board_sort_by(opt_as_str(sort_by))?;
            Ok(MarketRequest::BoardRankings { board, date: d, top: *top, sort_by: s })
        },
        MarketCommands::North { date } => {
            let d = read_market_date(date)?;
            Ok(MarketRequest::NorthFlow { date: d })
        },
        MarketCommands::Sentiment { date } => {
            let d = read_market_date(date)?;
            Ok(MarketRequest::Sentiment { date: d })
        },
        MarketCommands::Leader { sector, concept, all, limit, date } => {
            let filter = build_leader_filter(sector.clone(), concept.clone(), *all)?;
            let d = read_market_date(date)?;
            Ok(MarketRequest::Leaders { filter, limit: *limit, date: d })
        },
        MarketCommands::Overview { top, date } => {
            let d = read_market_date(date)?;
            Ok(MarketRequest::Overview { date: d, top: *top })
        },
        MarketCommands::Strength { date, strong_top, weak_top, stock_top } => {
            let d = read_market_date(date)?;
            let p = require_risk_state_path(risk_path)?;
            Ok(
                MarketRequest::Strength {
                    date: d,
                    risk_path: p.to_string(),
                    strong_top: *strong_top,
                    weak_top: *weak_top,
                    stock_top: *stock_top,
                },
            )
        },
        MarketCommands::StrengthStocks { date, strong_top, sector, metric, top } => {
            let d = read_market_date(date)?;
            let p = require_risk_state_path(risk_path)?;
            Ok(
                MarketRequest::StrengthStocks {
                    date: d,
                    risk_path: p.to_string(),
                    strong_top: *strong_top,
                    weak_top: 1,
                    stock_top: *top,
                    sector: copy_opt_text(sector),
                    metric: *metric,
                    top: *top,
                },
            )
        },
    }
}

/// A sector ranking keeps `max(top, 1)` rows, or every covered stock when
/// fewer are covered.
pub proof fn lemma_sector_ranking_length(
    out: MarketStrengthStockRankingOutput,
    report: MarketStrengthReport,
    metric: StrengthStockMetric,
    strong_top: usize,
    name: String,
    top: usize,
)
    requires
        ranking_output_matches(out, report, metric, strong_top, Some(name), top),
    ensures
        out.rows@.len() == (if top == 0 {
            if out.covered_count < 1 { out.covered_count as int } else { 1 }
        } else if out.covered_count < top {
            out.covered_count as int
        } else {
            top as int
        }),
{
    let candidates = rows_in_sector(report.candidate_stocks@, name@);
    let covered = rows_with_metric(candidates, metric);
    let sorted = choose|sorted: Seq<StrongSectorStockRow>|
        is_stable_ranking_of(sorted, covered, metric) && out.rows@ == sorted.take(
            if covered.len() < ranking_limit(top) {
                covered.len() as int
            } else {
                ranking_limit(top) as int
            },
        );
    let p = choose|p: Seq<int>| stable_sort_witness(sorted, covered, metric, p);
    assert(sorted.len() == covered.len());
}

/// Every row of a sector ranking is a stock of that sector with the
/// metric's amount, and the rows come in ranking order.
pub proof fn lemma_sector_ranking_rows(
    out: MarketStrengthStockRankingOutput,
    report: MarketStrengthReport,
    metric: StrengthStockMetric,
    strong_top: usize,
    name: String,
    top: usize,
)
    requires
        ranking_output_matches(out, report, metric, strong_top, Some(name), top),
    ensures
        forall|i: int|
            0 <= i < out.rows@.len() ==> (#[trigger] out.rows@[i]).sector_name@ == name@ && has_metric(
                out.rows@[i],
                metric,
            ),
        forall|i: int, j: int|
            0 <= i < j < out.rows@.len() ==> row_rank_order(
                #[trigger] out.rows@[i],
                #[trigger] out.rows@[j],
                metric,
            ) <= 0,
{
    let in_sector = |row: StrongSectorStockRow| row.sector_name@ == name@;
    let with_metric = |row: StrongSectorStockRow| has_metric(row, metric);
    let candidates = rows_in_sector(report.candidate_stocks@, name@);
    let covered = rows_with_metric(candidates, metric);
    let n = if covered.len() < ranking_limit(top) {
        covered.len() as int
    } else {
        ranking_limit(top) as int
    };
    let sorted = choose|sorted: Seq<StrongSectorStockRow>|
        is_stable_ranking_of(sorted, covered, metric) && out.rows@ == sorted.take(n);
    let p = choose|p: Seq<int>| stable_sort_witness(sorted, covered, metric, p);
    assert(candidates == report.candidate_stocks@.filter(in_sector));
    assert(covered == candidates.filter(with_metric));
    assert forall|i: int| 0 <= i < out.rows@.len() implies (#[trigger] out.rows@[i]).sector_name@
        == name@ && has_metric(out.rows@[i], metric) by {
        let x = out.rows@[i];
        assert(x == sorted[i]);
        let k = p[i];
        assert(x == covered[k]);
        candidates.lemma_filter_pred(with_metric, k);
        assert(covered.contains(x));
        candidates.lemma_filter_contains_rev(with_metric, x);
        let j = choose|j: int| 0 <= j < candidates.len() && candidates[j] == x;
        report.candidate_stocks@.lemma_filter_pred(in_sector, j);
    }
    assert forall|i: int, j: int| 0 <= i < j < out.rows@.len() implies row_rank_order(
        #[trigger] out.rows@[i],
        #[trigger] out.rows@[j],
        metric,
    ) <= 0 by {
        assert(out.rows@[i] == sorted[i]);
        assert(out.rows@[j] == sorted[j]);
    }
}

} // verus!
