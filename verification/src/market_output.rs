//! The text of the market reports: foundation summary, board rankings, the
//! strong/weak sector analysis, the strong-sector stock ranking, leaders,
//! northbound flow, sentiment and the overview.
use vstd::prelude::*;
use crate::commands::market::StrengthStockMetric;
use crate::decimal::{DecimalValue, decimal_fixed2, decimal_fixed2_text};
use crate::market::{
    BoardRankRow, MarketFoundationSummary, MarketStrengthReport, MarketStrengthStockRankingOutput,
    SectorCoverageRow, StrongSectorStockRow, rows_wf,
};
use crate::text::{dec_text, line, pad_right, push_line, push_padded, push_repeat, push_u64, repeat_text, u64_text};

verus! {

/// An amount with two decimals, or `-` when there is none.
pub open spec fn optional_amount_text(value: Option<DecimalValue>) -> Seq<char> {
    match value {
        Some(d) => decimal_fixed2_text(d),
        None => "-"@,
    }
}

/// An amount with two decimals, or `-` when there is none.
pub fn format_decimal(value: &Option<DecimalValue>) -> (r: String)
    requires
        value matches Some(d) ==> d.wf(),
    ensures
        r@ == optional_amount_text(*value),
{
    match value {
        Some(d) => decimal_fixed2(d),
        None => "-".to_string(),
    }
}

/// One row of the industry coverage table; `rank` counts from 1.
pub open spec fn coverage_row_line(row: SectorCoverageRow, rank: nat) -> Seq<char> {
    line(pad_right(dec_text(rank), 4) + " "@ + pad_right(row.industry_name@, 16) + " "@ + dec_text(
        row.stock_count as nat,
    ))
}

/// The rows of the industry coverage table.
pub open spec fn coverage_rows_text(rows: Seq<SectorCoverageRow>) -> Seq<char>
    decreases rows.len(),
{
    if rows.len() == 0 {
        Seq::empty()
    } else {
        coverage_rows_text(rows.drop_last()) + coverage_row_line(rows.last(), rows.len())
    }
}

/// A label and a count on one line.
pub open spec fn count_line(label: Seq<char>, n: nat) -> Seq<char> {
    line(label + dec_text(n))
}

/// The text of the foundation summary: the four counts, then, when there are
/// covered industries, the coverage table.
pub open spec fn foundation_summary_text(summary: MarketFoundationSummary) -> Seq<char> {
    line("== 市场基础数据 =="@) + count_line("A股总数: "@, summary.total_stocks as nat) + count_line(
        "已匹配行业: "@,
        summary.classified_stocks as nat,
    ) + count_line("未匹配行业: "@, summary.unclassified_stocks as nat) + count_line(
        "行业数: "@,
        summary.sector_count as nat,
    ) + if summary.top_sectors@.len() == 0 {
        Seq::empty()
    } else {
        line(Seq::empty()) + line("行业覆盖 Top10:"@) + line(
            pad_right("排名"@, 4) + " "@ + pad_right("行业"@, 16) + " 成分股数"@,
        ) + line(repeat_text("-"@, 40)) + coverage_rows_text(summary.top_sectors@)
    }
}

/// Appends `label` and the decimal text of `n`, then a newline.
fn push_count_line(out: &mut String, label: &str, n: usize)
    ensures
        final(out)@ == old(out)@ + count_line(label@, n as nat),
{
    out.append(label);
    push_u64(out, n as u64);
    push_line(out, "");
    proof { reveal_strlit(""); }
    assert(final(out)@ =~= old(out)@ + count_line(label@, n as nat)) by {
        assert(""@ =~= Seq::<char>::empty());
    }
}

/// The text of the foundation summary.
pub fn render_market_foundation_summary(summary: &MarketFoundationSummary) -> (r: String)
    ensures
        r@ == foundation_summary_text(*summary),
{
    let mut out = String::new();
    push_line(&mut out, "== 市场基础数据 ==");
    push_count_line(&mut out, "A股总数: ", summary.total_stocks);
    push_count_line(&mut out, "已匹配行业: ", summary.classified_stocks);
    push_count_line(&mut out, "未匹配行业: ", summary.unclassified_stocks);
    push_count_line(&mut out, "行业数: ", summary.sector_count);
    let ghost head = out@;
    if summary.top_sectors.len() != 0 {
        proof { reveal_strlit(""); reveal_strlit(" "); }
        push_line(&mut out, "");
        push_line(&mut out, "行业覆盖 Top10:");
        let mut header = String::new();
        push_padded(&mut header, "排名", 4);
        header.append(" ");
        push_padded(&mut header, "行业", 16);
        header.append(" 成分股数");
        push_line(&mut out, header.as_str());
        let mut dashes = String::new();
        push_repeat(&mut dashes, "-", 40);
        push_line(&mut out, dashes.as_str());
        let ghost table_head = out@;
        let rows = &summary.top_sectors;
        let mut i: usize = 0;
        while i < rows.len()
            invariant
                i <= rows.len(),
                out@ == table_head + coverage_rows_text(rows@.take(i as int)),
            decreases rows.len() - i,
        {
            let rank = u64_text((i + 1) as u64);
            let mut cell = String::new();
            push_padded(&mut cell, rank.as_str(), 4);
            cell.append(" ");
            push_padded(&mut cell, rows[i].industry_name.as_str(), 16);
            cell.append(" ");
            push_u64(&mut cell, rows[i].stock_count as u64);
            push_line(&mut out, cell.as_str());
            proof {
                reveal_strlit(" ");
                assert(rows@.take(i + 1).drop_last() =~= rows@.take(i as int));
                assert(rows@.take(i + 1).last() == rows@[i as int]);
                assert(cell@ + "\n"@ =~= coverage_row_line(rows@[i as int], (i + 1) as nat)) by {
                    reveal_strlit("\n");
                }
            }
            i = i + 1;
        }
        proof {
            assert(rows@.take(rows.len() as int) =~= rows@);
            assert(" "@ =~= seq![' ']);
        }
    }
    assert(out@ =~= foundation_summary_text(*summary));
    out
}

/// One row of a board ranking.
pub open spec fn board_row_line(row: BoardRankRow) -> Seq<char> {
    line(pad_right(dec_text(row.rank as nat), 8) + " "@ + pad_right(row.board_code@, 12) + " "@
        + pad_right(row.board_name@, 16) + " "@ + row.change_pct_text@ + "%"@)
}

/// The rows of a board ranking.
pub open spec fn board_rows_lines(rows: Seq<BoardRankRow>) -> Seq<char>
    decreases rows.len(),
{
    if rows.len() == 0 {
        Seq::empty()
    } else {
        board_rows_lines(rows.drop_last()) + board_row_line(rows.last())
    }
}

/// The text of a board ranking: a notice when it is empty, else a header, a
/// rule and one line per board.
pub open spec fn board_rows_text(rows: Seq<BoardRankRow>) -> Seq<char> {
    if rows.len() == 0 {
        line("📭 没有可展示的板块数据"@)
    } else {
        line(pad_right("排名"@, 8) + " "@ + pad_right("代码"@, 12) + " "@ + pad_right("板块"@, 16)
            + " 涨跌幅"@) + line(repeat_text("-"@, 56)) + board_rows_lines(rows)
    }
}

/// Appends a rule of `n` dashes and a newline.
fn push_rule(out: &mut String, n: usize)
    ensures
        final(out)@ == old(out)@ + line(repeat_text("-"@, n as nat)),
{
    let mut dashes = String::new();
    push_repeat(&mut dashes, "-", n);
    push_line(out, dashes.as_str());
    assert(dashes@ =~= repeat_text("-"@, n as nat));
}

/// The text of a board ranking.
pub fn render_market_board_rows(rows: &Vec<BoardRankRow>) -> (r: String)
    ensures
        r@ == board_rows_text(rows@),
{
    let mut out = String::new();
    if rows.len() == 0 {
        push_line(&mut out, "📭 没有可展示的板块数据");
        assert(out@ =~= board_rows_text(rows@));
        return out;
    }
    proof { reveal_strlit(" "); }
    let mut header = String::new();
    push_padded(&mut header, "排名", 8);
    header.append(" ");
    push_padded(&mut header, "代码", 12);
    header.append(" ");
    push_padded(&mut header, "板块", 16);
    header.append(" 涨跌幅");
    push_line(&mut out, header.as_str());
    push_rule(&mut out, 56);
    let ghost head = out@;
    let mut i: usize = 0;
    while i < rows.len()
        invariant
            i <= rows.len(),
            out@ == head + board_rows_lines(rows@.take(i as int)),
        decreases rows.len() - i,
    {
        let rank = u64_text(rows[i].rank as u64);
        let mut cell = String::new();
        push_padded(&mut cell, rank.as_str(), 8);
        cell.append(" ");
        push_padded(&mut cell, rows[i].board_code.as_str(), 12);
        cell.append(" ");
        push_padded(&mut cell, rows[i].board_name.as_str(), 16);
        cell.append(" ");
        cell.append(rows[i].change_pct_text.as_str());
        cell.append("%");
        push_line(&mut out, cell.as_str());
        proof {
            reveal_strlit(" ");
            assert(rows@.take(i + 1).drop_last() =~= rows@.take(i as int));
            assert(rows@.take(i + 1).last() == rows@[i as int]);
            assert(line(cell@) =~= board_row_line(rows@[i as int]));
        }
        i = i + 1;
    }
    assert(rows@.take(rows.len() as int) =~= rows@);
    assert(out@ =~= board_rows_text(rows@));
    out
}

/// One row of a strong-sector stock table; `rank` counts from 1.
pub open spec fn stock_row_line(row: StrongSectorStockRow, rank: nat, use_market_cap: bool) -> Seq<
    char,
> {
    line(pad_right(dec_text(rank), 4) + " "@ + pad_right(row.sector_name@, 10) + " "@ + pad_right(
        row.code@,
        12,
    ) + " "@ + pad_right(row.name@, 12) + " "@ + pad_right(row.latest_price_text@, 12) + " "@
        + optional_amount_text(
        if use_market_cap {
            row.market_cap
        } else {
            row.latest_report_profit
        },
    ))
}

/// The rows of a strong-sector stock table.
pub open spec fn stock_rows_lines(rows: Seq<StrongSectorStockRow>, use_market_cap: bool) -> Seq<char>
    decreases rows.len(),
{
    if rows.len() == 0 {
        Seq::empty()
    } else {
        stock_rows_lines(rows.drop_last(), use_market_cap) + stock_row_line(
            rows.last(),
            rows.len(),
            use_market_cap,
        )
    }
}

/// The text of a strong-sector stock table: a notice when it is empty, else a
/// header naming the metric column, a rule and one line per stock.
pub open spec fn stock_rows_text(
    rows: Seq<StrongSectorStockRow>,
    metric_label: Seq<char>,
    use_market_cap: bool,
) -> Seq<char> {
    if rows.len() == 0 {
        line("📭 没有可展示的个股数据"@)
    } else {
        line(pad_right("排名"@, 4) + " "@ + pad_right("行业"@, 10) + " "@ + pad_right("代码"@, 12)
            + " "@ + pad_right("名称"@, 12) + " "@ + pad_right("现价"@, 12) + " "@ + metric_label)
            + line(repeat_text("-"@, 84)) + stock_rows_lines(rows, use_market_cap)
    }
}

/// The text of a strong-sector stock table; the metric column shows the
/// market capitalisation or the profit.
pub fn render_strong_sector_stock_rows(
    rows: &Vec<StrongSectorStockRow>,
    metric_label: &str,
    use_market_cap: bool,
) -> (r: String)
    requires
        rows_wf(rows@),
    ensures
        r@ == stock_rows_text(rows@, metric_label@, use_market_cap),
{
    let mut out = String::new();
    if rows.len() == 0 {
        push_line(&mut out, "📭 没有可展示的个股数据");
        assert(out@ =~= stock_rows_text(rows@, metric_label@, use_market_cap));
        return out;
    }
    proof { reveal_strlit(" "); }
    let mut header = String::new();
    push_padded(&mut header, "排名", 4);
    header.append(" ");
    push_padded(&mut header, "行业", 10);
    header.append(" ");
    push_padded(&mut header, "代码", 12);
    header.append(" ");
    push_padded(&mut header, "名称", 12);
    header.append(" ");
    push_padded(&mut header, "现价", 12);
    header.append(" ");
    header.append(metric_label);
    push_line(&mut out, header.as_str());
    push_rule(&mut out, 84);
    let ghost head = out@;
    let mut i: usize = 0;
    while i < rows.len()
        invariant
            i <= rows.len(),
            rows_wf(rows@),
            out@ == head + stock_rows_lines(rows@.take(i as int), use_market_cap),
        decreases rows.len() - i,
    {
        assert(rows@[i as int].wf());
        let rank = u64_text((i + 1) as u64);
        let metric = if use_market_cap {
            rows[i].market_cap
        } else {
            rows[i].latest_report_profit
        };
        let amount = format_decimal(&metric);
        let mut cell = String::new();
        push_padded(&mut cell, rank.as_str(), 4);
        cell.append(" ");
        push_padded(&mut cell, rows[i].sector_name.as_str(), 10);
        cell.append(" ");
        push_padded(&mut cell, rows[i].code.as_str(), 12);
        cell.append(" ");
        push_padded(&mut cell, rows[i].name.as_str(), 12);
        cell.append(" ");
        push_padded(&mut cell, rows[i].latest_price_text.as_str(), 12);
        cell.append(" ");
        cell.append(amount.as_str());
        push_line(&mut out, cell.as_str());
        proof {
            reveal_strlit(" ");
            assert(rows@.take(i + 1).drop_last() =~= rows@.take(i as int));
            assert(rows@.take(i + 1).last() == rows@[i as int]);
            assert(line(cell@) =~= stock_row_line(rows@[i as int], (i + 1) as nat, use_market_cap));
        }
        i = i + 1;
    }
    assert(rows@.take(rows.len() as int) =~= rows@);
    assert(out@ =~= stock_rows_text(rows@, metric_label@, use_market_cap));
    out
}

/// The text of the strong/weak sector analysis: the foundation counts, the
/// candidate and coverage counts, the fetch error counts when there were
/// errors, the strong and weak sector rankings, and the top stocks by market
/// capitalisation and by estimated profit.
pub open spec fn strength_report_text(report: MarketStrengthReport) -> Seq<char> {
    line("== 强弱板块分析 =="@) + line(
        "基础数据: A股="@ + dec_text(report.foundation.total_stocks as nat) + " 行业覆盖="@
            + dec_text(report.foundation.classified_stocks as nat) + " 未覆盖="@ + dec_text(
            report.foundation.unclassified_stocks as nat,
        ),
    ) + count_line("强势板块候选股数: "@, report.candidate_stock_count as nat) + line(
        "基本面覆盖: 市值="@ + dec_text(report.market_cap_coverage_count as nat) + "/"@ + dec_text(
            report.candidate_stock_count as nat,
        ) + " 利润="@ + dec_text(report.profit_coverage_count as nat) + "/"@ + dec_text(
            report.candidate_stock_count as nat,
        ),
    ) + (if report.valuation_error_count > 0 || report.earnings_error_count > 0 {
        line(
            "基本面抓取异常: 市值请求失败="@ + dec_text(report.valuation_error_count as nat)
                + " 利润请求失败="@ + dec_text(report.earnings_error_count as nat),
        )
    } else {
        Seq::empty()
    }) + line(Seq::empty()) + line("强势板块:"@) + board_rows_text(report.strong_sectors@) + line(
        Seq::empty(),
    ) + line("弱势板块:"@) + board_rows_text(report.weak_sectors@) + line(Seq::empty()) + line(
        "强势板块个股 Top"@ + dec_text(report.top_by_market_cap@.len()) + " 总市值:"@,
    ) + stock_rows_text(report.top_by_market_cap@, "总市值(亿)"@, true) + line(Seq::empty())
        + line("强势板块个股 Top"@ + dec_text(report.top_by_profit@.len()) + " 推算净利润:"@)
        + stock_rows_text(report.top_by_profit@, "推算净利润(亿)"@, false)
}

/// The text of the strong/weak sector analysis.
pub fn render_market_strength_report(report: &MarketStrengthReport) -> (r: String)
    requires
        rows_wf(report.top_by_market_cap@),
        rows_wf(report.top_by_profit@),
    ensures
        r@ == strength_report_text(*report),
{
    proof {
        reveal_strlit("");
    }
    let mut out = String::new();
    push_line(&mut out, "== 强弱板块分析 ==");
    let mut basics = "基础数据: A股=".to_string();
    push_u64(&mut basics, report.foundation.total_stocks as u64);
    basics.append(" 行业覆盖=");
    push_u64(&mut basics, report.foundation.classified_stocks as u64);
    basics.append(" 未覆盖=");
    push_u64(&mut basics, report.foundation.unclassified_stocks as u64);
    push_line(&mut out, basics.as_str());
    push_count_line(&mut out, "强势板块候选股数: ", report.candidate_stock_count);
    let mut coverage = "基本面覆盖: 市值=".to_string();
    push_u64(&mut coverage, report.market_cap_coverage_count as u64);
    coverage.append("/");
    push_u64(&mut coverage, report.candidate_stock_count as u64);
    coverage.append(" 利润=");
    push_u64(&mut coverage, report.profit_coverage_count as u64);
    coverage.append("/");
    push_u64(&mut coverage, report.candidate_stock_count as u64);
    push_line(&mut out, coverage.as_str());
    let ghost before_errors = out@;
    if report.valuation_error_count > 0 || report.earnings_error_count > 0 {
        let mut errors = "基本面抓取异常: 市值请求失败=".to_string();
        push_u64(&mut errors, report.valuation_error_count as u64);
        errors.append(" 利润请求失败=");
        push_u64(&mut errors, report.earnings_error_count as u64);
        push_line(&mut out, errors.as_str());
    }
    push_line(&mut out, "");
    push_line(&mut out, "强势板块:");
    let strong = render_market_board_rows(&report.strong_sectors);
    out.append(strong.as_str());
    push_line(&mut out, "");
    push_line(&mut out, "弱势板块:");
    let weak = render_market_board_rows(&report.weak_sectors);
    out.append(weak.as_str());
    push_line(&mut out, "");
    let mut cap_title = "强势板块个股 Top".to_string();
    push_u64(&mut cap_title, report.top_by_market_cap.len() as u64);
    cap_title.append(" 总市值:");
    push_line(&mut out, cap_title.as_str());
    let caps = render_strong_sector_stock_rows(&report.top_by_market_cap, "总市值(亿)", true);
    out.append(caps.as_str());
    push_line(&mut out, "");
    let mut profit_title = "强势板块个股 Top".to_string();
    push_u64(&mut profit_title, report.top_by_profit.len() as u64);
    profit_title.append(" 推算净利润:");
    push_line(&mut out, profit_title.as_str());
    let profits = render_strong_sector_stock_rows(&report.top_by_profit, "推算净利润(亿)", false);
    out.append(profits.as_str());
    assert(""@ =~= Seq::<char>::empty());
    assert(out@ =~= strength_report_text(*report));
    out
}

/// The column title of a ranking metric.
pub open spec fn metric_label_text(metric: StrengthStockMetric) -> Seq<char> {
    match metric {
        StrengthStockMetric::MarketCap => "总市值(亿)"@,
        StrengthStockMetric::Profit => "上一会计周期净利润(亿)"@,
    }
}

/// The name of a ranking metric.
pub open spec fn metric_name_text(metric: StrengthStockMetric) -> Seq<char> {
    match metric {
        StrengthStockMetric::MarketCap => "总市值"@,
        StrengthStockMetric::Profit => "上一会计周期净利润"@,
    }
}

/// The text of a strong-sector stock ranking: the strong sector range, the
/// sector filter when there is one, the candidate and coverage counts, and the
/// ranked stocks.
pub open spec fn stock_ranking_text(ranking: MarketStrengthStockRankingOutput) -> Seq<char> {
    let name = metric_name_text(ranking.metric);
    line("== 强势板块个股排行 =="@) + count_line("强势板块范围: Top"@, ranking.strong_top as nat) + (
    match ranking.sector_filter {
        Some(sector) => line("行业过滤: "@ + sector@),
        None => Seq::empty(),
    }) + count_line("候选股数: "@, ranking.candidate_stock_count as nat) + line(
        name + "覆盖: "@ + dec_text(ranking.covered_count as nat) + "/"@ + dec_text(
            ranking.candidate_stock_count as nat,
        ),
    ) + line(Seq::empty()) + line(
        "按"@ + name + "从大到小 Top"@ + dec_text(ranking.rows@.len()) + ":"@,
    ) + stock_rows_text(
        ranking.rows@,
        metric_label_text(ranking.metric),
        ranking.metric == StrengthStockMetric::MarketCap,
    )
}

/// The text of a strong-sector stock ranking.
pub fn render_market_strength_stock_ranking(ranking: &MarketStrengthStockRankingOutput) -> (r:
    String)
    requires
        rows_wf(ranking.rows@),
    ensures
        r@ == stock_ranking_text(*ranking),
{
    proof {
        reveal_strlit("");
    }
    let (metric_label, metric_name, use_market_cap) = match ranking.metric {
        StrengthStockMetric::MarketCap => ("总市值(亿)", "总市值", true),
        StrengthStockMetric::Profit => ("上一会计周期净利润(亿)", "上一会计周期净利润", false),
    };
    let mut out = String::new();
    push_line(&mut out, "== 强势板块个股排行 ==");
    push_count_line(&mut out, "强势板块范围: Top", ranking.strong_top);
    match &ranking.sector_filter {
        Some(sector) => {
            let mut filter = "行业过滤: ".to_string();
            filter.append(sector.as_str());
            push_line(&mut out, filter.as_str());
        },
        None => {},
    }
    push_count_line(&mut out, "候选股数: ", ranking.candidate_stock_count);
    let mut coverage = metric_name.to_string();
    coverage.append("覆盖: ");
    push_u64(&mut coverage, ranking.covered_count as u64);
    coverage.append("/");
    push_u64(&mut coverage, ranking.candidate_stock_count as u64);
    push_line(&mut out, coverage.as_str());
    push_line(&mut out, "");
    let mut title = "按".to_string();
    title.append(metric_name);
    title.append("从大到小 Top");
    push_u64(&mut title, ranking.rows.len() as u64);
    title.append(":");
    push_line(&mut out, title.as_str());
    let table = render_strong_sector_stock_rows(&ranking.rows, metric_label, use_market_cap);
    out.append(table.as_str());
    assert(""@ =~= Seq::<char>::empty());
    assert(out@ =~= stock_ranking_text(*ranking));
    out
}


/// The northbound flow of a day, its amounts as printed with two decimals.
#[derive(Clone, Debug, PartialEq, Eq)]
pub struct NorthFlowView {
    pub trade_date: String,
    pub sh_amount_text: String,
    pub sz_amount_text: String,
    pub total_amount_text: String,
    pub balance_text: String,
}

/// `market north`: a notice without data, else the date and the amounts.
pub open spec fn north_flow_text(snapshot: Option<NorthFlowView>) -> Seq<char> {
    match snapshot {
        None => line("📭 没有可展示的北向资金数据"@),
        Some(n) => line("日期: "@ + n.trade_date@) + line("沪股通: "@ + n.sh_amount_text@) + line(
            "深股通: "@ + n.sz_amount_text@,
        ) + line("合计: "@ + n.total_amount_text@) + line("余额: "@ + n.balance_text@),
    }
}

fn push_labeled(out: &mut String, label: &str, value: &str)
    ensures
        final(out)@ == old(out)@ + line(label@ + value@),
{
    let mut l = label.to_string();
    l.append(value);
    push_line(out, l.as_str());
}

fn push_labeled_count(out: &mut String, label: &str, value: u64)
    ensures
        final(out)@ == old(out)@ + line(label@ + dec_text(value as nat)),
{
    let v = u64_text(value);
    push_labeled(out, label, v.as_str());
}

/// The text `market north` prints.
pub fn render_north_flow(snapshot: &Option<NorthFlowView>) -> (r: String)
    ensures
        r@ == north_flow_text(*snapshot),
{
    let mut out = String::new();
    match snapshot {
        None => push_line(&mut out, "📭 没有可展示的北向资金数据"),
        Some(n) => {
            push_labeled(&mut out, "日期: ", n.trade_date.as_str());
            push_labeled(&mut out, "沪股通: ", n.sh_amount_text.as_str());
            push_labeled(&mut out, "深股通: ", n.sz_amount_text.as_str());
            push_labeled(&mut out, "合计: ", n.total_amount_text.as_str());
            push_labeled(&mut out, "余额: ", n.balance_text.as_str());
        },
    }
    assert(out@ =~= north_flow_text(*snapshot));
    out
}

/// The market sentiment of a day, its rates as printed with two decimals.
#[derive(Clone, Debug, PartialEq, Eq)]
pub struct SentimentView {
    pub trade_date: String,
    pub up_count: u64,
    pub down_count: u64,
    pub limit_up_count: u64,
    pub limit_down_count: u64,
    pub seal_rate_text: String,
    pub break_rate_text: String,
    pub consecutive_board_count: u64,
}

/// `market sentiment`: a notice without data, else the date, the counts
/// and the rates.
pub open spec fn sentiment_text(snapshot: Option<SentimentView>) -> Seq<char> {
    match snapshot {
        None => line("📭 没有可展示的市场情绪数据"@),
        Some(s) => line("日期: "@ + s.trade_date@) + line("上涨: "@ + dec_text(s.up_count as nat)) + line(
            "下跌: "@ + dec_text(s.down_count as nat),
        ) + line("涨停: "@ + dec_text(s.limit_up_count as nat)) + line(
            "跌停: "@ + dec_text(s.limit_down_count as nat),
        ) + line("封板率: "@ + s.seal_rate_text@) + line("炸板率: "@ + s.break_rate_text@) + line(
            "连板股: "@ + dec_text(s.consecutive_board_count as nat),
        ),
    }
}

/// The text `market sentiment` prints.
pub fn render_market_sentiment(snapshot: &Option<SentimentView>) -> (r: String)
    ensures
        r@ == sentiment_text(*snapshot),
{
    let mut out = String::new();
    match snapshot {
        None => push_line(&mut out, "📭 没有可展示的市场情绪数据"),
        Some(s) => {
            push_labeled(&mut out, "日期: ", s.trade_date.as_str());
            push_labeled_count(&mut out, "上涨: ", s.up_count);
            push_labeled_count(&mut out, "下跌: ", s.down_count);
            push_labeled_count(&mut out, "涨停: ", s.limit_up_count);
            push_labeled_count(&mut out, "跌停: ", s.limit_down_count);
            push_labeled(&mut out, "封板率: ", s.seal_rate_text.as_str());
            push_labeled(&mut out, "炸板率: ", s.break_rate_text.as_str());
            push_labeled_count(&mut out, "连板股: ", s.consecutive_board_count);
        },
    }
    assert(out@ =~= sentiment_text(*snapshot));
    out
}

/// A leading stock, its change as printed with two decimals.
#[derive(Clone, Debug, PartialEq, Eq)]
pub struct LeaderRow {
    pub code: String,
    pub name: String,
    pub sector_name: Option<String>,
    pub concept_name: Option<String>,
    pub change_pct_text: String,
}

/// An optional name, or `-`.
pub open spec fn name_or_dash(o: Option<String>) -> Seq<char> {
    match o {
        Some(s) => s@,
        None => "-"@,
    }
}

/// One line of the leaders: code, name, industry, concept and change.
pub open spec fn leader_line(row: LeaderRow) -> Seq<char> {
    line(pad_right(row.code@, 10) + " "@ + pad_right(row.name@, 12) + " "@ + pad_right(
        name_or_dash(row.sector_name),
        12,
    ) + " "@ + pad_right(name_or_dash(row.concept_name), 12) + " "@ + row.change_pct_text@ + "%"@)
}

/// The lines of the leaders, in order.
pub open spec fn leader_lines(rows: Seq<LeaderRow>) -> Seq<char>
    decreases rows.len(),
{
    if rows.len() == 0 {
        Seq::empty()
    } else {
        leader_lines(rows.drop_last()) + leader_line(rows.last())
    }
}

/// `market leader`: a notice without rows, else a header, a rule of 72
/// dashes and one line per stock.
pub open spec fn leader_rows_text(rows: Seq<LeaderRow>) -> Seq<char> {
    if rows.len() == 0 {
        line("📭 没有可展示的龙头股数据"@)
    } else {
        line(pad_right("代码"@, 10) + " "@ + pad_right("名称"@, 12) + " "@ + pad_right("行业"@, 12) + " "@
            + pad_right("概念"@, 12) + " 涨跌幅"@) + line(repeat_text("-"@, 72)) + leader_lines(rows)
    }
}

fn leader_line_text(row: &LeaderRow) -> (r: String)
    ensures
        line(r@) == leader_line(*row),
{
    let mut s = String::new();
    push_padded(&mut s, row.code.as_str(), 10);
    s.append(" ");
    push_padded(&mut s, row.name.as_str(), 12);
    s.append(" ");
    match &row.sector_name {
        Some(n) => push_padded(&mut s, n.as_str(), 12),
        None => push_padded(&mut s, "-", 12),
    }
    s.append(" ");
    match &row.concept_name {
        Some(n) => push_padded(&mut s, n.as_str(), 12),
        None => push_padded(&mut s, "-", 12),
    }
    s.append(" ");
    s.append(row.change_pct_text.as_str());
    s.append("%");
    assert(s@ =~= pad_right(row.code@, 10) + " "@ + pad_right(row.name@, 12) + " "@ + pad_right(
        name_or_dash(row.sector_name),
        12,
    ) + " "@ + pad_right(name_or_dash(row.concept_name), 12) + " "@ + row.change_pct_text@ + "%"@);
    s
}

/// The text `market leader` prints.
pub fn render_market_leader_rows(rows: &Vec<LeaderRow>) -> (r: String)
    ensures
        r@ == leader_rows_text(rows@),
{
    let mut out = String::new();
    if rows.len() == 0 {
        push_line(&mut out, "📭 没有可展示的龙头股数据");
        return out;
    }
    let mut header = String::new();
    push_padded(&mut header, "代码", 10);
    header.append(" ");
    push_padded(&mut header, "名称", 12);
    header.append(" ");
    push_padded(&mut header, "行业", 12);
    header.append(" ");
    push_padded(&mut header, "概念", 12);
    header.append(" 涨跌幅");
    push_line(&mut out, header.as_str());
    push_rule(&mut out, 72);
    let ghost head = out@;
    assert(head =~= line(pad_right("代码"@, 10) + " "@ + pad_right("名称"@, 12) + " "@ + pad_right("行业"@, 12)
        + " "@ + pad_right("概念"@, 12) + " 涨跌幅"@) + line(repeat_text("-"@, 72)));
    let mut i: usize = 0;
    while i < rows.len()
        invariant
            i <= rows.len(),
            out@ == head + leader_lines(rows@.take(i as int)),
        decreases rows.len() - i,
    {
        assert(rows@.take(i + 1).drop_last() =~= rows@.take(i as int));
        let l = leader_line_text(&rows[i]);
        push_line(&mut out, l.as_str());
        assert(out@ =~= head + leader_lines(rows@.take(i + 1)));
        i = i + 1;
    }
    assert(rows@.take(i as int) =~= rows@);
    out
}

/// The market overview: the top boards, and the northbound total (as
/// printed) and limit-up count when known.
#[derive(Clone, Debug, PartialEq, Eq)]
pub struct MarketOverviewView {
    pub top_sectors: Vec<BoardRankRow>,
    pub top_concepts: Vec<BoardRankRow>,
    pub north_total_text: Option<String>,
    pub limit_up_count: Option<u64>,
}

/// The head of `market overview`: the board counts, the northbound total
/// and the limit-up count (`-` when unknown).
pub open spec fn overview_head_text(o: MarketOverviewView) -> Seq<char> {
    line("== 市场概览 =="@) + line("行业板块: "@ + dec_text(o.top_sectors@.len())) + line(
        "概念板块: "@ + dec_text(o.top_concepts@.len()),
    ) + line("北向资金: "@ + name_or_dash(o.north_total_text)) + line(
        "涨停数: "@ + match o.limit_up_count {
            Some(c) => dec_text(c as nat),
            None => "-"@,
        },
    )
}

/// A titled board ranking after a blank line, when it has rows.
pub open spec fn board_section_text(title: Seq<char>, rows: Seq<BoardRankRow>) -> Seq<char> {
    if rows.len() > 0 {
        line(Seq::empty()) + line(title) + board_rows_text(rows)
    } else {
        Seq::empty()
    }
}

/// `market overview`: the head, then the top industries and the top
/// concepts when there are any.
pub open spec fn overview_text(o: MarketOverviewView) -> Seq<char> {
    overview_head_text(o) + board_section_text("Top 行业:"@, o.top_sectors@) + board_section_text(
        "Top 概念:"@,
        o.top_concepts@,
    )
}

fn push_overview_head(out: &mut String, o: &MarketOverviewView)
    ensures
        final(out)@ == old(out)@ + overview_head_text(*o),
{
    push_line(out, "== 市场概览 ==");
    push_labeled_count(out, "行业板块: ", o.top_sectors.len() as u64);
    push_labeled_count(out, "概念板块: ", o.top_concepts.len() as u64);
    match &o.north_total_text {
        Some(t) => push_labeled(out, "北向资金: ", t.as_str()),
        None => push_labeled(out, "北向资金: ", "-"),
    }
    match o.limit_up_count {
        Some(c) => push_labeled_count(out, "涨停数: ", c),
        None => push_labeled(out, "涨停数: ", "-"),
    }
    assert(out@ =~= old(out)@ + overview_head_text(*o));
}

fn push_board_section(out: &mut String, title: &str, rows: &Vec<BoardRankRow>)
    ensures
        final(out)@ == old(out)@ + board_section_text(title@, rows@),
{
    if rows.len() > 0 {
        push_line(out, "");
        push_line(out, title);
        let t = render_market_board_rows(rows);
        out.append(t.as_str());
        proof {
            reveal_strlit("");
        }
    }
    assert(out@ =~= old(out)@ + board_section_text(title@, rows@));
}

/// The text `market overview` prints.
pub fn render_market_overview(o: &MarketOverviewView) -> (r: String)
    ensures
        r@ == overview_text(*o),
{
    let mut out = String::new();
    push_overview_head(&mut out, o);
    push_board_section(&mut out, "Top 行业:", &o.top_sectors);
    push_board_section(&mut out, "Top 概念:", &o.top_concepts);
    assert(out@ =~= overview_text(*o));
    out
}

} // verus!
