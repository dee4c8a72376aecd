//! The fundamental data reports: valuation, earnings and dividend texts, and
//! the column cut of the tables.
use vstd::prelude::*;
use crate::decimal::{decimal_fixed2, decimal_fixed2_text, decimal_order, DecimalValue};
use crate::market_output::{format_decimal, optional_amount_text};
use crate::text::{dec_text, push_u64};
use vstd::string::StringSliceAdditionalSpecFns;
use vstd::utf8::{encode_utf8, is_ascii_chars, is_ascii_chars_encode_utf8, is_char_boundary};

verus! {

/// `max_len - 3`, or 0 below three.
pub open spec fn kept_bytes(max_len: nat) -> nat {
    if max_len >= 3 {
        (max_len - 3) as nat
    } else {
        0
    }
}

proof fn lemma_encode_concat(a: Seq<char>, b: Seq<char>)
    ensures
        encode_utf8(a + b) == encode_utf8(a) + encode_utf8(b),
    decreases a.len(),
{
    if a.len() == 0 {
        assert(a + b =~= b);
        assert(encode_utf8(a) =~= Seq::<u8>::empty());
        assert(encode_utf8(a) + encode_utf8(b) =~= encode_utf8(b));
    } else {
        assert((a + b).drop_first() =~= a.drop_first() + b);
        assert((a + b)[0] == a[0]);
        lemma_encode_concat(a.drop_first(), b);
        assert(encode_utf8(a + b) =~= encode_utf8(a) + encode_utf8(b));
    }
}

/// How many bytes of `...` close a cut text: all three, or as many as a
/// narrower column holds.
pub open spec fn kept_dots(max_len: nat) -> nat {
    if max_len >= 3 {
        3
    } else {
        max_len
    }
}

/// The dots that close a cut text in a column narrower than three bytes.
fn short_dots(max_len: usize) -> (r: String)
    requires
        max_len < 3,
    ensures
        r@ == "..."@.subrange(0, max_len as int),
{
    proof {
        reveal_strlit("...");
        reveal_strlit("..");
        reveal_strlit(".");
        reveal_strlit("");
    }
    if max_len == 0 {
        "".to_string()
    } else if max_len == 1 {
        ".".to_string()
    } else {
        "..".to_string()
    }
}

/// The text cut to a maximum length of `max_len` bytes: unchanged when it
/// fits, else its first `max_len - 3` bytes followed by `...`; a column
/// narrower than three bytes gets only as many dots as it holds. The cut
/// must fall on a character boundary.
pub fn truncate_str(s: &str, max_len: usize) -> (r: String)
    requires
        s.spec_bytes().len() <= usize::MAX,
        s.spec_bytes().len() > max_len ==> is_char_boundary(
            s.spec_bytes(),
            kept_bytes(max_len as nat) as int,
        ),
    ensures
        s.spec_bytes().len() <= max_len ==> r@ == s@,
        s.spec_bytes().len() > max_len ==> encode_utf8(r@) == s.spec_bytes().subrange(
            0,
            kept_bytes(max_len as nat) as int,
        ) + encode_utf8("..."@).subrange(0, kept_dots(max_len as nat) as int),
        encode_utf8(r@).len() <= max_len,
{
    proof {
        reveal_strlit("...");
        assert(is_ascii_chars("..."@));
        is_ascii_chars_encode_utf8("..."@);
    }
    if s.len() > max_len {
        if max_len < 3 {
            let r = short_dots(max_len);
            proof {
                let d = "..."@;
                let m = max_len as int;
                assert(d =~= d.subrange(0, m) + d.subrange(m, 3));
                lemma_encode_concat(d.subrange(0, m), d.subrange(m, 3));
                assert(is_ascii_chars(d.subrange(0, m)));
                is_ascii_chars_encode_utf8(d.subrange(0, m));
                assert(encode_utf8(r@) =~= encode_utf8(d).subrange(0, m));
                assert(s.spec_bytes().subrange(0, 0) =~= Seq::<u8>::empty());
                assert(encode_utf8(r@) =~= s.spec_bytes().subrange(0, kept_bytes(max_len as nat) as int)
                    + encode_utf8(d).subrange(0, kept_dots(max_len as nat) as int));
            }
            r
        } else {
            let k = max_len - 3;
            let (head, _tail) = s.split_at(k);
            let mut r = head.to_owned();
            r.append("...");
            proof {
                lemma_encode_concat(head@, "..."@);
                assert(encode_utf8("..."@).subrange(0, 3) =~= encode_utf8("..."@));
            }
            r
        }
    } else {
        s.to_string()
    }
}

/// A cut text fills its column exactly: the kept bytes and the dots make
/// `max_len` bytes, whatever the width.
pub proof fn lemma_truncated_fills_column(bytes: Seq<u8>, max_len: nat)
    requires
        bytes.len() > max_len,
    ensures
        (bytes.subrange(0, kept_bytes(max_len) as int) + encode_utf8("..."@).subrange(
            0,
            kept_dots(max_len) as int,
        )).len() == max_len,
{
    reveal_strlit("...");
    assert(is_ascii_chars("..."@));
    is_ascii_chars_encode_utf8("..."@);
}


/// The valuation figures of one stock, as the valuation fetcher returns them.
#[derive(Clone, Debug, PartialEq, Eq)]
pub struct ValuationMetrics {
    pub pe_ttm: Option<DecimalValue>,
    pub pe_static: Option<DecimalValue>,
    pub pb: Option<DecimalValue>,
    pub ps: Option<DecimalValue>,
    pub market_cap: Option<DecimalValue>,
    pub float_market_cap: Option<DecimalValue>,
    pub dividend_yield: Option<DecimalValue>,
    pub eps: Option<DecimalValue>,
    pub bvps: Option<DecimalValue>,
    pub roe: Option<DecimalValue>,
    pub gross_margin: Option<DecimalValue>,
    pub net_margin: Option<DecimalValue>,
    /// The data date as printed.
    pub date: String,
}

/// An optional decimal is one that `rust_decimal` can hold.
pub open spec fn opt_wf(d: Option<DecimalValue>) -> bool {
    d matches Some(x) ==> x.wf()
}

impl ValuationMetrics {
    /// Every figure can be held by `rust_decimal`.
    pub open spec fn wf(self) -> bool {
        &&& opt_wf(self.pe_ttm)
        &&& opt_wf(self.pe_static)
        &&& opt_wf(self.pb)
        &&& opt_wf(self.ps)
        &&& opt_wf(self.market_cap)
        &&& opt_wf(self.float_market_cap)
        &&& opt_wf(self.dividend_yield)
        &&& opt_wf(self.eps)
        &&& opt_wf(self.bvps)
        &&& opt_wf(self.roe)
        &&& opt_wf(self.gross_margin)
        &&& opt_wf(self.net_margin)
    }
}

/// One financial report, as the earnings fetcher returns it.
#[derive(Clone, Debug, PartialEq, Eq)]
pub struct EarningsReport {
    /// The report period as printed.
    pub report_date: String,
    pub report_type: String,
    pub revenue: Option<DecimalValue>,
    pub revenue_yoy: Option<DecimalValue>,
    pub net_profit: Option<DecimalValue>,
    pub net_profit_yoy: Option<DecimalValue>,
    pub net_profit_deducted: Option<DecimalValue>,
    pub operating_cash_flow: Option<DecimalValue>,
    pub total_assets: Option<DecimalValue>,
    pub net_assets: Option<DecimalValue>,
    pub debt_ratio: Option<DecimalValue>,
    pub gross_margin: Option<DecimalValue>,
    pub net_margin: Option<DecimalValue>,
    /// The announcement date as printed, when known.
    pub announce_date: Option<String>,
}

impl EarningsReport {
    /// Every figure can be held by `rust_decimal`.
    pub open spec fn wf(self) -> bool {
        &&& opt_wf(self.revenue)
        &&& opt_wf(self.revenue_yoy)
        &&& opt_wf(self.net_profit)
        &&& opt_wf(self.net_profit_yoy)
        &&& opt_wf(self.net_profit_deducted)
        &&& opt_wf(self.operating_cash_flow)
        &&& opt_wf(self.total_assets)
        &&& opt_wf(self.net_assets)
        &&& opt_wf(self.debt_ratio)
        &&& opt_wf(self.gross_margin)
        &&& opt_wf(self.net_margin)
    }
}

/// What the earnings command fetched: the latest report alone, or the
/// reports of several years.
#[derive(Debug, PartialEq, Eq)]
pub enum EarningsFetch {
    Latest(Result<EarningsReport, String>),
    History(Result<Vec<EarningsReport>, String>),
}

/// The lines printed when a fetch fails.
pub open spec fn fetch_failure_text(error: Seq<char>) -> Seq<char> {
    "❌ 获取数据失败: "@ + error + "\n\n💡 请检查股票代码是否正确，或稍后重试\n"@
}

/// One table row: the label cell, the figure with two decimals (or `-`), and
/// the unit and closing border.
pub open spec fn amount_row(cell: Seq<char>, value: Option<DecimalValue>, suffix: Seq<char>) -> Seq<char> {
    cell + optional_amount_text(value) + suffix + "\n"@
}

/// The valuation table and its data date.
pub open spec fn valuation_table_text(v: ValuationMetrics) -> Seq<char> {
    "✅ 数据获取成功\n\n┌─────────────────┬─────────────┐\n│ 指标            │ 数值        │\n├─────────────────┼─────────────┤\n"@
        + amount_row("│ 市盈率 (TTM)    │ "@, v.pe_ttm, " │"@)
        + amount_row("│ 市盈率 (静态)   │ "@, v.pe_static, " │"@)
        + amount_row("│ 市净率          │ "@, v.pb, " │"@)
        + amount_row("│ 市销率          │ "@, v.ps, " │"@)
        + amount_row("│ 总市值          │ "@, v.market_cap, " 亿 │"@)
        + amount_row("│ 流通市值        │ "@, v.float_market_cap, " 亿 │"@)
        + amount_row("│ 股息率          │ "@, v.dividend_yield, "% │"@)
        + amount_row("│ 每股收益        │ "@, v.eps, " │"@)
        + amount_row("│ 每股净资产      │ "@, v.bvps, " │"@)
        + amount_row("│ 净资产收益率    │ "@, v.roe, "% │"@)
        + amount_row("│ 毛利率          │ "@, v.gross_margin, "% │"@)
        + amount_row("│ 净利率          │ "@, v.net_margin, "% │"@)
        + "└─────────────────┴─────────────┘\n\n📅 数据日期: "@ + v.date@ + "\n"@
}

/// What `fundamental valuation` prints for a stock, given what was fetched.
pub open spec fn valuation_report_text(code: Seq<char>, fetched: Result<ValuationMetrics, String>) -> Seq<char> {
    "📈 估值指标\n   代码: "@ + code + "\n\n⏳ 正在获取估值数据...\n"@ + match fetched {
        Ok(v) => valuation_table_text(v),
        Err(e) => fetch_failure_text(e@),
    }
}

fn push_amount_row(out: &mut String, cell: &str, value: &Option<DecimalValue>, suffix: &str)
    requires
        opt_wf(*value),
    ensures
        final(out)@ == old(out)@ + amount_row(cell@, *value, suffix@),
{
    let v = format_decimal(value);
    out.append(cell);
    out.append(v.as_str());
    out.append(suffix);
    out.append("\n");
    assert(out@ =~= old(out)@ + amount_row(cell@, *value, suffix@));
}

fn push_fetch_failure(out: &mut String, error: &str)
    ensures
        final(out)@ == old(out)@ + fetch_failure_text(error@),
{
    out.append("❌ 获取数据失败: ");
    out.append(error);
    out.append("\n\n💡 请检查股票代码是否正确，或稍后重试\n");
    assert(out@ =~= old(out)@ + fetch_failure_text(error@));
}

#[verifier::rlimit(50)]
fn push_valuation_table(out: &mut String, v: &ValuationMetrics)
    requires
        v.wf(),
    ensures
        final(out)@ == old(out)@ + valuation_table_text(*v),
{
    let ghost head = out@;
    out.append(
        "✅ 数据获取成功\n\n┌─────────────────┬─────────────┐\n│ 指标            │ 数值        │\n├─────────────────┼─────────────┤\n",
    );
    push_amount_row(out, "│ 市盈率 (TTM)    │ ", &v.pe_ttm, " │");
    push_amount_row(out, "│ 市盈率 (静态)   │ ", &v.pe_static, " │");
    push_amount_row(out, "│ 市净率          │ ", &v.pb, " │");
    push_amount_row(out, "│ 市销率          │ ", &v.ps, " │");
    push_amount_row(out, "│ 总市值          │ ", &v.market_cap, " 亿 │");
    push_amount_row(out, "│ 流通市值        │ ", &v.float_market_cap, " 亿 │");
    push_amount_row(out, "│ 股息率          │ ", &v.dividend_yield, "% │");
    push_amount_row(out, "│ 每股收益        │ ", &v.eps, " │");
    push_amount_row(out, "│ 每股净资产      │ ", &v.bvps, " │");
    push_amount_row(out, "│ 净资产收益率    │ ", &v.roe, "% │");
    push_amount_row(out, "│ 毛利率          │ ", &v.gross_margin, "% │");
    push_amount_row(out, "│ 净利率          │ ", &v.net_margin, "% │");
    out.append("└─────────────────┴─────────────┘\n\n📅 数据日期: ");
    out.append(v.date.as_str());
    out.append("\n");
    assert(out@ =~= head + valuation_table_text(*v));
}

/// The text `fundamental valuation` prints: the heading, then the valuation
/// table with its date, or the failure and a hint.
pub fn render_fundamental_valuation(code: &str, fetched: &Result<ValuationMetrics, String>) -> (r: String)
    requires
        fetched matches Ok(v) ==> v.wf(),
    ensures
        r@ == valuation_report_text(code@, *fetched),
{
    let mut out = String::new();
    out.append("📈 估值指标\n   代码: ");
    out.append(code);
    out.append("\n\n⏳ 正在获取估值数据...\n");
    match fetched {
        Ok(v) => {
            push_valuation_table(&mut out, v);
        },
        Err(e) => {
            push_fetch_failure(&mut out, e.as_str());
        },
    }
    assert(out@ =~= valuation_report_text(code@, *fetched));
    out
}

/// The latest report: its period and type, the table of its figures, and
/// the announcement date when known.
pub open spec fn latest_earnings_text(r: EarningsReport) -> Seq<char> {
    "✅ 数据获取成功\n\n📅 最新财报:\n   报告期: "@ + r.report_date@ + "\n   报告类型: "@ + r.report_type@
        + "\n\n┌─────────────────┬─────────────┐\n│ 指标            │ 数值        │\n├─────────────────┼─────────────┤\n"@
        + earnings_rows_text(r) + "└─────────────────┴─────────────┘\n"@ + match r.announce_date {
        Some(d) => "\n📢 公告日期: "@ + d@ + "\n"@,
        None => Seq::empty(),
    }
}

/// The figure rows of the latest report's table.
pub open spec fn earnings_rows_text(r: EarningsReport) -> Seq<char> {
    amount_row("│ 营业收入        │ "@, r.revenue, " 亿 │"@)
        + amount_row("│ 营收同比        │ "@, r.revenue_yoy, "% │"@)
        + amount_row("│ 净利润          │ "@, r.net_profit, " 亿 │"@)
        + amount_row("│ 净利润同比      │ "@, r.net_profit_yoy, "% │"@)
        + amount_row("│ 扣非净利润      │ "@, r.net_profit_deducted, " 亿 │"@)
        + amount_row("│ 经营现金流      │ "@, r.operating_cash_flow, " 亿 │"@)
        + amount_row("│ 总资产          │ "@, r.total_assets, " 亿 │"@)
        + amount_row("│ 净资产          │ "@, r.net_assets, " 亿 │"@)
        + amount_row("│ 资产负债率      │ "@, r.debt_ratio, "% │"@)
        + amount_row("│ 毛利率          │ "@, r.gross_margin, "% │"@)
        + amount_row("│ 净利率          │ "@, r.net_margin, "% │"@)
}

/// The trend arrow of a year-on-year change: up, down, or flat at zero.
pub open spec fn trend_arrow(d: DecimalValue) -> Seq<char> {
    if d.mantissa > 0 {
        "↑"@
    } else if d.mantissa < 0 {
        "↓"@
    } else {
        "→"@
    }
}

/// A figure line of a history card, when the figure is known.
pub open spec fn optional_line(prefix: Seq<char>, value: Option<DecimalValue>, suffix: Seq<char>) -> Seq<char> {
    match value {
        Some(d) => prefix + decimal_fixed2_text(d) + suffix + "\n"@,
        None => Seq::empty(),
    }
}

/// The card of one report in the history.
pub open spec fn history_card_text(r: EarningsReport) -> Seq<char> {
    "┌─────────────────────────────────────┐\n│ 报告期: "@ + r.report_date@ + " ("@ + r.report_type@
        + ")          │\n├─────────────────────────────────────┤\n"@
        + optional_line("│ 营业收入: "@, r.revenue, " 亿"@)
        + optional_line("│ 净利润: "@, r.net_profit, " 亿"@)
        + yoy_line(r.net_profit_yoy) + "└─────────────────────────────────────┘\n\n"@
}

/// The year-on-year profit line of a history card, when the change is known.
pub open spec fn yoy_line(value: Option<DecimalValue>) -> Seq<char> {
    match value {
        Some(y) => "│ 净利润同比: "@ + trend_arrow(y) + " "@ + decimal_fixed2_text(y) + "%\n"@,
        None => Seq::empty(),
    }
}

/// The cards of the reports, in the order fetched.
pub open spec fn history_cards_text(reports: Seq<EarningsReport>) -> Seq<char>
    decreases reports.len(),
{
    if reports.len() == 0 {
        Seq::empty()
    } else {
        history_cards_text(reports.drop_last()) + history_card_text(reports.last())
    }
}

/// What `fundamental earnings` prints, given what was fetched: the latest
/// report's table, or a card for each report of the history.
pub open spec fn earnings_report_text(code: Seq<char>, years: nat, fetched: EarningsFetch) -> Seq<char> {
    "📋 财报数据\n   代码: "@ + code + "\n   年数: "@ + dec_text(years) + "\n\n⏳ 正在获取财报数据...\n"@
        + match fetched {
        EarningsFetch::Latest(Ok(r)) => latest_earnings_text(r),
        EarningsFetch::History(Ok(rs)) => "✅ 获取到 "@ + dec_text(rs@.len()) + " 期财报数据\n\n"@
            + history_cards_text(rs@),
        EarningsFetch::Latest(Err(e)) => fetch_failure_text(e@),
        EarningsFetch::History(Err(e)) => fetch_failure_text(e@),
    }
}

fn push_optional_line(out: &mut String, prefix: &str, value: &Option<DecimalValue>, suffix: &str)
    requires
        opt_wf(*value),
    ensures
        final(out)@ == old(out)@ + optional_line(prefix@, *value, suffix@),
{
    match value {
        Some(d) => {
            let t = decimal_fixed2(d);
            out.append(prefix);
            out.append(t.as_str());
            out.append(suffix);
            out.append("\n");
        },
        None => {},
    }
    assert(out@ =~= old(out)@ + optional_line(prefix@, *value, suffix@));
}

fn push_yoy_line(out: &mut String, value: &Option<DecimalValue>)
    requires
        opt_wf(*value),
    ensures
        final(out)@ == old(out)@ + yoy_line(*value),
{
    match value {
        Some(y) => {
            let zero = DecimalValue { mantissa: 0, scale: 0, negative: false };
            let order = decimal_order(y, &zero);
            proof {
                crate::decimal::lemma_sign_of_scaled(*y);
            }
            out.append("│ 净利润同比: ");
            let ghost mid = out@;
            if order > 0 {
                out.append("↑");
            } else if order < 0 {
                out.append("↓");
            } else {
                out.append("→");
            }
            assert(out@ =~= mid + trend_arrow(*y));
            out.append(" ");
            let t = decimal_fixed2(y);
            out.append(t.as_str());
            out.append("%\n");
        },
        None => {},
    }
    assert(out@ =~= old(out)@ + yoy_line(*value));
}

#[verifier::rlimit(50)]
fn push_history_card(out: &mut String, r: &EarningsReport)
    requires
        r.wf(),
    ensures
        final(out)@ == old(out)@ + history_card_text(*r),
{
    out.append("┌─────────────────────────────────────┐\n│ 报告期: ");
    out.append(r.report_date.as_str());
    out.append(" (");
    out.append(r.report_type.as_str());
    out.append(")          │\n├─────────────────────────────────────┤\n");
    push_optional_line(out, "│ 营业收入: ", &r.revenue, " 亿");
    push_optional_line(out, "│ 净利润: ", &r.net_profit, " 亿");
    push_yoy_line(out, &r.net_profit_yoy);
    out.append("└─────────────────────────────────────┘\n\n");
    assert(out@ =~= old(out)@ + history_card_text(*r));
}

#[verifier::rlimit(50)]
fn push_earnings_rows(out: &mut String, rep: &EarningsReport)
    requires
        rep.wf(),
    ensures
        final(out)@ == old(out)@ + earnings_rows_text(*rep),
{
    push_amount_row(out, "│ 营业收入        │ ", &rep.revenue, " 亿 │");
    push_amount_row(out, "│ 营收同比        │ ", &rep.revenue_yoy, "% │");
    push_amount_row(out, "│ 净利润          │ ", &rep.net_profit, " 亿 │");
    push_amount_row(out, "│ 净利润同比      │ ", &rep.net_profit_yoy, "% │");
    push_amount_row(out, "│ 扣非净利润      │ ", &rep.net_profit_deducted, " 亿 │");
    push_amount_row(out, "│ 经营现金流      │ ", &rep.operating_cash_flow, " 亿 │");
    push_amount_row(out, "│ 总资产          │ ", &rep.total_assets, " 亿 │");
    push_amount_row(out, "│ 净资产          │ ", &rep.net_assets, " 亿 │");
    push_amount_row(out, "│ 资产负债率      │ ", &rep.debt_ratio, "% │");
    push_amount_row(out, "│ 毛利率          │ ", &rep.gross_margin, "% │");
    push_amount_row(out, "│ 净利率          │ ", &rep.net_margin, "% │");
    assert(out@ =~= old(out)@ + earnings_rows_text(*rep));
}

#[verifier::rlimit(50)]
fn push_latest_earnings(out: &mut String, rep: &EarningsReport)
    requires
        rep.wf(),
    ensures
        final(out)@ == old(out)@ + latest_earnings_text(*rep),
{
    out.append("✅ 数据获取成功\n\n📅 最新财报:\n   报告期: ");
    out.append(rep.report_date.as_str());
    out.append("\n   报告类型: ");
    out.append(rep.report_type.as_str());
    out.append(
        "\n\n┌─────────────────┬─────────────┐\n│ 指标            │ 数值        │\n├─────────────────┼─────────────┤\n",
    );
    push_earnings_rows(out, rep);
    out.append("└─────────────────┴─────────────┘\n");
    match &rep.announce_date {
        Some(d) => {
            out.append("\n📢 公告日期: ");
            out.append(d.as_str());
            out.append("\n");
        },
        None => {},
    }
    assert(out@ =~= old(out)@ + latest_earnings_text(*rep));
}

fn push_history_cards(out: &mut String, rs: &Vec<EarningsReport>)
    requires
        forall|i: int| 0 <= i < rs.len() ==> (#[trigger] rs[i]).wf(),
    ensures
        final(out)@ == old(out)@ + history_cards_text(rs@),
{
    let mut i: usize = 0;
    while i < rs.len()
        invariant
            i <= rs.len(),
            forall|k: int| 0 <= k < rs.len() ==> (#[trigger] rs[k]).wf(),
            out@ == old(out)@ + history_cards_text(rs@.take(i as int)),
        decreases rs.len() - i,
    {
        assert(rs@.take(i + 1).drop_last() =~= rs@.take(i as int));
        push_history_card(out, &rs[i]);
        assert(out@ =~= old(out)@ + history_cards_text(rs@.take(i + 1)));
        i = i + 1;
    }
    assert(rs@.take(i as int) =~= rs@);
}

/// The text `fundamental earnings` prints. With one year it fetches the
/// latest report and prints its table; with more, a card per report.
#[verifier::rlimit(50)]
pub fn render_fundamental_earnings(code: &str, years: u32, fetched: &EarningsFetch) -> (r: String)
    requires
        (years == 1) == (fetched is Latest),
        fetched matches EarningsFetch::Latest(Ok(rep)) ==> rep.wf(),
        fetched matches EarningsFetch::History(Ok(rs)) ==> forall|i: int|
            0 <= i < rs.len() ==> (#[trigger] rs[i]).wf(),
    ensures
        r@ == earnings_report_text(code@, years as nat, *fetched),
{
    let mut out = String::new();
    out.append("📋 财报数据\n   代码: ");
    out.append(code);
    out.append("\n   年数: ");
    push_u64(&mut out, years as u64);
    out.append("\n\n⏳ 正在获取财报数据...\n");
    match fetched {
        EarningsFetch::Latest(Ok(rep)) => {
            push_latest_earnings(&mut out, rep);
        },
        EarningsFetch::History(Ok(rs)) => {
            out.append("✅ 获取到 ");
            push_u64(&mut out, rs.len() as u64);
            out.append(" 期财报数据\n\n");
            push_history_cards(&mut out, rs);
        },
        EarningsFetch::Latest(Err(e)) => {
            push_fetch_failure(&mut out, e.as_str());
        },
        EarningsFetch::History(Err(e)) => {
            push_fetch_failure(&mut out, e.as_str());
        },
    }
    assert(out@ =~= earnings_report_text(code@, years as nat, *fetched));
    out
}

/// What `fundamental dividend` prints: the feature is not offered yet, and
/// the commands that show other fundamentals of the stock.
pub open spec fn dividend_notice_text(code: Seq<char>, years: nat) -> Seq<char> {
    "💰 分红信息\n   代码: "@ + code + "\n   年数: "@ + dec_text(years)
        + "\n\n🚧 功能开发中...\n\n📊 分红数据获取功能即将上线，敬请期待！\n\n💡 您可以先使用以下命令查看其他基本面数据:\n   - quantix fundamental valuation "@
        + code + "   # 估值指标\n   - quantix fundamental earnings "@ + code
        + "    # 财报数据\n   - quantix fundamental institution "@ + code + " # 机构持仓\n"@
}

/// The text `fundamental dividend` prints.
pub fn render_fundamental_dividend(code: &str, years: u32) -> (r: String)
    ensures
        r@ == dividend_notice_text(code@, years as nat),
{
    let mut out = String::new();
    out.append("💰 分红信息\n   代码: ");
    out.append(code);
    out.append("\n   年数: ");
    push_u64(&mut out, years as u64);
    out.append(
        "\n\n🚧 功能开发中...\n\n📊 分红数据获取功能即将上线，敬请期待！\n\n💡 您可以先使用以下命令查看其他基本面数据:\n   - quantix fundamental valuation ",
    );
    out.append(code);
    out.append("   # 估值指标\n   - quantix fundamental earnings ");
    out.append(code);
    out.append("    # 财报数据\n   - quantix fundamental institution ");
    out.append(code);
    out.append(" # 机构持仓\n");
    assert(out@ =~= dividend_notice_text(code@, years as nat));
    out
}

} // verus!
