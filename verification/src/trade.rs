//! Paper trading: names of trade sides and quote states, the wording of
//! request errors per command, and the text of every `trade` report.
use vstd::prelude::*;
use crate::error::QuantixError;
use crate::decimal::{decimal_display, decimal_display_text, DecimalValue};
use crate::text::{
    dec_text, int_text, line, pad_right, push_i64, push_line, push_padded, push_repeat, push_u64, replace_str, replace_text,
    repeat_text,
};

verus! {

/// Buy or sell.
#[derive(Clone, Copy, Debug, PartialEq, Eq)]
pub enum TradeSide {
    Buy,
    Sell,
}

/// Where the price of a current position comes from.
#[derive(Clone, Copy, Debug, PartialEq, Eq)]
pub enum TradeQuoteStatus {
    BookOnly,
    Live,
    Missing,
}

/// The name of a trade side.
pub open spec fn trade_side_text(side: TradeSide) -> Seq<char> {
    match side {
        TradeSide::Buy => "买入"@,
        TradeSide::Sell => "卖出"@,
    }
}

/// The name of a trade side: 买入 or 卖出.
pub fn format_trade_side_label(side: TradeSide) -> (r: &'static str)
    ensures
        r@ == trade_side_text(side),
{
    match side {
        TradeSide::Buy => "买入",
        TradeSide::Sell => "卖出",
    }
}

/// The name of a quote state.
pub open spec fn quote_status_text(status: TradeQuoteStatus) -> Seq<char> {
    match status {
        TradeQuoteStatus::BookOnly => "book"@,
        TradeQuoteStatus::Live => "live"@,
        TradeQuoteStatus::Missing => "missing"@,
    }
}

/// The name of a quote state: `book`, `live` or `missing`.
pub fn format_trade_quote_status(status: TradeQuoteStatus) -> (r: &'static str)
    ensures
        r@ == quote_status_text(status),
{
    match status {
        TradeQuoteStatus::BookOnly => "book",
        TradeQuoteStatus::Live => "live",
        TradeQuoteStatus::Missing => "missing",
    }
}

/// The message of a remapped `Other` error.
pub open spec fn remapped_message(message: Seq<char>, command_name: Seq<char>) -> Seq<char> {
    replace_text(replace_text(message, "trade init"@, command_name), "trade order"@, command_name)
}

/// The request error worded for `command_name`: `trade init` and `trade order`
/// in an `Other` message become the command's name; other kinds are kept.
pub fn remap_trade_request_error(err: QuantixError, command_name: &str) -> (r: QuantixError)
    ensures
        match err {
            QuantixError::Other(m) => r matches QuantixError::Other(x) && x@ == remapped_message(
                m@,
                command_name@,
            ),
            _ => r == err,
        },
{
    proof {
        reveal_strlit("trade init");
        reveal_strlit("trade order");
    }
    match err {
        QuantixError::Other(message) => {
            let once = replace_str(message.as_str(), "trade init", command_name);
            QuantixError::Other(replace_str(once.as_str(), "trade order", command_name))
        },
        other => other,
    }
}

/// An executed paper trade.
#[derive(Clone, Debug, PartialEq, Eq)]
pub struct TradeRecord {
    pub code: String,
    pub side: TradeSide,
    pub volume: i64,
    pub price: DecimalValue,
    pub amount: DecimalValue,
    pub total_fee: DecimalValue,
}

/// The amounts of the trade can be printed.
pub open spec fn trade_record_wf(r: TradeRecord) -> bool {
    r.price.wf() && r.amount.wf() && r.total_fee.wf()
}

/// The name of the trade's side: 买入 or 卖出.
pub fn format_trade_side(record: &TradeRecord) -> (r: &'static str)
    ensures
        r@ == trade_side_text(record.side),
{
    format_trade_side_label(record.side)
}

/// What an executed trade prints: side, code, volume and price, then the
/// amount and the total fee.
pub open spec fn trade_record_text(r: TradeRecord) -> Seq<char> {
    line(
        "✅ 已"@ + trade_side_text(r.side) + " "@ + r.code@ + " "@ + int_text(r.volume as int)
            + " 股 @ "@ + decimal_display_text(r.price),
    ) + line("成交额: "@ + decimal_display_text(r.amount)) + line(
        "总费用: "@ + decimal_display_text(r.total_fee),
    )
}

/// The text printed for an executed trade.
pub fn render_trade_record(record: &TradeRecord) -> (r: String)
    requires
        trade_record_wf(*record),
    ensures
        r@ == trade_record_text(*record),
{
    let mut first = "✅ 已".to_string();
    first.append(format_trade_side(record));
    first.append(" ");
    first.append(record.code.as_str());
    first.append(" ");
    push_i64(&mut first, record.volume);
    first.append(" 股 @ ");
    let price = decimal_display(&record.price);
    first.append(price.as_str());
    let mut out = String::new();
    push_line(&mut out, first.as_str());
    let mut second = "成交额: ".to_string();
    let amount = decimal_display(&record.amount);
    second.append(amount.as_str());
    push_line(&mut out, second.as_str());
    let mut third = "总费用: ".to_string();
    let fee = decimal_display(&record.total_fee);
    third.append(fee.as_str());
    push_line(&mut out, third.as_str());
    out
}


/// The decimal as `Display` prints it, left aligned in a column of `width`.
pub open spec fn decimal_cell(d: DecimalValue, width: nat) -> Seq<char> {
    pad_right(decimal_display_text(d), width)
}

/// An optional decimal as printed, or `-`.
pub open spec fn opt_decimal_text(d: Option<DecimalValue>) -> Seq<char> {
    match d {
        Some(x) => decimal_display_text(x),
        None => "-"@,
    }
}

/// An optional decimal can be printed.
pub open spec fn opt_wf(d: Option<DecimalValue>) -> bool {
    d matches Some(x) ==> x.wf()
}

fn push_decimal_cell(out: &mut String, d: &DecimalValue, width: usize)
    requires
        d.wf(),
    ensures
        final(out)@ == old(out)@ + decimal_cell(*d, width as nat),
{
    let t = decimal_display(d);
    push_padded(out, t.as_str(), width);
}

fn opt_decimal_string(d: &Option<DecimalValue>) -> (r: String)
    requires
        opt_wf(*d),
    ensures
        r@ == opt_decimal_text(*d),
{
    match d {
        Some(x) => decimal_display(x),
        None => "-".to_string(),
    }
}

fn push_labeled_decimal(out: &mut String, label: &str, d: &DecimalValue)
    requires
        d.wf(),
    ensures
        final(out)@ == old(out)@ + line(label@ + decimal_display_text(*d)),
{
    let mut l = label.to_string();
    let t = decimal_display(d);
    l.append(t.as_str());
    push_line(out, l.as_str());
}

fn push_rule(out: &mut String, n: usize)
    ensures
        final(out)@ == old(out)@ + line(repeat_text("-"@, n as nat)),
{
    let mut dashes = String::new();
    push_repeat(&mut dashes, "-", n);
    push_line(out, dashes.as_str());
}

/// A paper trading account: its capital, cash and fee rates.
#[derive(Clone, Debug, PartialEq, Eq)]
pub struct TradeAccountView {
    pub account_id: String,
    pub initial_capital: DecimalValue,
    pub available_cash: DecimalValue,
    pub commission_rate: DecimalValue,
    pub commission_min: DecimalValue,
    pub stamp_duty_rate: DecimalValue,
    pub transfer_fee_rate: DecimalValue,
}

impl TradeAccountView {
    /// Every amount can be printed.
    pub open spec fn wf(self) -> bool {
        &&& self.initial_capital.wf()
        &&& self.available_cash.wf()
        &&& self.commission_rate.wf()
        &&& self.commission_min.wf()
        &&& self.stamp_duty_rate.wf()
        &&& self.transfer_fee_rate.wf()
    }
}

/// The summary of an account after `trade init` or `trade reset`.
pub open spec fn account_summary_text(a: TradeAccountView) -> Seq<char> {
    line("初始资金: "@ + decimal_display_text(a.initial_capital)) + line(
        "可用资金: "@ + decimal_display_text(a.available_cash),
    ) + line("佣金费率: "@ + decimal_display_text(a.commission_rate)) + line(
        "最低佣金: "@ + decimal_display_text(a.commission_min),
    ) + line("印花税率: "@ + decimal_display_text(a.stamp_duty_rate)) + line(
        "过户费率: "@ + decimal_display_text(a.transfer_fee_rate),
    )
}

/// The account summary `trade init` and `trade reset` print.
pub fn render_trade_account_summary(a: &TradeAccountView) -> (r: String)
    requires
        a.wf(),
    ensures
        r@ == account_summary_text(*a),
{
    let mut out = String::new();
    push_labeled_decimal(&mut out, "初始资金: ", &a.initial_capital);
    push_labeled_decimal(&mut out, "可用资金: ", &a.available_cash);
    push_labeled_decimal(&mut out, "佣金费率: ", &a.commission_rate);
    push_labeled_decimal(&mut out, "最低佣金: ", &a.commission_min);
    push_labeled_decimal(&mut out, "印花税率: ", &a.stamp_duty_rate);
    push_labeled_decimal(&mut out, "过户费率: ", &a.transfer_fee_rate);
    assert(out@ =~= account_summary_text(*a));
    out
}

/// The cash position of the paper account.
#[derive(Clone, Copy, Debug, PartialEq, Eq)]
pub struct CashSnapshot {
    pub initial_capital: DecimalValue,
    pub available_cash: DecimalValue,
    pub estimated_position_value: DecimalValue,
    pub estimated_total_assets: DecimalValue,
}

/// `trade cash`: capital, cash, position value and total.
pub open spec fn cash_text(c: CashSnapshot) -> Seq<char> {
    line("初始资金: "@ + decimal_display_text(c.initial_capital)) + line(
        "可用现金: "@ + decimal_display_text(c.available_cash),
    ) + line("持仓估值: "@ + decimal_display_text(c.estimated_position_value)) + line(
        "总资产估算: "@ + decimal_display_text(c.estimated_total_assets),
    )
}

/// The text `trade cash` prints.
pub fn render_trade_cash(c: &CashSnapshot) -> (r: String)
    requires
        c.initial_capital.wf(),
        c.available_cash.wf(),
        c.estimated_position_value.wf(),
        c.estimated_total_assets.wf(),
    ensures
        r@ == cash_text(*c),
{
    let mut out = String::new();
    push_labeled_decimal(&mut out, "初始资金: ", &c.initial_capital);
    push_labeled_decimal(&mut out, "可用现金: ", &c.available_cash);
    push_labeled_decimal(&mut out, "持仓估值: ", &c.estimated_position_value);
    push_labeled_decimal(&mut out, "总资产估算: ", &c.estimated_total_assets);
    assert(out@ =~= cash_text(*c));
    out
}

/// The booked view of the paper account, with the live valuation when
/// quotes were looked up.
#[derive(Clone, Copy, Debug, PartialEq, Eq)]
pub struct TradeOverview {
    pub initial_capital: DecimalValue,
    pub available_cash: DecimalValue,
    pub booked_position_value: DecimalValue,
    pub booked_total_assets: DecimalValue,
    pub trade_count: u64,
    pub holding_count: u64,
    pub total_buy_amount: DecimalValue,
    pub total_sell_amount: DecimalValue,
    pub total_fee: DecimalValue,
    pub quote_coverage: Option<(u64, u64)>,
    pub live_position_value: Option<DecimalValue>,
    pub live_total_assets: Option<DecimalValue>,
}

impl TradeOverview {
    /// Every amount can be printed.
    pub open spec fn wf(self) -> bool {
        &&& self.initial_capital.wf()
        &&& self.available_cash.wf()
        &&& self.booked_position_value.wf()
        &&& self.booked_total_assets.wf()
        &&& self.total_buy_amount.wf()
        &&& self.total_sell_amount.wf()
        &&& self.total_fee.wf()
        &&& opt_wf(self.live_position_value)
        &&& opt_wf(self.live_total_assets)
    }
}

/// The booked lines of `trade overview`.
pub open spec fn overview_booked_text(o: TradeOverview) -> Seq<char> {
    line("初始资金: "@ + decimal_display_text(o.initial_capital)) + line(
        "可用现金: "@ + decimal_display_text(o.available_cash),
    ) + line("账面持仓估值: "@ + decimal_display_text(o.booked_position_value)) + line(
        "账面总资产: "@ + decimal_display_text(o.booked_total_assets),
    ) + line("成交笔数: "@ + dec_text(o.trade_count as nat)) + line(
        "持仓数: "@ + dec_text(o.holding_count as nat),
    ) + line("累计买入额: "@ + decimal_display_text(o.total_buy_amount)) + line(
        "累计卖出额: "@ + decimal_display_text(o.total_sell_amount),
    ) + line("累计费用: "@ + decimal_display_text(o.total_fee))
}

/// The live lines of `trade overview`, each when known.
pub open spec fn overview_live_text(o: TradeOverview) -> Seq<char> {
    (match o.quote_coverage {
        Some((resolved, total)) => line(
            "实时价格覆盖: "@ + dec_text(resolved as nat) + "/"@ + dec_text(total as nat),
        ),
        None => Seq::empty(),
    }) + (match o.live_position_value {
        Some(v) => line("实时持仓估值: "@ + decimal_display_text(v)),
        None => Seq::empty(),
    }) + (match o.live_total_assets {
        Some(v) => line("实时总资产: "@ + decimal_display_text(v)),
        None => Seq::empty(),
    })
}

/// `trade overview`: the booked figures, then the live ones that are known.
pub open spec fn trade_overview_text(o: TradeOverview) -> Seq<char> {
    overview_booked_text(o) + overview_live_text(o)
}

fn push_labeled_count(out: &mut String, label: &str, n: u64)
    ensures
        final(out)@ == old(out)@ + line(label@ + dec_text(n as nat)),
{
    let mut l = label.to_string();
    push_u64(&mut l, n);
    push_line(out, l.as_str());
}

fn push_overview_booked(out: &mut String, o: &TradeOverview)
    requires
        o.wf(),
    ensures
        final(out)@ == old(out)@ + overview_booked_text(*o),
{
    push_labeled_decimal(out, "初始资金: ", &o.initial_capital);
    push_labeled_decimal(out, "可用现金: ", &o.available_cash);
    push_labeled_decimal(out, "账面持仓估值: ", &o.booked_position_value);
    push_labeled_decimal(out, "账面总资产: ", &o.booked_total_assets);
    push_labeled_count(out, "成交笔数: ", o.trade_count);
    push_labeled_count(out, "持仓数: ", o.holding_count);
    push_labeled_decimal(out, "累计买入额: ", &o.total_buy_amount);
    push_labeled_decimal(out, "累计卖出额: ", &o.total_sell_amount);
    push_labeled_decimal(out, "累计费用: ", &o.total_fee);
    assert(out@ =~= old(out)@ + overview_booked_text(*o));
}

fn push_overview_live(out: &mut String, o: &TradeOverview)
    requires
        o.wf(),
    ensures
        final(out)@ == old(out)@ + overview_live_text(*o),
{
    match o.quote_coverage {
        Some((resolved, total)) => {
            let mut l = "实时价格覆盖: ".to_string();
            push_u64(&mut l, resolved);
            l.append("/");
            push_u64(&mut l, total);
            push_line(out, l.as_str());
        },
        None => {},
    }
    match &o.live_position_value {
        Some(v) => push_labeled_decimal(out, "实时持仓估值: ", v),
        None => {},
    }
    match &o.live_total_assets {
        Some(v) => push_labeled_decimal(out, "实时总资产: ", v),
        None => {},
    }
    assert(out@ =~= old(out)@ + overview_live_text(*o));
}

/// The text `trade overview` prints.
pub fn render_trade_overview(o: &TradeOverview) -> (r: String)
    requires
        o.wf(),
    ensures
        r@ == trade_overview_text(*o),
{
    let mut out = String::new();
    push_overview_booked(&mut out, o);
    push_overview_live(&mut out, o);
    out
}

/// A booked position.
#[derive(Clone, Debug, PartialEq, Eq)]
pub struct TradePosition {
    pub code: String,
    pub volume: i64,
    pub avg_cost: DecimalValue,
    pub last_trade_price: DecimalValue,
}

/// One line of the positions: code, volume, cost and last trade price.
pub open spec fn position_line(p: TradePosition) -> Seq<char> {
    line(pad_right(p.code@, 10) + " "@ + pad_right(int_text(p.volume as int), 10) + " "@ + decimal_cell(
        p.avg_cost,
        14,
    ) + " "@ + decimal_display_text(p.last_trade_price))
}

/// The lines of the positions, in order.
pub open spec fn position_lines(ps: Seq<TradePosition>) -> Seq<char>
    decreases ps.len(),
{
    if ps.len() == 0 {
        Seq::empty()
    } else {
        position_lines(ps.drop_last()) + position_line(ps.last())
    }
}

/// `trade position`: a notice without positions, else a header, a rule of
/// 56 dashes and one line per position.
pub open spec fn positions_text(ps: Seq<TradePosition>) -> Seq<char> {
    if ps.len() == 0 {
        line("📭 暂无持仓"@)
    } else {
        line(pad_right("代码"@, 10) + " "@ + pad_right("数量"@, 10) + " "@ + pad_right("持仓成本"@, 14)
            + " 最新成交价"@) + line(repeat_text("-"@, 56)) + position_lines(ps)
    }
}

fn position_line_text(p: &TradePosition) -> (r: String)
    requires
        p.avg_cost.wf(),
        p.last_trade_price.wf(),
    ensures
        line(r@) == position_line(*p),
{
    let mut s = String::new();
    push_padded(&mut s, p.code.as_str(), 10);
    s.append(" ");
    let mut v = String::new();
    push_i64(&mut v, p.volume);
    push_padded(&mut s, v.as_str(), 10);
    s.append(" ");
    push_decimal_cell(&mut s, &p.avg_cost, 14);
    s.append(" ");
    let t = decimal_display(&p.last_trade_price);
    s.append(t.as_str());
    assert(s@ =~= pad_right(p.code@, 10) + " "@ + pad_right(int_text(p.volume as int), 10) + " "@
        + decimal_cell(p.avg_cost, 14) + " "@ + decimal_display_text(p.last_trade_price));
    s
}

/// The text `trade position` prints.
pub fn render_trade_positions(ps: &Vec<TradePosition>) -> (r: String)
    requires
        forall|i: int| 0 <= i < ps.len() ==> (#[trigger] ps[i]).avg_cost.wf() && ps[i].last_trade_price.wf(),
    ensures
        r@ == positions_text(ps@),
{
    let mut out = String::new();
    if ps.len() == 0 {
        push_line(&mut out, "📭 暂无持仓");
        return out;
    }
    let mut header = String::new();
    push_padded(&mut header, "代码", 10);
    header.append(" ");
    push_padded(&mut header, "数量", 10);
    header.append(" ");
    push_padded(&mut header, "持仓成本", 14);
    header.append(" 最新成交价");
    push_line(&mut out, header.as_str());
    push_rule(&mut out, 56);
    let ghost head = out@;
    assert(head =~= line(pad_right("代码"@, 10) + " "@ + pad_right("数量"@, 10) + " "@ + pad_right("持仓成本"@, 14)
        + " 最新成交价"@) + line(repeat_text("-"@, 56)));
    let mut i: usize = 0;
    while i < ps.len()
        invariant
            i <= ps.len(),
            forall|k: int| 0 <= k < ps.len() ==> (#[trigger] ps[k]).avg_cost.wf() && ps[k].last_trade_price.wf(),
            out@ == head + position_lines(ps@.take(i as int)),
        decreases ps.len() - i,
    {
        assert(ps@.take(i + 1).drop_last() =~= ps@.take(i as int));
        let l = position_line_text(&ps[i]);
        push_line(&mut out, l.as_str());
        assert(out@ =~= head + position_lines(ps@.take(i + 1)));
        i = i + 1;
    }
    assert(ps@.take(i as int) =~= ps@);
    out
}


/// A position valued at the current quote, when one was found.
#[derive(Clone, Debug, PartialEq, Eq)]
pub struct TradePositionCurrentRow {
    pub code: String,
    pub volume: i64,
    pub avg_cost: DecimalValue,
    pub last_trade_price: DecimalValue,
    pub current_price: Option<DecimalValue>,
    pub current_market_value: Option<DecimalValue>,
    pub unrealized_pnl: Option<DecimalValue>,
    pub quote_status: TradeQuoteStatus,
}

impl TradePositionCurrentRow {
    /// Every amount can be printed.
    pub open spec fn wf(self) -> bool {
        &&& self.avg_cost.wf()
        &&& self.last_trade_price.wf()
        &&& opt_wf(self.current_price)
        &&& opt_wf(self.current_market_value)
        &&& opt_wf(self.unrealized_pnl)
    }
}

/// One line of the current positions.
pub open spec fn current_position_line(p: TradePositionCurrentRow) -> Seq<char> {
    line(pad_right(p.code@, 10) + " "@ + pad_right(int_text(p.volume as int), 10) + " "@ + decimal_cell(
        p.avg_cost,
        14,
    ) + " "@ + decimal_cell(p.last_trade_price, 12) + " "@ + pad_right(opt_decimal_text(p.current_price), 12)
        + " "@ + pad_right(opt_decimal_text(p.current_market_value), 12) + " "@ + pad_right(
        opt_decimal_text(p.unrealized_pnl),
        12,
    ) + " "@ + quote_status_text(p.quote_status))
}

/// The lines of the current positions, in order.
pub open spec fn current_position_lines(ps: Seq<TradePositionCurrentRow>) -> Seq<char>
    decreases ps.len(),
{
    if ps.len() == 0 {
        Seq::empty()
    } else {
        current_position_lines(ps.drop_last()) + current_position_line(ps.last())
    }
}

/// The header of `trade position --current`.
pub open spec fn current_positions_header() -> Seq<char> {
    line(pad_right("代码"@, 10) + " "@ + pad_right("数量"@, 10) + " "@ + pad_right("持仓成本"@, 14) + " "@
        + pad_right("最新成交价"@, 12) + " "@ + pad_right("当前价"@, 12) + " "@ + pad_right("当前市值"@, 12)
        + " "@ + pad_right("浮盈亏"@, 12) + " 价格状态"@) + line(repeat_text("-"@, 112))
}

/// `trade position --current`: a notice without positions, else a header,
/// a rule of 112 dashes and one line per position.
pub open spec fn current_positions_text(ps: Seq<TradePositionCurrentRow>) -> Seq<char> {
    if ps.len() == 0 {
        line("📭 暂无持仓"@)
    } else {
        current_positions_header() + current_position_lines(ps)
    }
}

fn current_position_line_text(p: &TradePositionCurrentRow) -> (r: String)
    requires
        p.wf(),
    ensures
        line(r@) == current_position_line(*p),
{
    let mut s = String::new();
    push_padded(&mut s, p.code.as_str(), 10);
    s.append(" ");
    let mut v = String::new();
    push_i64(&mut v, p.volume);
    push_padded(&mut s, v.as_str(), 10);
    s.append(" ");
    push_decimal_cell(&mut s, &p.avg_cost, 14);
    s.append(" ");
    push_decimal_cell(&mut s, &p.last_trade_price, 12);
    s.append(" ");
    let c = opt_decimal_string(&p.current_price);
    push_padded(&mut s, c.as_str(), 12);
    s.append(" ");
    let m = opt_decimal_string(&p.current_market_value);
    push_padded(&mut s, m.as_str(), 12);
    s.append(" ");
    let u = opt_decimal_string(&p.unrealized_pnl);
    push_padded(&mut s, u.as_str(), 12);
    s.append(" ");
    s.append(format_trade_quote_status(p.quote_status));
    assert(line(s@) =~= current_position_line(*p));
    s
}

fn push_current_positions_header(out: &mut String)
    ensures
        final(out)@ == old(out)@ + current_positions_header(),
{
    let mut h = String::new();
    push_padded(&mut h, "代码", 10);
    h.append(" ");
    push_padded(&mut h, "数量", 10);
    h.append(" ");
    push_padded(&mut h, "持仓成本", 14);
    h.append(" ");
    push_padded(&mut h, "最新成交价", 12);
    h.append(" ");
    push_padded(&mut h, "当前价", 12);
    h.append(" ");
    push_padded(&mut h, "当前市值", 12);
    h.append(" ");
    push_padded(&mut h, "浮盈亏", 12);
    h.append(" 价格状态");
    push_line(out, h.as_str());
    push_rule(out, 112);
    assert(out@ =~= old(out)@ + current_positions_header());
}

/// The text `trade position --current` prints.
pub fn render_trade_current_positions(ps: &Vec<TradePositionCurrentRow>) -> (r: String)
    requires
        forall|i: int| 0 <= i < ps.len() ==> (#[trigger] ps[i]).wf(),
    ensures
        r@ == current_positions_text(ps@),
{
    let mut out = String::new();
    if ps.len() == 0 {
        push_line(&mut out, "📭 暂无持仓");
        return out;
    }
    push_current_positions_header(&mut out);
    let ghost head = out@;
    let mut i: usize = 0;
    while i < ps.len()
        invariant
            i <= ps.len(),
            forall|k: int| 0 <= k < ps.len() ==> (#[trigger] ps[k]).wf(),
            out@ == head + current_position_lines(ps@.take(i as int)),
            head == current_positions_header(),
        decreases ps.len() - i,
    {
        assert(ps@.take(i + 1).drop_last() =~= ps@.take(i as int));
        let l = current_position_line_text(&ps[i]);
        push_line(&mut out, l.as_str());
        assert(out@ =~= head + current_position_lines(ps@.take(i + 1)));
        i = i + 1;
    }
    assert(ps@.take(i as int) =~= ps@);
    out
}

/// One executed trade in the history; the time as printed.
#[derive(Clone, Debug, PartialEq, Eq)]
pub struct TradeHistoryRow {
    pub executed_at_text: String,
    pub code: String,
    pub side: TradeSide,
    pub price: DecimalValue,
    pub volume: i64,
    pub amount: DecimalValue,
    pub total_fee: DecimalValue,
    pub net_cash_impact: DecimalValue,
}

impl TradeHistoryRow {
    /// Every amount can be printed.
    pub open spec fn wf(self) -> bool {
        self.price.wf() && self.amount.wf() && self.total_fee.wf() && self.net_cash_impact.wf()
    }
}

/// One line of the trade history.
pub open spec fn history_line(r: TradeHistoryRow) -> Seq<char> {
    line(pad_right(r.executed_at_text@, 20) + " "@ + pad_right(r.code@, 10) + " "@ + pad_right(
        trade_side_text(r.side),
        6,
    ) + " "@ + decimal_cell(r.price, 10) + " "@ + pad_right(int_text(r.volume as int), 8) + " "@
        + decimal_cell(r.amount, 12) + " "@ + decimal_cell(r.total_fee, 10) + " "@ + decimal_display_text(
        r.net_cash_impact,
    ))
}

/// The lines of the history, in order.
pub open spec fn history_lines(rows: Seq<TradeHistoryRow>) -> Seq<char>
    decreases rows.len(),
{
    if rows.len() == 0 {
        Seq::empty()
    } else {
        history_lines(rows.drop_last()) + history_line(rows.last())
    }
}

/// The header of `trade history`.
pub open spec fn history_header() -> Seq<char> {
    line(pad_right("时间"@, 20) + " "@ + pad_right("代码"@, 10) + " "@ + pad_right("方向"@, 6) + " "@
        + pad_right("价格"@, 10) + " "@ + pad_right("数量"@, 8) + " "@ + pad_right("成交额"@, 12) + " "@
        + pad_right("费用"@, 10) + " 净现金影响"@) + line(repeat_text("-"@, 100))
}

/// `trade history`: a notice without trades, else a header, a rule of 100
/// dashes and one line per trade.
pub open spec fn history_text(rows: Seq<TradeHistoryRow>) -> Seq<char> {
    if rows.len() == 0 {
        line("📭 暂无成交历史"@)
    } else {
        history_header() + history_lines(rows)
    }
}

fn history_line_text(r: &TradeHistoryRow) -> (out: String)
    requires
        r.wf(),
    ensures
        line(out@) == history_line(*r),
{
    let mut s = String::new();
    push_padded(&mut s, r.executed_at_text.as_str(), 20);
    s.append(" ");
    push_padded(&mut s, r.code.as_str(), 10);
    s.append(" ");
    push_padded(&mut s, format_trade_side_label(r.side), 6);
    s.append(" ");
    push_decimal_cell(&mut s, &r.price, 10);
    s.append(" ");
    let mut v = String::new();
    push_i64(&mut v, r.volume);
    push_padded(&mut s, v.as_str(), 8);
    s.append(" ");
    push_decimal_cell(&mut s, &r.amount, 12);
    s.append(" ");
    push_decimal_cell(&mut s, &r.total_fee, 10);
    s.append(" ");
    let n = decimal_display(&r.net_cash_impact);
    s.append(n.as_str());
    assert(line(s@) =~= history_line(*r));
    s
}

fn push_history_header(out: &mut String)
    ensures
        final(out)@ == old(out)@ + history_header(),
{
    let mut h = String::new();
    push_padded(&mut h, "时间", 20);
    h.append(" ");
    push_padded(&mut h, "代码", 10);
    h.append(" ");
    push_padded(&mut h, "方向", 6);
    h.append(" ");
    push_padded(&mut h, "价格", 10);
    h.append(" ");
    push_padded(&mut h, "数量", 8);
    h.append(" ");
    push_padded(&mut h, "成交额", 12);
    h.append(" ");
    push_padded(&mut h, "费用", 10);
    h.append(" 净现金影响");
    push_line(out, h.as_str());
    push_rule(out, 100);
    assert(out@ =~= old(out)@ + history_header());
}

/// The text `trade history` prints.
pub fn render_trade_history_rows(rows: &Vec<TradeHistoryRow>) -> (r: String)
    requires
        forall|i: int| 0 <= i < rows.len() ==> (#[trigger] rows[i]).wf(),
    ensures
        r@ == history_text(rows@),
{
    let mut out = String::new();
    if rows.len() == 0 {
        push_line(&mut out, "📭 暂无成交历史");
        return out;
    }
    push_history_header(&mut out);
    let ghost head = out@;
    let mut i: usize = 0;
    while i < rows.len()
        invariant
            i <= rows.len(),
            forall|k: int| 0 <= k < rows.len() ==> (#[trigger] rows[k]).wf(),
            out@ == head + history_lines(rows@.take(i as int)),
            head == history_header(),
        decreases rows.len() - i,
    {
        assert(rows@.take(i + 1).drop_last() =~= rows@.take(i as int));
        let l = history_line_text(&rows[i]);
        push_line(&mut out, l.as_str());
        assert(out@ =~= head + history_lines(rows@.take(i + 1)));
        i = i + 1;
    }
    assert(rows@.take(i as int) =~= rows@);
    out
}

/// The fees of one executed trade; the time as printed.
#[derive(Clone, Debug, PartialEq, Eq)]
pub struct TradeFeeRow {
    pub executed_at_text: String,
    pub code: String,
    pub side: TradeSide,
    pub commission: DecimalValue,
    pub stamp_duty: DecimalValue,
    pub transfer_fee: DecimalValue,
    pub total_fee: DecimalValue,
}

impl TradeFeeRow {
    /// Every amount can be printed.
    pub open spec fn wf(self) -> bool {
        self.commission.wf() && self.stamp_duty.wf() && self.transfer_fee.wf() && self.total_fee.wf()
    }
}

/// One line of the fee details.
pub open spec fn fee_line(r: TradeFeeRow) -> Seq<char> {
    line(pad_right(r.executed_at_text@, 20) + " "@ + pad_right(r.code@, 10) + " "@ + pad_right(
        trade_side_text(r.side),
        6,
    ) + " "@ + decimal_cell(r.commission, 10) + " "@ + decimal_cell(r.stamp_duty, 10) + " "@ + decimal_cell(
        r.transfer_fee,
        10,
    ) + " "@ + decimal_display_text(r.total_fee))
}

/// The lines of the fee details, in order.
pub open spec fn fee_lines(rows: Seq<TradeFeeRow>) -> Seq<char>
    decreases rows.len(),
{
    if rows.len() == 0 {
        Seq::empty()
    } else {
        fee_lines(rows.drop_last()) + fee_line(rows.last())
    }
}

/// The header of `trade fees`.
pub open spec fn fee_header() -> Seq<char> {
    line(pad_right("时间"@, 20) + " "@ + pad_right("代码"@, 10) + " "@ + pad_right("方向"@, 6) + " "@
        + pad_right("佣金"@, 10) + " "@ + pad_right("印花税"@, 10) + " "@ + pad_right("过户费"@, 10)
        + " 总费用"@) + line(repeat_text("-"@, 90))
}

/// `trade fees`: a notice without trades, else a header, a rule of 90
/// dashes and one line per trade.
pub open spec fn fees_text(rows: Seq<TradeFeeRow>) -> Seq<char> {
    if rows.len() == 0 {
        line("📭 暂无费用明细"@)
    } else {
        fee_header() + fee_lines(rows)
    }
}

fn fee_line_text(r: &TradeFeeRow) -> (out: String)
    requires
        r.wf(),
    ensures
        line(out@) == fee_line(*r),
{
    let mut s = String::new();
    push_padded(&mut s, r.executed_at_text.as_str(), 20);
    s.append(" ");
    push_padded(&mut s, r.code.as_str(), 10);
    s.append(" ");
    push_padded(&mut s, format_trade_side_label(r.side), 6);
    s.append(" ");
    push_decimal_cell(&mut s, &r.commission, 10);
    s.append(" ");
    push_decimal_cell(&mut s, &r.stamp_duty, 10);
    s.append(" ");
    push_decimal_cell(&mut s, &r.transfer_fee, 10);
    s.append(" ");
    let t = decimal_display(&r.total_fee);
    s.append(t.as_str());
    assert(line(s@) =~= fee_line(*r));
    s
}

fn push_fee_header(out: &mut String)
    ensures
        final(out)@ == old(out)@ + fee_header(),
{
    let mut h = String::new();
    push_padded(&mut h, "时间", 20);
    h.append(" ");
    push_padded(&mut h, "代码", 10);
    h.append(" ");
    push_padded(&mut h, "方向", 6);
    h.append(" ");
    push_padded(&mut h, "佣金", 10);
    h.append(" ");
    push_padded(&mut h, "印花税", 10);
    h.append(" ");
    push_padded(&mut h, "过户费", 10);
    h.append(" 总费用");
    push_line(out, h.as_str());
    push_rule(out, 90);
    assert(out@ =~= old(out)@ + fee_header());
}

/// The text `trade fees` prints.
pub fn render_trade_fee_rows(rows: &Vec<TradeFeeRow>) -> (r: String)
    requires
        forall|i: int| 0 <= i < rows.len() ==> (#[trigger] rows[i]).wf(),
    ensures
        r@ == fees_text(rows@),
{
    let mut out = String::new();
    if rows.len() == 0 {
        push_line(&mut out, "📭 暂无费用明细");
        return out;
    }
    push_fee_header(&mut out);
    let ghost head = out@;
    let mut i: usize = 0;
    while i < rows.len()
        invariant
            i <= rows.len(),
            forall|k: int| 0 <= k < rows.len() ==> (#[trigger] rows[k]).wf(),
            out@ == head + fee_lines(rows@.take(i as int)),
            head == fee_header(),
        decreases rows.len() - i,
    {
        assert(rows@.take(i + 1).drop_last() =~= rows@.take(i as int));
        let l = fee_line_text(&rows[i]);
        push_line(&mut out, l.as_str());
        assert(out@ =~= head + fee_lines(rows@.take(i + 1)));
        i = i + 1;
    }
    assert(rows@.take(i as int) =~= rows@);
    out
}


/// What a `trade` command produced.
#[derive(Clone, Debug, PartialEq, Eq)]
pub enum TradeCommandOutput {
    AccountInitialized(TradeAccountView),
    AccountReset(TradeAccountView),
    TradeExecuted(TradeRecord),
    HistoryRows(Vec<TradeHistoryRow>),
    FeeRows(Vec<TradeFeeRow>),
    Overview(TradeOverview),
    PositionList(Vec<TradePosition>),
    PositionCurrentList(Vec<TradePositionCurrentRow>),
    Cash(CashSnapshot),
}

/// Every amount of the output can be printed.
pub open spec fn trade_output_wf(o: TradeCommandOutput) -> bool {
    match o {
        TradeCommandOutput::AccountInitialized(a) => a.wf(),
        TradeCommandOutput::AccountReset(a) => a.wf(),
        TradeCommandOutput::TradeExecuted(r) => trade_record_wf(r),
        TradeCommandOutput::HistoryRows(rows) => forall|i: int| 0 <= i < rows.len() ==> (#[trigger] rows[i]).wf(),
        TradeCommandOutput::FeeRows(rows) => forall|i: int| 0 <= i < rows.len() ==> (#[trigger] rows[i]).wf(),
        TradeCommandOutput::Overview(ov) => ov.wf(),
        TradeCommandOutput::PositionList(ps) => forall|i: int|
            0 <= i < ps.len() ==> (#[trigger] ps[i]).avg_cost.wf() && ps[i].last_trade_price.wf(),
        TradeCommandOutput::PositionCurrentList(ps) => forall|i: int| 0 <= i < ps.len() ==> (#[trigger] ps[i]).wf(),
        TradeCommandOutput::Cash(c) => c.initial_capital.wf() && c.available_cash.wf()
            && c.estimated_position_value.wf() && c.estimated_total_assets.wf(),
    }
}

/// What a `trade` command prints for its output: an initialised or reset
/// account is announced before its summary.
pub open spec fn trade_output_text(o: TradeCommandOutput) -> Seq<char> {
    match o {
        TradeCommandOutput::AccountInitialized(a) => line("✅ 已初始化模拟账户 "@ + a.account_id@)
            + account_summary_text(a),
        TradeCommandOutput::AccountReset(a) => line("✅ 已重置模拟账户 "@ + a.account_id@) + account_summary_text(a),
        TradeCommandOutput::TradeExecuted(r) => trade_record_text(r),
        TradeCommandOutput::HistoryRows(rows) => history_text(rows@),
        TradeCommandOutput::FeeRows(rows) => fees_text(rows@),
        TradeCommandOutput::Overview(ov) => trade_overview_text(ov),
        TradeCommandOutput::PositionList(ps) => positions_text(ps@),
        TradeCommandOutput::PositionCurrentList(ps) => current_positions_text(ps@),
        TradeCommandOutput::Cash(c) => cash_text(c),
    }
}

/// The text a `trade` command prints for its output.
pub fn render_trade_command_output(o: &TradeCommandOutput) -> (r: String)
    requires
        trade_output_wf(*o),
    ensures
        r@ == trade_output_text(*o),
{
    match o {
        TradeCommandOutput::AccountInitialized(a) => {
            let mut head = "✅ 已初始化模拟账户 ".to_string();
            head.append(a.account_id.as_str());
            let mut out = String::new();
            push_line(&mut out, head.as_str());
            let body = render_trade_account_summary(a);
            out.append(body.as_str());
            out
        },
        TradeCommandOutput::AccountReset(a) => {
            let mut head = "✅ 已重置模拟账户 ".to_string();
            head.append(a.account_id.as_str());
            let mut out = String::new();
            push_line(&mut out, head.as_str());
            let body = render_trade_account_summary(a);
            out.append(body.as_str());
            out
        },
        TradeCommandOutput::TradeExecuted(r) => render_trade_record(r),
        TradeCommandOutput::HistoryRows(rows) => render_trade_history_rows(rows),
        TradeCommandOutput::FeeRows(rows) => render_trade_fee_rows(rows),
        TradeCommandOutput::Overview(ov) => render_trade_overview(ov),
        TradeCommandOutput::PositionList(ps) => render_trade_positions(ps),
        TradeCommandOutput::PositionCurrentList(ps) => render_trade_current_positions(ps),
        TradeCommandOutput::Cash(c) => render_trade_cash(c),
    }
}

} // verus!
