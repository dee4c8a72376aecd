use quantix::decimal::DecimalValue;
use quantix::fundamental::{
    render_fundamental_dividend, render_fundamental_earnings, render_fundamental_valuation,
    EarningsFetch, EarningsReport, ValuationMetrics,
};

fn dec(mantissa: i64, scale: u32) -> DecimalValue {
    DecimalValue::new(mantissa, scale)
}

fn report(date: &str, yoy: Option<DecimalValue>) -> EarningsReport {
    EarningsReport {
        report_date: date.to_string(),
        report_type: "年报".to_string(),
        revenue: Some(dec(150512, 2)),
        revenue_yoy: None,
        net_profit: Some(dec(74734, 2)),
        net_profit_yoy: yoy,
        net_profit_deducted: None,
        operating_cash_flow: None,
        total_assets: None,
        net_assets: None,
        debt_ratio: Some(dec(1987, 2)),
        gross_margin: None,
        net_margin: None,
        announce_date: None,
    }
}

#[test]
fn valuation_report_lists_every_figure() {
    let metrics = ValuationMetrics {
        pe_ttm: Some(dec(2345, 2)),
        pe_static: None,
        pb: Some(dec(81234, 4)),
        ps: None,
        market_cap: Some(dec(-5, 1)),
        float_market_cap: None,
        dividend_yield: Some(dec(3, 0)),
        eps: None,
        bvps: None,
        roe: None,
        gross_margin: None,
        net_margin: None,
        date: "2024-06-30".to_string(),
    };
    let text = render_fundamental_valuation("600519", &Ok(metrics));
    let expected = "📈 估值指标\n   代码: 600519\n\n⏳ 正在获取估值数据...\n\
✅ 数据获取成功\n\n┌─────────────────┬─────────────┐\n│ 指标            │ 数值        │\n├─────────────────┼─────────────┤\n\
│ 市盈率 (TTM)    │ 23.45 │\n\
│ 市盈率 (静态)   │ - │\n\
│ 市净率          │ 8.12 │\n\
│ 市销率          │ - │\n\
│ 总市值          │ -0.50 亿 │\n\
│ 流通市值        │ - 亿 │\n\
│ 股息率          │ 3.00% │\n\
│ 每股收益        │ - │\n\
│ 每股净资产      │ - │\n\
│ 净资产收益率    │ -% │\n\
│ 毛利率          │ -% │\n\
│ 净利率          │ -% │\n\
└─────────────────┴─────────────┘\n\n📅 数据日期: 2024-06-30\n";
    assert_eq!(text, expected);
}

#[test]
fn valuation_failure_gives_hint() {
    let text = render_fundamental_valuation("000001", &Err("timeout".to_string()));
    assert_eq!(
        text,
        "📈 估值指标\n   代码: 000001\n\n⏳ 正在获取估值数据...\n❌ 获取数据失败: timeout\n\n💡 请检查股票代码是否正确，或稍后重试\n"
    );
}

#[test]
fn latest_earnings_table() {
    let mut latest = report("2023-12-31", Some(dec(1912, 2)));
    latest.announce_date = Some("2024-04-02".to_string());
    let text = render_fundamental_earnings("600519", 1, &EarningsFetch::Latest(Ok(latest)));
    let expected = "📋 财报数据\n   代码: 600519\n   年数: 1\n\n⏳ 正在获取财报数据...\n\
✅ 数据获取成功\n\n📅 最新财报:\n   报告期: 2023-12-31\n   报告类型: 年报\n\n\
┌─────────────────┬─────────────┐\n│ 指标            │ 数值        │\n├─────────────────┼─────────────┤\n\
│ 营业收入        │ 1505.12 亿 │\n\
│ 营收同比        │ -% │\n\
│ 净利润          │ 747.34 亿 │\n\
│ 净利润同比      │ 19.12% │\n\
│ 扣非净利润      │ - 亿 │\n\
│ 经营现金流      │ - 亿 │\n\
│ 总资产          │ - 亿 │\n\
│ 净资产          │ - 亿 │\n\
│ 资产负债率      │ 19.87% │\n\
│ 毛利率          │ -% │\n\
│ 净利率          │ -% │\n\
└─────────────────┴─────────────┘\n\n📢 公告日期: 2024-04-02\n";
    assert_eq!(text, expected);
}

#[test]
fn earnings_history_cards_show_trend() {
    let reports = vec![
        report("2023-12-31", Some(dec(1912, 2))),
        report("2022-12-31", Some(dec(-305, 2))),
        report("2021-12-31", Some(dec(0, 0))),
    ];
    let text = render_fundamental_earnings("600519", 3, &EarningsFetch::History(Ok(reports)));
    let card = |date: &str, yoy: &str| {
        format!(
            "┌─────────────────────────────────────┐\n│ 报告期: {} (年报)          │\n├─────────────────────────────────────┤\n│ 营业收入: 1505.12 亿\n│ 净利润: 747.34 亿\n│ 净利润同比: {}%\n└─────────────────────────────────────┘\n\n",
            date, yoy
        )
    };
    let expected = format!(
        "📋 财报数据\n   代码: 600519\n   年数: 3\n\n⏳ 正在获取财报数据...\n✅ 获取到 3 期财报数据\n\n{}{}{}",
        card("2023-12-31", "↑ 19.12"),
        card("2022-12-31", "↓ -3.05"),
        card("2021-12-31", "→ 0.00")
    );
    assert_eq!(text, expected);
}

#[test]
fn earnings_history_failure() {
    let text = render_fundamental_earnings("600519", 5, &EarningsFetch::History(Err("HTTP 500".to_string())));
    assert!(text.ends_with("❌ 获取数据失败: HTTP 500\n\n💡 请检查股票代码是否正确，或稍后重试\n"));
    assert!(text.starts_with("📋 财报数据\n   代码: 600519\n   年数: 5\n"));
}

#[test]
fn dividend_points_to_other_commands() {
    assert_eq!(
        render_fundamental_dividend("600519", 3),
        "💰 分红信息\n   代码: 600519\n   年数: 3\n\n🚧 功能开发中...\n\n📊 分红数据获取功能即将上线，敬请期待！\n\n💡 您可以先使用以下命令查看其他基本面数据:\n   - quantix fundamental valuation 600519   # 估值指标\n   - quantix fundamental earnings 600519    # 财报数据\n   - quantix fundamental institution 600519 # 机构持仓\n"
    );
}
