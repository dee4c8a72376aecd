use quantix::commands::market::StrengthStockMetric;
use quantix::decimal::DecimalValue;
use quantix::market::{
    BoardRankRow, BoardType, MarketFoundationSummary, MarketStrengthReport,
    MarketStrengthStockRankingOutput, SectorCoverageRow, StrongSectorStockRow,
};
use quantix::market_output::{
    format_decimal, render_market_board_rows, render_market_foundation_summary, render_market_leader_rows,
    render_market_overview, render_market_sentiment, render_market_strength_report,
    render_market_strength_stock_ranking, render_north_flow, LeaderRow, MarketOverviewView, NorthFlowView,
    SentimentView,
};

#[test]
fn render_market_foundation_summary_shows_core_counts_without_sector_table() {
    let summary = MarketFoundationSummary {
        total_stocks: 100,
        classified_stocks: 0,
        unclassified_stocks: 100,
        sector_count: 0,
        top_sectors: vec![],
    };

    let output = render_market_foundation_summary(&summary);

    assert!(output.contains("== 市场基础数据 =="));
    assert!(output.contains("A股总数: 100"));
    assert!(output.contains("已匹配行业: 0"));
    assert!(output.contains("未匹配行业: 100"));
    assert!(output.contains("行业数: 0"));
    assert!(!output.contains("行业覆盖 Top10:"));
}

#[test]
fn render_market_foundation_summary_includes_sector_coverage_table() {
    let summary = MarketFoundationSummary {
        total_stocks: 5300,
        classified_stocks: 5200,
        unclassified_stocks: 100,
        sector_count: 31,
        top_sectors: vec![
            SectorCoverageRow { industry_name: "银行".to_string(), stock_count: 42 },
            SectorCoverageRow { industry_name: "计算机".to_string(), stock_count: 38 },
        ],
    };

    let output = render_market_foundation_summary(&summary);

    assert!(output.contains("行业覆盖 Top10:"));
    assert!(output.contains("排名"));
    assert!(output.contains("行业"));
    assert!(output.contains("成分股数"));
    assert!(output.contains("1    银行"));
    assert!(output.contains("42"));
    assert!(output.contains("2    计算机"));
    assert!(output.contains("38"));
}

#[test]
fn render_market_strength_report_shows_zero_candidate_empty_sections() {
    let report = MarketStrengthReport {
        foundation: MarketFoundationSummary {
            total_stocks: 100,
            classified_stocks: 85,
            unclassified_stocks: 15,
            sector_count: 23,
            top_sectors: vec![],
        },
        strong_sectors: vec![],
        weak_sectors: vec![],
        candidate_stocks: vec![],
        top_by_market_cap: vec![],
        top_by_profit: vec![],
        candidate_stock_count: 0,
        market_cap_coverage_count: 0,
        profit_coverage_count: 0,
        valuation_error_count: 0,
        earnings_error_count: 0,
    };

    let output = render_market_strength_report(&report);

    assert!(output.contains("== 强弱板块分析 =="));
    assert!(output.contains("基础数据: A股=100 行业覆盖=85 未覆盖=15"));
    assert!(output.contains("强势板块候选股数: 0"));
    assert!(output.contains("基本面覆盖: 市值=0/0 利润=0/0"));
    assert!(output.contains("强势板块:"));
    assert!(output.contains("📭 没有可展示的板块数据"));
    assert!(output.contains("弱势板块:"));
    assert!(output.contains("强势板块个股 Top0 总市值:"));
    assert!(output.contains("强势板块个股 Top0 推算净利润:"));
    assert!(output.contains("📭 没有可展示的个股数据"));
}

#[test]
fn render_market_strength_report_shows_fetch_error_counts() {
    let report = MarketStrengthReport {
        foundation: MarketFoundationSummary {
            total_stocks: 5300,
            classified_stocks: 5200,
            unclassified_stocks: 100,
            sector_count: 31,
            top_sectors: vec![],
        },
        strong_sectors: vec![BoardRankRow {
            board_code: "BK001".to_string(),
            board_name: "银行".to_string(),
            board_type: BoardType::Sector,
            rank: 1,
            change_pct_text: "2.10".to_string(),
        }],
        weak_sectors: vec![],
        candidate_stocks: vec![],
        top_by_market_cap: vec![],
        top_by_profit: vec![],
        candidate_stock_count: 12,
        market_cap_coverage_count: 8,
        profit_coverage_count: 6,
        valuation_error_count: 2,
        earnings_error_count: 1,
    };

    let output = render_market_strength_report(&report);

    assert!(output.contains("强势板块候选股数: 12"));
    assert!(output.contains("基本面覆盖: 市值=8/12 利润=6/12"));
    assert!(output.contains("基本面抓取异常: 市值请求失败=2 利润请求失败=1"));
    assert!(output.contains("银行"));
}

#[test]
fn render_market_strength_stock_ranking_includes_sector_filter_and_row_values() {
    let ranking = MarketStrengthStockRankingOutput {
        metric: StrengthStockMetric::Profit,
        strong_top: 3,
        sector_filter: Some("银行".to_string()),
        candidate_stock_count: 1,
        covered_count: 1,
        rows: vec![StrongSectorStockRow {
            sector_name: "银行".to_string(),
            code: "601398".to_string(),
            name: "工商银行".to_string(),
            latest_price_text: "7.00".to_string(),
            change_order_key: 150,
            market_cap: Some(DecimalValue::new(700000, 2)),
            latest_report_profit: Some(DecimalValue::new(10000, 2)),
        }],
    };

    let output = render_market_strength_stock_ranking(&ranking);

    assert!(output.contains("== 强势板块个股排行 =="));
    assert!(output.contains("强势板块范围: Top3"));
    assert!(output.contains("行业过滤: 银行"));
    assert!(output.contains("上一会计周期净利润覆盖: 1/1"));
    assert!(output.contains("按上一会计周期净利润从大到小 Top1:"));
    assert!(output.contains("601398"));
    assert!(output.contains("工商银行"));
    assert!(output.contains("100.00"));
}

#[test]
fn render_market_strength_stock_ranking_shows_empty_state() {
    let ranking = MarketStrengthStockRankingOutput {
        metric: StrengthStockMetric::MarketCap,
        strong_top: 3,
        sector_filter: None,
        candidate_stock_count: 0,
        covered_count: 0,
        rows: vec![],
    };

    let output = render_market_strength_stock_ranking(&ranking);

    assert!(output.contains("强势板块范围: Top3"));
    assert!(output.contains("总市值覆盖: 0/0"));
    assert!(output.contains("按总市值从大到小 Top0:"));
    assert!(output.contains("📭 没有可展示的个股数据"));
}

#[test]
fn format_decimal_prints_two_decimals_or_a_dash() {
    assert_eq!(format_decimal(&Some(DecimalValue::new(700000, 2))), "7000.00");
    assert_eq!(format_decimal(&Some(DecimalValue::new(-12345, 3))), "-12.34");
    assert_eq!(format_decimal(&Some(DecimalValue::new(5, 0))), "5.00");
    assert_eq!(format_decimal(&None), "-");
}

#[test]
fn board_rows_print_every_row() {
    let rows = vec![
        BoardRankRow {
            board_code: "BK001".to_string(),
            board_name: "银行".to_string(),
            board_type: BoardType::Sector,
            rank: 1,
            change_pct_text: "2.10".to_string(),
        },
        BoardRankRow {
            board_code: "BK002".to_string(),
            board_name: "证券".to_string(),
            board_type: BoardType::Sector,
            rank: 2,
            change_pct_text: "-0.50".to_string(),
        },
    ];
    let output = render_market_board_rows(&rows);
    assert!(output.contains("银行"));
    assert!(output.contains("2.10"));
    assert!(output.contains("证券"));
    assert!(output.contains("-0.50"));
    let empty = render_market_board_rows(&vec![]);
    assert!(empty.contains("📭 没有可展示的板块数据"));
}

#[test]
fn north_flow_and_sentiment_snapshots() {
    assert_eq!(render_north_flow(&None), "📭 没有可展示的北向资金数据\n");
    let north = NorthFlowView {
        trade_date: "2024-03-01".to_string(),
        sh_amount_text: "12.30".to_string(),
        sz_amount_text: "-4.00".to_string(),
        total_amount_text: "8.30".to_string(),
        balance_text: "100.00".to_string(),
    };
    assert_eq!(
        render_north_flow(&Some(north)),
        "日期: 2024-03-01\n沪股通: 12.30\n深股通: -4.00\n合计: 8.30\n余额: 100.00\n"
    );
    assert_eq!(render_market_sentiment(&None), "📭 没有可展示的市场情绪数据\n");
    let sentiment = SentimentView {
        trade_date: "2024-03-01".to_string(),
        up_count: 3012,
        down_count: 1800,
        limit_up_count: 61,
        limit_down_count: 4,
        seal_rate_text: "0.72".to_string(),
        break_rate_text: "0.28".to_string(),
        consecutive_board_count: 9,
    };
    assert_eq!(
        render_market_sentiment(&Some(sentiment)),
        "日期: 2024-03-01\n上涨: 3012\n下跌: 1800\n涨停: 61\n跌停: 4\n封板率: 0.72\n炸板率: 0.28\n连板股: 9\n"
    );
}

#[test]
fn leader_rows_table() {
    assert_eq!(render_market_leader_rows(&Vec::new()), "📭 没有可展示的龙头股数据\n");
    let rows = vec![LeaderRow {
        code: "600519".to_string(),
        name: "贵州茅台".to_string(),
        sector_name: Some("白酒".to_string()),
        concept_name: None,
        change_pct_text: "1.25".to_string(),
    }];
    let expected = format!(
        "{:<10} {:<12} {:<12} {:<12} 涨跌幅\n{}\n{:<10} {:<12} {:<12} {:<12} {}%\n",
        "代码", "名称", "行业", "概念", "-".repeat(72), "600519", "贵州茅台", "白酒", "-", "1.25"
    );
    assert_eq!(render_market_leader_rows(&rows), expected);
}

#[test]
fn overview_shows_sections_with_rows() {
    let empty = MarketOverviewView { top_sectors: vec![], top_concepts: vec![], north_total_text: None, limit_up_count: None };
    assert_eq!(
        render_market_overview(&empty),
        "== 市场概览 ==\n行业板块: 0\n概念板块: 0\n北向资金: -\n涨停数: -\n"
    );
    let sector = BoardRankRow {
        board_code: "BK01".to_string(),
        board_name: "银行".to_string(),
        board_type: BoardType::Sector,
        rank: 1,
        change_pct_text: "2.00".to_string(),
    };
    let full = MarketOverviewView {
        top_sectors: vec![sector.clone()],
        top_concepts: vec![],
        north_total_text: Some("8.30".to_string()),
        limit_up_count: Some(61),
    };
    assert_eq!(
        render_market_overview(&full),
        format!(
            "== 市场概览 ==\n行业板块: 1\n概念板块: 0\n北向资金: 8.30\n涨停数: 61\n\nTop 行业:\n{}",
            render_market_board_rows(&vec![sector])
        )
    );
}
