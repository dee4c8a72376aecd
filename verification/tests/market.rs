use quantix::commands::market::{MarketCommands, StrengthStockMetric};
use quantix::dates::CalendarDate;
use quantix::error::QuantixError;
use quantix::decimal::DecimalValue;
use quantix::market::{
    build_leader_filter, build_market_strength_stock_ranking_output, compare_metric_rows_desc, market_request,
    rows_fit,
    BoardType, MarketRequest,
    has_metric_value, parse_board_sort_by, require_risk_state_path, sort_rows_by_rank, text_order,
    BoardSortBy, LeaderFilter, MarketFoundationSummary, MarketStrengthReport, StrongSectorStockRow,
};

fn row(sector: &str, code: &str, key: i64, cap: Option<i64>, profit: Option<i64>) -> StrongSectorStockRow {
    StrongSectorStockRow {
        sector_name: sector.to_string(),
        code: code.to_string(),
        name: format!("name-{code}"),
        latest_price_text: "1.00".to_string(),
        change_order_key: key,
        market_cap: cap.map(|v| DecimalValue::new(v, 2)),
        latest_report_profit: profit.map(|v| DecimalValue::new(v, 2)),
    }
}

fn report(candidates: Vec<StrongSectorStockRow>) -> MarketStrengthReport {
    MarketStrengthReport {
        foundation: MarketFoundationSummary {
            total_stocks: 10,
            classified_stocks: 10,
            unclassified_stocks: 0,
            sector_count: 2,
            top_sectors: vec![],
        },
        strong_sectors: vec![],
        weak_sectors: vec![],
        candidate_stocks: candidates,
        top_by_market_cap: vec![row("银行", "601398", 1, Some(5), None)],
        top_by_profit: vec![],
        candidate_stock_count: 7,
        market_cap_coverage_count: 6,
        profit_coverage_count: 5,
        valuation_error_count: 0,
        earnings_error_count: 0,
    }
}

#[test]
fn leader_filter_needs_exactly_one_choice() {
    assert_eq!(
        build_leader_filter(Some("银行".to_string()), None, false).unwrap(),
        LeaderFilter::Sector("银行".to_string())
    );
    assert_eq!(
        build_leader_filter(None, Some("AI".to_string()), false).unwrap(),
        LeaderFilter::Concept("AI".to_string())
    );
    assert_eq!(build_leader_filter(None, None, true).unwrap(), LeaderFilter::All);
    let err = build_leader_filter(Some("a".to_string()), None, true).unwrap_err();
    assert_eq!(err.message(), "leader 必须且只能指定 --sector、--concept 或 --all 之一");
    assert!(build_leader_filter(None, None, false).is_err());
}

#[test]
fn board_sort_keys() {
    assert_eq!(parse_board_sort_by(None).unwrap(), BoardSortBy::ChangePct);
    assert_eq!(parse_board_sort_by(Some("change")).unwrap(), BoardSortBy::ChangePct);
    let err = parse_board_sort_by(Some("volume")).unwrap_err();
    assert_eq!(err.message(), "不支持的 sort_by: volume，仅支持 change 或 change_pct");
}

#[test]
fn risk_state_path_is_required() {
    assert_eq!(require_risk_state_path(Some("/tmp/risk.json")).unwrap(), "/tmp/risk.json");
    assert_eq!(
        require_risk_state_path(None).unwrap_err().message(),
        "当前 market 命令需要运行时 risk_path 上下文"
    );
}

#[test]
fn ranking_orders_by_metric_then_change_then_code() {
    let rows = vec![
        row("银行", "000003", 5, Some(100), None),
        row("银行", "000002", 9, Some(300), None),
        row("银行", "000001", 5, Some(100), None),
        row("银行", "000004", 1, None, None),
    ];
    let sorted = sort_rows_by_rank(&rows, StrengthStockMetric::MarketCap);
    let codes: Vec<&str> = sorted.iter().map(|r| r.code.as_str()).collect();
    assert_eq!(codes, vec!["000002", "000001", "000003", "000004"]);
    assert_eq!(compare_metric_rows_desc(&rows[1], &rows[0], StrengthStockMetric::MarketCap), -1);
    assert!(has_metric_value(&rows[0], StrengthStockMetric::MarketCap));
    assert!(!has_metric_value(&rows[0], StrengthStockMetric::Profit));
    assert_eq!(text_order("abc", "abd"), -1);
    assert_eq!(text_order("b", "a"), 1);
    assert_eq!(text_order("same", "same"), 0);
}

#[test]
fn ranking_output_with_sector_filter_keeps_at_least_one_row() {
    let candidates = vec![
        row("银行", "601398", 1, None, Some(500)),
        row("银行", "601939", 2, None, Some(900)),
        row("证券", "600030", 3, None, Some(1000)),
        row("银行", "601288", 4, None, None),
    ];
    let out = build_market_strength_stock_ranking_output(
        report(candidates),
        StrengthStockMetric::Profit,
        3,
        Some("银行".to_string()),
        0,
    );
    assert_eq!(out.candidate_stock_count, 3);
    assert_eq!(out.covered_count, 2);
    assert_eq!(out.rows.len(), 1);
    assert_eq!(out.rows[0].code, "601939");
}

#[test]
fn ranking_output_without_filter_takes_over_report_lists() {
    let out = build_market_strength_stock_ranking_output(
        report(vec![]),
        StrengthStockMetric::MarketCap,
        5,
        None,
        10,
    );
    assert_eq!(out.candidate_stock_count, 7);
    assert_eq!(out.covered_count, 6);
    assert_eq!(out.rows.len(), 1);
    assert_eq!(out.rows[0].code, "601398");
}

#[test]
fn market_requests_parse_arguments_in_order() {
    let sector = MarketCommands::Sector { top: Some(5), date: Some("2024-03-01".to_string()), sort_by: None };
    assert_eq!(
        market_request(&sector, None).unwrap(),
        MarketRequest::BoardRankings {
            board: BoardType::Sector,
            date: Some(CalendarDate { year: 2024, month: 3, day: 1 }),
            top: Some(5),
            sort_by: BoardSortBy::ChangePct,
        }
    );
    let bad_both = MarketCommands::Concept {
        top: None,
        date: Some("20240301".to_string()),
        sort_by: Some("volume".to_string()),
    };
    assert_eq!(
        market_request(&bad_both, None).unwrap_err().message(),
        "无效日期格式: 20240301，请使用 YYYY-MM-DD"
    );
    let bad_sort = MarketCommands::Concept { top: None, date: None, sort_by: Some("volume".to_string()) };
    assert_eq!(
        market_request(&bad_sort, None).unwrap_err().message(),
        "不支持的 sort_by: volume，仅支持 change 或 change_pct"
    );
    let leader = MarketCommands::Leader {
        sector: Some("银行".to_string()),
        concept: Some("AI".to_string()),
        all: false,
        limit: None,
        date: Some("bad".to_string()),
    };
    assert!(matches!(market_request(&leader, None), Err(QuantixError::Other(m)) if m.starts_with("leader 必须")));
    assert_eq!(
        market_request(&MarketCommands::Foundation, Some("/data/risk.json")).unwrap(),
        MarketRequest::Foundation { risk_path: "/data/risk.json".to_string() }
    );
    assert_eq!(
        market_request(&MarketCommands::Foundation, None).unwrap_err().message(),
        "当前 market 命令需要运行时 risk_path 上下文"
    );
    let stocks = MarketCommands::StrengthStocks {
        date: None,
        strong_top: 3,
        sector: Some("银行".to_string()),
        metric: StrengthStockMetric::Profit,
        top: 8,
    };
    assert_eq!(
        market_request(&stocks, Some("risk")).unwrap(),
        MarketRequest::StrengthStocks {
            date: None,
            risk_path: "risk".to_string(),
            strong_top: 3,
            weak_top: 1,
            stock_top: 8,
            sector: Some("银行".to_string()),
            metric: StrengthStockMetric::Profit,
            top: 8,
        }
    );
    let strength = MarketCommands::Strength { date: Some("x".to_string()), strong_top: 3, weak_top: 3, stock_top: 5 };
    assert_eq!(
        market_request(&strength, None).unwrap_err().message(),
        "无效日期格式: x，请使用 YYYY-MM-DD"
    );
}

#[test]
fn test_execute_market_leader_rejects_invalid_filter_combination() {
    let err = market_request(
        &MarketCommands::Leader {
            sector: Some("银行".to_string()),
            concept: Some("人工智能".to_string()),
            all: false,
            limit: None,
            date: None,
        },
        None,
    )
    .unwrap_err();
    assert!(matches!(err, QuantixError::Other(_)));
    assert!(err.message().contains("必须且只能指定"));
}

#[test]
fn rows_fit_only_when_every_amount_fits_rust_decimal() {
    assert!(rows_fit(&vec![]));
    assert!(rows_fit(&vec![row("A", "1", 1, Some(100), None), row("A", "2", 2, None, Some(5))]));
    let mut wide = row("A", "3", 3, None, None);
    wide.market_cap = Some(DecimalValue { mantissa: 79228162514264337593543950336, scale: 0, negative: false });
    assert!(!rows_fit(&vec![row("A", "1", 1, Some(100), None), wide]));
    let mut deep = row("A", "4", 4, None, None);
    deep.latest_report_profit = Some(DecimalValue { mantissa: 1, scale: 29, negative: false });
    assert!(!rows_fit(&vec![deep]));
}
