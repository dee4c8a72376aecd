use quantix::algo::{
    algo_kind_named, algo_side_label, check_algo_create_args, check_algo_plan_args, format_status, AlgoKind,
    AlgoPlanFormat, AlgoStatus,
};
use quantix::backtest::{
    backtest_history_menu_command, backtest_report_path, backtest_reports_dir, check_backtest_bar_count, check_backtest_compare_ids,
    parse_decimal_arg, parse_optional_yyyymmdd, prepare_backtest_run,
};
use quantix::commands::backtest::BacktestCommands;
use quantix::commands::data::DataSourceKind;
use quantix::dates::CalendarDate;
use quantix::decimal::DecimalValue;
use quantix::error::QuantixError;
use quantix::fundamental::truncate_str;
use quantix::import::{
    build_import_market_manifest_source_command, clickhouse_string_literal,
    is_safe_clickhouse_identifier_segment, market_artifact_outcome, market_artifact_request,
    plan_manifest_report_outputs, MarketArtifactRequest, ComparisonSource,
    EvidenceStep, ManifestReportPlan, validate_clickhouse_column_identifier,
    validate_clickhouse_table_identifier, MarketManifestClickHouseComparisonOptions,
    MarketManifestComparisonOptions,
};
use quantix::init::{init_directory_summary, DirOutcome};
use quantix::probe::probe_tcp_target;
use quantix::trade::{
    format_trade_quote_status, format_trade_side, remap_trade_request_error, render_trade_record,
    TradeQuoteStatus, TradeRecord, TradeSide,
};
use quantix::watchlist::format_tags;

#[test]
fn data_source_kind_names() {
    assert_eq!(DataSourceKind::Tdx.as_str(), "tdx");
    assert_eq!(DataSourceKind::Akshare.as_str(), "akshare");
    assert_eq!(DataSourceKind::TdxApi.as_str(), "tdx_api");
}

#[test]
fn truncation_keeps_columns_within_bytes() {
    assert_eq!(truncate_str("short", 10), "short");
    assert_eq!(truncate_str("abcdefghij", 6), "abc...");
    assert_eq!(truncate_str("abcdef", 2), "..");
    assert_eq!(truncate_str("abcdef", 1), ".");
    assert_eq!(truncate_str("abcdef", 0), "");
    assert_eq!(truncate_str("abcdef", 3), "...");
    assert_eq!(truncate_str("工商银行股份", 9), "工商...");
    assert_eq!(truncate_str("abcdefghij", 10), "abcdefghij");
}

#[test]
fn probe_targets() {
    assert_eq!(probe_tcp_target("http://db:8123/x"), Some(("db".to_string(), 8123)));
    assert_eq!(probe_tcp_target("https://api.example"), Some(("api.example".to_string(), 443)));
    assert_eq!(probe_tcp_target("mysql://root@h:3306/db"), Some(("root@h".to_string(), 3306)));
    assert_eq!(probe_tcp_target("bridge"), Some(("bridge".to_string(), 80)));
    assert_eq!(probe_tcp_target("tcp://h:99999"), None);
    assert_eq!(probe_tcp_target("http://:80"), None);
}

#[test]
fn clickhouse_identifiers() {
    assert!(is_safe_clickhouse_identifier_segment("kline_1d"));
    assert!(!is_safe_clickhouse_identifier_segment("kline-1d"));
    assert!(!is_safe_clickhouse_identifier_segment(""));
    assert_eq!(validate_clickhouse_table_identifier(" quantix.kline_daily ").unwrap(), "quantix.kline_daily");
    assert!(matches!(validate_clickhouse_table_identifier("a..b"), Err(QuantixError::DataParse(_))));
    assert!(matches!(validate_clickhouse_table_identifier("  "), Err(QuantixError::DataParse(_))));
    assert_eq!(validate_clickhouse_column_identifier(" code ", "symbol").unwrap(), "code");
    assert_eq!(
        validate_clickhouse_column_identifier("co de", "symbol").unwrap_err().message(),
        "unsafe ClickHouse symbol column identifier: co de"
    );
    assert_eq!(clickhouse_string_literal("it's a\\b"), "it\\'s a\\\\b");
}

#[test]
fn manifest_source_command_words() {
    let options = MarketManifestComparisonOptions {
        reference_artifact: None,
        source_of_truth_summary: None,
        clickhouse: MarketManifestClickHouseComparisonOptions {
            url: None,
            database: "quantix".to_string(),
            user: "default".to_string(),
            password: "secret".to_string(),
            table: None,
            dataset_version_column: "dataset_version".to_string(),
            symbol_column: "code".to_string(),
            date_column: "trade_date".to_string(),
        },
    };
    let cmd = build_import_market_manifest_source_command(
        "m.json",
        "v1",
        "daily_kline",
        Some("2".to_string()),
        None,
        true,
        &options,
        None,
        None,
        "abc123",
        "staging",
    );
    assert_eq!(
        cmd,
        "quantix import market-manifest --manifest m.json --dataset-version v1 --artifact-type daily_kline --schema-version 2 --verify-artifact-file --consumer-build-commit abc123 --database-target staging"
    );
    assert!(!cmd.contains("secret"));
}

#[test]
fn trade_texts() {
    let record = TradeRecord {
        code: "600519".to_string(),
        side: TradeSide::Buy,
        volume: 100,
        price: DecimalValue::new(150050, 2),
        amount: DecimalValue::new(15005000, 2),
        total_fee: DecimalValue::new(5, 0),
    };
    assert_eq!(format_trade_side(&record), "买入");
    assert_eq!(
        render_trade_record(&record),
        "✅ 已买入 600519 100 股 @ 1500.50\n成交额: 150050.00\n总费用: 5\n"
    );
    assert_eq!(format_trade_quote_status(TradeQuoteStatus::BookOnly), "book");
    let err = remap_trade_request_error(QuantixError::Other("trade order 价格必须大于 0".to_string()), "trade buy");
    assert_eq!(err.message(), "trade buy 价格必须大于 0");
    let kept = remap_trade_request_error(QuantixError::Config("trade init".to_string()), "trade buy");
    assert_eq!(kept, QuantixError::Config("trade init".to_string()));
}

#[test]
fn tags_and_statuses() {
    assert_eq!(format_tags(&vec![]), "-");
    assert_eq!(format_tags(&vec!["白酒".to_string(), "龙头".to_string()]), "白酒,龙头");
    assert_eq!(format_status(AlgoStatus::Running), "🟢 运行中");
    assert_eq!(backtest_history_menu_command(), BacktestCommands::List);
}

#[test]
fn backtest_arguments() {
    let plan = prepare_backtest_run(
        "ma_cross",
        &Some("20240102".to_string()),
        &None,
        "100000",
        "0.0003",
        5,
        5,
        20,
        3,
        "0.3",
        "0.02",
    )
    .unwrap();
    assert_eq!(plan.start_date, Some(CalendarDate { year: 2024, month: 1, day: 2 }));
    assert_eq!(plan.end_date, None);
    assert_eq!(plan.config.initial_capital, DecimalValue { mantissa: 100000, scale: 0, negative: false });
    assert_eq!(plan.config.commission_rate, DecimalValue { mantissa: 3, scale: 4, negative: false });
    assert_eq!(plan.config.max_positions, 3);

    let err = prepare_backtest_run("rsi", &None, &None, "1", "1", 0, 5, 20, 1, "1", "1").unwrap_err();
    assert_eq!(err, QuantixError::Unsupported("当前仅支持 ma_cross，收到: rsi".to_string()));
    let err = prepare_backtest_run("ma_cross", &None, &None, "1", "1", 0, 20, 5, 1, "1", "1").unwrap_err();
    assert_eq!(err, QuantixError::Config("无效均线参数: short=20, long=5".to_string()));
    let err = prepare_backtest_run("ma_cross", &None, &None, "lots", "1", 0, 5, 20, 1, "1", "1").unwrap_err();
    assert!(err.message().starts_with("capital 不是合法数字: "));
    assert!(matches!(parse_optional_yyyymmdd(Some("2024-01-02")), Err(QuantixError::Config(_))));
    assert_eq!(parse_decimal_arg("x", "1.5").unwrap(), DecimalValue { mantissa: 15, scale: 1, negative: false });
    assert_eq!(check_backtest_bar_count(3, 20).unwrap_err().message(), "数据不足，至少需要 20 条 K 线，当前 3");
    assert!(check_backtest_bar_count(20, 20).is_ok());
    assert_eq!(check_backtest_compare_ids(&vec!["a".to_string()]).unwrap_err().message(), "backtest compare 至少需要两个 --id");
}

fn comparison_options(reference: bool, clickhouse_table: bool) -> MarketManifestComparisonOptions {
    MarketManifestComparisonOptions {
        reference_artifact: if reference { Some("ref.parquet".to_string()) } else { None },
        source_of_truth_summary: None,
        clickhouse: MarketManifestClickHouseComparisonOptions {
            url: None,
            database: "quantix".to_string(),
            user: "default".to_string(),
            password: String::new(),
            table: if clickhouse_table { Some("kline".to_string()) } else { None },
            dataset_version_column: "dataset_version".to_string(),
            symbol_column: "code".to_string(),
            date_column: "trade_date".to_string(),
        },
    }
}

fn data_message(r: Result<ManifestReportPlan, QuantixError>) -> String {
    match r {
        Err(QuantixError::DataParse(m)) => m,
        other => panic!("expected a data error, got {:?}", other),
    }
}

#[test]
fn manifest_report_plan_checks_in_order() {
    let none = comparison_options(false, false);
    assert_eq!(
        plan_manifest_report_outputs(&comparison_options(true, true), false, None, None, None).unwrap(),
        ManifestReportPlan::NoOutputs
    );
    assert_eq!(
        data_message(plan_manifest_report_outputs(&comparison_options(true, true), true, Some("r.json"), None, None)),
        "--comparison-reference-artifact, --comparison-source-of-truth-summary, and --comparison-clickhouse-* options are mutually exclusive"
    );
    assert_eq!(
        data_message(plan_manifest_report_outputs(&comparison_options(false, true), false, Some("r.json"), None, None)),
        "--comparison-clickhouse-* options require --verify-artifact-file"
    );
    assert_eq!(
        data_message(plan_manifest_report_outputs(&comparison_options(true, false), false, Some("r.json"), None, None)),
        "--comparison-reference-artifact requires --verify-artifact-file"
    );
    match plan_manifest_report_outputs(&none, true, None, Some("e.json"), Some("abc")).unwrap() {
        ManifestReportPlan::Outputs { comparison, after_comparison } => {
            assert_eq!(comparison, ComparisonSource::Nothing);
            assert_eq!(
                after_comparison.unwrap_err().message(),
                "--evidence-output requires --regression-report-output"
            );
        }
        other => panic!("unexpected plan {:?}", other),
    }
    assert_eq!(
        plan_manifest_report_outputs(&comparison_options(true, false), true, Some("r.json"), Some("e.json"), Some("abc"))
            .unwrap(),
        ManifestReportPlan::Outputs { comparison: ComparisonSource::ReferenceArtifact, after_comparison: Ok(EvidenceStep::Write) }
    );
    assert_eq!(
        plan_manifest_report_outputs(&none, false, Some("r.json"), None, None).unwrap(),
        ManifestReportPlan::Outputs { comparison: ComparisonSource::Nothing, after_comparison: Ok(EvidenceStep::Skip) }
    );
    assert_eq!(
        plan_manifest_report_outputs(&none, false, Some("r.json"), Some("e.json"), Some("abc")).unwrap(),
        ManifestReportPlan::Outputs {
            comparison: ComparisonSource::Nothing,
            after_comparison: Ok(EvidenceStep::Refuse(QuantixError::DataParse(
                "--evidence-output requires --verify-artifact-file".to_string()
            ))),
        }
    );
    assert_eq!(
        plan_manifest_report_outputs(&none, true, Some("r.json"), Some("e.json"), Some("unknown")).unwrap(),
        ManifestReportPlan::Outputs {
            comparison: ComparisonSource::Nothing,
            after_comparison: Ok(EvidenceStep::Refuse(QuantixError::DataParse(
                "--evidence-output requires --consumer-build-commit or QUANTIX_CONSUMER_BUILD_COMMIT".to_string()
            ))),
        }
    );
}

#[test]
fn init_directory_summary_counts_outcomes() {
    let all_there = vec![DirOutcome::Existing, DirOutcome::Existing, DirOutcome::Created];
    assert_eq!(init_directory_summary(&all_there), "    共 2 个已存在, 1 个新建\n");
    let some_failed = vec![DirOutcome::Failed, DirOutcome::Created, DirOutcome::Failed];
    assert_eq!(
        init_directory_summary(&some_failed),
        "    共 0 个已存在, 1 个新建, 2 个失败\n    ⚠️  部分目录创建失败，后续操作可能出错\n"
    );
    assert_eq!(init_directory_summary(&Vec::new()), "    共 0 个已存在, 0 个新建\n");
}

#[test]
fn backtest_reports_live_under_home() {
    assert_eq!(backtest_reports_dir(Some("/home/ann")), "/home/ann/.quantix/backtest/reports");
    assert_eq!(backtest_reports_dir(Some("/root/")), "/root/.quantix/backtest/reports");
    assert_eq!(backtest_reports_dir(None), ".quantix/backtest/reports");
    assert_eq!(
        backtest_report_path(".quantix/backtest/reports", "bt-20240101"),
        ".quantix/backtest/reports/bt-20240101.json"
    );
}

#[test]
fn market_artifact_request_and_outcome() {
    assert_eq!(
        market_artifact_request("v1", "daily_kline", Some("2"), None),
        MarketArtifactRequest {
            dataset_version: "v1".to_string(),
            artifact_type: "daily_kline".to_string(),
            schema_version: Some("2".to_string()),
            artifact_hash: None,
        }
    );
    assert_eq!(market_artifact_outcome::<u32>(Ok(7), None), Ok(7));
    assert_eq!(market_artifact_outcome::<u32>(Ok(7), Some(Ok(()))), Ok(7));
    assert_eq!(
        market_artifact_outcome::<u32>(Ok(7), Some(Err("hash mismatch".to_string()))),
        Err(QuantixError::DataParse("hash mismatch".to_string()))
    );
    assert_eq!(
        market_artifact_outcome::<u32>(Err("no such artifact".to_string()), None),
        Err(QuantixError::DataParse("no such artifact".to_string()))
    );
}

#[test]
fn algo_arguments_are_checked() {
    assert_eq!(algo_kind_named("TWAP"), Some(AlgoKind::Twap));
    assert_eq!(algo_kind_named("vwap"), Some(AlgoKind::Vwap));
    assert_eq!(algo_kind_named("pov"), None);
    assert_eq!(check_algo_create_args("buy", "Twap"), Ok(AlgoKind::Twap));
    assert_eq!(
        check_algo_create_args("hold", "pov"),
        Err(QuantixError::Unsupported("不支持的算法类型: pov".to_string()))
    );
    assert_eq!(
        check_algo_create_args("hold", "vwap"),
        Err(QuantixError::Other("方向必须是 buy 或 sell: hold".to_string()))
    );
    assert_eq!(check_algo_plan_args("vwap", "JSON"), Ok((AlgoKind::Vwap, AlgoPlanFormat::Json)));
    assert_eq!(
        check_algo_plan_args("pov", "table"),
        Err(QuantixError::Other("不支持的算法类型: pov".to_string()))
    );
    assert_eq!(
        check_algo_plan_args("twap", "csv"),
        Err(QuantixError::Other("不支持的输出格式: csv，仅支持 table 或 json".to_string()))
    );
    assert_eq!(algo_side_label("buy"), "买入");
    assert_eq!(algo_side_label("sell"), "卖出");
}
