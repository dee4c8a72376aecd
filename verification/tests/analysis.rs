use quantix::analysis::{
    file_stem_of,
    build_reference_policy, candle_from_parsed, choose_tdx_day_file, infer_tdx_code_from_day_file_path,
    parse_candle_spec, parse_candle_specs, pattern_rows_from_klines, reference_policy_from_parsed,
    resolve_tdx_day_file_path, sequence_references, tdx_code_from_stem, tdx_day_file_candidates,
    CandleInput, Kline, ReferencePricePolicy,
};
use quantix::dates::CalendarDate;
use quantix::decimal::DecimalValue;

fn d(m: i64, s: u32) -> DecimalValue {
    DecimalValue::new(m, s)
}

#[test]
fn candle_specs_are_four_trimmed_prices() {
    let c = parse_candle_spec(" 10.1, 10.8 ,9.9,10.5").unwrap();
    assert_eq!(c, CandleInput { open: d(101, 1), high: d(108, 1), low: d(99, 1), close: d(105, 1) });
    let err = parse_candle_spec("1,2,3").unwrap_err();
    assert_eq!(err.message(), "K线格式非法: 1,2,3，期望 o,h,l,c");
    let err = parse_candle_spec("1,x,3,4").unwrap_err();
    assert!(err.message().starts_with("价格格式非法: "));
}

#[test]
fn candle_from_parsed_reports_the_first_bad_price() {
    let err = candle_from_parsed(Ok(d(1, 0)), Err("first".to_string()), Err("second".to_string()), Ok(d(1, 0))).unwrap_err();
    assert_eq!(err.message(), "价格格式非法: first");
    let ok = candle_from_parsed(Ok(d(1, 0)), Ok(d(2, 0)), Ok(d(3, 0)), Ok(d(4, 0))).unwrap();
    assert_eq!(ok.close, d(4, 0));
}

#[test]
fn typed_candles_are_labelled_in_order() {
    let rows = parse_candle_specs(&vec!["1,2,0.5,1.5".to_string(), "1.5,2,1,1.8".to_string()]).unwrap();
    assert_eq!(rows.len(), 2);
    assert_eq!(rows[0].label, "manual-1");
    assert_eq!(rows[1].label, "manual-2");
    assert_eq!(rows[1].candle.close, d(18, 1));
    let err = parse_candle_specs(&vec!["1,2,3,4".to_string(), "bad".to_string(), "x,y".to_string()]).unwrap_err();
    assert_eq!(err.message(), "K线格式非法: bad，期望 o,h,l,c");
}

#[test]
fn reference_policies() {
    assert_eq!(build_reference_policy(None, true).unwrap(), ReferencePricePolicy::PreviousClose);
    assert_eq!(
        build_reference_policy(Some("12.5".to_string()), false).unwrap(),
        ReferencePricePolicy::Explicit(d(125, 1))
    );
    assert_eq!(
        build_reference_policy(None, false).unwrap_err().message(),
        "缺少参考价，请提供 --reference 或 --previous-close"
    );
    assert!(build_reference_policy(Some("twelve".to_string()), false).unwrap_err().message().starts_with("参考价格式非法: "));
    assert_eq!(reference_policy_from_parsed(Err("oops".to_string())).unwrap_err().message(), "参考价格式非法: oops");
}

#[test]
fn references_per_candle() {
    let candles = vec![
        CandleInput { open: d(1, 0), high: d(2, 0), low: d(1, 0), close: d(15, 1) },
        CandleInput { open: d(1, 0), high: d(2, 0), low: d(1, 0), close: d(17, 1) },
        CandleInput { open: d(1, 0), high: d(2, 0), low: d(1, 0), close: d(16, 1) },
    ];
    assert_eq!(
        sequence_references(&candles, &ReferencePricePolicy::Explicit(d(3, 0))).unwrap(),
        vec![d(3, 0), d(3, 0), d(3, 0)]
    );
    assert_eq!(
        sequence_references(&candles, &ReferencePricePolicy::PreviousClose).unwrap(),
        vec![d(15, 1), d(17, 1)]
    );
    assert_eq!(
        sequence_references(&candles[..1].to_vec(), &ReferencePricePolicy::PreviousClose).unwrap_err().message(),
        "使用 --previous-close 时至少需要两根 K线"
    );
}

#[test]
fn bars_become_dated_candles() {
    let bars = vec![Kline {
        date: CalendarDate { year: 2024, month: 1, day: 5 },
        open: d(101, 1),
        high: d(108, 1),
        low: d(99, 1),
        close: d(105, 1),
    }];
    let rows = pattern_rows_from_klines(&bars);
    assert_eq!(rows[0].label, "2024-01-05");
    assert_eq!(rows[0].candle.high, d(108, 1));
}

#[test]
fn day_file_codes() {
    assert_eq!(infer_tdx_code_from_day_file_path("/tdx/vipdoc/sh/lday/sh600519.day").unwrap(), 600519);
    assert_eq!(infer_tdx_code_from_day_file_path("sz000001.day").unwrap(), 1);
    let err = infer_tdx_code_from_day_file_path("/tdx/sh60051.day").unwrap_err();
    assert_eq!(err.message(), "无法从 day 文件名解析 6 位股票代码: /tdx/sh60051.day");
    assert_eq!(tdx_code_from_stem("p", None).unwrap_err().message(), "无法从 day 文件路径解析股票代码");
    assert_eq!(tdx_code_from_stem("p", Some("a1b2c3d4e5f6".to_string())).unwrap(), 123456);
}

#[test]
fn day_file_candidates_and_choice() {
    let with_market = tdx_day_file_candidates("/tdx", "600519", Some("SH"));
    assert_eq!(with_market, vec!["/tdx/vipdoc/sh/lday/sh600519.day".to_string()]);
    let all = tdx_day_file_candidates("/tdx/", "000001", None);
    assert_eq!(all.len(), 4);
    assert_eq!(all[1], "/tdx/vipdoc/sz/lday/sz000001.day");
    assert_eq!(
        resolve_tdx_day_file_path("/tdx", "000001", None, &vec![false, true, false, false]).unwrap(),
        "/tdx/vipdoc/sz/lday/sz000001.day"
    );
    assert_eq!(
        resolve_tdx_day_file_path("/tdx", "000001", None, &vec![false, false, false, false]).unwrap_err().message(),
        "未找到 000001 对应的 day 文件，请确认 --tdx-root 或补充 --market"
    );
    assert_eq!(
        resolve_tdx_day_file_path("/tdx", "000001", None, &vec![true, true, false, false]).unwrap_err().message(),
        "代码 000001 在多个市场目录匹配到多个 day 文件: /tdx/vipdoc/sh/lday/sh000001.day, /tdx/vipdoc/sz/lday/sz000001.day，请补充 --market"
    );
    assert_eq!(
        resolve_tdx_day_file_path("/tdx", "000001", Some("bj"), &vec![false]).unwrap_err().message(),
        "未找到指定市场的 day 文件: /tdx/vipdoc/bj/lday/bj000001.day"
    );
    assert_eq!(
        choose_tdx_day_file("1", true, &vec!["a".to_string()], &vec![true]).unwrap(),
        "a"
    );
}

#[test]
fn file_stem_follows_std_rules() {
    for path in [
        "vipdoc/sh/lday/sh600000.day",
        "a/b.tar.gz",
        "a/.bashrc",
        "a/..x",
        "a/name.",
        "plain",
        "a/b/",
        "a/b/..",
        "",
        "/",
        "dir/./file.txt",
    ] {
        let expected = std::path::Path::new(path).file_stem().map(|s| s.to_str().unwrap().to_string());
        assert_eq!(file_stem_of(path), expected, "{path}");
    }
}
