use quantix::decimal::DecimalValue;
use quantix::screener::{
    build_screener_run_request, format_screener_rule_detail, parse_codes_csv, render_screener_preset_list,
    screener_preset_specs,
    RuleMatchDetail, ScreenSortBy, ScreenUniverse,
};

#[test]
fn preset_list_names_every_preset() {
    let presets = screener_preset_specs();
    let names: Vec<&str> = presets.iter().map(|p| p.name).collect();
    assert_eq!(names, vec!["close_above_ma", "close_below_ma", "rsi_gte", "rsi_lte", "volume_ratio_gte"]);
    assert_eq!(presets[2].params, "period=<n>,value=<x>");
    assert_eq!(presets[4].description, "量比大于等于阈值");
}

#[test]
fn codes_csv_trims_and_drops_empty_fields() {
    assert_eq!(parse_codes_csv(" 600519, ,000001,"), vec!["600519".to_string(), "000001".to_string()]);
    assert!(parse_codes_csv(" , ,").is_empty());
    assert!(parse_codes_csv("").is_empty());
    assert_eq!(parse_codes_csv("300750"), vec!["300750".to_string()]);
}

#[test]
fn run_request_with_codes() {
    let req = build_screener_run_request(
        Some("600519,000001".to_string()),
        false,
        None,
        vec!["rsi_gte:period=14,value=70".to_string()],
        Some(5),
        Some("score".to_string()),
    )
    .unwrap();
    assert_eq!(
        req.universe,
        ScreenUniverse::Codes(vec!["600519".to_string(), "000001".to_string()])
    );
    assert_eq!(req.presets, vec!["rsi_gte:period=14,value=70".to_string()]);
    assert_eq!(req.options.limit, Some(5));
    assert_eq!(req.options.sort_by, ScreenSortBy::Score);
}

#[test]
fn run_request_with_watchlist_group_defaults_to_code_order() {
    let req = build_screener_run_request(
        None,
        true,
        Some("core".to_string()),
        vec!["close_above_ma:period=20".to_string()],
        None,
        None,
    )
    .unwrap();
    assert_eq!(req.universe, ScreenUniverse::Watchlist { group: Some("core".to_string()) });
    assert_eq!(req.options.sort_by, ScreenSortBy::Code);
}

#[test]
fn run_request_refusals_in_order() {
    let p = vec!["rsi_gte".to_string()];
    let msg = |codes: Option<&str>, wl: bool, group: Option<&str>, presets: Vec<String>, sort: Option<&str>| {
        build_screener_run_request(
            codes.map(|c| c.to_string()),
            wl,
            group.map(|g| g.to_string()),
            presets,
            None,
            sort.map(|s| s.to_string()),
        )
        .unwrap_err()
        .message()
    };
    assert_eq!(msg(Some("1"), true, None, p.clone(), None), "--codes 与 --watchlist 不能同时使用");
    assert_eq!(msg(None, false, None, p.clone(), None), "必须指定 --codes 或 --watchlist");
    assert_eq!(msg(Some(" , "), false, None, p.clone(), None), "codes 不能为空");
    assert_eq!(msg(Some("1"), false, Some("g"), p.clone(), None), "--group 仅可与 --watchlist 一起使用");
    assert_eq!(msg(None, true, None, vec![], None), "至少需要一个 --preset");
    assert_eq!(msg(None, true, None, p.clone(), Some("name")), "不支持的 sort_by: name，仅支持 code 或 score");
}

#[test]
fn rule_detail_texts() {
    let with_reason = RuleMatchDetail {
        preset_name: "rsi_gte".to_string(),
        matched: false,
        actual_value: None,
        threshold_value: None,
        reason: Some("数据不足".to_string()),
    };
    assert_eq!(format_screener_rule_detail(&with_reason), "N:rsi_gte(数据不足)");
    let with_values = RuleMatchDetail {
        preset_name: "rsi_gte".to_string(),
        matched: true,
        actual_value: Some(DecimalValue::new(7234, 2)),
        threshold_value: Some(DecimalValue::new(70, 0)),
        reason: None,
    };
    assert_eq!(format_screener_rule_detail(&with_values), "Y:rsi_gte 72.34 / 70");
    let bare = RuleMatchDetail {
        preset_name: "close_above_ma".to_string(),
        matched: true,
        actual_value: Some(DecimalValue::new(1, 3)),
        threshold_value: None,
        reason: None,
    };
    assert_eq!(format_screener_rule_detail(&bare), "Y:close_above_ma");
}

#[test]
fn preset_list_is_a_padded_table() {
    let presets = screener_preset_specs();
    let text = render_screener_preset_list(&presets);
    let lines: Vec<&str> = text.lines().collect();
    assert_eq!(lines.len(), presets.len() + 2);
    assert_eq!(lines[0], format!("{:<20} {:<24} {}", "Preset", "参数", "说明"));
    assert_eq!(lines[1], "-".repeat(72));
    assert_eq!(lines[2], "close_above_ma       period=<n>               收盘价高于均线");
    for (line, p) in lines[2..].iter().zip(presets.iter()) {
        assert_eq!(*line, format!("{:<20} {:<24} {}", p.name, p.params, p.description));
    }
}

#[test]
fn test_execute_screener_preset_list_returns_supported_presets() {
    let names: Vec<&str> = screener_preset_specs().iter().map(|item| item.name).collect();
    assert_eq!(names, vec!["close_above_ma", "close_below_ma", "rsi_gte", "rsi_lte", "volume_ratio_gte"]);
}
