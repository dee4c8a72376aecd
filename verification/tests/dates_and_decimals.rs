use quantix::analysis::{pattern_rows_from_klines, Kline};
use quantix::backtest::parse_decimal_arg;
use quantix::dates::{
    factor_date_from_parse, market_date_from_parse, parse_factor_date, parse_market_date, CalendarDate,
};
use quantix::decimal::DecimalValue;
use quantix::error::QuantixError;
use quantix::market_output::format_decimal;
use quantix::screener::{format_screener_rule_detail, RuleMatchDetail};

fn kline_on(date: CalendarDate) -> Kline {
    let one = DecimalValue::new(1, 0);
    Kline { date, open: one, high: one, low: one, close: one }
}

fn date_label(date: CalendarDate) -> String {
    pattern_rows_from_klines(&vec![kline_on(date)])[0].label.clone()
}

fn detail_text(actual: DecimalValue) -> String {
    format_screener_rule_detail(&RuleMatchDetail {
        preset_name: "p".to_string(),
        matched: true,
        actual_value: Some(actual),
        threshold_value: Some(DecimalValue::new(1, 0)),
        reason: None,
    })
}

#[test]
fn market_dates() {
    assert_eq!(parse_market_date(None).unwrap(), None);
    assert_eq!(
        parse_market_date(Some("2024-03-08")).unwrap(),
        Some(CalendarDate { year: 2024, month: 3, day: 8 })
    );
    let err = parse_market_date(Some("2024/03/08")).unwrap_err();
    assert_eq!(err, QuantixError::Other("无效日期格式: 2024/03/08，请使用 YYYY-MM-DD".to_string()));
    assert!(parse_market_date(Some("2023-02-29")).is_err());
}

#[test]
fn factor_dates_report_the_parser_error() {
    assert_eq!(parse_factor_date("2024-02-29").unwrap(), CalendarDate { year: 2024, month: 2, day: 29 });
    match parse_factor_date("bad") {
        Err(QuantixError::DataParse(m)) => assert!(m.starts_with("invalid factor date `bad`: ")),
        other => panic!("unexpected: {:?}", other),
    }
    let err = factor_date_from_parse("x", Err("premature end of input".to_string())).unwrap_err();
    assert_eq!(err, QuantixError::DataParse("invalid factor date `x`: premature end of input".to_string()));
    let err = market_date_from_parse("x", Err("anything".to_string())).unwrap_err();
    assert_eq!(err.message(), "无效日期格式: x，请使用 YYYY-MM-DD");
}

#[test]
fn parsed_dates_print_back() {
    let d = parse_factor_date("2015-09-05").unwrap();
    assert_eq!(date_label(d), "2015-09-05");
    assert_eq!(date_label(CalendarDate { year: 987, month: 1, day: 2 }), "0987-01-02");
    assert_eq!(date_label(CalendarDate { year: 12345, month: 6, day: 7 }), "+12345-06-07");
    assert_eq!(date_label(CalendarDate { year: -5, month: 12, day: 31 }), "-0005-12-31");
}

#[test]
fn decimals_print_as_rust_decimal_does() {
    assert_eq!(detail_text(DecimalValue::new(12345, 2)), "Y:p 123.45 / 1");
    assert_eq!(detail_text(DecimalValue::new(5, 3)), "Y:p 0.005 / 1");
    assert_eq!(detail_text(DecimalValue::new(-70, 1)), "Y:p -7.0 / 1");
    assert_eq!(detail_text(DecimalValue::new(0, 2)), "Y:p 0.00 / 1");
    assert_eq!(detail_text(DecimalValue::new(42, 0)), "Y:p 42 / 1");
    assert_eq!(format_decimal(&Some(DecimalValue::new(12349, 3))), "12.34");
    assert_eq!(format_decimal(&Some(DecimalValue::new(-1, 4))), "-0.00");
    assert_eq!(format_decimal(&Some(DecimalValue::new(7, 0))), "7.00");
    assert_eq!(format_decimal(&None), "-");
}

#[test]
fn decimals_parse_to_mantissa_and_scale() {
    assert_eq!(parse_decimal_arg("capital", "10.50").unwrap(), DecimalValue { mantissa: 1050, scale: 2, negative: false });
    assert_eq!(parse_decimal_arg("capital", "-3").unwrap(), DecimalValue { mantissa: -3, scale: 0, negative: true });
    match parse_decimal_arg("capital", "abc") {
        Err(QuantixError::Config(m)) => assert!(m.starts_with("capital 不是合法数字: ")),
        other => panic!("unexpected: {:?}", other),
    }
}

#[test]
fn decimals_keep_the_sign_flag_of_rust_decimal() {
    for text in ["-0", "-0.00", "0", "-0.1e-28", "-0.4e-28", "-0.6e-28", "-12.5", "3e-2"] {
        let expected: rust_decimal::Decimal = text.parse().unwrap();
        let d = parse_decimal_arg("x", text).unwrap();
        assert_eq!(d.mantissa, expected.mantissa(), "{text}");
        assert_eq!(d.scale, expected.scale(), "{text}");
        assert_eq!(d.negative, expected.is_sign_negative(), "{text}");
        assert_eq!(format_decimal(&Some(d)), format!("{:.2}", expected), "{text}");
    }
}

#[test]
fn negative_zero_prints_its_sign() {
    let mut expected = rust_decimal::Decimal::new(0, 2);
    expected.set_sign_negative(true);
    let d = DecimalValue { mantissa: 0, scale: 2, negative: true };
    assert_eq!(format_decimal(&Some(d)), format!("{:.2}", expected));
    assert_eq!(format_decimal(&Some(d)), "-0.00");
    assert_eq!(format_decimal(&Some(DecimalValue { mantissa: 0, scale: 2, negative: false })), "0.00");
}
