use quantix::commands::factor::FactorOutputFormat;
use quantix::error::QuantixError;
use quantix::factor::{
    factor_list_lines, factor_load_request, factor_output_step, factor_required_fields, FactorMeta,
    FactorOutputStep,
};

fn meta(id: &str, category: &str, fields: &[&str]) -> FactorMeta {
    let required_fields: Vec<String> = fields.iter().map(|f| f.to_string()).collect();
    FactorMeta {
        id: id.to_string(),
        category: category.to_string(),
        description: format!("{} factor", id),
        required_fields_debug: format!("{:?}", required_fields),
        required_fields,
        missing_policy: "Skip".to_string(),
    }
}

fn catalog() -> Vec<FactorMeta> {
    vec![
        meta("momentum_20", "Momentum", &["close"]),
        meta("volume_ratio", "Volume", &["volume", "close"]),
        meta("momentum_60", "Momentum", &["close", "high"]),
    ]
}

#[test]
fn factor_list_filters_by_category_ignoring_case() {
    let lines = factor_list_lines(&catalog(), Some("MOMENTUM"), false);
    assert_eq!(
        lines,
        vec!["momentum_20\tMomentum\tmomentum_20 factor", "momentum_60\tMomentum\tmomentum_60 factor"]
    );
    assert_eq!(factor_list_lines(&catalog(), None, false).len(), 3);
    assert!(factor_list_lines(&catalog(), Some("quality"), false).is_empty());
}

#[test]
fn factor_list_verbose_shows_fields_and_policy() {
    let lines = factor_list_lines(&catalog(), Some("volume"), true);
    assert_eq!(
        lines,
        vec!["volume_ratio\tVolume\tvolume_ratio factor\tfields=[\"volume\", \"close\"]\tmissing=Skip"]
    );
}

#[test]
fn required_fields_follow_requested_factors() {
    let factors = vec!["momentum_60".to_string(), "unknown".to_string(), "volume_ratio".to_string()];
    assert_eq!(factor_required_fields(&catalog(), &factors), vec!["close", "high", "volume", "close"]);
    assert!(factor_required_fields(&catalog(), &Vec::new()).is_empty());
}

#[test]
fn factor_output_needs_a_path_for_files() {
    assert_eq!(factor_output_step(&FactorOutputFormat::Table, None), Ok(FactorOutputStep::Print));
    assert_eq!(
        factor_output_step(&FactorOutputFormat::Csv, Some("out.csv")),
        Ok(FactorOutputStep::WriteFile("out.csv".to_string()))
    );
    assert_eq!(
        factor_output_step(&FactorOutputFormat::Json, None),
        Err(QuantixError::Config("factor json output requires --output <path>".to_string()))
    );
    assert_eq!(
        factor_output_step(&FactorOutputFormat::Parquet, Some("out.parquet")),
        Err(QuantixError::Unsupported("factor parquet export is not implemented in P1".to_string()))
    );
    assert_eq!(
        factor_output_step(&FactorOutputFormat::Parquet, None),
        Err(QuantixError::Config("factor parquet output requires --output <path>".to_string()))
    );
}

#[test]
fn factor_load_request_reads_dates_then_fields() {
    let factors = vec!["volume_ratio".to_string(), "nope".to_string(), "momentum_20".to_string()];
    let symbols = vec!["600519".to_string()];
    let req = factor_load_request(&catalog(), &factors, symbols.clone(), "2024-01-02", "2024-03-31").unwrap();
    assert_eq!(req.symbols, symbols);
    assert_eq!((req.start.year, req.start.month, req.start.day), (2024, 1, 2));
    assert_eq!((req.end.year, req.end.month, req.end.day), (2024, 3, 31));
    assert_eq!(req.required_fields, vec!["volume", "close", "close"]);
}

#[test]
fn factor_load_request_refuses_bad_dates_start_first() {
    let factors = vec!["momentum_20".to_string()];
    match factor_load_request(&catalog(), &factors, vec![], "2024/01/02", "bad") {
        Err(QuantixError::DataParse(m)) => assert!(m.starts_with("invalid factor date `2024/01/02`: ")),
        other => panic!("unexpected: {:?}", other),
    }
    match factor_load_request(&catalog(), &factors, vec![], "2024-01-02", "2024-02-30") {
        Err(QuantixError::DataParse(m)) => assert!(m.starts_with("invalid factor date `2024-02-30`: ")),
        other => panic!("unexpected: {:?}", other),
    }
}
