use quantix::commands::data::DataSourceKind;
use quantix::data_sources::{
    add_data_source_to_overlay, check_default_source, data_export_file_path, default_tdx_api_base_url, kline_query_bound, default_tdx_api_max_retries,
    default_tdx_api_timeout_secs, format_akshare_summary, format_tdx_api_source_summary,
    format_tdx_api_summary, format_tdx_summary, overlay_path, render_data_source_list,
    resolve_default_source, set_default_source_in_overlay, tdx_api_configured, tdx_api_env_url,
    unsupported_data_export_format, validate_data_export_format, AkShareConfig, AppConfig,
    DataSourceDefault, DataSourceOverlay, DataSourcesConfig, PersistedDataSources, TdxApiConfig,
    TdxConfig,
};
use quantix::dates::CalendarDate;
use quantix::error::QuantixError;

fn empty_app() -> AppConfig {
    AppConfig { data_sources: DataSourcesConfig { tdx: None, tdx_api: None, akshare: None } }
}

fn empty_overlay() -> DataSourceOverlay {
    DataSourceOverlay {
        default: DataSourceDefault { name: None },
        data_sources: PersistedDataSources { tdx: None, tdx_api: None, akshare: None },
    }
}

fn tdx() -> TdxConfig {
    TdxConfig { hosts: vec!["10.0.0.1".to_string(), "10.0.0.2".to_string()], port: 7709, timeout: 3000 }
}

#[test]
fn defaults_of_tdx_api() {
    assert_eq!(default_tdx_api_base_url(), "http://tdx-api:8080");
    assert_eq!(default_tdx_api_timeout_secs(), 30);
    assert_eq!(default_tdx_api_max_retries(), 3);
}

#[test]
fn export_formats() {
    assert!(validate_data_export_format("csv").is_ok());
    assert!(validate_data_export_format("parquet").is_ok());
    let err = validate_data_export_format("xlsx").unwrap_err();
    assert_eq!(
        err,
        QuantixError::Unsupported("data export format 不支持: xlsx；支持: csv, parquet".to_string())
    );
    assert!(matches!(unsupported_data_export_format("csv"), Err(QuantixError::Unsupported(_))));
}

#[test]
fn overlay_file_is_inside_the_config_directory() {
    assert_eq!(overlay_path("/etc/quantix"), "/etc/quantix/data_sources.toml");
    assert_eq!(overlay_path("/etc/quantix/"), "/etc/quantix/data_sources.toml");
    assert_eq!(overlay_path(""), "data_sources.toml");
}

#[test]
fn summaries() {
    assert_eq!(format_tdx_summary(&tdx()), "hosts=10.0.0.1,10.0.0.2 port=7709 timeout=3000ms");
    let api = TdxApiConfig { base_url: "http://x:1".to_string(), timeout_secs: 7, max_retries: 2 };
    assert_eq!(format_tdx_api_summary(&api), "base_url=http://x:1 timeout=7s max_retries=2");
    let ak = AkShareConfig { base_url: "http://ak".to_string(), rate_limit: 100 };
    assert_eq!(format_akshare_summary(&ak), "base_url=http://ak rate_limit=100");
}

#[test]
fn tdx_api_from_environment() {
    let app = empty_app();
    assert_eq!(tdx_api_env_url(&Some("  http://api:9  ".to_string())), Some("http://api:9".to_string()));
    assert_eq!(tdx_api_env_url(&Some("   ".to_string())), None);
    assert!(!tdx_api_configured(&app, &None));
    assert!(tdx_api_configured(&app, &Some("http://api:9".to_string())));
    assert_eq!(
        format_tdx_api_source_summary(&app, &Some("http://api:9".to_string()), &Some("12".to_string())),
        "base_url=http://api:9 timeout=12s max_retries=3"
    );
    assert_eq!(
        format_tdx_api_source_summary(&app, &Some("http://api:9".to_string()), &Some("soon".to_string())),
        "base_url=http://api:9 timeout=30s max_retries=3"
    );
    assert_eq!(format_tdx_api_source_summary(&app, &None, &None), "-");
}

#[test]
fn default_source_resolution_order() {
    let mut app = empty_app();
    let overlay = empty_overlay();
    assert_eq!(resolve_default_source(&overlay, &app, &None), None);
    app.data_sources.akshare = Some(AkShareConfig { base_url: "u".to_string(), rate_limit: 1 });
    assert_eq!(resolve_default_source(&overlay, &app, &None).as_deref(), Some("akshare"));
    assert_eq!(resolve_default_source(&overlay, &app, &Some("http://a".to_string())).as_deref(), Some("tdx_api"));
    app.data_sources.tdx = Some(tdx());
    assert_eq!(resolve_default_source(&overlay, &app, &None).as_deref(), Some("tdx"));
    let mut chosen = empty_overlay();
    chosen.default.name = Some("akshare".to_string());
    assert_eq!(resolve_default_source(&chosen, &app, &None).as_deref(), Some("akshare"));
}

#[test]
fn add_tdx_reuses_configuration_and_sets_default() {
    let mut app = empty_app();
    app.data_sources.tdx = Some(tdx());
    let written = add_data_source_to_overlay(&app, empty_overlay(), DataSourceKind::Tdx, vec![], None, Some(100), None, None).unwrap();
    let t = written.data_sources.tdx.clone().unwrap();
    assert_eq!(t.hosts, tdx().hosts);
    assert_eq!(t.port, 7709);
    assert_eq!(t.timeout, 100);
    assert_eq!(written.default.name.as_deref(), Some("tdx"));
    assert_eq!(resolve_default_source(&written, &empty_app(), &None).as_deref(), Some("tdx"));
}

#[test]
fn add_without_what_it_needs_is_refused() {
    let err = add_data_source_to_overlay(&empty_app(), empty_overlay(), DataSourceKind::Tdx, vec![], None, None, None, None).unwrap_err();
    assert_eq!(err.message(), "data source add --type tdx 需要提供 --hosts，或先存在可复用的 tdx 配置");
    let err = add_data_source_to_overlay(&empty_app(), empty_overlay(), DataSourceKind::Akshare, vec![], None, None, None, None).unwrap_err();
    assert_eq!(err.message(), "data source add --type akshare 需要提供 --base-url，或先存在可复用的 akshare 配置");
}

#[test]
fn add_akshare_keeps_existing_default() {
    let mut overlay = empty_overlay();
    overlay.default.name = Some("tdx".to_string());
    let written = add_data_source_to_overlay(&empty_app(), overlay, DataSourceKind::Akshare, vec![], None, None, Some("http://ak".to_string()), None).unwrap();
    let a = written.data_sources.akshare.clone().unwrap();
    assert_eq!(a.base_url, "http://ak");
    assert_eq!(a.rate_limit, 100);
    assert_eq!(written.default.name.as_deref(), Some("tdx"));
}

#[test]
fn set_default_requires_configuration() {
    let err = set_default_source_in_overlay(&empty_app(), empty_overlay(), DataSourceKind::Akshare, &None).unwrap_err();
    assert_eq!(err.message(), "无法设置默认数据源: akshare 尚未配置");
    let mut app = empty_app();
    app.data_sources.tdx = Some(tdx());
    let written = set_default_source_in_overlay(&app, empty_overlay(), DataSourceKind::Tdx, &None).unwrap();
    assert_eq!(written.default.name.as_deref(), Some("tdx"));
}

#[test]
fn set_default_tdx_api_requires_config_or_env() {
    let err = set_default_source_in_overlay(&empty_app(), empty_overlay(), DataSourceKind::TdxApi, &None).unwrap_err();
    assert!(err.message().contains("tdx_api 尚未配置"), "unexpected error: {}", err.message());
    assert_eq!(check_default_source(&empty_app(), DataSourceKind::TdxApi, &None).unwrap_err(), err);
    let blank = Some("   ".to_string());
    assert!(set_default_source_in_overlay(&empty_app(), empty_overlay(), DataSourceKind::TdxApi, &blank).is_err());
    let from_env = Some(" http://tdx-api:8080 ".to_string());
    let written = set_default_source_in_overlay(&empty_app(), empty_overlay(), DataSourceKind::TdxApi, &from_env).unwrap();
    assert_eq!(written.default.name.as_deref(), Some("tdx_api"));
}

#[test]
fn set_default_tdx_api_preserves_file_config() {
    let mut app = empty_app();
    app.data_sources.tdx_api = Some(TdxApiConfig {
        base_url: "http://127.0.0.1:8080".to_string(),
        timeout_secs: 7,
        max_retries: 2,
    });
    let mut overlay = empty_overlay();
    overlay.data_sources.tdx_api = Some(quantix::data_sources::PersistedTdxApiConfig {
        base_url: "http://127.0.0.1:8080".to_string(),
        timeout_secs: 7,
        max_retries: 2,
    });
    let written = set_default_source_in_overlay(&app, overlay.clone(), DataSourceKind::TdxApi, &None).unwrap();
    assert_eq!(written.data_sources, overlay.data_sources);
    assert_eq!(written.default.name.as_deref(), Some("tdx_api"));
}

#[test]
fn tdx_api_is_not_added_by_command() {
    let err = add_data_source_to_overlay(&empty_app(), empty_overlay(), DataSourceKind::TdxApi, vec![], None, None, None, None)
        .unwrap_err();
    assert_eq!(err.message(), "tdx-api 数据源通过环境变量 TDX_API_URL 配置，无需 add");
}

#[test]
fn source_list_text() {
    let mut app = empty_app();
    app.data_sources.tdx = Some(tdx());
    let text = render_data_source_list("/cfg", &app, &empty_overlay(), &None, &None);
    assert!(text.starts_with("🔌 当前数据源配置\n  配置目录: /cfg\n  覆盖文件: /cfg/data_sources.toml\n  默认数据源: tdx\n\n"));
    assert!(text.contains("tdx        yes      yes        hosts=10.0.0.1,10.0.0.2 port=7709 timeout=3000ms\n"));
    assert!(text.contains("tdx_api    no       no         -\n"));
    assert!(text.ends_with("akshare    no       no         -\n"));
    assert!(text.contains(&"-".repeat(72)));
}

#[test]
fn data_export_writes_code_named_files() {
    assert_eq!(data_export_file_path("600519", "csv", "out").unwrap(), "out/600519.csv");
    assert_eq!(data_export_file_path("000001", "parquet", "exports/").unwrap(), "exports/000001.parquet");
    assert_eq!(
        data_export_file_path("600519", "xlsx", "out").unwrap_err().message(),
        "data export format 不支持: xlsx；支持: csv, parquet"
    );
}

#[test]
fn kline_query_bounds_drop_unparsed_dates() {
    assert_eq!(kline_query_bound(Some("20240105")), Some(CalendarDate { year: 2024, month: 1, day: 5 }));
    assert_eq!(kline_query_bound(Some("2024-01-05")), None);
    assert_eq!(kline_query_bound(None), None);
}
