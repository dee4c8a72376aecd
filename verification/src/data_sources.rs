//! Market data source configuration: what `data source list` shows, and the
//! overlay file that `data source add` and `data source set-default` write.
use vstd::prelude::*;
use crate::commands::data::DataSourceKind;
use crate::dates::{chrono_date_parse, date_triple, parse_naive_date, CalendarDate};
use crate::error::QuantixError;
use crate::text::{dec_text, join_strings, join_text, line, opt_text, pad_right, parse_u64, parse_u64_text, path_join, path_join_text, push_line, push_padded, push_repeat, push_u64, repeat_text, str_eq, trim_str, trim_text};

verus! {

/// The TDX quote servers of the application configuration.
#[derive(Clone, Debug, PartialEq, Eq)]
pub struct TdxConfig {
    pub hosts: Vec<String>,
    pub port: u16,
    pub timeout: u64,
}

/// The tdx-api HTTP service of the application configuration.
#[derive(Clone, Debug, PartialEq, Eq)]
pub struct TdxApiConfig {
    pub base_url: String,
    pub timeout_secs: u64,
    pub max_retries: u32,
}

/// The AkShare HTTP service of the application configuration.
#[derive(Clone, Debug, PartialEq, Eq)]
pub struct AkShareConfig {
    pub base_url: String,
    pub rate_limit: u32,
}

/// The data sources of the application configuration.
#[derive(Clone, Debug, PartialEq, Eq)]
pub struct DataSourcesConfig {
    pub tdx: Option<TdxConfig>,
    pub tdx_api: Option<TdxApiConfig>,
    pub akshare: Option<AkShareConfig>,
}

/// The part of the application configuration that the data source commands read.
#[derive(Clone, Debug, PartialEq, Eq)]
pub struct AppConfig {
    pub data_sources: DataSourcesConfig,
}

/// The default source recorded in the overlay file.
#[derive(Clone, Debug, PartialEq, Eq)]
pub struct DataSourceDefault {
    pub name: Option<String>,
}

/// TDX servers as the overlay file records them.
#[derive(Clone, Debug, PartialEq, Eq)]
pub struct PersistedTdxConfig {
    pub hosts: Vec<String>,
    pub port: u16,
    pub timeout: u64,
}

/// The tdx-api service as the overlay file records it.
#[derive(Clone, Debug, PartialEq, Eq)]
pub struct PersistedTdxApiConfig {
    pub base_url: String,
    pub timeout_secs: u64,
    pub max_retries: u32,
}

/// The AkShare service as the overlay file records it.
#[derive(Clone, Debug, PartialEq, Eq)]
pub struct PersistedAkShareConfig {
    pub base_url: String,
    pub rate_limit: u32,
}

/// The sources recorded in the overlay file.
#[derive(Clone, Debug, PartialEq, Eq)]
pub struct PersistedDataSources {
    pub tdx: Option<PersistedTdxConfig>,
    pub tdx_api: Option<PersistedTdxApiConfig>,
    pub akshare: Option<PersistedAkShareConfig>,
}

/// The contents of `data_sources.toml` in the configuration directory.
#[derive(Clone, Debug, PartialEq, Eq)]
pub struct DataSourceOverlay {
    pub default: DataSourceDefault,
    pub data_sources: PersistedDataSources,
}

/// The base URL of tdx-api when the overlay file gives none.
pub fn default_tdx_api_base_url() -> (r: String)
    ensures
        r@ == "http://tdx-api:8080"@,
{
    "http://tdx-api:8080".to_string()
}

/// The tdx-api request timeout, in seconds, when none is configured.
pub fn default_tdx_api_timeout_secs() -> (r: u64)
    ensures
        r == 30,
{
    30
}

/// The tdx-api retry count when none is configured.
pub fn default_tdx_api_max_retries() -> (r: u32)
    ensures
        r == 3,
{
    3
}

/// The message refusing an export format.
pub open spec fn export_format_message(format: Seq<char>) -> Seq<char> {
    "data export format 不支持: "@ + format + "；支持: csv, parquet"@
}

/// The refusal of an export format.
pub fn unsupported_data_export_format(format: &str) -> (r: Result<(), QuantixError>)
    ensures
        r matches Err(QuantixError::Unsupported(m)) && m@ == export_format_message(format@),
{
    let mut m = "data export format 不支持: ".to_string();
    m.append(format);
    m.append("；支持: csv, parquet");
    Err(QuantixError::Unsupported(m))
}

/// `data export` writes `csv` and `parquet` files only.
pub fn validate_data_export_format(format: &str) -> (r: Result<(), QuantixError>)
    ensures
        (format@ == "csv"@ || format@ == "parquet"@) ==> r is Ok,
        !(format@ == "csv"@ || format@ == "parquet"@) ==> (r matches Err(
            QuantixError::Unsupported(m),
        ) && m@ == export_format_message(format@)),
{
    if str_eq(format, "csv") || str_eq(format, "parquet") {
        Ok(())
    } else {
        unsupported_data_export_format(format)
    }
}

/// The file `data export` writes: `<code>.<format>` inside the output
/// directory, once the format is known to be one it writes.
pub fn data_export_file_path(code: &str, format: &str, output: &str) -> (r: Result<String, QuantixError>)
    ensures
        (format@ == "csv"@ || format@ == "parquet"@) ==> (r matches Ok(p) && p@ == path_join_text(
            output@,
            code@ + "."@ + format@,
        )),
        !(format@ == "csv"@ || format@ == "parquet"@) ==> (r matches Err(
            QuantixError::Unsupported(m),
        ) && m@ == export_format_message(format@)),
{
    match validate_data_export_format(format) {
        Err(e) => Err(e),
        Ok(()) => {
            let mut name = code.to_string();
            name.append(".");
            name.append(format);
            Ok(path_join(output, name.as_str()))
        },
    }
}

/// A `YYYYMMDD` bound of `data query`: a text that does not parse as one is
/// dropped, leaving that side of the range open.
pub fn kline_query_bound(raw: Option<&str>) -> (r: Option<CalendarDate>)
    ensures
        raw is None ==> r is None,
        raw matches Some(v) ==> match chrono_date_parse(v@, "%Y%m%d"@) {
            Ok(ymd) => r matches Some(d) && date_triple(d) == ymd,
            Err(_) => r is None,
        },
{
    match raw {
        None => None,
        Some(v) => match parse_naive_date(v, "%Y%m%d") {
            Ok(d) => Some(d),
            Err(_) => None,
        },
    }
}

/// The overlay file `data_sources.toml` inside the configuration directory.
pub fn overlay_path(config_dir: &str) -> (r: String)
    ensures
        r@ == path_join_text(config_dir@, "data_sources.toml"@),
{
    path_join(config_dir, "data_sources.toml")
}

/// The trimmed value of `TDX_API_URL`, if set and not blank.
pub open spec fn env_url_text(raw: Option<Seq<char>>) -> Option<Seq<char>> {
    match raw {
        Some(u) => if trim_text(u).len() > 0 {
            Some(trim_text(u))
        } else {
            None
        },
        None => None,
    }
}

/// The tdx-api URL that `TDX_API_URL` gives, from the variable's raw value.
pub fn tdx_api_env_url(raw: &Option<String>) -> (r: Option<String>)
    ensures
        opt_text(r) == env_url_text(opt_text(*raw)),
{
    match raw {
        Some(u) => {
            let t = trim_str(u.as_str());
            if t.unicode_len() > 0 {
                Some(t.to_string())
            } else {
                None
            }
        },
        None => None,
    }
}

/// tdx-api is configured: by a non-blank base URL in the configuration, or
/// by `TDX_API_URL`.
pub open spec fn tdx_api_is_configured(app: AppConfig, env_url: Option<Seq<char>>) -> bool {
    (app.data_sources.tdx_api matches Some(c) && trim_text(c.base_url@).len() > 0)
        || env_url_text(env_url) is Some
}

/// Whether tdx-api is configured, given the raw value of `TDX_API_URL`.
pub fn tdx_api_configured(app_config: &AppConfig, env_url: &Option<String>) -> (r: bool)
    ensures
        r == tdx_api_is_configured(*app_config, opt_text(*env_url)),
{
    let from_file = match &app_config.data_sources.tdx_api {
        Some(c) => trim_str(c.base_url.as_str()).unicode_len() > 0,
        None => false,
    };
    from_file || tdx_api_env_url(env_url).is_some()
}

/// The default source: the overlay's choice, else the first configured of
/// tdx, tdx-api and akshare.
pub open spec fn default_source_text(
    overlay: DataSourceOverlay,
    app: AppConfig,
    env_url: Option<Seq<char>>,
) -> Option<Seq<char>> {
    match overlay.default.name {
        Some(n) => Some(n@),
        None => if app.data_sources.tdx is Some {
            Some("tdx"@)
        } else if tdx_api_is_configured(app, env_url) {
            Some("tdx_api"@)
        } else if app.data_sources.akshare is Some {
            Some("akshare"@)
        } else {
            None
        },
    }
}

/// The default data source, given the raw value of `TDX_API_URL`.
pub fn resolve_default_source(
    overlay: &DataSourceOverlay,
    app_config: &AppConfig,
    env_url: &Option<String>,
) -> (r: Option<String>)
    ensures
        opt_text(r) == default_source_text(*overlay, *app_config, opt_text(*env_url)),
{
    match &overlay.default.name {
        Some(n) => Some(n.clone()),
        None => {
            if app_config.data_sources.tdx.is_some() {
                Some("tdx".to_string())
            } else if tdx_api_configured(app_config, env_url) {
                Some("tdx_api".to_string())
            } else if app_config.data_sources.akshare.is_some() {
                Some("akshare".to_string())
            } else {
                None
            }
        },
    }
}

/// The views of the texts.
pub open spec fn texts(v: Seq<String>) -> Seq<Seq<char>> {
    v.map_values(|s: String| s@)
}

/// `hosts=a,b port=P timeout=Tms`.
pub open spec fn tdx_summary_text(c: TdxConfig) -> Seq<char> {
    "hosts="@ + join_text(texts(c.hosts@), ","@) + " port="@ + dec_text(c.port as nat)
        + " timeout="@ + dec_text(c.timeout as nat) + "ms"@
}

/// The summary of the TDX servers.
pub fn format_tdx_summary(config: &TdxConfig) -> (r: String)
    ensures
        r@ == tdx_summary_text(*config),
{
    let mut r = "hosts=".to_string();
    let hosts = join_strings(&config.hosts, ",");
    r.append(hosts.as_str());
    r.append(" port=");
    push_u64(&mut r, config.port as u64);
    r.append(" timeout=");
    push_u64(&mut r, config.timeout);
    r.append("ms");
    r
}

/// `base_url=U timeout=Ts max_retries=R`.
pub open spec fn tdx_api_summary_text(base_url: Seq<char>, timeout_secs: nat, max_retries: nat) -> Seq<
    char,
> {
    "base_url="@ + base_url + " timeout="@ + dec_text(timeout_secs) + "s max_retries="@ + dec_text(
        max_retries,
    )
}

fn tdx_api_summary_of(base_url: &str, timeout_secs: u64, max_retries: u32) -> (r: String)
    ensures
        r@ == tdx_api_summary_text(base_url@, timeout_secs as nat, max_retries as nat),
{
    let mut r = "base_url=".to_string();
    r.append(base_url);
    r.append(" timeout=");
    push_u64(&mut r, timeout_secs);
    r.append("s max_retries=");
    push_u64(&mut r, max_retries as u64);
    r
}

/// The summary of the configured tdx-api service.
pub fn format_tdx_api_summary(config: &TdxApiConfig) -> (r: String)
    ensures
        r@ == tdx_api_summary_text(
            config.base_url@,
            config.timeout_secs as nat,
            config.max_retries as nat,
        ),
{
    tdx_api_summary_of(config.base_url.as_str(), config.timeout_secs, config.max_retries)
}

/// `base_url=U rate_limit=R`.
pub open spec fn akshare_summary_text(c: AkShareConfig) -> Seq<char> {
    "base_url="@ + c.base_url@ + " rate_limit="@ + dec_text(c.rate_limit as nat)
}

/// The summary of the AkShare service.
pub fn format_akshare_summary(config: &AkShareConfig) -> (r: String)
    ensures
        r@ == akshare_summary_text(*config),
{
    let mut r = "base_url=".to_string();
    r.append(config.base_url.as_str());
    r.append(" rate_limit=");
    push_u64(&mut r, config.rate_limit as u64);
    r
}

/// The timeout that `TDX_API_TIMEOUT_SECS` gives: its number, else 30.
pub open spec fn env_timeout_secs(raw: Option<Seq<char>>) -> u64 {
    match raw {
        Some(t) => match parse_u64_text(t) {
            Some(v) => v,
            None => 30,
        },
        None => 30,
    }
}

/// The tdx-api timeout from the raw value of `TDX_API_TIMEOUT_SECS`.
pub fn tdx_api_env_timeout_secs(raw: &Option<String>) -> (r: u64)
    ensures
        r == env_timeout_secs(opt_text(*raw)),
{
    match raw {
        Some(t) => match parse_u64(t.as_str()) {
            Some(v) => v,
            None => default_tdx_api_timeout_secs(),
        },
        None => default_tdx_api_timeout_secs(),
    }
}

/// The tdx-api summary: from the configuration, else from `TDX_API_URL`
/// with the timeout of `TDX_API_TIMEOUT_SECS` and three retries, else `-`.
pub open spec fn tdx_api_source_summary_text(
    app: AppConfig,
    env_url: Option<Seq<char>>,
    env_timeout: Option<Seq<char>>,
) -> Seq<char> {
    match app.data_sources.tdx_api {
        Some(c) => tdx_api_summary_text(c.base_url@, c.timeout_secs as nat, c.max_retries as nat),
        None => match env_url_text(env_url) {
            Some(u) => tdx_api_summary_text(u, env_timeout_secs(env_timeout) as nat, 3),
            None => "-"@,
        },
    }
}

/// The tdx-api column of `data source list`, given the raw values of
/// `TDX_API_URL` and `TDX_API_TIMEOUT_SECS`.
pub fn format_tdx_api_source_summary(
    app_config: &AppConfig,
    env_url: &Option<String>,
    env_timeout: &Option<String>,
) -> (r: String)
    ensures
        r@ == tdx_api_source_summary_text(*app_config, opt_text(*env_url), opt_text(*env_timeout)),
{
    match &app_config.data_sources.tdx_api {
        Some(c) => format_tdx_api_summary(c),
        None => match tdx_api_env_url(env_url) {
            Some(u) => tdx_api_summary_of(
                u.as_str(),
                tdx_api_env_timeout_secs(env_timeout),
                default_tdx_api_max_retries(),
            ),
            None => "-".to_string(),
        },
    }
}

/// The message when `data source add --type tdx` has no hosts to record.
pub open spec fn tdx_hosts_message() -> Seq<char> {
    "data source add --type tdx 需要提供 --hosts，或先存在可复用的 tdx 配置"@
}

/// The message when `data source add --type akshare` has no base URL.
pub open spec fn akshare_url_message() -> Seq<char> {
    "data source add --type akshare 需要提供 --base-url，或先存在可复用的 akshare 配置"@
}

/// A copy of the texts.
fn clone_texts(v: &Vec<String>) -> (r: Vec<String>)
    ensures
        r@ == v@,
{
    let mut r: Vec<String> = Vec::new();
    let mut i: usize = 0;
    while i < v.len()
        invariant
            i <= v.len(),
            r@ == v@.take(i as int),
        decreases v.len() - i,
    {
        r.push(v[i].clone());
        i = i + 1;
        assert(r@ =~= v@.take(i as int));
    }
    assert(v@.take(v.len() as int) =~= v@);
    r
}

/// What `data source add` records: for tdx the hosts given, else those of
/// the configuration (refused when there are none), the port (else the
/// configured one, else 7709) and the timeout (else the configured one,
/// else 5000); for akshare the base URL given, else the configured one
/// (refused when there is none), and the rate limit (else the configured
/// one, else 100). The added source becomes the default when the overlay
/// has none; everything else of the overlay stays.
pub open spec fn overlay_after_add(
    app: AppConfig,
    overlay: DataSourceOverlay,
    source_type: DataSourceKind,
    hosts: Seq<String>,
    port: Option<u16>,
    timeout: Option<u64>,
    base_url: Option<String>,
    rate_limit: Option<u32>,
    r: DataSourceOverlay,
) -> bool {
    &&& r.data_sources.tdx_api == overlay.data_sources.tdx_api
    &&& match overlay.default.name {
        Some(n) => r.default.name == Some(n),
        None => opt_text(r.default.name) == Some(source_type.name_text()),
    }
    &&& match source_type {
        DataSourceKind::Tdx => {
            &&& r.data_sources.akshare == overlay.data_sources.akshare
            &&& r.data_sources.tdx matches Some(t) && {
                &&& t.hosts@ == (if hosts.len() > 0 {
                    hosts
                } else {
                    app.data_sources.tdx->0.hosts@
                })
                &&& t.port == (match port {
                    Some(p) => p,
                    None => match app.data_sources.tdx {
                        Some(c) => c.port,
                        None => 7709,
                    },
                })
                &&& t.timeout == (match timeout {
                    Some(x) => x,
                    None => match app.data_sources.tdx {
                        Some(c) => c.timeout,
                        None => 5000,
                    },
                })
            }
        },
        DataSourceKind::TdxApi => false,
        DataSourceKind::Akshare => {
            &&& r.data_sources.tdx == overlay.data_sources.tdx
            &&& r.data_sources.akshare matches Some(a) && {
                &&& a.base_url == (match base_url {
                    Some(u) => u,
                    None => app.data_sources.akshare->0.base_url,
                })
                &&& a.rate_limit == (match rate_limit {
                    Some(x) => x,
                    None => match app.data_sources.akshare {
                        Some(c) => c.rate_limit,
                        None => 100,
                    },
                })
            }
        },
    }
}

/// The refusal of `data source add --type tdx_api`.
pub open spec fn tdx_api_add_message() -> Seq<char> {
    "tdx-api 数据源通过环境变量 TDX_API_URL 配置，无需 add"@
}

/// `data source add` is refused for lack of hosts or of a base URL, and
/// always for tdx-api, which the environment configures.
pub open spec fn add_refusal(
    app: AppConfig,
    source_type: DataSourceKind,
    hosts: Seq<String>,
    base_url: Option<String>,
) -> Option<Seq<char>> {
    match source_type {
        DataSourceKind::Tdx => if hosts.len() == 0 && !(app.data_sources.tdx matches Some(c)
            && c.hosts@.len() > 0) {
            Some(tdx_hosts_message())
        } else {
            None
        },
        DataSourceKind::TdxApi => Some(tdx_api_add_message()),
        DataSourceKind::Akshare => if base_url is None && app.data_sources.akshare is None {
            Some(akshare_url_message())
        } else {
            None
        },
    }
}

/// The overlay that `data source add` writes, or why it refuses.
pub fn add_data_source_to_overlay(
    app_config: &AppConfig,
    overlay: DataSourceOverlay,
    source_type: DataSourceKind,
    hosts: Vec<String>,
    port: Option<u16>,
    timeout: Option<u64>,
    base_url: Option<String>,
    rate_limit: Option<u32>,
) -> (r: Result<DataSourceOverlay, QuantixError>)
    ensures
        match add_refusal(*app_config, source_type, hosts@, base_url) {
            Some(msg) => r matches Err(QuantixError::Other(m)) && m@ == msg,
            None => r matches Ok(o) && overlay_after_add(
                *app_config,
                overlay,
                source_type,
                hosts@,
                port,
                timeout,
                base_url,
                rate_limit,
                o,
            ),
        },
{
    let mut overlay = overlay;
    match source_type {
        DataSourceKind::Tdx => {
            let existing = &app_config.data_sources.tdx;
            let hosts = if hosts.len() == 0 {
                match existing {
                    Some(c) => {
                        if c.hosts.len() == 0 {
                            return Err(
                                QuantixError::Other(
                                    "data source add --type tdx 需要提供 --hosts，或先存在可复用的 tdx 配置".to_string(),
                                ),
                            );
                        }
                        clone_texts(&c.hosts)
                    },
                    None => {
                        return Err(
                            QuantixError::Other(
                                "data source add --type tdx 需要提供 --hosts，或先存在可复用的 tdx 配置".to_string(),
                            ),
                        );
                    },
                }
            } else {
                hosts
            };
            let port = match port {
                Some(p) => p,
                None => match existing {
                    Some(c) => c.port,
                    None => 7709,
                },
            };
            let timeout = match timeout {
                Some(x) => x,
                None => match existing {
                    Some(c) => c.timeout,
                    None => 5000,
                },
            };
            overlay.data_sources.tdx = Some(PersistedTdxConfig { hosts, port, timeout });
            if overlay.default.name.is_none() {
                overlay.default.name = Some("tdx".to_string());
            }
        },
        DataSourceKind::Akshare => {
            let existing = &app_config.data_sources.akshare;
            let base_url = match base_url {
                Some(u) => u,
                None => match existing {
                    Some(c) => c.base_url.clone(),
                    None => {
                        return Err(
                            QuantixError::Other(
                                "data source add --type akshare 需要提供 --base-url，或先存在可复用的 akshare 配置".to_string(),
                            ),
                        );
                    },
                },
            };
            let rate_limit = match rate_limit {
                Some(x) => x,
                None => match existing {
                    Some(c) => c.rate_limit,
                    None => 100,
                },
            };
            overlay.data_sources.akshare = Some(PersistedAkShareConfig { base_url, rate_limit });
            if overlay.default.name.is_none() {
                overlay.default.name = Some("akshare".to_string());
            }
        },
        DataSourceKind::TdxApi => {
            return Err(QuantixError::Other("tdx-api 数据源通过环境变量 TDX_API_URL 配置，无需 add".to_string()));
        },
    }
    Ok(overlay)
}

/// The message when the chosen default source is not configured.
pub open spec fn default_refusal_message(name: DataSourceKind) -> Seq<char> {
    "无法设置默认数据源: "@ + name.name_text() + " 尚未配置"@
}

/// The source is configured: in the application configuration, or for
/// tdx-api also by `TDX_API_URL`.
pub open spec fn source_configured(app: AppConfig, name: DataSourceKind, env_url: Option<Seq<char>>) -> bool {
    match name {
        DataSourceKind::Tdx => app.data_sources.tdx is Some,
        DataSourceKind::TdxApi => tdx_api_is_configured(app, env_url),
        DataSourceKind::Akshare => app.data_sources.akshare is Some,
    }
}

/// `data source set-default` refuses a source that is not configured;
/// `env_url` is the raw value of `TDX_API_URL`.
pub fn check_default_source(app_config: &AppConfig, name: DataSourceKind, env_url: &Option<String>) -> (r: Result<
    (),
    QuantixError,
>)
    ensures
        source_configured(*app_config, name, opt_text(*env_url)) ==> r is Ok,
        !source_configured(*app_config, name, opt_text(*env_url)) ==> (r matches Err(
            QuantixError::Other(m),
        ) && m@ == default_refusal_message(name)),
{
    let configured = match name {
        DataSourceKind::Tdx => app_config.data_sources.tdx.is_some(),
        DataSourceKind::TdxApi => tdx_api_configured(app_config, env_url),
        DataSourceKind::Akshare => app_config.data_sources.akshare.is_some(),
    };
    if !configured {
        let mut m = "无法设置默认数据源: ".to_string();
        m.append(name.as_str());
        m.append(" 尚未配置");
        return Err(QuantixError::Other(m));
    }
    Ok(())
}

/// The overlay that `data source set-default` writes: the default replaced,
/// the rest kept; refused when the source is not configured.
pub fn set_default_source_in_overlay(
    app_config: &AppConfig,
    overlay: DataSourceOverlay,
    name: DataSourceKind,
    env_url: &Option<String>,
) -> (r: Result<DataSourceOverlay, QuantixError>)
    ensures
        source_configured(*app_config, name, opt_text(*env_url)) ==> (r matches Ok(o)
            && o.data_sources == overlay.data_sources && opt_text(o.default.name) == Some(
            name.name_text(),
        )),
        !source_configured(*app_config, name, opt_text(*env_url)) ==> (r matches Err(
            QuantixError::Other(m),
        ) && m@ == default_refusal_message(name)),
{
    check_default_source(app_config, name, env_url)?;
    let mut overlay = overlay;
    overlay.default.name = Some(name.as_str().to_string());
    Ok(overlay)
}

/// `yes` or `no`.
pub open spec fn yes_no(b: bool) -> Seq<char> {
    if b {
        "yes"@
    } else {
        "no"@
    }
}

/// One row of the source table: name, default, configured, summary.
pub open spec fn source_row_text(
    name: Seq<char>,
    is_default: bool,
    configured: bool,
    summary: Seq<char>,
) -> Seq<char> {
    line(
        pad_right(name, 10) + " "@ + pad_right(yes_no(is_default), 8) + " "@ + pad_right(
            yes_no(configured),
            10,
        ) + " "@ + summary,
    )
}

/// The lines above the source table: the configuration directory, the
/// overlay file, the default source (or `未设置`), a blank line, the table
/// head and its rule.
pub open spec fn data_source_list_head_text(config_dir: Seq<char>, d: Option<Seq<char>>) -> Seq<
    char,
> {
    line("🔌 当前数据源配置"@) + line("  配置目录: "@ + config_dir) + line(
        "  覆盖文件: "@ + path_join_text(config_dir, "data_sources.toml"@),
    ) + line(
        "  默认数据源: "@ + match d {
            Some(x) => x,
            None => "未设置"@,
        },
    ) + line(Seq::empty()) + line(
        pad_right("名称"@, 10) + " "@ + pad_right("默认"@, 8) + " "@ + pad_right("已配置"@, 10)
            + " 摘要"@,
    ) + line(repeat_text("-"@, 72))
}

/// What `data source list` prints: the head, then a row for tdx, tdx-api
/// and akshare.
pub open spec fn data_source_list_text(
    config_dir: Seq<char>,
    app: AppConfig,
    overlay: DataSourceOverlay,
    env_url: Option<Seq<char>>,
    env_timeout: Option<Seq<char>>,
) -> Seq<char> {
    let d = default_source_text(overlay, app, env_url);
    data_source_list_head_text(config_dir, d) + source_row_text(
        "tdx"@,
        d == Some("tdx"@),
        app.data_sources.tdx is Some,
        match app.data_sources.tdx {
            Some(c) => tdx_summary_text(c),
            None => "-"@,
        },
    ) + source_row_text(
        "tdx_api"@,
        d == Some("tdx_api"@),
        tdx_api_is_configured(app, env_url),
        tdx_api_source_summary_text(app, env_url, env_timeout),
    ) + source_row_text(
        "akshare"@,
        d == Some("akshare"@),
        app.data_sources.akshare is Some,
        match app.data_sources.akshare {
            Some(c) => akshare_summary_text(c),
            None => "-"@,
        },
    )
}

fn render_data_source_head(config_dir: &str, d: &Option<String>) -> (r: String)
    ensures
        r@ == data_source_list_head_text(config_dir@, opt_text(*d)),
{
    let mut out = String::new();
    push_line(&mut out, "🔌 当前数据源配置");
    let mut l = "  配置目录: ".to_string();
    l.append(config_dir);
    push_line(&mut out, l.as_str());
    let mut l = "  覆盖文件: ".to_string();
    let path = overlay_path(config_dir);
    l.append(path.as_str());
    push_line(&mut out, l.as_str());
    let mut l = "  默认数据源: ".to_string();
    match d {
        Some(x) => l.append(x.as_str()),
        None => l.append("未设置"),
    }
    push_line(&mut out, l.as_str());
    push_line(&mut out, "");
    let mut head = String::new();
    push_padded(&mut head, "名称", 10);
    head.append(" ");
    push_padded(&mut head, "默认", 8);
    head.append(" ");
    push_padded(&mut head, "已配置", 10);
    head.append(" 摘要");
    push_line(&mut out, head.as_str());
    let mut rule = String::new();
    push_repeat(&mut rule, "-", 72);
    push_line(&mut out, rule.as_str());
    proof {
        reveal_strlit("");
    }
    assert(out@ =~= data_source_list_head_text(config_dir@, opt_text(*d)));
    out
}

fn yes_no_str(b: bool) -> (r: &'static str)
    ensures
        r@ == yes_no(b),
{
    if b {
        "yes"
    } else {
        "no"
    }
}

fn push_source_row(
    out: &mut String,
    name: &str,
    is_default: bool,
    configured: bool,
    summary: &str,
)
    ensures
        final(out)@ == old(out)@ + source_row_text(name@, is_default, configured, summary@),
{
    let mut row = String::new();
    push_padded(&mut row, name, 10);
    row.append(" ");
    push_padded(&mut row, yes_no_str(is_default), 8);
    row.append(" ");
    push_padded(&mut row, yes_no_str(configured), 10);
    row.append(" ");
    row.append(summary);
    push_line(out, row.as_str());
    assert(row@ =~= pad_right(name@, 10) + " "@ + pad_right(yes_no(is_default), 8) + " "@
        + pad_right(yes_no(configured), 10) + " "@ + summary@);
}

fn is_default_named(d: &Option<String>, name: &str) -> (r: bool)
    ensures
        r == (opt_text(*d) == Some(name@)),
{
    match d {
        Some(x) => str_eq(x.as_str(), name),
        None => false,
    }
}

/// The text that `data source list` prints, given the raw values of
/// `TDX_API_URL` and `TDX_API_TIMEOUT_SECS`.
pub fn render_data_source_list(
    config_dir: &str,
    app_config: &AppConfig,
    overlay: &DataSourceOverlay,
    env_url: &Option<String>,
    env_timeout: &Option<String>,
) -> (r: String)
    ensures
        r@ == data_source_list_text(
            config_dir@,
            *app_config,
            *overlay,
            opt_text(*env_url),
            opt_text(*env_timeout),
        ),
{
    let d = resolve_default_source(overlay, app_config, env_url);
    let mut out = render_data_source_head(config_dir, &d);
    let tdx_summary = match &app_config.data_sources.tdx {
        Some(c) => format_tdx_summary(c),
        None => "-".to_string(),
    };
    push_source_row(
        &mut out,
        "tdx",
        is_default_named(&d, "tdx"),
        app_config.data_sources.tdx.is_some(),
        tdx_summary.as_str(),
    );
    let api_summary = format_tdx_api_source_summary(app_config, env_url, env_timeout);
    push_source_row(
        &mut out,
        "tdx_api",
        is_default_named(&d, "tdx_api"),
        tdx_api_configured(app_config, env_url),
        api_summary.as_str(),
    );
    let ak_summary = match &app_config.data_sources.akshare {
        Some(c) => format_akshare_summary(c),
        None => "-".to_string(),
    };
    push_source_row(
        &mut out,
        "akshare",
        is_default_named(&d, "akshare"),
        app_config.data_sources.akshare.is_some(),
        ak_summary.as_str(),
    );
    assert(out@ =~= data_source_list_text(
        config_dir@,
        *app_config,
        *overlay,
        opt_text(*env_url),
        opt_text(*env_timeout),
    ));
    out
}

/// After `data source set-default`, the default that `data source list`
/// shows is the chosen source, whatever else is configured.
pub proof fn lemma_set_default_is_listed(
    app: AppConfig,
    overlay: DataSourceOverlay,
    name: DataSourceKind,
    written: DataSourceOverlay,
    env_url: Option<Seq<char>>,
)
    requires
        source_configured(app, name, env_url),
        written.data_sources == overlay.data_sources,
        opt_text(written.default.name) == Some(name.name_text()),
    ensures
        default_source_text(written, app, env_url) == Some(name.name_text()),
{
}

/// After `data source add` on an overlay without a default, the added
/// source is the default that `data source list` shows.
pub proof fn lemma_first_added_source_is_default(
    app: AppConfig,
    overlay: DataSourceOverlay,
    source_type: DataSourceKind,
    hosts: Seq<String>,
    port: Option<u16>,
    timeout: Option<u64>,
    base_url: Option<String>,
    rate_limit: Option<u32>,
    written: DataSourceOverlay,
    env_url: Option<Seq<char>>,
)
    requires
        overlay.default.name is None,
        overlay_after_add(app, overlay, source_type, hosts, port, timeout, base_url, rate_limit, written),
    ensures
        default_source_text(written, app, env_url) == Some(source_type.name_text()),
{
}

/// `data source add --type tdx` with hosts records exactly those hosts,
/// whatever the configuration already holds, and is not refused for hosts.
pub proof fn lemma_added_tdx_hosts_are_given(
    app: AppConfig,
    overlay: DataSourceOverlay,
    hosts: Seq<String>,
    port: Option<u16>,
    timeout: Option<u64>,
    base_url: Option<String>,
    rate_limit: Option<u32>,
    r: DataSourceOverlay,
)
    requires
        hosts.len() > 0,
        overlay_after_add(app, overlay, DataSourceKind::Tdx, hosts, port, timeout, base_url, rate_limit, r),
    ensures
        add_refusal(app, DataSourceKind::Tdx, hosts, base_url) is None,
        r.data_sources.tdx matches Some(t) && t.hosts@ == hosts,
{
}

} // verus!
