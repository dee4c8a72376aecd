//! AI command texts: the provider configuration check and the notices that
//! say which inputs are simulated.
use vstd::prelude::*;
use crate::text::str_eq;

verus! {

/// The configuration of one AI provider.
#[derive(Clone, Debug, PartialEq, Eq)]
pub struct ProviderConfig {
    pub api_key: Option<String>,
    pub base_url: Option<String>,
    pub models: Vec<String>,
}

/// The status of a provider in `ai config --test`: configured when it has an
/// API key or is `ollama` (which needs none); no connection is attempted.
pub open spec fn config_test_status_text(name: Seq<char>, provider: ProviderConfig) -> Seq<char> {
    if provider.api_key is Some || name == "ollama"@ {
        "⚠️ 已配置（未发起真实连通性测试）"@
    } else {
        "❌ 缺少认证配置"@
    }
}

/// The status of a provider in `ai config --test`.
pub fn ai_config_test_status(name: &str, provider_config: &ProviderConfig) -> (r: &'static str)
    ensures
        r@ == config_test_status_text(name@, *provider_config),
{
    if provider_config.api_key.is_some() || str_eq(name, "ollama") {
        "⚠️ 已配置（未发起真实连通性测试）"
    } else {
        "❌ 缺少认证配置"
    }
}

/// The notice of `ai analyze`: the price and indicator context is simulated;
/// with `--with-news` it adds that news are only echoed.
pub open spec fn analyze_warning_text(with_news: bool) -> Seq<char> {
    "⚠️ 当前使用模拟价格/指标上下文；不会读取实时行情、财务或技术指标流水"@ + if with_news {
        "；--with-news 仅回显，不注入真实新闻数据"@
    } else {
        Seq::empty()
    }
}

/// The notice of `ai analyze`.
pub fn ai_analyze_context_warning(with_news: bool) -> (r: String)
    ensures
        r@ == analyze_warning_text(with_news),
{
    let mut warning = "⚠️ 当前使用模拟价格/指标上下文；不会读取实时行情、财务或技术指标流水".to_string();
    if with_news {
        warning.append("；--with-news 仅回显，不注入真实新闻数据");
    }
    warning
}

/// The notice of `ai decide`: the technical analysis context is simulated.
pub fn ai_decide_context_warning() -> (r: &'static str)
    ensures
        r@ == "⚠️ 当前使用模拟技术面分析上下文；不会读取实仓、行情或信号流水"@,
{
    "⚠️ 当前使用模拟技术面分析上下文；不会读取实仓、行情或信号流水"
}

/// The notice of `ai market`: a fixed prompt, no live market data.
pub fn ai_market_context_warning() -> (r: &'static str)
    ensures
        r@ == "⚠️ 当前使用固定提示词；不会抓取实时市场数据"@,
{
    "⚠️ 当前使用固定提示词；不会抓取实时市场数据"
}

} // verus!
