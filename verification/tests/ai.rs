use quantix::ai::{
    ai_analyze_context_warning, ai_config_test_status, ai_decide_context_warning,
    ai_market_context_warning, ProviderConfig,
};

#[test]
fn ai_config_test_status_does_not_claim_connectivity() {
    let provider = ProviderConfig {
        api_key: Some("test-key".to_string()),
        base_url: Some("https://example.test/v1".to_string()),
        models: vec!["test-model".to_string()],
    };

    let status = ai_config_test_status("openai", &provider);

    assert_eq!(status, "⚠️ 已配置（未发起真实连通性测试）");
    assert!(!status.contains("可用"));
}

#[test]
fn ai_analyze_context_warning_discloses_simulated_inputs() {
    let warning = ai_analyze_context_warning(true);

    assert!(warning.contains("模拟价格/指标上下文"));
    assert!(warning.contains("--with-news 仅回显"));
    assert!(warning.contains("不注入真实新闻数据"));
}

#[test]
fn ai_decide_context_warning_discloses_simulated_analysis() {
    let warning = ai_decide_context_warning();

    assert!(warning.contains("模拟技术面分析上下文"));
    assert!(warning.contains("不会读取实仓、行情或信号流水"));
}

#[test]
fn ai_market_context_warning_discloses_fixed_prompt_boundary() {
    let warning = ai_market_context_warning();

    assert!(warning.contains("固定提示词"));
    assert!(warning.contains("不会抓取实时市场数据"));
}

#[test]
fn ai_config_status_without_key() {
    let provider = ProviderConfig { api_key: None, base_url: None, models: vec![] };
    assert_eq!(ai_config_test_status("openai", &provider), "❌ 缺少认证配置");
    assert_eq!(ai_config_test_status("ollama", &provider), "⚠️ 已配置（未发起真实连通性测试）");
}

#[test]
fn ai_analyze_warning_without_news_has_no_news_clause() {
    let warning = ai_analyze_context_warning(false);
    assert_eq!(warning, "⚠️ 当前使用模拟价格/指标上下文；不会读取实时行情、财务或技术指标流水");
}
