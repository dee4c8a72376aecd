use quantix::account::{
    account_type_from_lowercase, allocation_from_lowercase, allocation_strategy_name,
    parse_account_type_input, parse_allocation_strategy, parse_split_target, AccountType,
    AllocationStrategy, SplitTarget,
};
use quantix::error::QuantixError;

#[test]
fn parse_account_type_prefers_qmt_live_wording_but_keeps_live_alias() {
    assert_eq!(parse_account_type_input("paper").unwrap(), AccountType::Paper);
    assert_eq!(parse_account_type_input("mock_live").unwrap(), AccountType::MockLive);
    assert_eq!(parse_account_type_input("qmt_live").unwrap(), AccountType::Live);
    assert_eq!(parse_account_type_input("live").unwrap(), AccountType::Live);
}

#[test]
fn parse_account_type_error_mentions_qmt_live_boundary() {
    let err = parse_account_type_input("invalid").unwrap_err().message();
    assert!(err.contains("paper, mock_live, qmt_live"));
    assert!(err.contains("live"));
}

#[test]
fn parse_account_type_ignores_letter_case() {
    assert_eq!(parse_account_type_input("PAPER").unwrap(), AccountType::Paper);
    assert_eq!(parse_account_type_input("Qmt_Live").unwrap(), AccountType::Live);
}

#[test]
fn account_type_error_quotes_the_input_as_given() {
    let err = parse_account_type_input("Futures").unwrap_err();
    assert_eq!(
        err,
        QuantixError::Other("无效的账户类型: Futures，支持: paper, mock_live, qmt_live（兼容 live 别名）".to_string())
    );
    let err = account_type_from_lowercase("futures", "FUTURES").unwrap_err();
    assert_eq!(
        err.message(),
        "无效的账户类型: FUTURES，支持: paper, mock_live, qmt_live（兼容 live 别名）"
    );
}

#[test]
fn allocation_strategies_parse_by_name() {
    let equal = parse_allocation_strategy("Equal", None).unwrap();
    assert_eq!(equal.strategy, AllocationStrategy::Equal);
    assert_eq!(equal.notice, None);
    let prop = parse_allocation_strategy("proportional", None).unwrap();
    assert_eq!(prop.strategy, AllocationStrategy::Proportional);
    let weighted = parse_allocation_strategy("weighted", None).unwrap();
    assert_eq!(weighted.strategy, AllocationStrategy::Equal);
    assert_eq!(
        weighted.notice.as_deref(),
        Some("⚠️  加权分配需要额外配置权重，暂时使用平均分配")
    );
    let primary = parse_allocation_strategy("primary_first", Some("acc-1".to_string())).unwrap();
    assert_eq!(
        primary.strategy,
        AllocationStrategy::PrimaryFirst { primary_account_id: "acc-1".to_string() }
    );
    assert_eq!(allocation_strategy_name(&primary.strategy), "primary_first");
    assert_eq!(allocation_strategy_name(&AllocationStrategy::Equal), "equal");
}

#[test]
fn allocation_strategy_refusals() {
    let missing = parse_allocation_strategy("primary_first", None).unwrap_err();
    assert_eq!(missing.message(), "primary_first 策略需要指定主账户");
    let unknown = allocation_from_lowercase("random", "Random", None).unwrap_err();
    assert_eq!(
        unknown.message(),
        "无效的分配策略: Random，支持: equal, proportional, weighted, primary_first"
    );
}

#[test]
fn split_targets() {
    assert_eq!(
        parse_split_target("single", "a1".to_string()).unwrap(),
        SplitTarget::Single("a1".to_string())
    );
    assert_eq!(
        parse_split_target("GROUP", "g1".to_string()).unwrap(),
        SplitTarget::Group("g1".to_string())
    );
    let err = parse_split_target("team", "t".to_string()).unwrap_err();
    assert_eq!(err.message(), "无效的目标类型: team，支持: single, group");
}
