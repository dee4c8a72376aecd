use quantix::commands::monitor::{MonitorConfigCommands, MonitorServiceCommands};
use quantix::error::QuantixError;
use quantix::monitor::{
    build_unconfigured_monitor_service_status_summary, ensure_watchlist_contains_code,
    execute_monitor_config_command, execute_monitor_service_command,
    execute_monitor_service_command_with_installer, format_monitor_alert_kind,
    format_monitor_event_type, format_monitor_run_mode, monitor_alert_id_to_i64,
    monitor_alert_kind_for, monitor_notification_event_key, monitor_notification_event_label,
    monitor_notification_level, monitor_notification_run_mode_label, monitor_notifications_enabled,
    monitor_service_config_show, parse_monitor_event_type, validate_monitor_watchlist_command,
    AlertLevel, MonitorConfig, MonitorEventType, MonitorRunMode, MonitorServiceAction,
    MonitorServiceConfig, MonitorServiceConfigOutput, PriceAlertKind,
};

#[test]
fn test_execute_monitor_config_show_returns_default_config() {
    let output = execute_monitor_config_command(MonitorConfigCommands::Show, MonitorConfig::default_config());

    let config = output.config;
    assert_eq!(config.interval_seconds, 30);
    assert_eq!(config.watchlist_group, None);
    assert!(config.persist_events);
    assert_eq!(config.max_event_history, 1000);
    assert!(!output.save);
}

#[test]
fn test_execute_monitor_config_set_updates_persisted_values() {
    let output = execute_monitor_config_command(
        MonitorConfigCommands::Change { interval_seconds: Some(15), group: None, persist_events: None },
        MonitorConfig::default_config(),
    );

    assert_eq!(output.config.interval_seconds, 15);
    assert!(output.save);
    let reloaded = execute_monitor_config_command(MonitorConfigCommands::Show, output.config);
    assert_eq!(reloaded.config.interval_seconds, 15);
}

#[test]
fn monitor_config_set_clamps_interval_and_clear_group_drops_it() {
    let set = execute_monitor_config_command(
        MonitorConfigCommands::Change {
            interval_seconds: Some(0),
            group: Some("core".to_string()),
            persist_events: Some(false),
        },
        MonitorConfig::default_config(),
    );
    assert_eq!(set.config.interval_seconds, 1);
    assert_eq!(set.config.watchlist_group.as_deref(), Some("core"));
    assert!(!set.config.persist_events);
    let cleared = execute_monitor_config_command(MonitorConfigCommands::ClearGroup, set.config);
    assert_eq!(cleared.config.watchlist_group, None);
    assert_eq!(cleared.config.interval_seconds, 1);
    assert!(cleared.save);
}

#[test]
fn event_type_names_round_trip() {
    for t in [
        MonitorEventType::PriceAlert,
        MonitorEventType::StopLoss,
        MonitorEventType::StopProfit,
        MonitorEventType::TrailingStop,
    ] {
        assert_eq!(parse_monitor_event_type(format_monitor_event_type(t)).unwrap(), t);
        assert_eq!(monitor_notification_event_key(t), format_monitor_event_type(t));
    }
    let err = parse_monitor_event_type("take-profit").unwrap_err();
    assert_eq!(err, QuantixError::Unsupported("monitor event list 不支持的事件类型: take-profit".to_string()));
}

#[test]
fn monitor_names_and_levels() {
    assert_eq!(format_monitor_alert_kind(PriceAlertKind::Above), "above");
    assert_eq!(format_monitor_alert_kind(PriceAlertKind::Below), "below");
    assert_eq!(format_monitor_run_mode(MonitorRunMode::Daemon), "daemon");
    assert_eq!(monitor_notification_run_mode_label(MonitorRunMode::Foreground), "foreground");
    assert_eq!(monitor_notification_level(MonitorEventType::StopLoss), AlertLevel::Critical);
    assert_eq!(monitor_notification_level(MonitorEventType::PriceAlert), AlertLevel::Warning);
    assert!(!monitor_notification_event_label(MonitorEventType::TrailingStop).is_empty());
}

#[test]
fn watchlist_mode_needs_exactly_one_choice() {
    assert!(validate_monitor_watchlist_command(true, false).is_ok());
    assert!(validate_monitor_watchlist_command(false, true).is_ok());
    let err = validate_monitor_watchlist_command(false, false).unwrap_err();
    assert_eq!(err.message(), "monitor watchlist 必须且只能指定 --once 或 --repeat 之一");
    assert!(validate_monitor_watchlist_command(true, true).is_err());
}

#[test]
fn alert_ids_must_fit_i64() {
    assert_eq!(monitor_alert_id_to_i64(42).unwrap(), 42);
    assert!(monitor_alert_id_to_i64(u64::MAX).is_err());
}

#[test]
fn alert_kind_needs_exactly_one_threshold() {
    assert_eq!(monitor_alert_kind_for(true, false).unwrap(), PriceAlertKind::Above);
    assert_eq!(monitor_alert_kind_for(false, true).unwrap(), PriceAlertKind::Below);
    let err = monitor_alert_kind_for(true, true).unwrap_err();
    assert_eq!(err.message(), "monitor alert add 必须且只能指定 --above 或 --below 之一");
    assert!(monitor_alert_kind_for(false, false).is_err());
}

#[test]
fn notifications_follow_config_or_environment_switch() {
    let mut config = MonitorConfig::default_config();
    assert!(!monitor_notifications_enabled(&config, &None));
    assert!(monitor_notifications_enabled(&config, &Some(" TRUE ".to_string())));
    assert!(monitor_notifications_enabled(&config, &Some("on".to_string())));
    assert!(!monitor_notifications_enabled(&config, &Some("off".to_string())));
    config.notify_enabled = true;
    assert!(monitor_notifications_enabled(&config, &Some("0".to_string())));
}

#[test]
fn watchlist_membership_is_checked() {
    let codes = vec!["600519".to_string(), "000001".to_string()];
    assert!(ensure_watchlist_contains_code(&codes, "000001").is_ok());
    let err = ensure_watchlist_contains_code(&codes, "300750").unwrap_err();
    assert_eq!(err.message(), "股票不在自选池: 300750");
}

#[test]
fn service_commands_map_to_installer_steps() {
    let plan = execute_monitor_service_command_with_installer(MonitorServiceCommands::Install);
    assert_eq!(plan.action, MonitorServiceAction::Install);
    assert_eq!(plan.success_message.as_deref(), Some("monitor service installed"));
    let status = execute_monitor_service_command_with_installer(MonitorServiceCommands::Status);
    assert_eq!(status.action, MonitorServiceAction::ReadStatus);
    assert_eq!(status.success_message, None);
}

#[test]
fn unconfigured_service_status_is_reported_only_for_status() {
    let summary = execute_monitor_service_command(
        MonitorServiceCommands::Status,
        QuantixError::Config("missing".to_string()),
    )
    .unwrap();
    assert_eq!(summary, build_unconfigured_monitor_service_status_summary());
    assert!(!summary.installed);
    let err = execute_monitor_service_command(
        MonitorServiceCommands::Start,
        QuantixError::Config("missing".to_string()),
    )
    .unwrap_err();
    assert_eq!(err, QuantixError::Config("missing".to_string()));
}

#[test]
fn service_config_show_outcomes() {
    let config = MonitorServiceConfig { quantix_bin_path: "/usr/bin/quantix".to_string() };
    assert_eq!(
        monitor_service_config_show(Ok(config.clone())).unwrap(),
        MonitorServiceConfigOutput::Config(config)
    );
    match monitor_service_config_show(Err(QuantixError::Config("none".to_string()))).unwrap() {
        MonitorServiceConfigOutput::Message(m) => assert!(m.contains("monitor service 未配置")),
        other => panic!("unexpected output: {:?}", other),
    }
    let err = monitor_service_config_show(Err(QuantixError::Other("io".to_string()))).unwrap_err();
    assert_eq!(err, QuantixError::Other("io".to_string()));
}

#[test]
fn test_execute_monitor_watchlist_requires_once() {
    let err = validate_monitor_watchlist_command(false, false).unwrap_err();
    assert!(matches!(err, QuantixError::Other(_)));
    assert!(err.message().contains("--once"));
    assert!(err.message().contains("--repeat"));
}

#[test]
fn test_execute_stop_set_rejects_codes_outside_watchlist() {
    let err = ensure_watchlist_contains_code(&vec!["000001".to_string()], "000002").unwrap_err();
    assert!(matches!(err, QuantixError::Other(_)));
    assert!(err.message().contains("不在自选池"));
}
