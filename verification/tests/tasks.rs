use quantix::commands::analysis::TaskCommands;
use quantix::error::QuantixError;
use quantix::tasks::{ensure_task_command_supported_for_p0, foundation_p0_task_template_descriptions};

#[test]
fn test_task_add_is_explicitly_unsupported() {
    let err = ensure_task_command_supported_for_p0(&TaskCommands::Add {
        name: "demo".to_string(),
        cron: "0 * * * *".to_string(),
        command: "echo demo".to_string(),
    })
    .unwrap_err();

    assert!(matches!(err, QuantixError::Unsupported(_)));
}

#[test]
fn test_task_start_daemon_is_explicitly_unsupported() {
    let err = ensure_task_command_supported_for_p0(&TaskCommands::Start { daemon: true }).unwrap_err();

    assert!(matches!(err, QuantixError::Unsupported(_)));
}

#[test]
fn test_foundation_p0_task_templates_match_scheduler_templates() {
    let templates = foundation_p0_task_template_descriptions();

    assert_eq!(
        templates,
        vec![
            (
                "pre_market_check".to_string(),
                "检查盘前数据".to_string(),
                "0 8 * * 1-5".to_string()
            ),
            (
                "auction_collection".to_string(),
                "竞价数据采集".to_string(),
                "30,0 9 * * 1-5".to_string()
            ),
            (
                "market_open".to_string(),
                "开盘检查".to_string(),
                "30 9 * * 1-5".to_string()
            ),
            (
                "market_close".to_string(),
                "收盘检查".to_string(),
                "0 15 * * 1-5".to_string()
            ),
            (
                "post_market_process".to_string(),
                "盘后数据处理".to_string(),
                "30 15 * * 1-5".to_string()
            ),
            (
                "data_sync".to_string(),
                "数据同步".to_string(),
                "0 16 * * *".to_string()
            ),
        ]
    );
}

#[test]
fn task_start_in_foreground_and_other_commands_are_accepted() {
    assert!(ensure_task_command_supported_for_p0(&TaskCommands::Start { daemon: false }).is_ok());
    assert!(ensure_task_command_supported_for_p0(&TaskCommands::List).is_ok());
    assert!(ensure_task_command_supported_for_p0(&TaskCommands::Stop).is_ok());
}

#[test]
fn task_refusals_carry_their_messages() {
    let add = ensure_task_command_supported_for_p0(&TaskCommands::Add {
        name: "x".to_string(),
        cron: "* * * * *".to_string(),
        command: "true".to_string(),
    })
    .unwrap_err();
    assert_eq!(add.message(), "Foundation P0 仅支持预置任务模板；`task add` 暂不开放");
    let daemon = ensure_task_command_supported_for_p0(&TaskCommands::Start { daemon: true }).unwrap_err();
    assert_eq!(daemon.message(), "Foundation P0 仅支持前台直接执行；`task start --daemon` 暂不支持");
}
