use quantix::decimal::DecimalValue;
use quantix::trade::{
    render_trade_command_output, render_trade_current_positions, render_trade_fee_rows,
    render_trade_history_rows, render_trade_overview, render_trade_positions, CashSnapshot,
    TradeAccountView, TradeCommandOutput, TradeFeeRow, TradeHistoryRow, TradeOverview, TradePosition,
    TradePositionCurrentRow, TradeQuoteStatus, TradeSide,
};

fn d(m: i64, s: u32) -> DecimalValue {
    DecimalValue::new(m, s)
}

#[test]
fn account_summary_after_init_and_reset() {
    let account = TradeAccountView {
        account_id: "default".to_string(),
        initial_capital: d(1500000, 0),
        available_cash: d(150000000, 2),
        commission_rate: d(3, 4),
        commission_min: d(5, 0),
        stamp_duty_rate: d(1, 3),
        transfer_fee_rate: d(1, 5),
    };
    let summary = "初始资金: 1500000\n可用资金: 1500000.00\n佣金费率: 0.0003\n最低佣金: 5\n印花税率: 0.001\n过户费率: 0.00001\n";
    assert_eq!(
        render_trade_command_output(&TradeCommandOutput::AccountInitialized(account.clone())),
        format!("✅ 已初始化模拟账户 default\n{}", summary)
    );
    assert_eq!(
        render_trade_command_output(&TradeCommandOutput::AccountReset(account)),
        format!("✅ 已重置模拟账户 default\n{}", summary)
    );
}

#[test]
fn cash_and_overview() {
    let cash = CashSnapshot {
        initial_capital: d(100000, 0),
        available_cash: d(8500050, 2),
        estimated_position_value: d(1500000, 2),
        estimated_total_assets: d(10000050, 2),
    };
    assert_eq!(
        render_trade_command_output(&TradeCommandOutput::Cash(cash)),
        "初始资金: 100000\n可用现金: 85000.50\n持仓估值: 15000.00\n总资产估算: 100000.50\n"
    );
    let mut overview = TradeOverview {
        initial_capital: d(100000, 0),
        available_cash: d(90000, 0),
        booked_position_value: d(10000, 0),
        booked_total_assets: d(100000, 0),
        trade_count: 3,
        holding_count: 1,
        total_buy_amount: d(15000, 0),
        total_sell_amount: d(5000, 0),
        total_fee: d(1525, 2),
        quote_coverage: None,
        live_position_value: None,
        live_total_assets: None,
    };
    let booked = "初始资金: 100000\n可用现金: 90000\n账面持仓估值: 10000\n账面总资产: 100000\n成交笔数: 3\n持仓数: 1\n累计买入额: 15000\n累计卖出额: 5000\n累计费用: 15.25\n";
    assert_eq!(render_trade_overview(&overview), booked);
    overview.quote_coverage = Some((1, 1));
    overview.live_position_value = Some(d(12000, 0));
    overview.live_total_assets = Some(d(102000, 0));
    assert_eq!(
        render_trade_overview(&overview),
        format!("{}实时价格覆盖: 1/1\n实时持仓估值: 12000\n实时总资产: 102000\n", booked)
    );
}

#[test]
fn position_tables() {
    assert_eq!(render_trade_positions(&Vec::new()), "📭 暂无持仓\n");
    let positions = vec![TradePosition {
        code: "600519".to_string(),
        volume: 100,
        avg_cost: d(150050, 2),
        last_trade_price: d(1510, 0),
    }];
    assert_eq!(
        render_trade_positions(&positions),
        format!(
            "{:<10} {:<10} {:<14} 最新成交价\n{}\n{:<10} {:<10} {:<14} {}\n",
            "代码", "数量", "持仓成本", "-".repeat(56), "600519", 100, "1500.50", "1510"
        )
    );
    let current = vec![TradePositionCurrentRow {
        code: "600519".to_string(),
        volume: 100,
        avg_cost: d(150050, 2),
        last_trade_price: d(1510, 0),
        current_price: Some(d(152000, 2)),
        current_market_value: None,
        unrealized_pnl: Some(d(-95, 1)),
        quote_status: TradeQuoteStatus::Live,
    }];
    assert_eq!(
        render_trade_current_positions(&current),
        format!(
            "{:<10} {:<10} {:<14} {:<12} {:<12} {:<12} {:<12} 价格状态\n{}\n{:<10} {:<10} {:<14} {:<12} {:<12} {:<12} {:<12} {}\n",
            "代码", "数量", "持仓成本", "最新成交价", "当前价", "当前市值", "浮盈亏", "-".repeat(112),
            "600519", 100, "1500.50", "1510", "1520.00", "-", "-9.5", "live"
        )
    );
}

#[test]
fn history_and_fee_tables() {
    assert_eq!(render_trade_history_rows(&Vec::new()), "📭 暂无成交历史\n");
    assert_eq!(render_trade_fee_rows(&Vec::new()), "📭 暂无费用明细\n");
    let history = vec![TradeHistoryRow {
        executed_at_text: "2024-03-01 10:00:00".to_string(),
        code: "600519".to_string(),
        side: TradeSide::Sell,
        price: d(1510, 0),
        volume: 100,
        amount: d(151000, 0),
        total_fee: d(15855, 2),
        net_cash_impact: d(15084145, 2),
    }];
    assert_eq!(
        render_trade_history_rows(&history),
        format!(
            "{:<20} {:<10} {:<6} {:<10} {:<8} {:<12} {:<10} 净现金影响\n{}\n{:<20} {:<10} {:<6} {:<10} {:<8} {:<12} {:<10} {}\n",
            "时间", "代码", "方向", "价格", "数量", "成交额", "费用", "-".repeat(100),
            "2024-03-01 10:00:00", "600519", "卖出", "1510", 100, "151000", "158.55", "150841.45"
        )
    );
    let fees = vec![TradeFeeRow {
        executed_at_text: "2024-03-01 10:00:00".to_string(),
        code: "600519".to_string(),
        side: TradeSide::Buy,
        commission: d(4530, 2),
        stamp_duty: d(0, 0),
        transfer_fee: d(151, 2),
        total_fee: d(4681, 2),
    }];
    assert_eq!(
        render_trade_fee_rows(&fees),
        format!(
            "{:<20} {:<10} {:<6} {:<10} {:<10} {:<10} 总费用\n{}\n{:<20} {:<10} {:<6} {:<10} {:<10} {:<10} {}\n",
            "时间", "代码", "方向", "佣金", "印花税", "过户费", "-".repeat(90),
            "2024-03-01 10:00:00", "600519", "买入", "45.30", "0", "1.51", "46.81"
        )
    );
}
