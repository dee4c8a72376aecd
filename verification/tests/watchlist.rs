use quantix::commands::market::{WatchlistCommands, WatchlistGroupCommands, WatchlistTagCommands};
use quantix::watchlist::{
    render_watchlist_groups, render_watchlist_items, render_watchlist_tags, sort_groups_by_name, watchlist_confirmation,
    WatchlistListItem,
};

#[test]
fn watchlist_items_table() {
    assert_eq!(render_watchlist_items(&Vec::new()), "📭 自选池为空\n");
    let items = vec![
        WatchlistListItem { code: "600519".to_string(), group: "default".to_string(), tags: vec![] },
        WatchlistListItem {
            code: "000001".to_string(),
            group: "银行".to_string(),
            tags: vec!["核心".to_string(), "高股息".to_string()],
        },
    ];
    let expected = format!(
        "{:<10} {:<12} {}\n{}\n{:<10} {:<12} {}\n{:<10} {:<12} {}\n",
        "代码", "分组", "标签", "-".repeat(48), "600519", "default", "-", "000001", "银行", "核心,高股息"
    );
    assert_eq!(render_watchlist_items(&items), expected);
}

#[test]
fn watchlist_tags_line() {
    assert_eq!(render_watchlist_tags("600519", &vec!["a".to_string(), "b".to_string()]), "🏷️  600519 标签: a,b\n");
    assert_eq!(render_watchlist_tags("600519", &Vec::new()), "🏷️  600519 标签: -\n");
}

#[test]
fn watchlist_changes_are_confirmed() {
    let add = WatchlistCommands::Add { code: "600519".to_string(), group: None };
    assert_eq!(watchlist_confirmation(&add).unwrap(), "✅ 已添加 600519 到自选池");
    let mv = WatchlistCommands::Move { code: "600519".to_string(), group: "白酒".to_string() };
    assert_eq!(watchlist_confirmation(&mv).unwrap(), "✅ 已将 600519 移动到分组 白酒");
    let tag = WatchlistCommands::Tag(WatchlistTagCommands::Remove { code: "1".to_string(), tag: "x".to_string() });
    assert_eq!(watchlist_confirmation(&tag).unwrap(), "✅ 已为 1 移除标签 x");
    let create = WatchlistCommands::Group(WatchlistGroupCommands::Create { name: "g".to_string() });
    assert_eq!(watchlist_confirmation(&create).unwrap(), "✅ 已创建分组 g");
    let list = WatchlistCommands::List { group: None, tag: None, with_price: false };
    assert_eq!(watchlist_confirmation(&list), None);
}

#[test]
fn watchlist_groups_are_listed_by_name() {
    let groups = vec![("科技".to_string(), 3), ("default".to_string(), 5), ("bank".to_string(), 0)];
    let sorted = sort_groups_by_name(&groups);
    assert_eq!(
        sorted,
        vec![("bank".to_string(), 0), ("default".to_string(), 5), ("科技".to_string(), 3)]
    );
    let expected = format!(
        "{:<16} {}\n{}\n{:<16} {}\n{:<16} {}\n{:<16} {}\n",
        "分组", "数量", "-".repeat(28), "bank", 0, "default", 5, "科技", 3
    );
    assert_eq!(render_watchlist_groups(&groups), expected);
    assert_eq!(render_watchlist_groups(&Vec::new()), format!("{:<16} {}\n{}\n", "分组", "数量", "-".repeat(28)));
}
