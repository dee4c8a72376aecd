//! The watchlist texts: entries, tags, and the confirmations of the commands
//! that change the watchlist.
use vstd::prelude::*;
use crate::commands::market::{WatchlistCommands, WatchlistGroupCommands, WatchlistTagCommands};
use crate::market::{lemma_lex_antisym, lemma_lex_range, lemma_lex_trans, lex_order, text_order};
use crate::text::{dec_text, join_strings, join_text, line, pad_right, push_line, push_padded, push_repeat, push_u64, repeat_text};

verus! {

/// The tags of a watchlist entry: `-` when there are none, else joined with commas.
pub open spec fn tags_text(tags: Seq<String>) -> Seq<char> {
    if tags.len() == 0 {
        "-"@
    } else {
        join_text(tags.map_values(|t: String| t@), ","@)
    }
}

/// The tags of a watchlist entry for display.
pub fn format_tags(tags: &Vec<String>) -> (r: String)
    ensures
        r@ == tags_text(tags@),
{
    if tags.len() == 0 {
        "-".to_string()
    } else {
        join_strings(tags, ",")
    }
}

/// A watchlist entry as `watchlist list` shows it.
#[derive(Clone, Debug, PartialEq, Eq)]
pub struct WatchlistListItem {
    pub code: String,
    pub group: String,
    pub tags: Vec<String>,
}

/// One line of the watchlist: code, group and tags.
pub open spec fn item_line(item: WatchlistListItem) -> Seq<char> {
    line(pad_right(item.code@, 10) + " "@ + pad_right(item.group@, 12) + " "@ + tags_text(item.tags@))
}

/// The lines of the entries, in order.
pub open spec fn item_lines(items: Seq<WatchlistListItem>) -> Seq<char>
    decreases items.len(),
{
    if items.len() == 0 {
        Seq::empty()
    } else {
        item_lines(items.drop_last()) + item_line(items.last())
    }
}

/// `watchlist list` without prices: a notice when the watchlist is empty,
/// else a header, a rule of 48 dashes and one line per entry.
pub open spec fn watchlist_items_text(items: Seq<WatchlistListItem>) -> Seq<char> {
    if items.len() == 0 {
        line("📭 自选池为空"@)
    } else {
        line(pad_right("代码"@, 10) + " "@ + pad_right("分组"@, 12) + " 标签"@) + line(repeat_text("-"@, 48))
            + item_lines(items)
    }
}

fn item_line_text(item: &WatchlistListItem) -> (r: String)
    ensures
        line(r@) == item_line(*item),
{
    let mut s = String::new();
    push_padded(&mut s, item.code.as_str(), 10);
    s.append(" ");
    push_padded(&mut s, item.group.as_str(), 12);
    s.append(" ");
    let tags = format_tags(&item.tags);
    s.append(tags.as_str());
    assert(s@ =~= pad_right(item.code@, 10) + " "@ + pad_right(item.group@, 12) + " "@ + tags_text(
        item.tags@,
    ));
    s
}

/// The text `watchlist list` prints for the entries when prices are not asked for.
pub fn render_watchlist_items(items: &Vec<WatchlistListItem>) -> (r: String)
    ensures
        r@ == watchlist_items_text(items@),
{
    let mut out = String::new();
    if items.len() == 0 {
        push_line(&mut out, "📭 自选池为空");
        return out;
    }
    let mut header = String::new();
    push_padded(&mut header, "代码", 10);
    header.append(" ");
    push_padded(&mut header, "分组", 12);
    header.append(" 标签");
    push_line(&mut out, header.as_str());
    let mut dashes = String::new();
    push_repeat(&mut dashes, "-", 48);
    push_line(&mut out, dashes.as_str());
    let ghost head = out@;
    assert(head =~= line(pad_right("代码"@, 10) + " "@ + pad_right("分组"@, 12) + " 标签"@) + line(
        repeat_text("-"@, 48),
    ));
    let mut i: usize = 0;
    while i < items.len()
        invariant
            i <= items.len(),
            out@ == head + item_lines(items@.take(i as int)),
        decreases items.len() - i,
    {
        assert(items@.take(i + 1).drop_last() =~= items@.take(i as int));
        let l = item_line_text(&items[i]);
        push_line(&mut out, l.as_str());
        assert(out@ =~= head + item_lines(items@.take(i + 1)));
        i = i + 1;
    }
    assert(items@.take(i as int) =~= items@);
    out
}

/// `watchlist tag list`: the code and its tags.
pub open spec fn watchlist_tags_text(code: Seq<char>, tags: Seq<String>) -> Seq<char> {
    line("🏷️  "@ + code + " 标签: "@ + tags_text(tags))
}

/// The text `watchlist tag list` prints for a code.
pub fn render_watchlist_tags(code: &str, tags: &Vec<String>) -> (r: String)
    ensures
        r@ == watchlist_tags_text(code@, tags@),
{
    let mut s = "🏷️  ".to_string();
    s.append(code);
    s.append(" 标签: ");
    let t = format_tags(tags);
    s.append(t.as_str());
    let mut out = String::new();
    push_line(&mut out, s.as_str());
    assert(s@ =~= "🏷️  "@ + code@ + " 标签: "@ + tags_text(tags@));
    out
}

/// The line a watchlist command prints once its change is saved; commands
/// that only read have none.
pub open spec fn watchlist_confirmation_text(cmd: WatchlistCommands) -> Option<Seq<char>> {
    match cmd {
        WatchlistCommands::Add { code, .. } => Some("✅ 已添加 "@ + code@ + " 到自选池"@),
        WatchlistCommands::Remove { code } => Some("✅ 已从自选池移除 "@ + code@),
        WatchlistCommands::Move { code, group } => Some("✅ 已将 "@ + code@ + " 移动到分组 "@ + group@),
        WatchlistCommands::Group(WatchlistGroupCommands::Create { name }) => Some("✅ 已创建分组 "@ + name@),
        WatchlistCommands::Tag(WatchlistTagCommands::Add { code, tag }) => Some(
            "✅ 已为 "@ + code@ + " 添加标签 "@ + tag@,
        ),
        WatchlistCommands::Tag(WatchlistTagCommands::Remove { code, tag }) => Some(
            "✅ 已为 "@ + code@ + " 移除标签 "@ + tag@,
        ),
        _ => None,
    }
}

/// The confirmation a watchlist command prints after saving, if it changes
/// the watchlist.
pub fn watchlist_confirmation(cmd: &WatchlistCommands) -> (r: Option<String>)
    ensures
        match watchlist_confirmation_text(*cmd) {
            Some(t) => r matches Some(s) && s@ == t,
            None => r is None,
        },
{
    match cmd {
        WatchlistCommands::Add { code, .. } => {
            let mut s = "✅ 已添加 ".to_string();
            s.append(code.as_str());
            s.append(" 到自选池");
            Some(s)
        },
        WatchlistCommands::Remove { code } => {
            let mut s = "✅ 已从自选池移除 ".to_string();
            s.append(code.as_str());
            Some(s)
        },
        WatchlistCommands::Move { code, group } => {
            let mut s = "✅ 已将 ".to_string();
            s.append(code.as_str());
            s.append(" 移动到分组 ");
            s.append(group.as_str());
            Some(s)
        },
        WatchlistCommands::Group(WatchlistGroupCommands::Create { name }) => {
            let mut s = "✅ 已创建分组 ".to_string();
            s.append(name.as_str());
            Some(s)
        },
        WatchlistCommands::Tag(WatchlistTagCommands::Add { code, tag }) => {
            let mut s = "✅ 已为 ".to_string();
            s.append(code.as_str());
            s.append(" 添加标签 ");
            s.append(tag.as_str());
            Some(s)
        },
        WatchlistCommands::Tag(WatchlistTagCommands::Remove { code, tag }) => {
            let mut s = "✅ 已为 ".to_string();
            s.append(code.as_str());
            s.append(" 移除标签 ");
            s.append(tag.as_str());
            Some(s)
        },
        _ => None,
    }
}


/// `out` holds the groups of `src`, each once, ordered by name: `p` tells
/// where each group of `out` stands in `src`.
pub open spec fn group_sort_witness(out: Seq<(String, usize)>, src: Seq<(String, usize)>, p: Seq<int>) -> bool {
    &&& p.len() == out.len()
    &&& out.len() == src.len()
    &&& forall|i: int| 0 <= i < out.len() ==> 0 <= #[trigger] p[i] < src.len() && out[i] == src[p[i]]
    &&& forall|i: int, j: int| 0 <= i < j < out.len() ==> #[trigger] p[i] != #[trigger] p[j]
    &&& forall|i: int, j: int| 0 <= i < j < out.len() ==> lex_order((#[trigger] out[i]).0@, (#[trigger] out[j]).0@) <= 0
}

/// `out` is `src` ordered by group name.
pub open spec fn groups_sorted_from(out: Seq<(String, usize)>, src: Seq<(String, usize)>) -> bool {
    exists|p: Seq<int>| group_sort_witness(out, src, p)
}

fn copy_group(g: &(String, usize)) -> (r: (String, usize))
    ensures
        r == *g,
{
    (g.0.clone(), g.1)
}

/// The groups with their sizes, ordered by name.
pub fn sort_groups_by_name(groups: &Vec<(String, usize)>) -> (r: Vec<(String, usize)>)
    ensures
        groups_sorted_from(r@, groups@),
{
    let mut out: Vec<(String, usize)> = Vec::new();
    let ghost mut p: Seq<int> = Seq::empty();
    let mut k: usize = 0;
    while k < groups.len()
        invariant
            k <= groups.len(),
            p.len() == out@.len(),
            out@.len() == k,
            forall|i: int| 0 <= i < out@.len() ==> 0 <= #[trigger] p[i] < k && out@[i] == groups@[p[i]],
            forall|i: int, j: int| 0 <= i < j < out@.len() ==> #[trigger] p[i] != #[trigger] p[j],
            forall|i: int, j: int|
                0 <= i < j < out@.len() ==> lex_order((#[trigger] out@[i]).0@, (#[trigger] out@[j]).0@) <= 0,
        decreases groups.len() - k,
    {
        let x = copy_group(&groups[k]);
        let mut pos: usize = 0;
        while pos < out.len() && text_order(out[pos].0.as_str(), x.0.as_str()) <= 0
            invariant
                pos <= out@.len(),
                forall|i: int| 0 <= i < pos ==> lex_order((#[trigger] out@[i]).0@, x.0@) <= 0,
            decreases out@.len() - pos,
        {
            pos = pos + 1;
        }
        let ghost old_out = out@;
        let ghost old_p = p;
        out.insert(pos, x);
        proof {
            p = old_p.insert(pos as int, k as int);
            assert forall|i: int| 0 <= i < out@.len() implies 0 <= #[trigger] p[i] < k + 1 && out@[i]
                == groups@[p[i]] by {
                if i > pos {
                    assert(out@[i] == old_out[i - 1]);
                    assert(p[i] == old_p[i - 1]);
                }
            }
            assert forall|i: int, j: int| 0 <= i < j < out@.len() implies #[trigger] p[i]
                != #[trigger] p[j] by {
                if i < pos && j > pos {
                    assert(p[j] == old_p[j - 1]);
                } else if i == pos {
                    assert(p[j] == old_p[j - 1]);
                } else if i > pos {
                    assert(p[i] == old_p[i - 1]);
                    assert(p[j] == old_p[j - 1]);
                }
            }
            assert forall|i: int, j: int| 0 <= i < j < out@.len() implies lex_order(
                (#[trigger] out@[i]).0@,
                (#[trigger] out@[j]).0@,
            ) <= 0 by {
                if j == pos {
                    assert(out@[i] == old_out[i]);
                } else if i == pos {
                    assert(out@[j] == old_out[j - 1]);
                    lemma_lex_range(old_out[pos as int].0@, x.0@);
                    lemma_lex_antisym(old_out[pos as int].0@, x.0@);
                    if j - 1 > pos {
                        lemma_lex_trans(x.0@, old_out[pos as int].0@, old_out[j - 1].0@);
                    }
                } else if i < pos && j > pos {
                    assert(out@[i] == old_out[i]);
                    assert(out@[j] == old_out[j - 1]);
                } else if i > pos {
                    assert(out@[i] == old_out[i - 1]);
                    assert(out@[j] == old_out[j - 1]);
                }
            }
        }
        k = k + 1;
    }
    assert(group_sort_witness(out@, groups@, p));
    out
}

/// One line of the group list: name and size.
pub open spec fn group_line(g: (String, usize)) -> Seq<char> {
    line(pad_right(g.0@, 16) + " "@ + dec_text(g.1 as nat))
}

/// The lines of the groups, in order.
pub open spec fn group_lines(groups: Seq<(String, usize)>) -> Seq<char>
    decreases groups.len(),
{
    if groups.len() == 0 {
        Seq::empty()
    } else {
        group_lines(groups.drop_last()) + group_line(groups.last())
    }
}

/// `watchlist group list`: a header, a rule of 28 dashes and one line per
/// group, in the order given.
pub open spec fn group_list_text(groups: Seq<(String, usize)>) -> Seq<char> {
    line(pad_right("分组"@, 16) + " 数量"@) + line(repeat_text("-"@, 28)) + group_lines(groups)
}

/// The text `watchlist group list` prints: the groups with their sizes,
/// ordered by name.
pub fn render_watchlist_groups(groups: &Vec<(String, usize)>) -> (r: String)
    ensures
        exists|sorted: Seq<(String, usize)>| groups_sorted_from(sorted, groups@) && r@ == group_list_text(sorted),
{
    let sorted = sort_groups_by_name(groups);
    let mut out = String::new();
    let mut header = String::new();
    push_padded(&mut header, "分组", 16);
    header.append(" 数量");
    push_line(&mut out, header.as_str());
    let mut dashes = String::new();
    push_repeat(&mut dashes, "-", 28);
    push_line(&mut out, dashes.as_str());
    let ghost head = out@;
    assert(head =~= line(pad_right("分组"@, 16) + " 数量"@) + line(repeat_text("-"@, 28)));
    let mut i: usize = 0;
    while i < sorted.len()
        invariant
            i <= sorted.len(),
            out@ == head + group_lines(sorted@.take(i as int)),
        decreases sorted.len() - i,
    {
        assert(sorted@.take(i + 1).drop_last() =~= sorted@.take(i as int));
        let mut l = String::new();
        push_padded(&mut l, sorted[i].0.as_str(), 16);
        l.append(" ");
        push_u64(&mut l, sorted[i].1 as u64);
        push_line(&mut out, l.as_str());
        assert(out@ =~= head + group_lines(sorted@.take(i + 1)));
        i = i + 1;
    }
    assert(sorted@.take(i as int) =~= sorted@);
    assert(groups_sorted_from(sorted@, groups@) && out@ == group_list_text(sorted@));
    out
}

} // verus!
