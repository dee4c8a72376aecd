//! The stock screener's command line: its preset list, the run request that
//! the `screener run` arguments make, the code list they carry, and the text
//! of one rule's outcome.
use vstd::prelude::*;
use crate::decimal::{decimal_display, decimal_display_text, DecimalValue};
use crate::error::QuantixError;
use crate::text::{
    chars_of, is_white_space, line, opt_text, pad_right, push_char, push_line, push_padded, push_repeat, repeat_text,
    split_text, str_eq, trim_end_text, trim_start_text, trim_str, trim_text,
};

verus! {

/// One screening preset as `screener preset-list` shows it.
#[derive(Clone, Debug, PartialEq, Eq)]
pub struct ScreenerPresetSpec {
    pub name: &'static str,
    pub params: &'static str,
    pub description: &'static str,
}

/// The name, parameters and description of each preset, in listing order.
pub open spec fn preset_spec_rows() -> Seq<(Seq<char>, Seq<char>, Seq<char>)> {
    seq![
        ("close_above_ma"@, "period=<n>"@, "收盘价高于均线"@),
        ("close_below_ma"@, "period=<n>"@, "收盘价低于均线"@),
        ("rsi_gte"@, "period=<n>,value=<x>"@, "RSI 大于等于阈值"@),
        ("rsi_lte"@, "period=<n>,value=<x>"@, "RSI 小于等于阈值"@),
        ("volume_ratio_gte"@, "window=<n>,value=<x>"@, "量比大于等于阈值"@),
    ]
}

/// The texts of a preset.
pub open spec fn preset_spec_view(p: ScreenerPresetSpec) -> (Seq<char>, Seq<char>, Seq<char>) {
    (p.name@, p.params@, p.description@)
}

/// The presets that `screener run --preset` accepts.
pub fn screener_preset_specs() -> (r: Vec<ScreenerPresetSpec>)
    ensures
        r@.map_values(|p: ScreenerPresetSpec| preset_spec_view(p)) == preset_spec_rows(),
{
    let r = vec![
        ScreenerPresetSpec {
            name: "close_above_ma",
            params: "period=<n>",
            description: "收盘价高于均线",
        },
        ScreenerPresetSpec {
            name: "close_below_ma",
            params: "period=<n>",
            description: "收盘价低于均线",
        },
        ScreenerPresetSpec {
            name: "rsi_gte",
            params: "period=<n>,value=<x>",
            description: "RSI 大于等于阈值",
        },
        ScreenerPresetSpec {
            name: "rsi_lte",
            params: "period=<n>,value=<x>",
            description: "RSI 小于等于阈值",
        },
        ScreenerPresetSpec {
            name: "volume_ratio_gte",
            params: "window=<n>,value=<x>",
            description: "量比大于等于阈值",
        },
    ];
    assert(r@.map_values(|p: ScreenerPresetSpec| preset_spec_view(p)) =~= preset_spec_rows());
    r
}

/// The stocks a screen runs over.
#[derive(Clone, Debug, PartialEq, Eq)]
pub enum ScreenUniverse {
    /// The codes given on the command line.
    Codes(Vec<String>),
    /// The watchlist, or one group of it.
    Watchlist { group: Option<String> },
}

/// The order of the screen's rows.
#[derive(Clone, Copy, Debug, PartialEq, Eq)]
pub enum ScreenSortBy {
    Code,
    Score,
}

/// How many rows to keep and in which order.
#[derive(Clone, Debug, PartialEq, Eq)]
pub struct ScreenRunOptions {
    pub limit: Option<usize>,
    pub sort_by: ScreenSortBy,
}

/// A screen to run: the universe, the preset invocations as written
/// (`name:key=value,...`), and the options.
#[derive(Clone, Debug, PartialEq, Eq)]
pub struct ScreenerRunRequest {
    pub universe: ScreenUniverse,
    pub presets: Vec<String>,
    pub options: ScreenRunOptions,
}

/// The fields, trimmed, without those that are empty after trimming.
pub open spec fn trimmed_nonempty(fields: Seq<Seq<char>>) -> Seq<Seq<char>>
    decreases fields.len(),
{
    if fields.len() == 0 {
        Seq::empty()
    } else {
        let rest = trimmed_nonempty(fields.drop_last());
        let t = trim_text(fields.last());
        if t.len() > 0 {
            rest.push(t)
        } else {
            rest
        }
    }
}

/// The codes of a comma separated list.
pub open spec fn csv_codes(raw: Seq<char>) -> Seq<Seq<char>> {
    trimmed_nonempty(split_text(raw, ','))
}

/// The codes of a comma separated list: each field trimmed, empty fields
/// dropped.
pub fn parse_codes_csv(raw: &str) -> (r: Vec<String>)
    ensures
        r@.map_values(|v: String| v@) == csv_codes(raw@),
{
    let cs = chars_of(raw);
    let n = cs.len();
    let mut out: Vec<String> = Vec::new();
    let mut cur = String::new();
    let mut i: usize = 0;
    proof {
        assert(raw@.take(0) =~= Seq::<char>::empty());
    }
    while i < n
        invariant
            i <= n,
            n == raw@.len(),
            cs@ == raw@,
            split_text(raw@.take(i as int), ',').len() >= 1,
            out@.map_values(|v: String| v@) == trimmed_nonempty(
                split_text(raw@.take(i as int), ',').drop_last(),
            ),
            cur@ == split_text(raw@.take(i as int), ',').last(),
        decreases n - i,
    {
        let c = cs[i];
        let ghost f = split_text(raw@.take(i as int), ',');
        proof {
            assert(raw@.take(i + 1).drop_last() =~= raw@.take(i as int));
            assert(raw@.take(i + 1).last() == c);
        }
        if c == ',' {
            let ghost before = out@.map_values(|v: String| v@);
            let t = trim_str(cur.as_str());
            if t.unicode_len() > 0 {
                out.push(t.to_string());
                assert(out@.map_values(|v: String| v@) =~= before.push(trim_text(cur@)));
            }
            cur = String::new();
            proof {
                let f2 = split_text(raw@.take(i + 1), ',');
                assert(f2 == f.push(Seq::empty()));
                assert(f2.drop_last() =~= f);
                assert(out@.map_values(|v: String| v@) == trimmed_nonempty(f));
                assert(cur@ =~= f2.last());
            }
        } else {
            push_char(&mut cur, c);
            proof {
                let f2 = split_text(raw@.take(i + 1), ',');
                assert(f2.drop_last() =~= f.drop_last());
            }
        }
        i = i + 1;
    }
    proof {
        assert(raw@.take(n as int) =~= raw@);
    }
    let ghost before = out@.map_values(|v: String| v@);
    let t = trim_str(cur.as_str());
    if t.unicode_len() > 0 {
        out.push(t.to_string());
        assert(out@.map_values(|v: String| v@) =~= before.push(trim_text(cur@)));
    }
    out
}

/// Why the `screener run` arguments are refused, if they are: codes and
/// watchlist together or neither, an empty code list, a group without the
/// watchlist, no preset, an unknown sort key (checked in this order).
pub open spec fn screener_request_error(
    codes: Option<Seq<char>>,
    watchlist: bool,
    group_given: bool,
    no_presets: bool,
    sort_by: Option<Seq<char>>,
) -> Option<Seq<char>> {
    if codes is Some && watchlist {
        Some("--codes 与 --watchlist 不能同时使用"@)
    } else if codes is None && !watchlist {
        Some("必须指定 --codes 或 --watchlist"@)
    } else if codes is Some && csv_codes(codes->0).len() == 0 {
        Some("codes 不能为空"@)
    } else if codes is Some && group_given {
        Some("--group 仅可与 --watchlist 一起使用"@)
    } else if no_presets {
        Some("至少需要一个 --preset"@)
    } else if sort_by is Some && sort_by->0 != "code"@ && sort_by->0 != "score"@ {
        Some("不支持的 sort_by: "@ + sort_by->0 + "，仅支持 code 或 score"@)
    } else {
        None
    }
}

/// The row order a sort key names; `code` when none is given.
pub open spec fn sort_by_named(sort_by: Option<Seq<char>>) -> ScreenSortBy {
    if sort_by == Some("score"@) {
        ScreenSortBy::Score
    } else {
        ScreenSortBy::Code
    }
}

/// The request that accepted `screener run` arguments make.
pub open spec fn request_matches(
    req: ScreenerRunRequest,
    codes: Option<Seq<char>>,
    group: Option<Seq<char>>,
    preset_specs: Seq<String>,
    limit: Option<usize>,
    sort_by: Option<Seq<char>>,
) -> bool {
    &&& match codes {
        Some(raw) => req.universe matches ScreenUniverse::Codes(cs) && cs@.map_values(
            |v: String| v@,
        ) == csv_codes(raw),
        None => req.universe matches ScreenUniverse::Watchlist { group: g } && opt_text(g)
            == group,
    }
    &&& req.presets@ == preset_specs
    &&& req.options.limit == limit
    &&& req.options.sort_by == sort_by_named(sort_by)
}

/// The screen that the `screener run` arguments ask for: the codes of
/// `--codes` or the watchlist (optionally one group), the presets as given,
/// the row limit and the sort key (`code` or `score`).
pub fn build_screener_run_request(
    codes: Option<String>,
    watchlist: bool,
    group: Option<String>,
    preset_specs: Vec<String>,
    limit: Option<usize>,
    sort_by: Option<String>,
) -> (r: Result<ScreenerRunRequest, QuantixError>)
    ensures
        match screener_request_error(
            opt_text(codes),
            watchlist,
            group is Some,
            preset_specs@.len() == 0,
            opt_text(sort_by),
        ) {
            Some(msg) => r matches Err(QuantixError::Other(m)) && m@ == msg,
            None => r matches Ok(req) && request_matches(
                req,
                opt_text(codes),
                opt_text(group),
                preset_specs@,
                limit,
                opt_text(sort_by),
            ),
        },
{
    let universe = match codes {
        Some(raw) => {
            if watchlist {
                return Err(QuantixError::Other("--codes 与 --watchlist 不能同时使用".to_string()));
            }
            let parsed = parse_codes_csv(raw.as_str());
            if parsed.len() == 0 {
                return Err(QuantixError::Other("codes 不能为空".to_string()));
            }
            if group.is_some() {
                return Err(QuantixError::Other("--group 仅可与 --watchlist 一起使用".to_string()));
            }
            ScreenUniverse::Codes(parsed)
        },
        None => {
            if !watchlist {
                return Err(QuantixError::Other("必须指定 --codes 或 --watchlist".to_string()));
            }
            ScreenUniverse::Watchlist { group }
        },
    };
    if preset_specs.len() == 0 {
        return Err(QuantixError::Other("至少需要一个 --preset".to_string()));
    }
    let order = match &sort_by {
        None => ScreenSortBy::Code,
        Some(key) => {
            proof {
                reveal_strlit("code");
                reveal_strlit("score");
            }
            if str_eq(key.as_str(), "code") {
                assert("code"@ != "score"@) by {
                    assert("code"@.len() != "score"@.len());
                }
                ScreenSortBy::Code
            } else if str_eq(key.as_str(), "score") {
                ScreenSortBy::Score
            } else {
                let mut m = "不支持的 sort_by: ".to_string();
                m.append(key.as_str());
                m.append("，仅支持 code 或 score");
                return Err(QuantixError::Other(m));
            }
        },
    };
    Ok(ScreenerRunRequest {
        universe,
        presets: preset_specs,
        options: ScreenRunOptions { limit, sort_by: order },
    })
}

/// How one preset judged one stock.
#[derive(Clone, Debug, PartialEq, Eq)]
pub struct RuleMatchDetail {
    pub preset_name: String,
    pub matched: bool,
    pub actual_value: Option<DecimalValue>,
    pub threshold_value: Option<DecimalValue>,
    pub reason: Option<String>,
}

/// The decimals of the detail can be printed.
pub open spec fn rule_detail_wf(d: RuleMatchDetail) -> bool {
    &&& (d.actual_value matches Some(a) ==> a.wf())
    &&& (d.threshold_value matches Some(t) ==> t.wf())
}

/// `Y:name(reason)` when there is a reason, `Y:name actual / threshold` when
/// both values are known, else `Y:name` (`N` in place of `Y` when the rule
/// did not match).
pub open spec fn rule_detail_text(d: RuleMatchDetail) -> Seq<char> {
    let head = (if d.matched { "Y"@ } else { "N"@ }) + ":"@ + d.preset_name@;
    match (d.actual_value, d.threshold_value, d.reason) {
        (_, _, Some(reason)) => head + "("@ + reason@ + ")"@,
        (Some(a), Some(t), None) => head + " "@ + decimal_display_text(a) + " / "@
            + decimal_display_text(t),
        _ => head,
    }
}

/// The text of one rule's outcome in the screener's detail column.
pub fn format_screener_rule_detail(detail: &RuleMatchDetail) -> (r: String)
    requires
        rule_detail_wf(*detail),
    ensures
        r@ == rule_detail_text(*detail),
{
    let mut out = if detail.matched {
        "Y".to_string()
    } else {
        "N".to_string()
    };
    out.append(":");
    out.append(detail.preset_name.as_str());
    match (&detail.actual_value, &detail.threshold_value, &detail.reason) {
        (_, _, Some(reason)) => {
            out.append("(");
            out.append(reason.as_str());
            out.append(")");
        },
        (Some(a), Some(t), None) => {
            out.append(" ");
            let a_text = decimal_display(a);
            out.append(a_text.as_str());
            out.append(" / ");
            let t_text = decimal_display(t);
            out.append(t_text.as_str());
        },
        _ => {},
    }
    out
}

proof fn lemma_split_fields_lack_sep(s: Seq<char>, sep: char)
    ensures
        forall|i: int, j: int|
            0 <= i < split_text(s, sep).len() && 0 <= j < split_text(s, sep)[i].len()
                ==> split_text(s, sep)[i][j] != sep,
    decreases s.len(),
{
    if s.len() > 0 {
        let init = split_text(s.drop_last(), sep);
        lemma_split_fields_lack_sep(s.drop_last(), sep);
        crate::text::lemma_split_nonempty(s.drop_last(), sep);
        let out = split_text(s, sep);
        assert forall|i: int, j: int| 0 <= i < out.len() && 0 <= j < out[i].len() implies out[i][j]
            != sep by {
            if s.last() == sep {
                if i < init.len() {
                    assert(out[i] == init[i]);
                }
            } else {
                if i < init.len() - 1 {
                    assert(out[i] == init[i]);
                } else {
                    assert(out[i] == init.last().push(s.last()));
                    if j < init.last().len() {
                        assert(out[i][j] == init.last()[j]);
                    }
                }
            }
        }
    }
}

proof fn lemma_trim_start_keeps_absence(s: Seq<char>, c: char)
    requires
        forall|j: int| 0 <= j < s.len() ==> s[j] != c,
    ensures
        forall|j: int| 0 <= j < trim_start_text(s).len() ==> trim_start_text(s)[j] != c,
    decreases s.len(),
{
    if s.len() > 0 && is_white_space(s[0]) {
        assert forall|j: int| 0 <= j < s.drop_first().len() implies s.drop_first()[j] != c by {
            assert(s.drop_first()[j] == s[j + 1]);
        }
        lemma_trim_start_keeps_absence(s.drop_first(), c);
        assert(trim_start_text(s) == trim_start_text(s.drop_first()));
    } else {
        assert(trim_start_text(s) == s);
    }
}

proof fn lemma_trim_end_keeps_absence(s: Seq<char>, c: char)
    requires
        forall|j: int| 0 <= j < s.len() ==> s[j] != c,
    ensures
        forall|j: int| 0 <= j < trim_end_text(s).len() ==> trim_end_text(s)[j] != c,
    decreases s.len(),
{
    if s.len() > 0 && is_white_space(s.last()) {
        assert forall|j: int| 0 <= j < s.drop_last().len() implies s.drop_last()[j] != c by {
            assert(s.drop_last()[j] == s[j]);
        }
        lemma_trim_end_keeps_absence(s.drop_last(), c);
        assert(trim_end_text(s) == trim_end_text(s.drop_last()));
    } else {
        assert(trim_end_text(s) == s);
    }
}

proof fn lemma_kept_fields(fields: Seq<Seq<char>>, sep: char)
    requires
        forall|i: int, j: int| 0 <= i < fields.len() && 0 <= j < fields[i].len() ==> fields[i][j] != sep,
    ensures
        forall|k: int|
            0 <= k < trimmed_nonempty(fields).len() ==> {
                let c = #[trigger] trimmed_nonempty(fields)[k];
                &&& c.len() > 0
                &&& trim_text(c) == c
                &&& forall|j: int| 0 <= j < c.len() ==> c[j] != sep
            },
    decreases fields.len(),
{
    if fields.len() > 0 {
        let rest = trimmed_nonempty(fields.drop_last());
        assert forall|i: int, j: int|
            0 <= i < fields.drop_last().len() && 0 <= j < fields.drop_last()[i].len()
                implies fields.drop_last()[i][j] != sep by {
            assert(fields.drop_last()[i] == fields[i]);
        }
        lemma_kept_fields(fields.drop_last(), sep);
        let f = fields.last();
        let t = trim_text(f);
        assert forall|j: int| 0 <= j < f.len() implies f[j] != sep by {
            assert(f == fields[fields.len() - 1]);
        }
        lemma_trim_start_keeps_absence(f, sep);
        lemma_trim_end_keeps_absence(trim_start_text(f), sep);
        crate::execution::lemma_trim_idempotent(f);
        let out = trimmed_nonempty(fields);
        assert forall|k: int| 0 <= k < out.len() implies {
            let c = #[trigger] out[k];
            &&& c.len() > 0
            &&& trim_text(c) == c
            &&& forall|j: int| 0 <= j < c.len() ==> c[j] != sep
        } by {
            if k < rest.len() {
                assert(out[k] == rest[k]);
            } else {
                assert(out[k] == t);
            }
        }
    }
}

/// Every code of a comma separated list is non-empty, free of surrounding
/// white space and of commas.
pub proof fn lemma_csv_codes_clean(raw: Seq<char>)
    ensures
        forall|k: int|
            0 <= k < csv_codes(raw).len() ==> {
                let c = #[trigger] csv_codes(raw)[k];
                &&& c.len() > 0
                &&& trim_text(c) == c
                &&& forall|j: int| 0 <= j < c.len() ==> c[j] != ','
            },
{
    lemma_split_fields_lack_sep(raw, ',');
    lemma_kept_fields(split_text(raw, ','), ',');
}


/// One line of the preset list: name, parameters, description.
pub open spec fn preset_line(p: ScreenerPresetSpec) -> Seq<char> {
    line(pad_right(p.name@, 20) + " "@ + pad_right(p.params@, 24) + " "@ + p.description@)
}

/// The lines of the presets, in order.
pub open spec fn preset_lines(presets: Seq<ScreenerPresetSpec>) -> Seq<char>
    decreases presets.len(),
{
    if presets.len() == 0 {
        Seq::empty()
    } else {
        preset_lines(presets.drop_last()) + preset_line(presets.last())
    }
}

/// `screener presets`: a header, a rule of 72 dashes and one line per preset.
pub open spec fn preset_list_text(presets: Seq<ScreenerPresetSpec>) -> Seq<char> {
    line(pad_right("Preset"@, 20) + " "@ + pad_right("参数"@, 24) + " 说明"@) + line(
        repeat_text("-"@, 72),
    ) + preset_lines(presets)
}

fn preset_line_text(p: &ScreenerPresetSpec) -> (r: String)
    ensures
        line(r@) == preset_line(*p),
{
    let mut s = String::new();
    push_padded(&mut s, p.name, 20);
    s.append(" ");
    push_padded(&mut s, p.params, 24);
    s.append(" ");
    s.append(p.description);
    assert(s@ =~= pad_right(p.name@, 20) + " "@ + pad_right(p.params@, 24) + " "@ + p.description@);
    s
}

/// The text `screener presets` prints for the presets.
pub fn render_screener_preset_list(presets: &Vec<ScreenerPresetSpec>) -> (r: String)
    ensures
        r@ == preset_list_text(presets@),
{
    let mut out = String::new();
    let mut header = String::new();
    push_padded(&mut header, "Preset", 20);
    header.append(" ");
    push_padded(&mut header, "参数", 24);
    header.append(" 说明");
    push_line(&mut out, header.as_str());
    let mut dashes = String::new();
    push_repeat(&mut dashes, "-", 72);
    push_line(&mut out, dashes.as_str());
    let ghost head = out@;
    assert(head =~= line(pad_right("Preset"@, 20) + " "@ + pad_right("参数"@, 24) + " 说明"@) + line(
        repeat_text("-"@, 72),
    ));
    let mut i: usize = 0;
    while i < presets.len()
        invariant
            i <= presets.len(),
            out@ == head + preset_lines(presets@.take(i as int)),
        decreases presets.len() - i,
    {
        assert(presets@.take(i + 1).drop_last() =~= presets@.take(i as int));
        let l = preset_line_text(&presets[i]);
        push_line(&mut out, l.as_str());
        assert(out@ =~= head + preset_lines(presets@.take(i + 1)));
        i = i + 1;
    }
    assert(presets@.take(i as int) =~= presets@);
    out
}

} // verus!
