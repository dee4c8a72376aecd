//! Candlestick pattern analysis input: candles typed on the command line,
//! the reference price policy, candles read from daily bars, and the TDX
//! `.day` file that holds a stock's bars.
use vstd::prelude::*;
use crate::dates::{date_text, format_naive_date, valid_date, CalendarDate};
use crate::decimal::{decimal_parse, decimal_parse_outcome, decimal_parts, parse_decimal_text, DecimalValue};
use crate::error::QuantixError;
use crate::text::{ascii_lower_text, chars_of, dec_text, digits_value, join_strings, join_text, opt_text, path_join, path_join_text, push_char, push_u64, split_text, split_trimmed, to_ascii_lower, trim_text};

verus! {

/// One candle: open, high, low and close prices.
#[derive(Clone, Copy, Debug, PartialEq, Eq)]
pub struct CandleInput {
    pub open: DecimalValue,
    pub high: DecimalValue,
    pub low: DecimalValue,
    pub close: DecimalValue,
}

/// A candle with the label it is reported under.
#[derive(Clone, Debug, PartialEq, Eq)]
pub struct PatternCandleRow {
    pub label: String,
    pub candle: CandleInput,
}

/// The price that pattern strength is measured against.
#[derive(Clone, Copy, Debug, PartialEq, Eq)]
pub enum ReferencePricePolicy {
    /// One price for every candle.
    Explicit(DecimalValue),
    /// Each candle against the close of the one before it.
    PreviousClose,
}

/// A daily bar: its date and prices.
#[derive(Clone, Copy, Debug, PartialEq, Eq)]
pub struct Kline {
    pub date: CalendarDate,
    pub open: DecimalValue,
    pub high: DecimalValue,
    pub low: DecimalValue,
    pub close: DecimalValue,
}

/// The four prices of a candle, in order.
pub open spec fn candle_view(c: CandleInput) -> Seq<(int, int, bool)> {
    seq![decimal_parts(c.open), decimal_parts(c.high), decimal_parts(c.low), decimal_parts(c.close)]
}

/// The message of a price that is not a decimal.
pub open spec fn price_message(e: Seq<char>) -> Seq<char> {
    "价格格式非法: "@ + e
}

/// The message of a candle that is not four comma separated prices.
pub open spec fn candle_format_message(spec: Seq<char>) -> Seq<char> {
    "K线格式非法: "@ + spec + "，期望 o,h,l,c"@
}

/// The prices read, or the message of the first that could not be read.
pub open spec fn prices_outcome(parsed: Seq<Result<(int, int, bool), Seq<char>>>) -> Result<
    Seq<(int, int, bool)>,
    Seq<char>,
>
    decreases parsed.len(),
{
    if parsed.len() == 0 {
        Ok(Seq::empty())
    } else {
        match parsed[0] {
            Err(e) => Err(price_message(e)),
            Ok(p) => match prices_outcome(parsed.drop_first()) {
                Ok(ps) => Ok(seq![p] + ps),
                Err(m) => Err(m),
            },
        }
    }
}

/// The trimmed fields of a candle text.
pub open spec fn candle_fields(spec: Seq<char>) -> Seq<Seq<char>> {
    split_text(spec, ',').map_values(|f: Seq<char>| trim_text(f))
}

/// What a candle text `o,h,l,c` denotes: its four prices, or the message
/// refusing it.
pub open spec fn candle_parse(spec: Seq<char>) -> Result<Seq<(int, int, bool)>, Seq<char>> {
    let f = candle_fields(spec);
    if f.len() != 4 {
        Err(candle_format_message(spec))
    } else {
        prices_outcome(f.map_values(|x: Seq<char>| decimal_parse(x)))
    }
}

/// A candle result agrees with the outcome: the same prices, or a refusal
/// with the same message.
pub open spec fn candle_result_is(
    r: Result<CandleInput, QuantixError>,
    outcome: Result<Seq<(int, int, bool)>, Seq<char>>,
) -> bool {
    match outcome {
        Ok(ps) => r matches Ok(c) && candle_view(c) == ps,
        Err(msg) => r matches Err(QuantixError::Other(m)) && m@ == msg,
    }
}

/// Every price of the candle fits a `Decimal`.
pub open spec fn candle_wf(c: CandleInput) -> bool {
    c.open.wf() && c.high.wf() && c.low.wf() && c.close.wf()
}

/// The candle whose four prices the decimal parser read as given.
pub fn candle_from_parsed(
    open: Result<DecimalValue, String>,
    high: Result<DecimalValue, String>,
    low: Result<DecimalValue, String>,
    close: Result<DecimalValue, String>,
) -> (r: Result<CandleInput, QuantixError>)
    ensures
        candle_result_is(
            r,
            prices_outcome(
                seq![
                    decimal_parse_outcome(open),
                    decimal_parse_outcome(high),
                    decimal_parse_outcome(low),
                    decimal_parse_outcome(close),
                ],
            ),
        ),
        r matches Ok(c) ==> (open == Ok::<DecimalValue, String>(c.open) && high == Ok::<
            DecimalValue,
            String,
        >(c.high) && low == Ok::<DecimalValue, String>(c.low) && close == Ok::<
            DecimalValue,
            String,
        >(c.close)),
{
    let ghost parsed = seq![
        decimal_parse_outcome(open),
        decimal_parse_outcome(high),
        decimal_parse_outcome(low),
        decimal_parse_outcome(close),
    ];
    proof {
        reveal_with_fuel(prices_outcome, 5);
        assert(parsed.drop_first() =~= seq![parsed[1], parsed[2], parsed[3]]);
        assert(parsed.drop_first().drop_first() =~= seq![parsed[2], parsed[3]]);
        assert(parsed.drop_first().drop_first().drop_first() =~= seq![parsed[3]]);
        assert(parsed.drop_first().drop_first().drop_first().drop_first() =~= Seq::<
            Result<(int, int, bool), Seq<char>>,
        >::empty());
    }
    let o = match open {
        Ok(d) => d,
        Err(e) => {
            let mut m = "价格格式非法: ".to_string();
            m.append(e.as_str());
            return Err(QuantixError::Other(m));
        },
    };
    let h = match high {
        Ok(d) => d,
        Err(e) => {
            let mut m = "价格格式非法: ".to_string();
            m.append(e.as_str());
            return Err(QuantixError::Other(m));
        },
    };
    let l = match low {
        Ok(d) => d,
        Err(e) => {
            let mut m = "价格格式非法: ".to_string();
            m.append(e.as_str());
            return Err(QuantixError::Other(m));
        },
    };
    let c = match close {
        Ok(d) => d,
        Err(e) => {
            let mut m = "价格格式非法: ".to_string();
            m.append(e.as_str());
            return Err(QuantixError::Other(m));
        },
    };
    let candle = CandleInput { open: o, high: h, low: l, close: c };
    proof {
        let p3 = parsed.drop_first().drop_first().drop_first();
        let p2 = parsed.drop_first().drop_first();
        let p1 = parsed.drop_first();
        assert(prices_outcome(p3) == Ok::<Seq<(int, int, bool)>, Seq<char>>(
            seq![decimal_parts(c)] + Seq::<(int, int, bool)>::empty(),
        ));
        assert(prices_outcome(p2) == Ok::<Seq<(int, int, bool)>, Seq<char>>(
            seq![decimal_parts(l)] + (seq![decimal_parts(c)] + Seq::<(int, int, bool)>::empty()),
        ));
        assert(prices_outcome(p1) == Ok::<Seq<(int, int, bool)>, Seq<char>>(
            seq![decimal_parts(h)] + (seq![decimal_parts(l)] + (seq![decimal_parts(c)] + Seq::<
                (int, int, bool),
            >::empty())),
        ));
        assert(candle_view(candle) =~= seq![decimal_parts(o)] + (seq![decimal_parts(h)] + (seq![
            decimal_parts(l),
        ] + (seq![decimal_parts(c)] + Seq::<(int, int, bool)>::empty()))));
    }
    Ok(candle)
}

/// The candle typed as `open,high,low,close`.
pub fn parse_candle_spec(spec: &str) -> (r: Result<CandleInput, QuantixError>)
    ensures
        candle_result_is(r, candle_parse(spec@)),
        r matches Ok(c) ==> candle_wf(c),
{
    let parts = split_trimmed(spec, ',');
    proof {
        assert(parts@.map_values(|v: String| v@).len() == parts@.len());
    }
    if parts.len() != 4 {
        let mut m = "K线格式非法: ".to_string();
        m.append(spec);
        m.append("，期望 o,h,l,c");
        return Err(QuantixError::Other(m));
    }
    let ghost f = candle_fields(spec@);
    proof {
        assert(f =~= parts@.map_values(|v: String| v@));
        assert(f.map_values(|x: Seq<char>| decimal_parse(x)) =~= seq![
            decimal_parse(parts@[0]@),
            decimal_parse(parts@[1]@),
            decimal_parse(parts@[2]@),
            decimal_parse(parts@[3]@),
        ]);
    }
    let open = parse_decimal_text(parts[0].as_str());
    let high = parse_decimal_text(parts[1].as_str());
    let low = parse_decimal_text(parts[2].as_str());
    let close = parse_decimal_text(parts[3].as_str());
    candle_from_parsed(open, high, low, close)
}

/// The label of the `n`-th typed candle, counted from one.
pub open spec fn manual_label(n: nat) -> Seq<char> {
    "manual-"@ + dec_text(n)
}

/// The candles typed with `--candle`, labelled `manual-1`, `manual-2`, ...;
/// refused with the message of the first candle that cannot be read.
pub fn parse_candle_specs(specs: &Vec<String>) -> (r: Result<Vec<PatternCandleRow>, QuantixError>)
    ensures
        (forall|i: int| 0 <= i < specs@.len() ==> (#[trigger] candle_parse(specs@[i]@)) is Ok)
            ==> (r matches Ok(rows) && rows@.len() == specs@.len() && forall|i: int|
            0 <= i < rows@.len() ==> {
                &&& (#[trigger] rows@[i]).label@ == manual_label((i + 1) as nat)
                &&& candle_parse(specs@[i]@) == Ok::<Seq<(int, int, bool)>, Seq<char>>(
                    candle_view(rows@[i].candle),
                )
                &&& candle_wf(rows@[i].candle)
            }),
        forall|k: int|
            0 <= k < specs@.len() && (#[trigger] candle_parse(specs@[k]@)) is Err && (forall|i: int|
                0 <= i < k ==> (#[trigger] candle_parse(specs@[i]@)) is Ok) ==> (r matches Err(
                QuantixError::Other(m),
            ) && Err::<Seq<(int, int, bool)>, Seq<char>>(m@) == candle_parse(specs@[k]@)),
{
    let mut rows: Vec<PatternCandleRow> = Vec::new();
    let mut i: usize = 0;
    while i < specs.len()
        invariant
            i <= specs@.len(),
            rows@.len() == i,
            forall|j: int| 0 <= j < i ==> (#[trigger] candle_parse(specs@[j]@)) is Ok,
            forall|j: int|
                0 <= j < i ==> {
                    &&& (#[trigger] rows@[j]).label@ == manual_label((j + 1) as nat)
                    &&& candle_parse(specs@[j]@) == Ok::<Seq<(int, int, bool)>, Seq<char>>(
                        candle_view(rows@[j].candle),
                    )
                    &&& candle_wf(rows@[j].candle)
                },
        decreases specs.len() - i,
    {
        let candle = match parse_candle_spec(specs[i].as_str()) {
            Ok(c) => c,
            Err(e) => {
                proof {
                    assert forall|k: int|
                        0 <= k < specs@.len() && (#[trigger] candle_parse(specs@[k]@)) is Err && (
                        forall|j: int| 0 <= j < k ==> (#[trigger] candle_parse(specs@[j]@)) is Ok)
                        implies k == i by {
                        if k < i {
                        } else if k > i {
                            assert(candle_parse(specs@[i as int]@) is Ok);
                        }
                    }
                }
                return Err(e);
            },
        };
        let mut label = "manual-".to_string();
        push_u64(&mut label, (i as u64) + 1);
        rows.push(PatternCandleRow { label, candle });
        i = i + 1;
    }
    Ok(rows)
}

/// The message when no reference price is given.
pub open spec fn missing_reference_message() -> Seq<char> {
    "缺少参考价，请提供 --reference 或 --previous-close"@
}

/// The message of a reference price that is not a decimal.
pub open spec fn reference_message(e: Seq<char>) -> Seq<char> {
    "参考价格式非法: "@ + e
}

/// The explicit reference price policy, given what the decimal parser made
/// of `--reference`.
pub fn reference_policy_from_parsed(parsed: Result<DecimalValue, String>) -> (r: Result<
    ReferencePricePolicy,
    QuantixError,
>)
    ensures
        parsed matches Ok(d) ==> r == Ok::<ReferencePricePolicy, QuantixError>(
            ReferencePricePolicy::Explicit(d),
        ),
        parsed matches Err(e) ==> (r matches Err(QuantixError::Other(m)) && m@ == reference_message(
            e@,
        )),
{
    match parsed {
        Ok(d) => Ok(ReferencePricePolicy::Explicit(d)),
        Err(e) => {
            let mut m = "参考价格式非法: ".to_string();
            m.append(e.as_str());
            Err(QuantixError::Other(m))
        },
    }
}

/// The reference price policy of `analyze pattern`: the previous close when
/// asked for, else the `--reference` price, which must be a decimal.
pub fn build_reference_policy(reference: Option<String>, previous_close: bool) -> (r: Result<
    ReferencePricePolicy,
    QuantixError,
>)
    ensures
        previous_close ==> r == Ok::<ReferencePricePolicy, QuantixError>(
            ReferencePricePolicy::PreviousClose,
        ),
        !previous_close && reference is None ==> (r matches Err(QuantixError::Other(m)) && m@
            == missing_reference_message()),
        !previous_close && reference is Some ==> match decimal_parse(reference->0@) {
            Ok(p) => r matches Ok(ReferencePricePolicy::Explicit(d)) && decimal_parts(d) == p
                && d.wf(),
            Err(e) => r matches Err(QuantixError::Other(m)) && m@ == reference_message(e),
        },
{
    if previous_close {
        return Ok(ReferencePricePolicy::PreviousClose);
    }
    match reference {
        None => Err(QuantixError::Other("缺少参考价，请提供 --reference 或 --previous-close".to_string())),
        Some(text) => reference_policy_from_parsed(parse_decimal_text(text.as_str())),
    }
}

/// The message when the previous close is asked for with fewer than two candles.
pub open spec fn previous_close_message() -> Seq<char> {
    "使用 --previous-close 时至少需要两根 K线"@
}

/// The reference price of each candle: the explicit price for every candle,
/// or, for the previous close, the close of each candle but the last (the
/// reference of the one after it).
pub fn sequence_references(candles: &Vec<CandleInput>, policy: &ReferencePricePolicy) -> (r: Result<
    Vec<DecimalValue>,
    QuantixError,
>)
    ensures
        match *policy {
            ReferencePricePolicy::Explicit(v) => r matches Ok(refs) && refs@ == Seq::new(
                candles@.len(),
                |i: int| v,
            ),
            ReferencePricePolicy::PreviousClose => if candles@.len() < 2 {
                r matches Err(QuantixError::Other(m)) && m@ == previous_close_message()
            } else {
                r matches Ok(refs) && refs@ == Seq::new(
                    (candles@.len() - 1) as nat,
                    |i: int| candles@[i].close,
                )
            },
        },
{
    match policy {
        ReferencePricePolicy::Explicit(v) => {
            let mut refs: Vec<DecimalValue> = Vec::new();
            let mut i: usize = 0;
            while i < candles.len()
                invariant
                    i <= candles@.len(),
                    refs@ == Seq::new(i as nat, |k: int| *v),
                decreases candles.len() - i,
            {
                refs.push(*v);
                i = i + 1;
                assert(refs@ =~= Seq::new(i as nat, |k: int| *v));
            }
            Ok(refs)
        },
        ReferencePricePolicy::PreviousClose => {
            if candles.len() < 2 {
                return Err(QuantixError::Other("使用 --previous-close 时至少需要两根 K线".to_string()));
            }
            let mut refs: Vec<DecimalValue> = Vec::new();
            let mut i: usize = 0;
            while i + 1 < candles.len()
                invariant
                    i + 1 <= candles@.len(),
                    refs@ == Seq::new(i as nat, |k: int| candles@[k].close),
                decreases candles.len() - i,
            {
                refs.push(candles[i].close);
                i = i + 1;
                assert(refs@ =~= Seq::new(i as nat, |k: int| candles@[k].close));
            }
            Ok(refs)
        },
    }
}

/// The candle of a daily bar.
pub open spec fn kline_candle(k: Kline) -> CandleInput {
    CandleInput { open: k.open, high: k.high, low: k.low, close: k.close }
}

/// The candles of daily bars, each labelled with its date (`YYYY-MM-DD`).
pub fn pattern_rows_from_klines(klines: &Vec<Kline>) -> (r: Vec<PatternCandleRow>)
    requires
        forall|i: int| 0 <= i < klines@.len() ==> valid_date(#[trigger] klines@[i].date),
    ensures
        r@.len() == klines@.len(),
        forall|i: int|
            0 <= i < r@.len() ==> (#[trigger] r@[i]).label@ == date_text(klines@[i].date)
                && r@[i].candle == kline_candle(klines@[i]),
{
    let mut rows: Vec<PatternCandleRow> = Vec::new();
    let mut i: usize = 0;
    while i < klines.len()
        invariant
            i <= klines@.len(),
            rows@.len() == i,
            forall|j: int| 0 <= j < klines@.len() ==> valid_date(#[trigger] klines@[j].date),
            forall|j: int|
                0 <= j < i ==> (#[trigger] rows@[j]).label@ == date_text(klines@[j].date)
                    && rows@[j].candle == kline_candle(klines@[j]),
        decreases klines.len() - i,
    {
        let k = &klines[i];
        let label = format_naive_date(&k.date);
        rows.push(
            PatternCandleRow {
                label,
                candle: CandleInput { open: k.open, high: k.high, low: k.low, close: k.close },
            },
        );
        i = i + 1;
    }
    rows
}

/// What `Path::file_name` (then `OsStr::to_str`) gives for a path: its last
/// component under the platform's path rules, if it has one that is not
/// `..`.
pub uninterp spec fn path_file_name(path: Seq<char>) -> Option<Seq<char>>;

/// `std::path::Path::file_name` of the path, as text. The contract names
/// the result; which component is last depends on the platform's
/// separators and is not stated.
#[verifier::external_body]
pub(crate) fn file_name_of(path: &str) -> (r: Option<String>)
    ensures
        opt_text(r) == path_file_name(path@),
{
    match std::path::Path::new(path).file_name() {
        Some(name) => match name.to_str() {
            Some(text) => Some(text.to_string()),
            None => None,
        },
        None => None,
    }
}

/// The position of the last `.` in `s`, or -1 without one.
pub open spec fn last_dot(s: Seq<char>) -> int
    decreases s.len(),
{
    if s.len() == 0 {
        -1
    } else if s[s.len() - 1] == '.' {
        s.len() - 1
    } else {
        last_dot(s.take(s.len() - 1))
    }
}

/// The stem of a file name, as `Path::file_stem` documents it: the whole
/// name when it has no `.` or its only `.` leads, else the part before the
/// final `.`.
pub open spec fn stem_of_name(name: Seq<char>) -> Seq<char> {
    if last_dot(name) <= 0 {
        name
    } else {
        name.take(last_dot(name))
    }
}

/// `Path::file_stem` of a path: the stem of its file name, if it has one.
pub open spec fn path_file_stem(path: Seq<char>) -> Option<Seq<char>> {
    match path_file_name(path) {
        Some(name) => Some(stem_of_name(name)),
        None => None,
    }
}

/// The file stem of the path (see `path_file_stem`).
pub fn file_stem_of(path: &str) -> (r: Option<String>)
    ensures
        opt_text(r) == path_file_stem(path@),
{
    let name = match file_name_of(path) {
        Some(n) => n,
        None => return None,
    };
    let cs = chars_of(name.as_str());
    let mut i: usize = cs.len();
    proof {
        assert(cs@.take(i as int) =~= cs@);
    }
    while i > 0 && cs[i - 1] != '.'
        invariant
            i <= cs@.len(),
            cs@ == name@,
            last_dot(cs@.take(i as int)) == last_dot(cs@),
        decreases i,
    {
        proof {
            assert(cs@.take(i as int).take(i - 1) =~= cs@.take(i - 1));
        }
        i = i - 1;
    }
    if i <= 1 {
        proof {
            if i == 1 {
                assert(cs@.take(1)[0] == '.');
            }
        }
        return Some(name);
    }
    let mut stem = String::new();
    let mut k: usize = 0;
    while k < i - 1
        invariant
            k <= i - 1,
            i <= cs@.len(),
            stem@ == cs@.take(k as int),
        decreases i - 1 - k,
    {
        push_char(&mut stem, cs[k]);
        k = k + 1;
        proof {
            assert(stem@ =~= cs@.take(k as int));
        }
    }
    Some(stem)
}

/// The ASCII digits of `s`, in order.
pub open spec fn ascii_digits_of(s: Seq<char>) -> Seq<char>
    decreases s.len(),
{
    if s.len() == 0 {
        Seq::empty()
    } else {
        let rest = ascii_digits_of(s.drop_last());
        if '0' <= s.last() && s.last() <= '9' {
            rest.push(s.last())
        } else {
            rest
        }
    }
}

proof fn lemma_ascii_digits_are_digits(s: Seq<char>)
    ensures
        forall|i: int|
            0 <= i < ascii_digits_of(s).len() ==> '0' <= #[trigger] ascii_digits_of(s)[i]
                && ascii_digits_of(s)[i] <= '9',
    decreases s.len(),
{
    if s.len() > 0 {
        lemma_ascii_digits_are_digits(s.drop_last());
        let rest = ascii_digits_of(s.drop_last());
        if '0' <= s.last() && s.last() <= '9' {
            assert forall|i: int|
                0 <= i < ascii_digits_of(s).len() implies '0' <= #[trigger] ascii_digits_of(s)[i]
                && ascii_digits_of(s)[i] <= '9' by {
                if i < rest.len() {
                    assert(ascii_digits_of(s)[i] == rest[i]);
                }
            }
        }
    }
}

proof fn lemma_six_digits_value(s: Seq<char>)
    requires
        s.len() == 6,
        forall|i: int| 0 <= i < s.len() ==> '0' <= #[trigger] s[i] && s[i] <= '9',
    ensures
        0 <= digits_value(s) < 1000000,
{
    let s5 = s.drop_last();
    let s4 = s5.drop_last();
    let s3 = s4.drop_last();
    let s2 = s3.drop_last();
    let s1 = s2.drop_last();
    let s0 = s1.drop_last();
    assert(s0.len() == 0);
    assert(forall|i: int| 0 <= i < 6 ==> 0 <= #[trigger] (s[i] as int) - ('0' as int) <= 9);
    assert(s1.last() == s[0] && s2.last() == s[1] && s3.last() == s[2] && s4.last() == s[3]
        && s5.last() == s[4]);
    assert(digits_value(s0) == 0);
    assert(0 <= digits_value(s1) < 10);
    assert(0 <= digits_value(s2) < 100);
    assert(0 <= digits_value(s3) < 1000);
    assert(0 <= digits_value(s4) < 10000);
    assert(0 <= digits_value(s5) < 100000);
}

/// The message when the path has no file name.
pub open spec fn no_stem_message() -> Seq<char> {
    "无法从 day 文件路径解析股票代码"@
}

/// The message when the file name does not hold six digits.
pub open spec fn code_digits_message(path: Seq<char>) -> Seq<char> {
    "无法从 day 文件名解析 6 位股票代码: "@ + path
}

/// The stock code of a TDX `.day` file: the digits of the file name without
/// extension, which must be exactly six.
pub open spec fn tdx_code_outcome(path: Seq<char>, stem: Option<Seq<char>>) -> Result<
    int,
    Seq<char>,
> {
    match stem {
        None => Err(no_stem_message()),
        Some(st) => if ascii_digits_of(st).len() != 6 {
            Err(code_digits_message(path))
        } else {
            Ok(digits_value(ascii_digits_of(st)))
        },
    }
}

/// The stock code of the `.day` file at `path`, given its file stem.
pub fn tdx_code_from_stem(path: &str, stem: Option<String>) -> (r: Result<u32, QuantixError>)
    ensures
        match tdx_code_outcome(path@, opt_text(stem)) {
            Ok(code) => r == Ok::<u32, QuantixError>(code as u32) && 0 <= code < 1000000,
            Err(msg) => r matches Err(QuantixError::Other(m)) && m@ == msg,
        },
{
    let st = match stem {
        Some(st) => st,
        None => {
            return Err(QuantixError::Other("无法从 day 文件路径解析股票代码".to_string()));
        },
    };
    let cs = chars_of(st.as_str());
    let mut digits: Vec<char> = Vec::new();
    let mut i: usize = 0;
    while i < cs.len()
        invariant
            i <= cs@.len(),
            cs@ == st@,
            digits@ == ascii_digits_of(st@.take(i as int)),
        decreases cs.len() - i,
    {
        let c = cs[i];
        proof {
            assert(st@.take(i + 1).drop_last() =~= st@.take(i as int));
        }
        if '0' <= c && c <= '9' {
            digits.push(c);
        }
        i = i + 1;
    }
    proof {
        assert(st@.take(cs@.len() as int) =~= st@);
        lemma_ascii_digits_are_digits(st@);
    }
    if digits.len() != 6 {
        let mut m = "无法从 day 文件名解析 6 位股票代码: ".to_string();
        m.append(path);
        return Err(QuantixError::Other(m));
    }
    proof {
        lemma_six_digits_value(digits@);
    }
    let mut value: u32 = 0;
    let mut k: usize = 0;
    while k < 6
        invariant
            k <= 6,
            digits@.len() == 6,
            forall|x: int| 0 <= x < 6 ==> '0' <= #[trigger] digits@[x] && digits@[x] <= '9',
            value == digits_value(digits@.take(k as int)),
            0 <= digits_value(digits@.take(k as int)) <= digits_value(digits@),
            digits_value(digits@) < 1000000,
        decreases 6 - k,
    {
        let c = digits[k];
        proof {
            assert(digits@.take(k + 1).drop_last() =~= digits@.take(k as int));
            crate::text::lemma_digits_prefix_le(digits@, k + 1);
        }
        value = value * 10 + (c as u32 - '0' as u32);
        k = k + 1;
    }
    proof {
        assert(digits@.take(6) =~= digits@);
    }
    Ok(value)
}

/// The stock code of a TDX `.day` file, read from its file name.
pub fn infer_tdx_code_from_day_file_path(path: &str) -> (r: Result<u32, QuantixError>)
    ensures
        match tdx_code_outcome(path@, path_file_stem(path@)) {
            Ok(code) => r == Ok::<u32, QuantixError>(code as u32),
            Err(msg) => r matches Err(QuantixError::Other(m)) && m@ == msg,
        },
{
    tdx_code_from_stem(path, file_stem_of(path))
}

/// `<root>/vipdoc/<market>/lday/<market><code>.day`, joined as `Path::join`
/// joins.
pub open spec fn day_file_path_text(root: Seq<char>, market: Seq<char>, code: Seq<char>) -> Seq<
    char,
> {
    path_join_text(
        path_join_text(path_join_text(path_join_text(root, "vipdoc"@), market), "lday"@),
        market + code + ".day"@,
    )
}

/// The market directories searched when no market is given, in order.
pub open spec fn day_file_markets() -> Seq<Seq<char>> {
    seq!["sh"@, "sz"@, "bj"@, "ds"@]
}

/// The `.day` files that may hold the code's bars: the one of the given
/// market (in ASCII lower case), else one per market directory.
pub open spec fn day_file_candidates_text(
    root: Seq<char>,
    code: Seq<char>,
    market: Option<Seq<char>>,
) -> Seq<Seq<char>> {
    match market {
        Some(m) => seq![day_file_path_text(root, ascii_lower_text(m), code)],
        None => day_file_markets().map_values(|m: Seq<char>| day_file_path_text(root, m, code)),
    }
}

/// The path of the code's `.day` file in one market directory.
pub fn tdx_day_file_path(root: &str, market: &str, code: &str) -> (r: String)
    ensures
        r@ == day_file_path_text(root@, market@, code@),
{
    let a = path_join(root, "vipdoc");
    let b = path_join(a.as_str(), market);
    let c = path_join(b.as_str(), "lday");
    let mut name = market.to_string();
    name.append(code);
    name.append(".day");
    path_join(c.as_str(), name.as_str())
}

/// The `.day` files that may hold the bars of `code` under the TDX root.
pub fn tdx_day_file_candidates(tdx_root: &str, code: &str, market: Option<&str>) -> (r: Vec<
    String,
>)
    ensures
        r@.map_values(|v: String| v@) == day_file_candidates_text(
            tdx_root@,
            code@,
            match market {
                Some(m) => Some(m@),
                None => None,
            },
        ),
{
    match market {
        Some(m) => {
            let lower = to_ascii_lower(m);
            let r = vec![tdx_day_file_path(tdx_root, lower.as_str(), code)];
            assert(r@.map_values(|v: String| v@) =~= seq![
                day_file_path_text(tdx_root@, ascii_lower_text(m@), code@),
            ]);
            r
        },
        None => {
            let r = vec![
                tdx_day_file_path(tdx_root, "sh", code),
                tdx_day_file_path(tdx_root, "sz", code),
                tdx_day_file_path(tdx_root, "bj", code),
                tdx_day_file_path(tdx_root, "ds", code),
            ];
            assert(r@.map_values(|v: String| v@) =~= day_file_markets().map_values(
                |mk: Seq<char>| day_file_path_text(tdx_root@, mk, code@),
            ));
            r
        },
    }
}

/// The candidates whose file exists, in order.
pub open spec fn existing_files(candidates: Seq<Seq<char>>, exists: Seq<bool>) -> Seq<Seq<char>>
    decreases candidates.len(),
{
    if candidates.len() == 0 || exists.len() == 0 {
        Seq::empty()
    } else {
        let rest = existing_files(candidates.drop_last(), exists.drop_last());
        if exists.last() {
            rest.push(candidates.last())
        } else {
            rest
        }
    }
}

/// The message when the `.day` file of the given market does not exist.
pub open spec fn market_day_file_message(path: Seq<char>) -> Seq<char> {
    "未找到指定市场的 day 文件: "@ + path
}

/// The message when no market directory holds the code's `.day` file.
pub open spec fn no_day_file_message(code: Seq<char>) -> Seq<char> {
    "未找到 "@ + code + " 对应的 day 文件，请确认 --tdx-root 或补充 --market"@
}

/// The message when several market directories hold the code's `.day` file.
pub open spec fn many_day_files_message(code: Seq<char>, found: Seq<Seq<char>>) -> Seq<char> {
    "代码 "@ + code + " 在多个市场目录匹配到多个 day 文件: "@ + join_text(found, ", "@)
        + "，请补充 --market"@
}

/// Which `.day` file holds the bars of `code`, given which candidates exist:
/// with a market, its file if it exists; without, the one existing file,
/// refused when there is none or more than one.
pub open spec fn day_file_choice(
    code: Seq<char>,
    market_given: bool,
    candidates: Seq<Seq<char>>,
    exists: Seq<bool>,
) -> Result<Seq<char>, Seq<char>> {
    let found = existing_files(candidates, exists);
    if market_given {
        if exists[0] {
            Ok(candidates[0])
        } else {
            Err(market_day_file_message(candidates[0]))
        }
    } else if found.len() == 1 {
        Ok(found[0])
    } else if found.len() == 0 {
        Err(no_day_file_message(code))
    } else {
        Err(many_day_files_message(code, found))
    }
}

/// The `.day` file of `code` among the candidates, given which exist.
pub fn choose_tdx_day_file(
    code: &str,
    market_given: bool,
    candidates: &Vec<String>,
    exists: &Vec<bool>,
) -> (r: Result<String, QuantixError>)
    requires
        candidates@.len() == exists@.len(),
        candidates@.len() > 0,
    ensures
        match day_file_choice(
            code@,
            market_given,
            candidates@.map_values(|v: String| v@),
            exists@,
        ) {
            Ok(path) => r matches Ok(p) && p@ == path,
            Err(msg) => r matches Err(QuantixError::Other(m)) && m@ == msg,
        },
{
    let ghost views = candidates@.map_values(|v: String| v@);
    if market_given {
        if exists[0] {
            return Ok(candidates[0].clone());
        }
        let mut m = "未找到指定市场的 day 文件: ".to_string();
        m.append(candidates[0].as_str());
        return Err(QuantixError::Other(m));
    }
    let mut found: Vec<String> = Vec::new();
    let mut i: usize = 0;
    while i < candidates.len()
        invariant
            i <= candidates@.len(),
            candidates@.len() == exists@.len(),
            views == candidates@.map_values(|v: String| v@),
            found@.map_values(|v: String| v@) == existing_files(
                views.take(i as int),
                exists@.take(i as int),
            ),
        decreases candidates.len() - i,
    {
        proof {
            assert(views.take(i + 1).drop_last() =~= views.take(i as int));
            assert(exists@.take(i + 1).drop_last() =~= exists@.take(i as int));
        }
        if exists[i] {
            let ghost before = found@.map_values(|v: String| v@);
            found.push(candidates[i].clone());
            assert(found@.map_values(|v: String| v@) =~= before.push(views[i as int]));
        }
        i = i + 1;
    }
    proof {
        assert(views.take(candidates@.len() as int) =~= views);
        assert(exists@.take(candidates@.len() as int) =~= exists@);
    }
    if found.len() == 1 {
        return Ok(found[0].clone());
    }
    if found.len() == 0 {
        let mut m = "未找到 ".to_string();
        m.append(code);
        m.append(" 对应的 day 文件，请确认 --tdx-root 或补充 --market");
        return Err(QuantixError::Other(m));
    }
    let mut m = "代码 ".to_string();
    m.append(code);
    m.append(" 在多个市场目录匹配到多个 day 文件: ");
    let joined = join_strings(&found, ", ");
    m.append(joined.as_str());
    m.append("，请补充 --market");
    Err(QuantixError::Other(m))
}

/// The `.day` file of `code` under the TDX root, given which of its
/// candidates (`tdx_day_file_candidates`, same order) exist.
pub fn resolve_tdx_day_file_path(
    tdx_root: &str,
    code: &str,
    market: Option<&str>,
    candidate_exists: &Vec<bool>,
) -> (r: Result<String, QuantixError>)
    requires
        candidate_exists@.len() == (if market is Some {
            1int
        } else {
            4
        }),
    ensures
        match day_file_choice(
            code@,
            market is Some,
            day_file_candidates_text(
                tdx_root@,
                code@,
                match market {
                    Some(m) => Some(m@),
                    None => None,
                },
            ),
            candidate_exists@,
        ) {
            Ok(path) => r matches Ok(p) && p@ == path,
            Err(msg) => r matches Err(QuantixError::Other(m)) && m@ == msg,
        },
{
    let candidates = tdx_day_file_candidates(tdx_root, code, market);
    proof {
        assert(candidates@.len() == candidates@.map_values(|v: String| v@).len());
    }
    choose_tdx_day_file(code, market.is_some(), &candidates, candidate_exists)
}

} // verus!
