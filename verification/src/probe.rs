//! The host and port that a connectivity probe of a configured URL dials.
use vstd::prelude::*;
use crate::text::{chars_of, occurs_at, parse_u64, parse_u64_text, split_text, str_starts_with, string_of_chars};

verus! {

/// The URL without its scheme, for the schemes a probe knows (`http://`,
/// `https://`, `mysql://`, `mysqlx://`, `tcp://`, tried in this order).
pub open spec fn without_scheme(url: Seq<char>) -> Seq<char> {
    if occurs_at(url, "http://"@, 0) {
        url.skip(7)
    } else if occurs_at(url, "https://"@, 0) {
        url.skip(8)
    } else if occurs_at(url, "mysql://"@, 0) {
        url.skip(8)
    } else if occurs_at(url, "mysqlx://"@, 0) {
        url.skip(9)
    } else if occurs_at(url, "tcp://"@, 0) {
        url.skip(6)
    } else {
        url
    }
}

/// The position of the last `c` in `s`, or -1.
pub open spec fn last_index_of(s: Seq<char>, c: char) -> int
    decreases s.len(),
{
    if s.len() == 0 {
        -1
    } else if s.last() == c {
        s.len() - 1
    } else {
        last_index_of(s.drop_last(), c)
    }
}

proof fn lemma_last_index_range(s: Seq<char>, c: char)
    ensures
        -1 <= last_index_of(s, c) < s.len(),
        last_index_of(s, c) >= 0 ==> s[last_index_of(s, c)] == c,
        forall|i: int| last_index_of(s, c) < i < s.len() ==> s[i] != c,
    decreases s.len(),
{
    if s.len() > 0 && s.last() != c {
        lemma_last_index_range(s.drop_last(), c);
        assert forall|i: int| last_index_of(s, c) < i < s.len() implies s[i] != c by {
            if i < s.len() - 1 {
                assert(s[i] == s.drop_last()[i]);
            }
        }
    }
}

/// A port number as `str::parse::<u16>` reads it, else 0.
pub open spec fn port_value(s: Seq<char>) -> int {
    match parse_u64_text(s) {
        Some(v) => if v <= 65535 {
            v as int
        } else {
            0
        },
        None => 0,
    }
}

/// The host and port that the probe dials for a URL: the text after the
/// scheme up to the first `/`; a port after its last `:` (0 when it is not
/// a port number), else 443 for `https://` and 80 otherwise. Nothing is
/// dialled for an empty host or port 0.
pub open spec fn probe_target(url: Seq<char>) -> Option<(Seq<char>, int)> {
    let host_port = split_text(without_scheme(url), '/')[0];
    let colon = last_index_of(host_port, ':');
    let (host, port) = if colon >= 0 {
        (host_port.take(colon), port_value(host_port.skip(colon + 1)))
    } else if occurs_at(url, "https://"@, 0) {
        (host_port, 443)
    } else {
        (host_port, 80)
    };
    if host.len() == 0 || port == 0 {
        None
    } else {
        Some((host, port))
    }
}

fn strip_scheme(url: &str) -> (r: String)
    ensures
        r@ == without_scheme(url@),
{
    let cs = chars_of(url);
    let skip: usize = if str_starts_with(url, "http://") {
        proof { reveal_strlit("http://"); }
        7
    } else if str_starts_with(url, "https://") {
        proof { reveal_strlit("https://"); }
        8
    } else if str_starts_with(url, "mysql://") {
        proof { reveal_strlit("mysql://"); }
        8
    } else if str_starts_with(url, "mysqlx://") {
        proof { reveal_strlit("mysqlx://"); }
        9
    } else if str_starts_with(url, "tcp://") {
        proof { reveal_strlit("tcp://"); }
        6
    } else {
        0
    };
    let mut out: Vec<char> = Vec::new();
    let mut i: usize = skip;
    proof {
        if skip > 0 {
            assert(skip <= url@.len());
        }
    }
    while i < cs.len()
        invariant
            skip <= i <= cs@.len() || (skip > cs@.len() && i == skip),
            cs@ == url@,
            out@ == url@.subrange(skip as int, i as int),
        decreases cs.len() - i,
    {
        out.push(cs[i]);
        i = i + 1;
        assert(out@ =~= url@.subrange(skip as int, i as int));
    }
    let r = string_of_chars(&out);
    assert(r@ =~= url@.skip(skip as int));
    r
}

/// The position of the first `c` in `s`, or its length.
pub open spec fn first_index_of(s: Seq<char>, c: char) -> int
    decreases s.len(),
{
    if s.len() == 0 {
        0
    } else if first_index_of(s.drop_last(), c) < s.len() - 1 {
        first_index_of(s.drop_last(), c)
    } else if s.last() == c {
        s.len() - 1
    } else {
        s.len() as int
    }
}

proof fn lemma_first_field(s: Seq<char>, c: char)
    ensures
        0 <= first_index_of(s, c) <= s.len(),
        split_text(s, c)[0] == s.take(first_index_of(s, c)),
        (split_text(s, c).len() == 1) == (first_index_of(s, c) == s.len()),
        forall|i: int| 0 <= i < first_index_of(s, c) ==> s[i] != c,
        first_index_of(s, c) < s.len() ==> s[first_index_of(s, c)] == c,
    decreases s.len(),
{
    if s.len() == 0 {
        assert(s.take(0) =~= Seq::<char>::empty());
    } else {
        let init = s.drop_last();
        lemma_first_field(init, c);
        crate::text::lemma_split_nonempty(init, c);
        let f = first_index_of(init, c);
        if f < init.len() {
            assert(init.take(f) =~= s.take(f));
            assert forall|i: int| 0 <= i < first_index_of(s, c) implies s[i] != c by {
                assert(s[i] == init[i]);
            }
        } else {
            assert(init.take(f) =~= init);
            if s.last() == c {
                assert(s.take(s.len() - 1) =~= init);
            } else {
                assert(init.push(s.last()) =~= s);
                assert(s.take(s.len() as int) =~= s);
            }
            assert forall|i: int| 0 <= i < first_index_of(s, c) implies s[i] != c by {
                if i < init.len() {
                    assert(s[i] == init[i]);
                }
            }
        }
    }
}

fn slice_chars(cs: &Vec<char>, from: usize, to: usize) -> (r: String)
    requires
        from <= to <= cs@.len(),
    ensures
        r@ == cs@.subrange(from as int, to as int),
{
    let mut out: Vec<char> = Vec::new();
    let mut i: usize = from;
    while i < to
        invariant
            from <= i <= to <= cs@.len(),
            out@ == cs@.subrange(from as int, i as int),
        decreases to - i,
    {
        out.push(cs[i]);
        i = i + 1;
        assert(out@ =~= cs@.subrange(from as int, i as int));
    }
    string_of_chars(&out)
}

/// The host and port that a connectivity probe of `url` dials (see
/// `probe_target`), or nothing when there is no host or no port.
pub fn probe_tcp_target(url: &str) -> (r: Option<(String, u16)>)
    ensures
        match probe_target(url@) {
            Some((host, port)) => r matches Some((h, p)) && h@ == host && p as int == port,
            None => r is None,
        },
{
    let stripped = strip_scheme(url);
    let cs = chars_of(stripped.as_str());
    let mut k: usize = 0;
    while k < cs.len() && cs[k] != '/'
        invariant
            k <= cs@.len(),
            forall|i: int| 0 <= i < k ==> cs@[i] != '/',
        decreases cs.len() - k,
    {
        k = k + 1;
    }
    proof {
        lemma_first_field(stripped@, '/');
        let f = first_index_of(stripped@, '/');
        if f < k {
            assert(cs@[f] == '/');
        }
        if k < f {
            assert(stripped@[k as int] != '/');
        }
        assert(f == k);
    }
    let hp: Vec<char> = {
        let mut out: Vec<char> = Vec::new();
        let mut i: usize = 0;
        while i < k
            invariant
                i <= k <= cs@.len(),
                out@ == cs@.take(i as int),
            decreases k - i,
        {
            out.push(cs[i]);
            i = i + 1;
            assert(out@ =~= cs@.take(i as int));
        }
        out
    };
    assert(hp@ == split_text(without_scheme(url@), '/')[0]);
    let mut c: usize = hp.len();
    while c > 0 && hp[c - 1] != ':'
        invariant
            c <= hp@.len(),
            forall|i: int| c <= i < hp@.len() ==> hp@[i] != ':',
        decreases c,
    {
        c = c - 1;
    }
    proof {
        lemma_last_index_range(hp@, ':');
        let li = last_index_of(hp@, ':');
        if c > 0 {
            assert(hp@[c - 1] == ':');
            if li > c - 1 {
                assert(hp@[li] == ':');
            }
            if li < c - 1 {
                assert(hp@[c - 1] != ':');
            }
            assert(li == c - 1);
        } else {
            if li >= 0 {
                assert(hp@[li] == ':');
            }
            assert(li == -1);
        }
    }
    let (host, port): (String, u64) = if c > 0 {
        let host = slice_chars(&hp, 0, c - 1);
        let tail = slice_chars(&hp, c, hp.len());
        let port = match parse_u64(tail.as_str()) {
            Some(v) => if v <= 65535 {
                v
            } else {
                0
            },
            None => 0,
        };
        assert(host@ =~= hp@.take(c - 1));
        assert(tail@ =~= hp@.skip(c as int));
        (host, port)
    } else if str_starts_with(url, "https://") {
        (string_of_chars(&hp), 443)
    } else {
        (string_of_chars(&hp), 80)
    };
    if host.as_str().unicode_len() == 0 || port == 0 {
        return None;
    }
    Some((host, port as u16))
}

/// What a probe dials is a real endpoint: a non-empty host and a port
/// between 1 and 65535.
pub proof fn lemma_probe_target_dialable(url: Seq<char>)
    ensures
        probe_target(url) matches Some((host, port)) ==> host.len() > 0 && 1 <= port <= 65535,
{
}

} // verus!
