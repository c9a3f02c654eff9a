//! Reading and writing the small slice of JSON the cache file uses: objects
//! whose values are strings (with `\"` and `\\` escapes) or `null`.
//!
//! The reader is exact about shape — anything else is a parse failure — but
//! places no restriction on the characters inside a string, so a written
//! string always reads back as itself.

use vstd::prelude::*;
use vstd::string::StrSliceExecFns;
use vstd::string::StringExecFns;

verus! {

/// The whitespace JSON allows between tokens.
pub open spec fn is_json_ws(c: char) -> bool {
    c == ' ' || c == '\t' || c == '\n' || c == '\r'
}

/// Executable check for [`is_json_ws`].
fn is_ws(c: char) -> (r: bool)
    ensures
        r == is_json_ws(c),
{
    c == ' ' || c == '\t' || c == '\n' || c == '\r'
}

/// `s` without its leading JSON whitespace.
pub open spec fn skip_ws_spec(s: Seq<char>) -> Seq<char>
    decreases s.len(),
{
    if s.len() > 0 && is_json_ws(s[0]) {
        skip_ws_spec(s.drop_first())
    } else {
        s
    }
}

/// Skipping whitespace does nothing to input that starts with none.
pub proof fn lemma_skip_ws_id(s: Seq<char>)
    requires
        s.len() == 0 || !is_json_ws(s[0]),
    ensures
        skip_ws_spec(s) == s,
{
}

/// Advance `start` past JSON whitespace.
pub fn skip_ws(s: &str, start: usize) -> (j: usize)
    requires
        start <= s@.len(),
    ensures
        start <= j <= s@.len(),
        s@.skip(j as int) == skip_ws_spec(s@.skip(start as int)),
{
    let n = s.unicode_len();
    let mut j: usize = start;
    while j < n && is_ws(s.get_char(j))
        invariant
            start <= j <= n,
            n == s@.len(),
            skip_ws_spec(s@.skip(j as int)) == skip_ws_spec(s@.skip(start as int)),
        decreases n - j,
    {
        proof {
            assert(s@.skip(j as int).drop_first() =~= s@.skip(j as int + 1));
            assert(s@.skip(j as int)[0] == s@[j as int]);
        }
        j = j + 1;
    }
    proof {
        if j == n {
            assert(s@.skip(j as int) =~= Seq::<char>::empty());
        }
        assert(skip_ws_spec(s@.skip(j as int)) == s@.skip(j as int));
    }
    j
}

/// `s` with every `"` and `\` preceded by a backslash: the escaping the
/// writer applies inside JSON strings.
pub open spec fn escape_spec(s: Seq<char>) -> Seq<char>
    decreases s.len(),
{
    if s.len() == 0 {
        Seq::empty()
    } else if s[0] == '"' || s[0] == '\\' {
        seq!['\\', s[0]] + escape_spec(s.drop_first())
    } else {
        seq![s[0]] + escape_spec(s.drop_first())
    }
}

/// A string as JSON writes it: quoted and escaped.
pub open spec fn json_string_spec(s: Seq<char>) -> Seq<char> {
    seq!['"'] + escape_spec(s) + seq!['"']
}

/// An optional string as JSON writes it: a quoted string, or `null`.
pub open spec fn json_opt_spec(o: Option<Seq<char>>) -> Seq<char> {
    match o {
        Option::Some(s) => json_string_spec(s),
        Option::None => seq!['n', 'u', 'l', 'l'],
    }
}

/// Escape `s` for inclusion in a JSON string.
fn escape_json(s: &str) -> (r: String)
    ensures
        r@ == escape_spec(s@),
{
    let n = s.unicode_len();
    let mut acc = String::new();
    let mut i: usize = 0;
    proof {
        assert(s@.skip(0) =~= s@);
    }
    while i < n
        invariant
            i <= n,
            n == s@.len(),
            acc@ + escape_spec(s@.skip(i as int)) == escape_spec(s@),
        decreases n - i,
    {
        let ghost pre = acc@;
        let ghost rest = s@.skip(i as int);
        proof {
            assert(rest[0] == s@[i as int]);
            assert(rest.drop_first() =~= s@.skip(i as int + 1));
        }
        let c = s.get_char(i);
        if c == '"' {
            acc.append("\\\"");
            proof {
                reveal_strlit("\\\"");
                assert(acc@ =~= pre + seq!['\\', s@[i as int]]);
                assert(acc@ + escape_spec(s@.skip(i as int + 1)) =~= pre + (seq!['\\', s@[i as int]]
                    + escape_spec(s@.skip(i as int + 1))));
            }
        } else if c == '\\' {
            acc.append("\\\\");
            proof {
                reveal_strlit("\\\\");
                assert(acc@ =~= pre + seq!['\\', s@[i as int]]);
                assert(acc@ + escape_spec(s@.skip(i as int + 1)) =~= pre + (seq!['\\', s@[i as int]]
                    + escape_spec(s@.skip(i as int + 1))));
            }
        } else {
            let piece = s.substring_char(i, i + 1);
            acc.append(piece);
            proof {
                assert(piece@ =~= seq![s@[i as int]]);
                assert(acc@ + escape_spec(s@.skip(i as int + 1)) =~= pre + (seq![s@[i as int]]
                    + escape_spec(s@.skip(i as int + 1))));
            }
        }
        i = i + 1;
    }
    proof {
        assert(s@.skip(n as int) =~= Seq::<char>::empty());
        assert(acc@ + Seq::<char>::empty() =~= acc@);
    }
    acc
}

/// Write `s` as a JSON string token.
pub fn json_string(s: &str) -> (r: String)
    ensures
        r@ == json_string_spec(s@),
{
    let mut acc = String::from_str("\"");
    let escaped = escape_json(s);
    acc.append(escaped.as_str());
    acc.append("\"");
    proof {
        reveal_strlit("\"");
        assert(acc@ =~= seq!['"'] + escape_spec(s@) + seq!['"']);
    }
    acc
}

/// The view of an optional string.
pub open spec fn opt_str_view(o: Option<String>) -> Option<Seq<char>> {
    match o {
        Option::Some(s) => Option::Some(s@),
        Option::None => Option::None,
    }
}

/// Write an optional string as a JSON value token.
pub fn json_opt(o: &Option<String>) -> (r: String)
    ensures
        r@ == json_opt_spec(opt_str_view(*o)),
{
    match o {
        Option::Some(s) => json_string(s.as_str()),
        Option::None => {
            let r = String::from_str("null");
            proof {
                reveal_strlit("null");
                assert(r@ =~= seq!['n', 'u', 'l', 'l']);
            }
            r
        },
    }
}

/// What follows the opening quote of a JSON string: the string's characters
/// up to the closing quote, and the input after that quote. Escaped `"` and
/// `\` are unescaped; any other escape is malformed; every other character
/// stands for itself.
pub open spec fn parse_string_body_spec(s: Seq<char>) -> Option<(Seq<char>, Seq<char>)>
    decreases s.len(),
{
    if s.len() == 0 {
        Option::None
    } else if s[0] == '"' {
        Option::Some((Seq::empty(), s.drop_first()))
    } else if s[0] == '\\' {
        if s.len() >= 2 && (s[1] == '"' || s[1] == '\\') {
            match parse_string_body_spec(s.skip(2)) {
                Option::Some(cr) => Option::Some((seq![s[1]] + cr.0, cr.1)),
                Option::None => Option::None,
            }
        } else {
            Option::None
        }
    } else {
        match parse_string_body_spec(s.drop_first()) {
            Option::Some(cr) => Option::Some((seq![s[0]] + cr.0, cr.1)),
            Option::None => Option::None,
        }
    }
}

/// Read a JSON string body beginning at `start` (just past the opening
/// quote). Returns the unescaped contents and the position after the
/// closing quote.
pub fn parse_string_body(s: &str, start: usize) -> (r: Option<(String, usize)>)
    requires
        start <= s@.len(),
    ensures
        match parse_string_body_spec(s@.skip(start as int)) {
            Option::Some(cr) => r matches Option::Some(p) && p.0@ == cr.0 && p.1 <= s@.len()
                && s@.skip(p.1 as int) == cr.1,
            Option::None => r is None,
        },
{
    let n = s.unicode_len();
    let mut i: usize = start;
    let mut content = String::new();
    while i < n
        invariant
            start <= i <= n,
            n == s@.len(),
            match parse_string_body_spec(s@.skip(i as int)) {
                Option::Some(cr) => parse_string_body_spec(s@.skip(start as int))
                    matches Option::Some(cr0) && cr0.0 == content@ + cr.0 && cr0.1 == cr.1,
                Option::None => parse_string_body_spec(s@.skip(start as int)) is None,
            },
        decreases n - i,
    {
        let ghost pre = content@;
        let ghost rest = s@.skip(i as int);
        proof {
            assert(rest[0] == s@[i as int]);
            assert(rest.drop_first() =~= s@.skip(i as int + 1));
            if i + 2 <= n {
                assert(rest.skip(2) =~= s@.skip(i as int + 2));
                if i + 1 < n {
                    assert(rest[1] == s@[i as int + 1]);
                }
            }
        }
        let c = s.get_char(i);
        if c == '"' {
            proof {
                assert(rest.drop_first() =~= s@.skip(i as int + 1));
                assert(content@ + Seq::<char>::empty() =~= content@);
            }
            return Option::Some((content, i + 1));
        } else if c == '\\' {
            if i + 1 < n {
                let e = s.get_char(i + 1);
                if e == '"' || e == '\\' {
                    let piece = s.substring_char(i + 1, i + 2);
                    content.append(piece);
                    proof {
                        assert(piece@ =~= seq![s@[i as int + 1]]);
                        assert(content@ =~= pre + seq![s@[i as int + 1]]);
                        match parse_string_body_spec(s@.skip(i as int + 2)) {
                            Option::Some(cr) => {
                                assert(pre + (seq![s@[i as int + 1]] + cr.0) =~= content@ + cr.0);
                            },
                            Option::None => {},
                        }
                    }
                    i = i + 2;
                } else {
                    return Option::None;
                }
            } else {
                return Option::None;
            }
        } else {
            let piece = s.substring_char(i, i + 1);
            content.append(piece);
            proof {
                assert(piece@ =~= seq![s@[i as int]]);
                assert(content@ =~= pre + seq![s@[i as int]]);
                match parse_string_body_spec(s@.skip(i as int + 1)) {
                    Option::Some(cr) => {
                        assert(pre + (seq![s@[i as int]] + cr.0) =~= content@ + cr.0);
                    },
                    Option::None => {},
                }
            }
            i = i + 1;
        }
    }
    proof {
        assert(s@.skip(n as int) =~= Seq::<char>::empty());
    }
    Option::None
}

/// A JSON value of the shapes the cache uses: a string (`Some` contents) or
/// `null` (`None`), after optional leading whitespace.
pub open spec fn parse_value_spec(s: Seq<char>) -> Option<(Option<Seq<char>>, Seq<char>)> {
    let t = skip_ws_spec(s);
    if t.len() > 0 && t[0] == '"' {
        match parse_string_body_spec(t.drop_first()) {
            Option::Some(cr) => Option::Some((Option::Some(cr.0), cr.1)),
            Option::None => Option::None,
        }
    } else if t.len() >= 4 && t[0] == 'n' && t[1] == 'u' && t[2] == 'l' && t[3] == 'l' {
        Option::Some((Option::None, t.skip(4)))
    } else {
        Option::None
    }
}

/// Read a JSON value (string or `null`) beginning at `start`.
pub fn parse_value(s: &str, start: usize) -> (r: Option<(Option<String>, usize)>)
    requires
        start <= s@.len(),
    ensures
        match parse_value_spec(s@.skip(start as int)) {
            Option::Some(vr) => r matches Option::Some(p) && opt_str_view(p.0) == vr.0 && p.1
                <= s@.len() && s@.skip(p.1 as int) == vr.1,
            Option::None => r is None,
        },
{
    let n = s.unicode_len();
    let j = skip_ws(s, start);
    let ghost t = skip_ws_spec(s@.skip(start as int));
    proof {
        assert(s@.skip(j as int) == t);
        if j < n {
            assert(t[0] == s@[j as int]);
            assert(t.drop_first() =~= s@.skip(j as int + 1));
        } else {
            assert(t =~= Seq::<char>::empty());
        }
    }
    if j < n && s.get_char(j) == '"' {
        match parse_string_body(s, j + 1) {
            Option::Some(p) => Option::Some((Option::Some(p.0), p.1)),
            Option::None => Option::None,
        }
    } else if j < n && n - j >= 4 && s.get_char(j) == 'n' && s.get_char(j + 1) == 'u' && s.get_char(
        j + 2,
    ) == 'l' && s.get_char(j + 3) == 'l' {
        proof {
            assert(t.len() >= 4);
            assert(t[1] == s@[j as int + 1]);
            assert(t[2] == s@[j as int + 2]);
            assert(t[3] == s@[j as int + 3]);
            assert(t.skip(4) =~= s@.skip(j as int + 4));
        }
        Option::Some((Option::None, j + 4))
    } else {
        proof {
            if j < n && t.len() >= 4 {
                assert(t[1] == s@[j as int + 1]);
                assert(t[2] == s@[j as int + 2]);
                assert(t[3] == s@[j as int + 3]);
            }
        }
        Option::None
    }
}

/// An object member: a quoted key, a colon, and a value, each after
/// optional whitespace.
pub open spec fn parse_member_spec(s: Seq<char>) -> Option<((Seq<char>, Option<Seq<char>>), Seq<
    char,
>)> {
    let t = skip_ws_spec(s);
    if t.len() > 0 && t[0] == '"' {
        match parse_string_body_spec(t.drop_first()) {
            Option::Some(kr) => {
                let u = skip_ws_spec(kr.1);
                if u.len() > 0 && u[0] == ':' {
                    match parse_value_spec(u.drop_first()) {
                        Option::Some(vr) => Option::Some(((kr.0, vr.0), vr.1)),
                        Option::None => Option::None,
                    }
                } else {
                    Option::None
                }
            },
            Option::None => Option::None,
        }
    } else {
        Option::None
    }
}

/// Read one `"key": value` member beginning at `start`.
pub fn parse_member(s: &str, start: usize) -> (r: Option<((String, Option<String>), usize)>)
    requires
        start <= s@.len(),
    ensures
        match parse_member_spec(s@.skip(start as int)) {
            Option::Some(mr) => r matches Option::Some(p) && p.0.0@ == mr.0.0 && opt_str_view(
                p.0.1,
            ) == mr.0.1 && p.1 <= s@.len() && s@.skip(p.1 as int) == mr.1,
            Option::None => r is None,
        },
{
    let n = s.unicode_len();
    let j = skip_ws(s, start);
    let ghost t = skip_ws_spec(s@.skip(start as int));
    proof {
        assert(s@.skip(j as int) == t);
        if j < n {
            assert(t[0] == s@[j as int]);
            assert(t.drop_first() =~= s@.skip(j as int + 1));
        } else {
            assert(t =~= Seq::<char>::empty());
        }
    }
    if j < n && s.get_char(j) == '"' {
        match parse_string_body(s, j + 1) {
            Option::Some(kp) => {
                let (key, k_end) = kp;
                let m = skip_ws(s, k_end);
                let ghost u = skip_ws_spec(s@.skip(k_end as int));
                proof {
                    assert(s@.skip(m as int) == u);
                    if m < n {
                        assert(u[0] == s@[m as int]);
                        assert(u.drop_first() =~= s@.skip(m as int + 1));
                    } else {
                        assert(u =~= Seq::<char>::empty());
                    }
                }
                if m < n && s.get_char(m) == ':' {
                    match parse_value(s, m + 1) {
                        Option::Some(vp) => Option::Some(((key, vp.0), vp.1)),
                        Option::None => Option::None,
                    }
                } else {
                    Option::None
                }
            },
            Option::None => Option::None,
        }
    } else {
        Option::None
    }
}

/// Parsing a written string gives back exactly that string, whatever its
/// characters, and leaves exactly what followed it.
pub proof fn lemma_parse_string_round(x: Seq<char>, rest: Seq<char>)
    ensures
        parse_string_body_spec(escape_spec(x) + seq!['"'] + rest) == Option::Some::<
            (Seq<char>, Seq<char>),
        >((x, rest)),
    decreases x.len(),
{
    let s = escape_spec(x) + seq!['"'] + rest;
    if x.len() == 0 {
        assert(s =~= seq!['"'] + rest);
        assert(s[0] == '"');
        assert(s.drop_first() =~= rest);
    } else {
        let x1 = x.drop_first();
        lemma_parse_string_round(x1, rest);
        if x[0] == '"' || x[0] == '\\' {
            assert(escape_spec(x) == seq!['\\', x[0]] + escape_spec(x1));
            assert(s =~= seq!['\\', x[0]] + (escape_spec(x1) + seq!['"'] + rest));
            assert(s[0] == '\\');
            assert(s[1] == x[0]);
            assert(s.skip(2) =~= escape_spec(x1) + seq!['"'] + rest);
            assert(seq![x[0]] + x1 =~= x);
        } else {
            assert(escape_spec(x) == seq![x[0]] + escape_spec(x1));
            assert(s =~= seq![x[0]] + (escape_spec(x1) + seq!['"'] + rest));
            assert(s[0] == x[0]);
            assert(s.drop_first() =~= escape_spec(x1) + seq!['"'] + rest);
            assert(seq![x[0]] + x1 =~= x);
        }
    }
}

/// Parsing a written value gives back exactly that value.
pub proof fn lemma_parse_value_round(v: Option<Seq<char>>, rest: Seq<char>)
    ensures
        parse_value_spec(json_opt_spec(v) + rest) == Option::Some::<
            (Option<Seq<char>>, Seq<char>),
        >((v, rest)),
{
    let s = json_opt_spec(v) + rest;
    match v {
        Option::Some(x) => {
            assert(s =~= seq!['"'] + (escape_spec(x) + seq!['"'] + rest));
            assert(s[0] == '"');
            lemma_skip_ws_id(s);
            assert(s.drop_first() =~= escape_spec(x) + seq!['"'] + rest);
            lemma_parse_string_round(x, rest);
        },
        Option::None => {
            assert(s =~= seq!['n', 'u', 'l', 'l'] + rest);
            assert(s[0] == 'n');
            lemma_skip_ws_id(s);
            assert(s[1] == 'u');
            assert(s[2] == 'l');
            assert(s[3] == 'l');
            assert(s.skip(4) =~= rest);
        },
    }
}

/// Parsing a written member gives back exactly its key and value.
pub proof fn lemma_parse_member_round(k: Seq<char>, v: Option<Seq<char>>, rest: Seq<char>)
    ensures
        parse_member_spec(json_string_spec(k) + seq![':'] + json_opt_spec(v) + rest)
            == Option::Some::<((Seq<char>, Option<Seq<char>>), Seq<char>)>(((k, v), rest)),
{
    let s = json_string_spec(k) + seq![':'] + json_opt_spec(v) + rest;
    assert(s =~= seq!['"'] + (escape_spec(k) + seq!['"'] + (seq![':'] + (json_opt_spec(v)
        + rest))));
    assert(s[0] == '"');
    lemma_skip_ws_id(s);
    assert(s.drop_first() =~= escape_spec(k) + seq!['"'] + (seq![':'] + (json_opt_spec(v)
        + rest)));
    lemma_parse_string_round(k, seq![':'] + (json_opt_spec(v) + rest));
    let after_key = seq![':'] + (json_opt_spec(v) + rest);
    assert(after_key[0] == ':');
    lemma_skip_ws_id(after_key);
    assert(after_key.drop_first() =~= json_opt_spec(v) + rest);
    lemma_parse_value_round(v, rest);
}

} // verus!
