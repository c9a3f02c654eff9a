//! Character-level text operations the engine's rules are built from:
//! whitespace splitting, trimming, joining package lists, placeholder
//! substitution in command templates, and taking the final component of a
//! path.

use vstd::prelude::*;
use vstd::string::StrSliceExecFns;
use vstd::string::StringExecFns;

verus! {

/// ASCII whitespace: the separators recognized when a command line or a
/// package listing is split into words.
pub open spec fn is_space_char(c: char) -> bool {
    c == ' ' || c == '\t' || c == '\n' || c == '\r' || c == '\u{c}'
}

/// Executable check for [`is_space_char`].
pub fn is_space(c: char) -> (r: bool)
    ensures
        r == is_space_char(c),
{
    c == ' ' || c == '\t' || c == '\n' || c == '\r' || c == '\u{c}'
}

/// One step of splitting: `cur` is the word being gathered, `acc` the words
/// already complete. A whitespace character closes the current word; the end
/// of the input closes it as well.
pub open spec fn split_words_rec(s: Seq<char>, cur: Seq<char>, acc: Seq<Seq<char>>) -> Seq<
    Seq<char>,
>
    decreases s.len(),
{
    if s.len() == 0 {
        if cur.len() == 0 {
            acc
        } else {
            acc.push(cur)
        }
    } else if is_space_char(s[0]) {
        if cur.len() == 0 {
            split_words_rec(s.drop_first(), Seq::empty(), acc)
        } else {
            split_words_rec(s.drop_first(), Seq::empty(), acc.push(cur))
        }
    } else {
        split_words_rec(s.drop_first(), cur.push(s[0]), acc)
    }
}

/// The maximal whitespace-free words of `s`, in order.
pub open spec fn split_words_spec(s: Seq<char>) -> Seq<Seq<char>> {
    split_words_rec(s, Seq::empty(), Seq::empty())
}

proof fn lemma_split_words_rec_all_space(s: Seq<char>, cur: Seq<char>, acc: Seq<Seq<char>>)
    ensures
        split_words_rec(s, cur, acc).len() >= acc.len(),
        (split_words_rec(s, cur, acc).len() == acc.len()) <==> (cur.len() == 0 && forall|i: int|
            0 <= i < s.len() ==> is_space_char(s[i])),
    decreases s.len(),
{
    if s.len() == 0 {
        if cur.len() == 0 {
            assert(split_words_rec(s, cur, acc) == acc);
        } else {
            assert(split_words_rec(s, cur, acc) == acc.push(cur));
        }
    } else if is_space_char(s[0]) {
        assert(forall|i: int| 0 <= i < s.drop_first().len() ==> s.drop_first()[i] == s[i + 1]);
        if cur.len() == 0 {
            lemma_split_words_rec_all_space(s.drop_first(), Seq::empty(), acc);
            assert(split_words_rec(s, cur, acc) == split_words_rec(
                s.drop_first(),
                Seq::empty(),
                acc,
            ));
            if forall|i: int| 0 <= i < s.drop_first().len() ==> is_space_char(s.drop_first()[i]) {
                assert forall|i: int| 0 <= i < s.len() implies is_space_char(s[i]) by {
                    if i > 0 {
                        assert(s.drop_first()[i - 1] == s[i]);
                    }
                }
            }
        } else {
            lemma_split_words_rec_all_space(s.drop_first(), Seq::empty(), acc.push(cur));
            assert(split_words_rec(s, cur, acc) == split_words_rec(
                s.drop_first(),
                Seq::empty(),
                acc.push(cur),
            ));
        }
    } else {
        lemma_split_words_rec_all_space(s.drop_first(), cur.push(s[0]), acc);
        assert(split_words_rec(s, cur, acc) == split_words_rec(
            s.drop_first(),
            cur.push(s[0]),
            acc,
        ));
    }
}

/// Splitting yields no word at all exactly when the input holds nothing but
/// whitespace.
pub proof fn lemma_split_words_empty(s: Seq<char>)
    ensures
        (split_words_spec(s).len() == 0) <==> (forall|i: int|
            0 <= i < s.len() ==> is_space_char(s[i])),
{
    lemma_split_words_rec_all_space(s, Seq::empty(), Seq::empty());
}

/// Split `s` into its maximal whitespace-free words, in order.
pub fn split_words(s: &str) -> (r: Vec<String>)
    ensures
        r.deep_view() == split_words_spec(s@),
{
    let n = s.unicode_len();
    let mut i: usize = 0;
    let mut cur = String::new();
    let mut acc: Vec<String> = Vec::new();
    proof {
        assert(s@.skip(0) =~= s@);
        assert(acc.deep_view() =~= Seq::<Seq<char>>::empty());
    }
    while i < n
        invariant
            i <= n,
            n == s@.len(),
            split_words_rec(s@.skip(i as int), cur@, acc.deep_view()) == split_words_spec(s@),
        decreases n - i,
    {
        let ghost pre = acc.deep_view();
        let ghost cv = cur@;
        proof {
            assert(s@.skip(i as int).drop_first() =~= s@.skip(i as int + 1));
            assert(s@.skip(i as int)[0] == s@[i as int]);
        }
        let c = s.get_char(i);
        if is_space(c) {
            if !cur.as_str().is_empty() {
                acc.push(cur);
                cur = String::new();
                proof {
                    assert(acc.deep_view() =~= pre.push(cv));
                    assert(split_words_rec(s@.skip(i as int), cv, pre) == split_words_rec(
                        s@.skip(i as int + 1),
                        Seq::empty(),
                        pre.push(cv),
                    ));
                }
            } else {
                proof {
                    assert(split_words_rec(s@.skip(i as int), cv, pre) == split_words_rec(
                        s@.skip(i as int + 1),
                        Seq::empty(),
                        pre,
                    ));
                    assert(cur@ =~= Seq::<char>::empty());
                }
            }
        } else {
            let piece = s.substring_char(i, i + 1);
            cur.append(piece);
            proof {
                assert(piece@ =~= seq![s@[i as int]]);
                assert(cur@ =~= cv.push(s@[i as int]));
                assert(split_words_rec(s@.skip(i as int), cv, pre) == split_words_rec(
                    s@.skip(i as int + 1),
                    cv.push(s@[i as int]),
                    pre,
                ));
            }
        }
        i = i + 1;
    }
    proof {
        assert(s@.skip(n as int) =~= Seq::<char>::empty());
    }
    if !cur.as_str().is_empty() {
        let ghost pre = acc.deep_view();
        let ghost cv = cur@;
        acc.push(cur);
        proof {
            assert(acc.deep_view() =~= pre.push(cv));
        }
    }
    acc
}

/// `s` without its leading whitespace.
pub open spec fn drop_leading_spaces(s: Seq<char>) -> Seq<char>
    decreases s.len(),
{
    if s.len() > 0 && is_space_char(s[0]) {
        drop_leading_spaces(s.drop_first())
    } else {
        s
    }
}

/// `s` without its trailing whitespace.
pub open spec fn drop_trailing_spaces(s: Seq<char>) -> Seq<char>
    decreases s.len(),
{
    if s.len() > 0 && is_space_char(s.last()) {
        drop_trailing_spaces(s.drop_last())
    } else {
        s
    }
}

/// `s` without leading and trailing whitespace.
pub open spec fn trim_spec(s: Seq<char>) -> Seq<char> {
    drop_trailing_spaces(drop_leading_spaces(s))
}

/// Strip leading and trailing whitespace from `s`.
pub fn trim(s: &str) -> (r: String)
    ensures
        r@ == trim_spec(s@),
{
    let n = s.unicode_len();
    let mut a: usize = 0;
    proof {
        assert(s@.skip(0) =~= s@);
    }
    while a < n && is_space(s.get_char(a))
        invariant
            a <= n,
            n == s@.len(),
            drop_leading_spaces(s@.skip(a as int)) == drop_leading_spaces(s@),
        decreases n - a,
    {
        proof {
            assert(s@.skip(a as int).drop_first() =~= s@.skip(a as int + 1));
            assert(s@.skip(a as int)[0] == s@[a as int]);
        }
        a = a + 1;
    }
    proof {
        if a == n {
            assert(s@.skip(a as int) =~= Seq::<char>::empty());
        }
        assert(drop_leading_spaces(s@) == s@.skip(a as int));
    }
    let mut b: usize = n;
    while b > a && is_space(s.get_char(b - 1))
        invariant
            a <= b <= n,
            n == s@.len(),
            drop_leading_spaces(s@) == s@.skip(a as int),
            drop_trailing_spaces(s@.subrange(a as int, b as int)) == drop_trailing_spaces(
                s@.skip(a as int),
            ),
        decreases b,
    {
        proof {
            assert(s@.subrange(a as int, b as int).drop_last() =~= s@.subrange(
                a as int,
                b as int - 1,
            ));
            assert(s@.subrange(a as int, b as int).last() == s@[b as int - 1]);
        }
        b = b - 1;
    }
    proof {
        if a == b {
            assert(s@.subrange(a as int, b as int) =~= Seq::<char>::empty());
        }
        assert(trim_spec(s@) == s@.subrange(a as int, b as int));
    }
    s.substring_char(a, b).to_owned()
}

/// The words of `ws` joined with single spaces.
pub open spec fn join_spaces_spec(ws: Seq<Seq<char>>) -> Seq<char>
    decreases ws.len(),
{
    if ws.len() == 0 {
        Seq::empty()
    } else if ws.len() == 1 {
        ws[0]
    } else {
        join_spaces_spec(ws.drop_last()) + seq![' '] + ws.last()
    }
}

/// Join `ws` with single spaces: the shape a package list takes inside a
/// materialized command.
pub fn join_with_spaces(ws: &Vec<String>) -> (r: String)
    ensures
        r@ == join_spaces_spec(ws.deep_view()),
{
    let mut acc = String::new();
    let mut i: usize = 0;
    proof {
        assert(ws.deep_view().len() == ws@.len());
        assert(ws.deep_view().take(0) =~= Seq::<Seq<char>>::empty());
    }
    while i < ws.len()
        invariant
            i <= ws@.len(),
            ws.deep_view().len() == ws@.len(),
            acc@ == join_spaces_spec(ws.deep_view().take(i as int)),
        decreases ws@.len() - i,
    {
        let ghost pre = acc@;
        if i > 0 {
            acc.append(" ");
        }
        acc.append(ws[i].as_str());
        proof {
            reveal_strlit(" ");
            let dv = ws.deep_view();
            assert(dv.take(i as int + 1).drop_last() =~= dv.take(i as int));
            assert(dv.take(i as int + 1).last() == dv[i as int]);
            assert(ws@[i as int]@ == dv[i as int]);
            if i == 0 {
                assert(acc@ =~= dv[0]);
            } else {
                assert(acc@ =~= pre + seq![' '] + dv[i as int]);
            }
        }
        i = i + 1;
    }
    proof {
        assert(ws.deep_view().take(ws@.len() as int) =~= ws.deep_view());
    }
    acc
}

/// `t` with every occurrence of the placeholder token `{}` replaced by
/// `sub`, scanning left to right without overlap.
pub open spec fn replace_placeholder_spec(t: Seq<char>, sub: Seq<char>) -> Seq<char>
    decreases t.len(),
{
    if t.len() >= 2 && t[0] == '{' && t[1] == '}' {
        sub + replace_placeholder_spec(t.skip(2), sub)
    } else if t.len() > 0 {
        seq![t[0]] + replace_placeholder_spec(t.skip(1), sub)
    } else {
        Seq::empty()
    }
}

/// Substitute `sub` for every `{}` placeholder in the template `t`.
pub fn replace_placeholder(t: &str, sub: &str) -> (r: String)
    ensures
        r@ == replace_placeholder_spec(t@, sub@),
{
    let n = t.unicode_len();
    let mut acc = String::new();
    let mut i: usize = 0;
    proof {
        assert(t@.skip(0) =~= t@);
    }
    while i < n
        invariant
            i <= n,
            n == t@.len(),
            acc@ + replace_placeholder_spec(t@.skip(i as int), sub@) == replace_placeholder_spec(
                t@,
                sub@,
            ),
        decreases n - i,
    {
        let ghost pre = acc@;
        let ghost rest = t@.skip(i as int);
        proof {
            assert(rest[0] == t@[i as int]);
            if i + 1 < n {
                assert(rest[1] == t@[i as int + 1]);
            }
            assert(rest.skip(1) =~= t@.skip(i as int + 1));
            if i + 2 <= n {
                assert(rest.skip(2) =~= t@.skip(i as int + 2));
            }
        }
        let c = t.get_char(i);
        if c == '{' && i + 1 < n && t.get_char(i + 1) == '}' {
            acc.append(sub);
            proof {
                assert(acc@ + replace_placeholder_spec(t@.skip(i as int + 2), sub@) =~= pre + (
                sub@ + replace_placeholder_spec(t@.skip(i as int + 2), sub@)));
            }
            i = i + 2;
        } else {
            let piece = t.substring_char(i, i + 1);
            acc.append(piece);
            proof {
                assert(piece@ =~= seq![t@[i as int]]);
                assert(acc@ + replace_placeholder_spec(t@.skip(i as int + 1), sub@) =~= pre + (
                seq![t@[i as int]] + replace_placeholder_spec(t@.skip(i as int + 1), sub@)));
            }
            i = i + 1;
        }
    }
    proof {
        assert(t@.skip(n as int) =~= Seq::<char>::empty());
    }
    acc
}

/// One step of taking a path's final component: `cur` is the component
/// gathered since the last separator.
pub open spec fn basename_rec(s: Seq<char>, cur: Seq<char>) -> Seq<char>
    decreases s.len(),
{
    if s.len() == 0 {
        cur
    } else if s[0] == '/' {
        basename_rec(s.drop_first(), Seq::empty())
    } else {
        basename_rec(s.drop_first(), cur.push(s[0]))
    }
}

/// The part of a path after its last `/` separator (empty when the path
/// ends with a separator).
pub open spec fn basename_spec(s: Seq<char>) -> Seq<char> {
    basename_rec(s, Seq::empty())
}

/// Take the final component of the path `s`.
pub fn basename(s: &str) -> (r: String)
    ensures
        r@ == basename_spec(s@),
{
    let n = s.unicode_len();
    let mut cur = String::new();
    let mut i: usize = 0;
    proof {
        assert(s@.skip(0) =~= s@);
    }
    while i < n
        invariant
            i <= n,
            n == s@.len(),
            basename_rec(s@.skip(i as int), cur@) == basename_spec(s@),
        decreases n - i,
    {
        let ghost cv = cur@;
        proof {
            assert(s@.skip(i as int).drop_first() =~= s@.skip(i as int + 1));
            assert(s@.skip(i as int)[0] == s@[i as int]);
        }
        let c = s.get_char(i);
        if c == '/' {
            cur = String::new();
            proof {
                assert(basename_rec(s@.skip(i as int), cv) == basename_rec(
                    s@.skip(i as int + 1),
                    Seq::empty(),
                ));
            }
        } else {
            let piece = s.substring_char(i, i + 1);
            cur.append(piece);
            proof {
                assert(piece@ =~= seq![s@[i as int]]);
                assert(cur@ =~= cv.push(s@[i as int]));
                assert(basename_rec(s@.skip(i as int), cv) == basename_rec(
                    s@.skip(i as int + 1),
                    cv.push(s@[i as int]),
                ));
            }
        }
        i = i + 1;
    }
    proof {
        assert(s@.skip(n as int) =~= Seq::<char>::empty());
    }
    cur
}

} // verus!
