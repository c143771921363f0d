//! String building blocks shared by the formatting and search layers:
//! joining, trimming, splitting, and case-insensitive containment.

use vstd::prelude::*;

verus! {

/// Whether `c` is whitespace, exactly as `char::is_whitespace` decides it.
pub uninterp spec fn is_space(c: char) -> bool;

/// Whether `c` is alphanumeric, exactly as `char::is_alphanumeric` decides it.
pub uninterp spec fn is_alphanum(c: char) -> bool;

/// The lowercase form of `s`, exactly as `str::to_lowercase` computes it.
pub uninterp spec fn lower_of(s: Seq<char>) -> Seq<char>;

/// `needle` occurs contiguously inside `hay`.
pub open spec fn seq_contains(hay: Seq<char>, needle: Seq<char>) -> bool {
    exists|i: int|
        0 <= i && i + needle.len() <= hay.len() && #[trigger] hay.subrange(i, i + needle.len())
            == needle
}

/// Relies on char::is_whitespace: the result depends on the character alone
/// (the Unicode white-space table).
#[verifier::external_body]
pub fn char_is_space(c: char) -> (r: bool)
    ensures
        r == is_space(c),
{
    c.is_whitespace()
}

/// Relies on char::is_alphanumeric: the result depends on the character alone
/// (the Unicode alphabetic and numeric tables).
#[verifier::external_body]
pub fn char_is_alphanum(c: char) -> (r: bool)
    ensures
        r == is_alphanum(c),
{
    c.is_alphanumeric()
}

/// Relies on str::to_lowercase: the result depends on the characters alone.
#[verifier::external_body]
pub fn lowercase(s: &str) -> (r: String)
    ensures
        r@ == lower_of(s@),
{
    s.to_lowercase()
}

/// Relies on str::contains with a `&str` pattern: true exactly when the
/// pattern occurs as a contiguous substring.
#[verifier::external_body]
pub fn contains_str(hay: &str, needle: &str) -> (r: bool)
    ensures
        r == seq_contains(hay@, needle@),
{
    hay.contains(needle)
}

/// Relies on str's PartialEq: two string slices are equal exactly when their
/// characters are.
#[verifier::external_body]
pub fn str_eq(a: &str, b: &str) -> (r: bool)
    ensures
        r == (a@ == b@),
{
    a == b
}

/// Relies on str::chars and Iterator::collect: the characters of a string,
/// in order.
#[verifier::external_body]
pub fn str_chars(s: &str) -> (r: Vec<char>)
    ensures
        r@ == s@,
{
    s.chars().collect()
}

/// Relies on Iterator::collect for String: the string holding exactly the
/// given characters, in order.
#[verifier::external_body]
pub fn string_from_chars(v: &Vec<char>) -> (r: String)
    ensures
        r@ == v@,
{
    v.iter().collect()
}

/// The sequence obtained by writing `parts` one after another with `sep`
/// between consecutive parts.
pub open spec fn join_sep(parts: Seq<Seq<char>>, sep: Seq<char>) -> Seq<char>
    decreases parts.len(),
{
    if parts.len() == 0 {
        Seq::empty()
    } else if parts.len() == 1 {
        parts[0]
    } else {
        parts[0] + sep + join_sep(parts.drop_first(), sep)
    }
}

/// Appending one more part to a join extends it by the separator and the part.
pub proof fn lemma_join_sep_push(parts: Seq<Seq<char>>, sep: Seq<char>, last: Seq<char>)
    ensures
        join_sep(parts.push(last), sep) == if parts.len() == 0 {
            last
        } else {
            join_sep(parts, sep) + sep + last
        },
    decreases parts.len(),
{
    if parts.len() == 0 {
        assert(parts.push(last) =~= seq![last]);
    } else {
        lemma_join_sep_push(parts.drop_first(), sep, last);
        assert(parts.push(last).drop_first() =~= parts.drop_first().push(last));
        if parts.len() == 1 {
            assert(join_sep(parts.push(last), sep) == parts[0] + sep + last);
        }
    }
}

/// Concatenates the given strings, writing `sep` between consecutive ones.
pub fn join_strings(parts: &Vec<String>, sep: &str) -> (r: String)
    ensures
        r@ == join_sep(parts@.map_values(|p: String| p@), sep@),
{
    let ghost views = parts@.map_values(|p: String| p@);
    let mut r = String::new();
    let mut i: usize = 0;
    while i < parts.len()
        invariant
            i <= parts.len(),
            views == parts@.map_values(|p: String| p@),
            r@ == join_sep(views.subrange(0, i as int), sep@),
        decreases parts.len() - i,
    {
        if i > 0 {
            r.append(sep);
        }
        r.append(parts[i].as_str());
        proof {
            let prefix = views.subrange(0, i as int);
            lemma_join_sep_push(prefix, sep@, views[i as int]);
            assert(views.subrange(0, i + 1) =~= prefix.push(views[i as int]));
        }
        i = i + 1;
    }
    proof {
        assert(views.subrange(0, parts.len() as int) =~= views);
    }
    r
}

/// Concatenates two strings.
pub fn concat2(a: &str, b: &str) -> (r: String)
    ensures
        r@ == a@ + b@,
{
    let mut r = String::new();
    r.append(a);
    r.append(b);
    r
}

/// Concatenates three strings.
pub fn concat3(a: &str, b: &str, c: &str) -> (r: String)
    ensures
        r@ == a@ + b@ + c@,
{
    let mut r = String::new();
    r.append(a);
    r.append(b);
    r.append(c);
    r
}

/// The separators this library splits strings on.
#[derive(Clone, Copy)]
pub enum Separator {
    Comma,
    Dash,
    Dot,
    Space,
}

/// Whether `c` separates parts under `k`.
pub open spec fn is_sep(k: Separator, c: char) -> bool {
    match k {
        Separator::Comma => c == ',',
        Separator::Dash => c == '-',
        Separator::Dot => c == '.',
        Separator::Space => is_space(c),
    }
}

pub fn sep_matches(k: Separator, c: char) -> (r: bool)
    ensures
        r == is_sep(k, c),
{
    match k {
        Separator::Comma => c == ',',
        Separator::Dash => c == '-',
        Separator::Dot => c == '.',
        Separator::Space => char_is_space(c),
    }
}

/// The parts of `s` between separator characters; a separator at either end
/// or two adjacent ones yield empty parts, as `str::split` does.
pub open spec fn split_sep(s: Seq<char>, k: Separator) -> Seq<Seq<char>>
    decreases s.len(),
{
    if s.len() == 0 {
        seq![Seq::empty()]
    } else {
        let rest = split_sep(s.drop_first(), k);
        if is_sep(k, s[0]) {
            seq![Seq::<char>::empty()] + rest
        } else {
            seq![seq![s[0]] + rest[0]] + rest.drop_first()
        }
    }
}

pub proof fn lemma_split_sep_nonempty(s: Seq<char>, k: Separator)
    ensures
        split_sep(s, k).len() >= 1,
    decreases s.len(),
{
    if s.len() > 0 {
        lemma_split_sep_nonempty(s.drop_first(), k);
    }
}

/// Splits `s` at every separator character, keeping empty parts.
pub fn split_string(s: &str, k: Separator) -> (r: Vec<String>)
    ensures
        r@.map_values(|p: String| p@) == split_sep(s@, k),
        r@.len() >= 1,
{
    let cs = str_chars(s);
    let mut out: Vec<String> = Vec::new();
    let mut cur: Vec<char> = Vec::new();
    let mut i: usize = 0;
    proof {
        assert(s@.skip(0) =~= s@);
        lemma_split_sep_nonempty(s@, k);
        assert(shift_first(Seq::<char>::empty(), split_sep(s@, k)) =~= split_sep(s@, k));
        assert(out@.map_values(|p: String| p@) + split_sep(s@, k) =~= split_sep(s@, k));
    }
    while i < cs.len()
        invariant
            i <= cs.len(),
            cs@ == s@,
            split_sep(s@, k) == out@.map_values(|p: String| p@) + shift_first(
                cur@,
                split_sep(s@.skip(i as int), k),
            ),
        decreases cs.len() - i,
    {
        proof {
            let tail = s@.skip(i as int);
            assert(tail.len() > 0);
            assert(tail[0] == s@[i as int]);
            assert(tail.drop_first() =~= s@.skip(i + 1));
            lemma_split_sep_nonempty(s@.skip(i + 1), k);
        }
        let c = cs[i];
        if sep_matches(k, c) {
            let ghost prev_out = out@;
            let ghost prev_cur = cur@;
            let done = string_from_chars(&cur);
            out.push(done);
            cur = Vec::new();
            proof {
                let rest = split_sep(s@.skip(i + 1), k);
                assert(shift_first(prev_cur, seq![Seq::<char>::empty()] + rest) =~= seq![prev_cur]
                    + rest);
                assert(shift_first(Seq::<char>::empty(), rest) =~= rest);
                assert(out@.map_values(|p: String| p@) =~= prev_out.map_values(|p: String| p@)
                    + seq![prev_cur]);
                assert(out@.map_values(|p: String| p@) + rest =~= prev_out.map_values(
                    |p: String| p@,
                ) + (seq![prev_cur] + rest));
            }
        } else {
            let ghost prev_cur = cur@;
            cur.push(c);
            proof {
                let rest = split_sep(s@.skip(i + 1), k);
                let whole = split_sep(s@.skip(i as int), k);
                assert(whole == seq![seq![s@[i as int]] + rest[0]] + rest.drop_first());
                assert(shift_first(prev_cur, whole)[0] =~= (prev_cur + seq![s@[i as int]])
                    + rest[0]);
                assert(shift_first(prev_cur, whole) =~= shift_first(
                    prev_cur + seq![s@[i as int]],
                    rest,
                ));
                assert(cur@ =~= prev_cur + seq![s@[i as int]]);
            }
        }
        i = i + 1;
    }
    proof {
        assert(s@.skip(i as int) =~= Seq::<char>::empty());
        assert(shift_first(cur@, split_sep(Seq::empty(), k)) =~= seq![cur@]);
    }
    let ghost prev_out = out@;
    let done = string_from_chars(&cur);
    out.push(done);
    proof {
        assert(out@.map_values(|p: String| p@) =~= prev_out.map_values(|p: String| p@)
            + seq![cur@]);
    }
    out
}

/// `parts` with `prefix` prepended to its first element.
pub open spec fn shift_first(prefix: Seq<char>, parts: Seq<Seq<char>>) -> Seq<Seq<char>> {
    seq![prefix + parts[0]] + parts.drop_first()
}

/// The given parts without the blank ones, in order.
pub open spec fn keep_nonblank(parts: Seq<Seq<char>>) -> Seq<Seq<char>>
    decreases parts.len(),
{
    if parts.len() == 0 {
        Seq::empty()
    } else if parts.last().len() > 0 {
        keep_nonblank(parts.drop_last()).push(parts.last())
    } else {
        keep_nonblank(parts.drop_last())
    }
}

/// Keeps the non-empty strings, in order.
pub fn nonblank_strings(parts: Vec<String>) -> (r: Vec<String>)
    ensures
        r@.map_values(|p: String| p@) == keep_nonblank(parts@.map_values(|p: String| p@)),
{
    let ghost part_views = parts@.map_values(|p: String| p@);
    let mut out: Vec<String> = Vec::new();
    let mut i: usize = 0;
    proof {
        assert(part_views.subrange(0, 0) =~= Seq::<Seq<char>>::empty());
    }
    while i < parts.len()
        invariant
            i <= parts@.len(),
            part_views == parts@.map_values(|p: String| p@),
            out@.map_values(|p: String| p@) == keep_nonblank(part_views.subrange(0, i as int)),
        decreases parts@.len() - i,
    {
        let ghost prev = out@;
        proof {
            let pre = part_views.subrange(0, i as int);
            let ext = part_views.subrange(0, i + 1);
            assert(ext.drop_last() =~= pre);
            assert(ext.last() == part_views[i as int]);
            assert(keep_nonblank(ext) == if part_views[i as int].len() > 0 {
                keep_nonblank(pre).push(part_views[i as int])
            } else {
                keep_nonblank(pre)
            });
        }
        if !parts[i].as_str().is_empty() {
            let t = parts[i].clone();
            out.push(t);
            proof {
                assert(out@.map_values(|p: String| p@) =~= prev.map_values(|p: String| p@).push(
                    part_views[i as int],
                ));
            }
        }
        i = i + 1;
    }
    proof {
        assert(part_views.subrange(0, parts@.len() as int) =~= part_views);
    }
    out
}

/// `s` without leading whitespace.
pub open spec fn trim_start(s: Seq<char>) -> Seq<char>
    decreases s.len(),
{
    if s.len() > 0 && is_space(s[0]) {
        trim_start(s.drop_first())
    } else {
        s
    }
}

/// `s` without trailing whitespace.
pub open spec fn trim_end(s: Seq<char>) -> Seq<char>
    decreases s.len(),
{
    if s.len() > 0 && is_space(s.last()) {
        trim_end(s.drop_last())
    } else {
        s
    }
}

/// `s` without leading and trailing whitespace, as `str::trim` yields it.
pub open spec fn spec_trim(s: Seq<char>) -> Seq<char> {
    trim_end(trim_start(s))
}

/// Removes leading and trailing whitespace.
pub fn trim_string(s: &str) -> (r: String)
    ensures
        r@ == spec_trim(s@),
{
    let cs = str_chars(s);
    let n = cs.len();
    let mut a: usize = 0;
    proof {
        assert(s@.skip(0) =~= s@);
    }
    while a < n && char_is_space(cs[a])
        invariant
            a <= n,
            cs@ == s@,
            n == cs@.len(),
            trim_start(s@) == trim_start(s@.skip(a as int)),
        decreases n - a,
    {
        proof {
            let tail = s@.skip(a as int);
            assert(tail[0] == s@[a as int]);
            assert(tail.drop_first() =~= s@.skip(a + 1));
        }
        a = a + 1;
    }
    proof {
        if a == n {
            assert(s@.skip(a as int) =~= Seq::<char>::empty());
        } else {
            assert(s@.skip(a as int)[0] == s@[a as int]);
        }
        assert(s@.skip(a as int) =~= s@.subrange(a as int, n as int));
    }
    let mut b: usize = n;
    while b > a && char_is_space(cs[b - 1])
        invariant
            a <= b <= n,
            cs@ == s@,
            n == cs@.len(),
            trim_start(s@) == s@.subrange(a as int, n as int),
            trim_end(s@.subrange(a as int, n as int)) == trim_end(s@.subrange(a as int, b as int)),
        decreases b,
    {
        proof {
            let part = s@.subrange(a as int, b as int);
            assert(part.last() == s@[b - 1]);
            assert(part.drop_last() =~= s@.subrange(a as int, b - 1));
        }
        b = b - 1;
    }
    proof {
        let part = s@.subrange(a as int, b as int);
        if b == a {
            assert(part =~= Seq::<char>::empty());
        } else {
            assert(part.last() == s@[b - 1]);
        }
    }
    let mut kept: Vec<char> = Vec::new();
    let mut i: usize = a;
    while i < b
        invariant
            a <= i <= b <= n,
            cs@ == s@,
            n == cs@.len(),
            kept@ == s@.subrange(a as int, i as int),
        decreases b - i,
    {
        kept.push(cs[i]);
        proof {
            assert(s@.subrange(a as int, i + 1) =~= s@.subrange(a as int, i as int).push(
                s@[i as int],
            ));
        }
        i = i + 1;
    }
    string_from_chars(&kept)
}

} // verus!
