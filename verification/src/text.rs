//! Verified character and string utilities: whitespace tokenization,
//! trimming, prefix/suffix/substring tests, and searching.

use vstd::prelude::*;

verus! {

/// ASCII whitespace, the characters the command tokenizer splits on.
pub open spec fn is_space(c: char) -> bool {
    c == ' ' || c == '\t' || c == '\n' || c == '\r'
}

/// Executable test for [`is_space`].
pub fn is_space_char(c: char) -> (r: bool)
    ensures
        r == is_space(c),
{
    c == ' ' || c == '\t' || c == '\n' || c == '\r'
}

/// The whitespace-separated tokens of `s` appended after the partial token
/// `cur` already read. No token is ever empty.
pub open spec fn tokens_from(s: Seq<char>, cur: Seq<char>) -> Seq<Seq<char>>
    decreases s.len(),
{
    if s.len() == 0 {
        if cur.len() == 0 {
            Seq::empty()
        } else {
            seq![cur]
        }
    } else if is_space(s[0]) {
        if cur.len() == 0 {
            tokens_from(s.drop_first(), Seq::empty())
        } else {
            seq![cur] + tokens_from(s.drop_first(), Seq::empty())
        }
    } else {
        tokens_from(s.drop_first(), cur.push(s[0]))
    }
}

/// The whitespace-separated tokens of `s`, as `str::split_whitespace`
/// yields them: maximal runs of non-whitespace characters, in order.
pub open spec fn spec_tokens(s: Seq<char>) -> Seq<Seq<char>> {
    tokens_from(s, Seq::empty())
}

/// An owned copy of the character range `[from, to)` of `s`.
pub fn substr_copy(s: &str, from: usize, to: usize) -> (r: String)
    requires
        from <= to <= s@.len(),
    ensures
        r@ == s@.subrange(from as int, to as int),
{
    s.substring_char(from, to).to_owned()
}

/// Split `s` into its whitespace-separated tokens.
pub fn tokenize(s: &str) -> (r: Vec<String>)
    ensures
        r.deep_view() == spec_tokens(s@),
{
    let n = s.unicode_len();
    let mut res: Vec<String> = Vec::new();
    let mut i: usize = 0;
    let mut start: usize = 0;
    proof {
        assert(s@.skip(0) =~= s@);
        assert(s@.subrange(0, 0) =~= Seq::<char>::empty());
        assert(res.deep_view() =~= Seq::<Seq<char>>::empty());
    }
    while i < n
        invariant
            n == s@.len(),
            start <= i <= n,
            spec_tokens(s@) == res.deep_view() + tokens_from(
                s@.skip(i as int),
                s@.subrange(start as int, i as int),
            ),
        decreases n - i,
    {
        let ghost rest = s@.skip(i as int);
        let ghost cur = s@.subrange(start as int, i as int);
        proof {
            assert(rest[0] == s@[i as int]);
            assert(rest.drop_first() =~= s@.skip(i as int + 1));
        }
        let c = s.get_char(i);
        if is_space_char(c) {
            if start < i {
                let t = substr_copy(s, start, i);
                let ghost old_dv = res.deep_view();
                res.push(t);
                proof {
                    assert(res.deep_view() =~= old_dv.push(cur));
                    assert(tokens_from(rest, cur) == seq![cur] + tokens_from(
                        rest.drop_first(),
                        Seq::empty(),
                    ));
                    assert(old_dv + (seq![cur] + tokens_from(
                        s@.skip(i as int + 1),
                        Seq::empty(),
                    )) =~= old_dv.push(cur) + tokens_from(s@.skip(i as int + 1), Seq::empty()));
                }
            }
            i = i + 1;
            start = i;
            proof {
                assert(s@.subrange(start as int, i as int) =~= Seq::<char>::empty());
            }
        } else {
            proof {
                assert(tokens_from(rest, cur) == tokens_from(
                    rest.drop_first(),
                    cur.push(s@[i as int]),
                ));
                assert(cur.push(s@[i as int]) =~= s@.subrange(start as int, i as int + 1));
            }
            i = i + 1;
        }
    }
    proof {
        assert(s@.skip(n as int) =~= Seq::<char>::empty());
    }
    if start < i {
        let t = substr_copy(s, start, i);
        let ghost old_dv = res.deep_view();
        let ghost cur = s@.subrange(start as int, n as int);
        res.push(t);
        proof {
            assert(res.deep_view() =~= old_dv.push(cur));
            assert(tokens_from(Seq::<char>::empty(), cur) == seq![cur]);
            assert(old_dv + seq![cur] =~= old_dv.push(cur));
        }
    } else {
        proof {
            let ghost cur = s@.subrange(start as int, n as int);
            assert(tokens_from(Seq::<char>::empty(), cur) =~= Seq::<Seq<char>>::empty());
            assert(res.deep_view() + Seq::<Seq<char>>::empty() =~= res.deep_view());
        }
    }
    res
}

/// Does `p` stand at the front of `s`?
pub open spec fn spec_starts_with(s: Seq<char>, p: Seq<char>) -> bool {
    p.len() <= s.len() && s.take(p.len() as int) == p
}

/// Executable prefix test.
pub fn starts_with_str(s: &str, p: &str) -> (r: bool)
    ensures
        r == spec_starts_with(s@, p@),
{
    let n = s.unicode_len();
    let m = p.unicode_len();
    if m > n {
        return false;
    }
    let mut i: usize = 0;
    while i < m
        invariant
            n == s@.len(),
            m == p@.len(),
            m <= n,
            i <= m,
            forall|k: int| 0 <= k < i ==> s@[k] == p@[k],
        decreases m - i,
    {
        if s.get_char(i) != p.get_char(i) {
            proof {
                assert(s@.take(m as int)[i as int] != p@[i as int]);
            }
            return false;
        }
        i = i + 1;
    }
    proof {
        assert(s@.take(m as int) =~= p@);
    }
    true
}

/// Does `p` stand at the end of `s`?
pub open spec fn spec_ends_with(s: Seq<char>, p: Seq<char>) -> bool {
    p.len() <= s.len() && s.skip(s.len() - p.len()) == p
}

/// Executable suffix test.
pub fn ends_with_str(s: &str, p: &str) -> (r: bool)
    ensures
        r == spec_ends_with(s@, p@),
{
    let n = s.unicode_len();
    let m = p.unicode_len();
    if m > n {
        return false;
    }
    let off = n - m;
    let mut i: usize = 0;
    while i < m
        invariant
            n == s@.len(),
            m == p@.len(),
            m <= n,
            off == n - m,
            i <= m,
            forall|k: int| 0 <= k < i ==> s@[off + k] == p@[k],
        decreases m - i,
    {
        if s.get_char(off + i) != p.get_char(i) {
            proof {
                assert(s@.skip(off as int)[i as int] != p@[i as int]);
            }
            return false;
        }
        i = i + 1;
    }
    proof {
        assert(s@.skip(off as int) =~= p@);
    }
    true
}

/// Do the `p@.len()` characters of `s` at `off` spell out `p`?
fn matches_at(s: &str, p: &str, off: usize) -> (r: bool)
    requires
        off + p@.len() <= s@.len(),
    ensures
        r == (s@.subrange(off as int, off + p@.len() as int) == p@),
{
    let n = s.unicode_len();
    let m = p.unicode_len();
    let mut i: usize = 0;
    while i < m
        invariant
            n == s@.len(),
            m == p@.len(),
            off + m <= n,
            i <= m,
            forall|k: int| 0 <= k < i ==> s@[off + k] == p@[k],
        decreases m - i,
    {
        if s.get_char(off + i) != p.get_char(i) {
            proof {
                assert(s@.subrange(off as int, off + m as int)[i as int] != p@[i as int]);
            }
            return false;
        }
        i = i + 1;
    }
    proof {
        assert(s@.subrange(off as int, off + m as int) =~= p@);
    }
    true
}

/// Character-for-character equality of two strings.
pub fn str_eq(a: &str, b: &str) -> (r: bool)
    ensures
        r == (a@ == b@),
{
    let n = a.unicode_len();
    let m = b.unicode_len();
    if n != m {
        return false;
    }
    let r = matches_at(a, b, 0);
    proof {
        assert(a@.subrange(0, 0 + b@.len() as int) =~= a@);
    }
    r
}

/// Does `p` occur anywhere in `s` as a contiguous run?
pub open spec fn spec_contains(s: Seq<char>, p: Seq<char>) -> bool {
    exists|off: int|
        0 <= off && off + p.len() <= s.len() && #[trigger] s.subrange(off, off + p.len() as int)
            == p
}

/// Executable substring test.
pub fn contains_str(s: &str, p: &str) -> (r: bool)
    ensures
        r == spec_contains(s@, p@),
{
    let n = s.unicode_len();
    let m = p.unicode_len();
    if m > n {
        return false;
    }
    if m == 0 {
        proof {
            assert(s@.subrange(0, 0 + p@.len() as int) =~= p@);
        }
        return true;
    }
    let mut off: usize = 0;
    while off <= n - m
        invariant
            n == s@.len(),
            m == p@.len(),
            1 <= m <= n,
            off <= n - m + 1,
            forall|o: int|
                0 <= o < off ==> #[trigger] s@.subrange(o, o + p@.len() as int) != p@,
        decreases n - off,
    {
        if matches_at(s, p, off) {
            return true;
        }
        off = off + 1;
    }
    proof {
        assert(forall|o: int|
            0 <= o && o + p@.len() <= s@.len() ==> #[trigger] s@.subrange(o, o + p@.len() as int)
                != p@);
    }
    false
}


/// `s` with leading whitespace removed.
pub open spec fn spec_trim_start(s: Seq<char>) -> Seq<char>
    decreases s.len(),
{
    if s.len() > 0 && is_space(s.first()) {
        spec_trim_start(s.drop_first())
    } else {
        s
    }
}

/// `s` with trailing whitespace removed.
pub open spec fn spec_trim_end(s: Seq<char>) -> Seq<char>
    decreases s.len(),
{
    if s.len() > 0 && is_space(s.last()) {
        spec_trim_end(s.drop_last())
    } else {
        s
    }
}

/// `s` with leading and trailing whitespace removed, as `str::trim`.
pub open spec fn spec_trim(s: Seq<char>) -> Seq<char> {
    spec_trim_end(spec_trim_start(s))
}

proof fn lemma_trim_start_skip(s: Seq<char>, a: int)
    requires
        0 <= a <= s.len(),
        forall|k: int| 0 <= k < a ==> is_space(s[k]),
        a == s.len() || !is_space(s[a]),
    ensures
        spec_trim_start(s) == s.skip(a),
    decreases a,
{
    if a == 0 {
        assert(s.skip(0) =~= s);
    } else {
        assert(is_space(s.first()));
        lemma_trim_start_skip(s.drop_first(), a - 1);
        assert(s.drop_first().skip(a - 1) =~= s.skip(a));
    }
}

proof fn lemma_trim_end_take(s: Seq<char>, b: int)
    requires
        -1 <= b < s.len(),
        forall|k: int| b < k < s.len() ==> is_space(s[k]),
        b == -1 || !is_space(s[b]),
    ensures
        spec_trim_end(s) == s.take(b + 1),
    decreases s.len(),
{
    if b == s.len() - 1 {
        assert(s.take(b + 1) =~= s);
    } else {
        assert(is_space(s.last()));
        lemma_trim_end_take(s.drop_last(), b);
        assert(s.drop_last().take(b + 1) =~= s.take(b + 1));
    }
}

/// `str::trim`, restricted to ASCII whitespace.
pub fn trim_spaces(s: &str) -> (r: String)
    ensures
        r@ == spec_trim(s@),
{
    let n = s.unicode_len();
    let mut a: usize = 0;
    while a < n && is_space_char(s.get_char(a))
        invariant
            n == s@.len(),
            a <= n,
            forall|k: int| 0 <= k < a ==> is_space(s@[k]),
        decreases n - a,
    {
        a = a + 1;
    }
    if a == n {
        proof {
            lemma_trim_start_skip(s@, a as int);
            assert(s@.skip(n as int) =~= Seq::<char>::empty());
            assert(spec_trim_end(Seq::<char>::empty()) == Seq::<char>::empty());
        }
        return String::new();
    }
    let mut b: usize = n;
    while b > a + 1 && is_space_char(s.get_char(b - 1))
        invariant
            n == s@.len(),
            a < b <= n,
            !is_space(s@[a as int]),
            forall|k: int| b <= k < n ==> is_space(s@[k]),
        decreases b,
    {
        b = b - 1;
    }
    proof {
        lemma_trim_start_skip(s@, a as int);
        lemma_trim_end_take(s@.skip(a as int), b - a - 1);
        assert(s@.skip(a as int).take(b - a) =~= s@.subrange(a as int, b as int));
    }
    substr_copy(s, a, b)
}

/// `s` with leading copies of `q` removed.
pub open spec fn spec_trim_char_start(s: Seq<char>, q: char) -> Seq<char>
    decreases s.len(),
{
    if s.len() > 0 && s.first() == q {
        spec_trim_char_start(s.drop_first(), q)
    } else {
        s
    }
}

/// `s` with trailing copies of `q` removed.
pub open spec fn spec_trim_char_end(s: Seq<char>, q: char) -> Seq<char>
    decreases s.len(),
{
    if s.len() > 0 && s.last() == q {
        spec_trim_char_end(s.drop_last(), q)
    } else {
        s
    }
}

/// `s` with leading and trailing copies of `q` removed, as
/// `str::trim_matches` with a single character pattern.
pub open spec fn spec_trim_char(s: Seq<char>, q: char) -> Seq<char> {
    spec_trim_char_end(spec_trim_char_start(s, q), q)
}

proof fn lemma_trim_char_start_skip(s: Seq<char>, q: char, a: int)
    requires
        0 <= a <= s.len(),
        forall|k: int| 0 <= k < a ==> s[k] == q,
        a == s.len() || s[a] != q,
    ensures
        spec_trim_char_start(s, q) == s.skip(a),
    decreases a,
{
    if a == 0 {
        assert(s.skip(0) =~= s);
    } else {
        lemma_trim_char_start_skip(s.drop_first(), q, a - 1);
        assert(s.drop_first().skip(a - 1) =~= s.skip(a));
    }
}

proof fn lemma_trim_char_end_take(s: Seq<char>, q: char, b: int)
    requires
        -1 <= b < s.len(),
        forall|k: int| b < k < s.len() ==> s[k] == q,
        b == -1 || s[b] != q,
    ensures
        spec_trim_char_end(s, q) == s.take(b + 1),
    decreases s.len(),
{
    if b == s.len() - 1 {
        assert(s.take(b + 1) =~= s);
    } else {
        lemma_trim_char_end_take(s.drop_last(), q, b);
        assert(s.drop_last().take(b + 1) =~= s.take(b + 1));
    }
}

/// Trim leading and trailing copies of `q` from `s`.
pub fn trim_char(s: &str, q: char) -> (r: String)
    ensures
        r@ == spec_trim_char(s@, q),
{
    let n = s.unicode_len();
    let mut a: usize = 0;
    while a < n && s.get_char(a) == q
        invariant
            n == s@.len(),
            a <= n,
            forall|k: int| 0 <= k < a ==> s@[k] == q,
        decreases n - a,
    {
        a = a + 1;
    }
    if a == n {
        proof {
            lemma_trim_char_start_skip(s@, q, a as int);
            assert(s@.skip(n as int) =~= Seq::<char>::empty());
            assert(spec_trim_char_end(Seq::<char>::empty(), q) == Seq::<char>::empty());
        }
        return String::new();
    }
    let mut b: usize = n;
    while b > a + 1 && s.get_char(b - 1) == q
        invariant
            n == s@.len(),
            a < b <= n,
            s@[a as int] != q,
            forall|k: int| b <= k < n ==> s@[k] == q,
        decreases b,
    {
        b = b - 1;
    }
    proof {
        lemma_trim_char_start_skip(s@, q, a as int);
        lemma_trim_char_end_take(s@.skip(a as int), q, b - a - 1);
        assert(s@.skip(a as int).take(b - a) =~= s@.subrange(a as int, b as int));
    }
    substr_copy(s, a, b)
}

/// The first occurrence of `c` in `s` at or after `from`.
pub fn find_char(s: &str, from: usize, c: char) -> (r: Option<usize>)
    requires
        from <= s@.len(),
    ensures
        match r {
            Some(i) => from <= i < s@.len() && s@[i as int] == c && forall|k: int|
                from <= k < i ==> s@[k] != c,
            None => forall|k: int| from <= k < s@.len() ==> s@[k] != c,
        },
{
    let n = s.unicode_len();
    let mut i: usize = from;
    while i < n
        invariant
            n == s@.len(),
            from <= i <= n,
            forall|k: int| from <= k < i ==> s@[k] != c,
        decreases n - i,
    {
        if s.get_char(i) == c {
            return Some(i);
        }
        i = i + 1;
    }
    None
}

} // verus!
