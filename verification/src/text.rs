//! Character-level text toolkit shared by every parser of the library.
//!
//! All parsers work on `Seq<char>` views: the spec functions here describe,
//! in a direct recursive form, what the usual `str` helpers compute
//! (`trim`, `split_whitespace`, `lines`, `split_once`, `strip_prefix`, ...),
//! and the executable functions are proved to compute exactly that.

use vstd::prelude::*;

verus! {

// ---------------------------------------------------------------- basics

/// Unicode `White_Space` — the set `char::is_whitespace` tests.
pub open spec fn is_ws(c: char) -> bool {
    ||| c == ' '
    ||| ('\t' as u32 <= c as u32 && c as u32 <= '\r' as u32)
    ||| c as u32 == 0x85
    ||| c as u32 == 0xa0
    ||| c as u32 == 0x1680
    ||| (0x2000 <= c as u32 && c as u32 <= 0x200a)
    ||| c as u32 == 0x2028
    ||| c as u32 == 0x2029
    ||| c as u32 == 0x202f
    ||| c as u32 == 0x205f
    ||| c as u32 == 0x3000
}

pub fn is_ws_char(c: char) -> (b: bool)
    ensures
        b == is_ws(c),
{
    let u = c as u32;
    u == 0x20 || (0x09 <= u && u <= 0x0d) || u == 0x85 || u == 0xa0 || u == 0x1680 || (0x2000
        <= u && u <= 0x200a) || u == 0x2028 || u == 0x2029 || u == 0x202f || u == 0x205f || u
        == 0x3000
}

pub open spec fn is_digit(c: char) -> bool {
    '0' as u32 <= c as u32 && c as u32 <= '9' as u32
}

pub open spec fn is_hex_digit(c: char) -> bool {
    ||| is_digit(c)
    ||| ('a' as u32 <= c as u32 && c as u32 <= 'f' as u32)
    ||| ('A' as u32 <= c as u32 && c as u32 <= 'F' as u32)
}

pub fn is_hex_digit_char(c: char) -> (b: bool)
    ensures
        b == is_hex_digit(c),
{
    let u = c as u32;
    (0x30 <= u && u <= 0x39) || (0x61 <= u && u <= 0x66) || (0x41 <= u && u <= 0x46)
}

/// Copies a `&str` into a vector of its characters.
pub fn chars_of(s: &str) -> (v: Vec<char>)
    ensures
        v@ == s@,
{
    let mut v: Vec<char> = Vec::new();
    for c in it: s.chars()
        invariant
            v@ == it.seq().take(it.index() as int),
    {
        v.push(c);
    }
    v
}

/// `String::push`.
#[verifier::external_body]
pub(crate) fn push_char(s: &mut String, c: char)
    ensures
        final(s)@ == old(s)@.push(c),
{
    s.push(c);
}

/// Appends characters to a `String`.
pub fn push_chars(s: &mut String, v: &[char])
    ensures
        final(s)@ == old(s)@ + v@,
{
    let mut i: usize = 0;
    while i < v.len()
        invariant
            i <= v.len(),
            s@ == old(s)@ + v@.take(i as int),
        decreases v.len() - i,
    {
        push_char(s, v[i]);
        assert(old(s)@ + v@.take(i as int) + seq![v@[i as int]] =~= old(s)@ + v@.take(i + 1));
        i += 1;
    }
    assert(v@.take(v.len() as int) =~= v@);
}

/// Builds a `String` from characters.
pub fn string_from(v: &[char]) -> (s: String)
    ensures
        s@ == v@,
{
    let mut s = String::new();
    push_chars(&mut s, v);
    s
}

/// Copies the characters `s[a..b]`.
pub fn copy_range(s: &[char], a: usize, b: usize) -> (r: Vec<char>)
    requires
        a <= b <= s.len(),
    ensures
        r@ == s@.subrange(a as int, b as int),
{
    let mut r: Vec<char> = Vec::new();
    let mut i = a;
    while i < b
        invariant
            a <= i <= b <= s.len(),
            r@ == s@.subrange(a as int, i as int),
        decreases b - i,
    {
        r.push(s[i]);
        assert(s@.subrange(a as int, i as int).push(s@[i as int]) =~= s@.subrange(
            a as int,
            i + 1,
        ));
        i += 1;
    }
    r
}

/// `String` copy of `s[a..b]`.
pub fn string_range(s: &[char], a: usize, b: usize) -> (r: String)
    requires
        a <= b <= s.len(),
    ensures
        r@ == s@.subrange(a as int, b as int),
{
    let v = copy_range(s, a, b);
    string_from(v.as_slice())
}

/// Character-wise equality of two sequences.
pub fn chars_eq(a: &[char], b: &[char]) -> (r: bool)
    ensures
        r == (a@ == b@),
{
    if a.len() != b.len() {
        return false;
    }
    let mut i: usize = 0;
    while i < a.len()
        invariant
            i <= a.len() == b.len(),
            forall|k: int| 0 <= k < i ==> a@[k] == b@[k],
        decreases a.len() - i,
    {
        if a[i] != b[i] {
            return false;
        }
        i += 1;
    }
    assert(a@ =~= b@);
    true
}

// ---------------------------------------------------------------- trim

pub open spec fn ws_lead(s: Seq<char>) -> nat
    decreases s.len(),
{
    if s.len() > 0 && is_ws(s[0]) {
        1 + ws_lead(s.drop_first())
    } else {
        0
    }
}

pub open spec fn ws_trail(s: Seq<char>) -> nat
    decreases s.len(),
{
    if s.len() > 0 && is_ws(s.last()) {
        1 + ws_trail(s.drop_last())
    } else {
        0
    }
}

/// `str::trim_start`.
pub open spec fn trim_start(s: Seq<char>) -> Seq<char> {
    s.skip(ws_lead(s) as int)
}

/// `str::trim_end`.
pub open spec fn trim_end(s: Seq<char>) -> Seq<char> {
    s.take(s.len() - ws_trail(s))
}

/// `str::trim`.
pub open spec fn trim(s: Seq<char>) -> Seq<char> {
    trim_end(trim_start(s))
}

pub proof fn lemma_ws_lead(s: Seq<char>, i: int)
    requires
        0 <= i <= s.len(),
        forall|k: int| 0 <= k < i ==> is_ws(#[trigger] s[k]),
        i == s.len() || !is_ws(s[i]),
    ensures
        ws_lead(s) == i,
    decreases i,
{
    if i > 0 {
        lemma_ws_lead(s.drop_first(), i - 1);
    }
}

pub proof fn lemma_ws_trail(s: Seq<char>, j: int)
    requires
        0 <= j <= s.len(),
        forall|k: int| j <= k < s.len() ==> is_ws(#[trigger] s[k]),
        j == 0 || !is_ws(s[j - 1]),
    ensures
        ws_trail(s) == s.len() - j,
    decreases s.len() - j,
{
    if j < s.len() {
        lemma_ws_trail(s.drop_last(), j);
    }
}

/// Index of the first non-whitespace character at or after `from`.
pub fn skip_ws(s: &[char], from: usize) -> (i: usize)
    requires
        from <= s.len(),
    ensures
        from <= i <= s.len(),
        forall|k: int| from <= k < i ==> is_ws(#[trigger] s@[k]),
        i == s.len() || !is_ws(s@[i as int]),
{
    let mut i = from;
    while i < s.len() && is_ws_char(s[i])
        invariant
            from <= i <= s.len(),
            forall|k: int| from <= k < i ==> is_ws(#[trigger] s@[k]),
        decreases s.len() - i,
    {
        i += 1;
    }
    i
}

/// Trim bounds: `s[a..b]` is `trim(s)`.
pub fn trim_bounds(s: &[char]) -> (r: (usize, usize))
    ensures
        r.0 <= r.1 <= s.len(),
        s@.subrange(r.0 as int, r.1 as int) == trim(s@),
        r.1 as int == r.0 + trim(s@).len(),
{
    let a = skip_ws(s, 0);
    proof {
        lemma_ws_lead(s@, a as int);
    }
    let mut b = s.len();
    while b > a && is_ws_char(s[b - 1])
        invariant
            a <= b <= s.len(),
            forall|k: int| b <= k < s.len() ==> is_ws(#[trigger] s@[k]),
        decreases b,
    {
        b -= 1;
    }
    proof {
        let t = s@.skip(a as int);
        assert forall|k: int| (b - a) <= k < t.len() implies is_ws(#[trigger] t[k]) by {
            assert(t[k] == s@[k + a]);
        }
        if b > a {
            assert(t[b - a - 1] == s@[b - 1]);
        }
        lemma_ws_trail(t, b - a);
        assert(t.take(b - a) =~= s@.subrange(a as int, b as int));
    }
    (a, b)
}

/// `str::trim`, as a fresh vector.
pub fn trim_chars(s: &[char]) -> (r: Vec<char>)
    ensures
        r@ == trim(s@),
{
    let (a, b) = trim_bounds(s);
    copy_range(s, a, b)
}

/// `str::trim`, as a `String`.
pub fn trim_string(s: &[char]) -> (r: String)
    ensures
        r@ == trim(s@),
{
    let (a, b) = trim_bounds(s);
    string_range(s, a, b)
}


// ---------------------------------------------------------------- single characters

/// Index of the first `c` in `s`, or -1.
pub open spec fn index_of(s: Seq<char>, c: char) -> int
    decreases s.len(),
{
    if s.len() == 0 {
        -1
    } else if s[0] == c {
        0
    } else {
        let r = index_of(s.drop_first(), c);
        if r < 0 {
            -1
        } else {
            r + 1
        }
    }
}

pub proof fn lemma_index_of(s: Seq<char>, c: char, i: int)
    requires
        0 <= i <= s.len(),
        forall|k: int| 0 <= k < i ==> #[trigger] s[k] != c,
    ensures
        i < s.len() && s[i] == c ==> index_of(s, c) == i,
        i == s.len() ==> index_of(s, c) == -1,
    decreases i,
{
    if i > 0 {
        lemma_index_of(s.drop_first(), c, i - 1);
    }
}

pub proof fn lemma_index_of_bounds(s: Seq<char>, c: char)
    ensures
        -1 <= index_of(s, c) < s.len(),
        index_of(s, c) >= 0 ==> s[index_of(s, c)] == c,
        forall|k: int| 0 <= k < index_of(s, c) ==> s[k] != c,
        index_of(s, c) < 0 ==> forall|k: int| 0 <= k < s.len() ==> s[k] != c,
    decreases s.len(),
{
    if s.len() > 0 && s[0] != c {
        lemma_index_of_bounds(s.drop_first(), c);
        assert forall|k: int| 0 <= k < index_of(s, c) implies s[k] != c by {
            if k > 0 {
                assert(s[k] == s.drop_first()[k - 1]);
            }
        }
        if index_of(s, c) < 0 {
            assert forall|k: int| 0 <= k < s.len() implies s[k] != c by {
                if k > 0 {
                    assert(s[k] == s.drop_first()[k - 1]);
                }
            }
        }
    }
}

/// First index of `c` in `s[from..]`, or `s.len()` when absent.
pub fn find_char(s: &[char], from: usize, c: char) -> (i: usize)
    requires
        from <= s.len(),
    ensures
        from <= i <= s.len(),
        forall|k: int| from <= k < i ==> #[trigger] s@[k] != c,
        i < s.len() ==> s@[i as int] == c,
        index_of(s@.skip(from as int), c) == (if i < s.len() { i - from } else { -1 }),
{
    let mut i = from;
    while i < s.len() && s[i] != c
        invariant
            from <= i <= s.len(),
            forall|k: int| from <= k < i ==> #[trigger] s@[k] != c,
        decreases s.len() - i,
    {
        i += 1;
    }
    proof {
        let t = s@.skip(from as int);
        assert forall|k: int| 0 <= k < i - from implies #[trigger] t[k] != c by {
            assert(t[k] == s@[k + from]);
        }
        lemma_index_of(t, c, i - from);
    }
    i
}

/// `str::split_once(c)`.
pub open spec fn split_once(s: Seq<char>, c: char) -> Option<(Seq<char>, Seq<char>)> {
    let i = index_of(s, c);
    if i < 0 {
        None
    } else {
        Some((s.take(i), s.skip(i + 1)))
    }
}

/// Removes every trailing `c` (`str::trim_end_matches(c)`).
pub open spec fn trim_end_char(s: Seq<char>, c: char) -> Seq<char>
    decreases s.len(),
{
    if s.len() > 0 && s.last() == c {
        trim_end_char(s.drop_last(), c)
    } else {
        s
    }
}

/// Removes every leading `c` (`str::trim_start_matches(c)`).
pub open spec fn trim_start_char(s: Seq<char>, c: char) -> Seq<char>
    decreases s.len(),
{
    if s.len() > 0 && s[0] == c {
        trim_start_char(s.drop_first(), c)
    } else {
        s
    }
}

/// `str::trim_matches(c)`.
pub open spec fn trim_char(s: Seq<char>, c: char) -> Seq<char> {
    trim_end_char(trim_start_char(s, c), c)
}

pub proof fn lemma_trim_start_char(s: Seq<char>, c: char, i: int)
    requires
        0 <= i <= s.len(),
        forall|k: int| 0 <= k < i ==> #[trigger] s[k] == c,
        i == s.len() || s[i] != c,
    ensures
        trim_start_char(s, c) == s.skip(i),
    decreases i,
{
    if i > 0 {
        lemma_trim_start_char(s.drop_first(), c, i - 1);
        assert(s.drop_first().skip(i - 1) =~= s.skip(i));
    } else {
        assert(s.skip(0) =~= s);
    }
}

pub proof fn lemma_trim_end_char(s: Seq<char>, c: char, j: int)
    requires
        0 <= j <= s.len(),
        forall|k: int| j <= k < s.len() ==> #[trigger] s[k] == c,
        j == 0 || s[j - 1] != c,
    ensures
        trim_end_char(s, c) == s.take(j),
    decreases s.len() - j,
{
    if j < s.len() {
        lemma_trim_end_char(s.drop_last(), c, j);
        assert(s.drop_last().take(j) =~= s.take(j));
    } else {
        assert(s.take(j) =~= s);
    }
}

/// Bounds of `trim_char(s[a..b], c)` inside `s`.
pub fn trim_char_bounds(s: &[char], a: usize, b: usize, c: char) -> (r: (usize, usize))
    requires
        a <= b <= s.len(),
    ensures
        a <= r.0 <= r.1 <= b,
        s@.subrange(r.0 as int, r.1 as int) == trim_char(s@.subrange(a as int, b as int), c),
{
    let ghost t = s@.subrange(a as int, b as int);
    let mut i = a;
    while i < b && s[i] == c
        invariant
            a <= i <= b <= s.len(),
            forall|k: int| a <= k < i ==> #[trigger] s@[k] == c,
        decreases b - i,
    {
        i += 1;
    }
    proof {
        assert forall|k: int| 0 <= k < i - a implies #[trigger] t[k] == c by {
            assert(t[k] == s@[k + a]);
        }
        lemma_trim_start_char(t, c, i - a);
    }
    let mut j = b;
    while j > i && s[j - 1] == c
        invariant
            a <= i <= j <= b <= s.len(),
            forall|k: int| j <= k < b ==> #[trigger] s@[k] == c,
        decreases j,
    {
        j -= 1;
    }
    proof {
        let u = t.skip(i - a);
        assert forall|k: int| j - i <= k < u.len() implies #[trigger] u[k] == c by {
            assert(u[k] == s@[k + i]);
        }
        if j > i {
            assert(u[j - i - 1] == s@[j - 1]);
        }
        lemma_trim_end_char(u, c, j - i);
        assert(u.take(j - i) =~= s@.subrange(i as int, j as int));
    }
    (i, j)
}

// ---------------------------------------------------------------- prefixes

pub open spec fn starts_with(s: Seq<char>, p: Seq<char>) -> bool {
    p.len() <= s.len() && s.take(p.len() as int) == p
}

/// `str::strip_prefix`.
pub open spec fn strip_prefix(s: Seq<char>, p: Seq<char>) -> Option<Seq<char>> {
    if starts_with(s, p) {
        Some(s.skip(p.len() as int))
    } else {
        None
    }
}

/// Does `s[at..]` start with `p`?
pub fn starts_with_at(s: &[char], at: usize, p: &[char]) -> (r: bool)
    requires
        at <= s.len(),
    ensures
        r == starts_with(s@.skip(at as int), p@),
{
    if p.len() > s.len() - at {
        return false;
    }
    let mut i: usize = 0;
    while i < p.len()
        invariant
            i <= p.len() <= s.len() - at,
            forall|k: int| 0 <= k < i ==> s@[at + k] == p@[k],
        decreases p.len() - i,
    {
        if s[at + i] != p[i] {
            assert(s@.skip(at as int).take(p.len() as int)[i as int] == s@[at + i]);
            return false;
        }
        i += 1;
    }
    assert(s@.skip(at as int).take(p.len() as int) =~= p@);
    true
}

/// `str::contains` for a non-empty pattern.
pub open spec fn contains_seq(s: Seq<char>, p: Seq<char>) -> bool {
    exists|i: int| 0 <= i <= s.len() - p.len() && #[trigger] s.subrange(i, i + p.len()) == p
}

/// First index at which `p` occurs in `s`, or -1 (`str::find`).
pub open spec fn find_seq(s: Seq<char>, p: Seq<char>) -> int
    decreases s.len(),
{
    if starts_with(s, p) {
        0
    } else if s.len() == 0 {
        -1
    } else {
        let r = find_seq(s.drop_first(), p);
        if r < 0 {
            -1
        } else {
            r + 1
        }
    }
}

pub proof fn lemma_find_seq(s: Seq<char>, p: Seq<char>, i: int)
    requires
        0 <= i <= s.len(),
        forall|k: int| 0 <= k < i ==> !starts_with(#[trigger] s.skip(k), p),
    ensures
        starts_with(s.skip(i), p) ==> find_seq(s, p) == i,
        i == s.len() && !starts_with(s.skip(i), p) ==> find_seq(s, p) == -1,
    decreases i,
{
    if i > 0 {
        assert(!starts_with(s.skip(0), p));
        assert(s.skip(0) =~= s);
        assert forall|k: int| 0 <= k < i - 1 implies !starts_with(
            #[trigger] s.drop_first().skip(k),
            p,
        ) by {
            assert(s.drop_first().skip(k) =~= s.skip(k + 1));
        }
        assert(s.drop_first().skip(i - 1) =~= s.skip(i));
        lemma_find_seq(s.drop_first(), p, i - 1);
    } else {
        assert(s.skip(0) =~= s);
    }
}

pub proof fn lemma_contains_find(s: Seq<char>, p: Seq<char>)
    ensures
        contains_seq(s, p) <==> find_seq(s, p) >= 0,
        find_seq(s, p) >= 0 ==> find_seq(s, p) + p.len() <= s.len() && s.subrange(
            find_seq(s, p),
            find_seq(s, p) + p.len(),
        ) == p,
    decreases s.len(),
{
    if starts_with(s, p) {
        assert(s.subrange(0, p.len() as int) =~= s.take(p.len() as int));
        assert(contains_seq(s, p)) by {
            assert(s.subrange(0, 0 + p.len() as int) == p);
        }
    } else if s.len() == 0 {
        if contains_seq(s, p) {
            let i = choose|i: int| 0 <= i <= s.len() - p.len() && #[trigger] s.subrange(i, i + p.len()) == p;
            assert(s.take(p.len() as int) =~= s.subrange(i, i + p.len()));
            assert(false);
        }
    } else {
        let t = s.drop_first();
        lemma_contains_find(t, p);
        if contains_seq(s, p) {
            let i = choose|i: int| 0 <= i <= s.len() - p.len() && #[trigger] s.subrange(i, i + p.len()) == p;
            if i == 0 {
                assert(s.take(p.len() as int) =~= s.subrange(i, i + p.len()));
                assert(false);
            } else {
                assert(t.subrange(i - 1, i - 1 + p.len()) =~= s.subrange(i, i + p.len()));
                assert(contains_seq(t, p));
            }
        }
        if find_seq(t, p) >= 0 {
            let j = find_seq(t, p);
            assert(t.subrange(j, j + p.len()) =~= s.subrange(j + 1, j + 1 + p.len()));
            assert(s.subrange(j + 1, (j + 1) + p.len()) == p);
            assert(contains_seq(s, p));
        }
    }
}

/// Non-overlapping left-to-right replacement of a non-empty pattern.
pub open spec fn replace_all(s: Seq<char>, from: Seq<char>, to: Seq<char>) -> Seq<char>
    decreases s.len(),
{
    let i = find_seq(s, from);
    if from.len() == 0 || i < 0 {
        s
    } else {
        proof {
            lemma_contains_find(s, from);
        }
        s.take(i) + to + replace_all(s.skip(i + from.len()), from, to)
    }
}

/// First index `>= from` at which `p` occurs in `s`.
pub fn find_at(s: &[char], from: usize, p: &[char]) -> (r: Option<usize>)
    requires
        from <= s.len(),
    ensures
        r is None ==> find_seq(s@.skip(from as int), p@) == -1,
        r matches Some(k) ==> from <= k <= s.len() && find_seq(s@.skip(from as int), p@) == k
            - from,
{
    let mut i = from;
    let ghost t = s@.skip(from as int);
    loop
        invariant
            from <= i <= s.len(),
            t == s@.skip(from as int),
            forall|k: int| 0 <= k < i - from ==> !starts_with(#[trigger] t.skip(k), p@),
        decreases s.len() - i,
    {
        assert(t.skip(i - from) =~= s@.skip(i as int));
        if starts_with_at(s, i, p) {
            proof {
                lemma_find_seq(t, p@, i - from);
            }
            return Some(i);
        }
        if i == s.len() {
            proof {
                lemma_find_seq(t, p@, t.len() as int);
            }
            return None;
        }
        i += 1;
    }
}

/// `str::contains` for a pattern.
pub fn contains_chars(s: &[char], p: &[char]) -> (r: bool)
    ensures
        r == contains_seq(s@, p@),
{
    let i = find_at(s, 0, p);
    proof {
        assert(s@.skip(0) =~= s@);
        lemma_contains_find(s@, p@);
    }
    i.is_some()
}

// ---------------------------------------------------------------- lines

/// Drops one trailing `'\r'`.
pub open spec fn strip_cr(l: Seq<char>) -> Seq<char> {
    if l.len() > 0 && l.last() == '\r' {
        l.drop_last()
    } else {
        l
    }
}

/// `str::lines`: pieces between `'\n'`, a `"\r\n"` ending counting as one
/// line ending, and no empty piece after a final `'\n'`.
pub open spec fn lines(s: Seq<char>) -> Seq<Seq<char>>
    decreases s.len(),
{
    if s.len() == 0 {
        seq![]
    } else {
        let i = index_of(s, '\n');
        if i < 0 {
            seq![s]
        } else {
            proof {
                lemma_index_of_bounds(s, '\n');
            }
            seq![strip_cr(s.take(i))] + lines(s.skip(i + 1))
        }
    }
}

/// `str::lines`, each line as a vector of characters.
pub fn lines_of(s: &[char]) -> (r: Vec<Vec<char>>)
    ensures
        r@.len() == lines(s@).len(),
        forall|k: int| 0 <= k < r@.len() ==> #[trigger] r@[k]@ == lines(s@)[k],
{
    let mut out: Vec<Vec<char>> = Vec::new();
    let mut start: usize = 0;
    proof {
        assert(s@.skip(0) =~= s@);
        assert(out@.map_values(|l: Vec<char>| l@) =~= Seq::<Seq<char>>::empty());
        assert(lines(s@) =~= out@.map_values(|l: Vec<char>| l@) + lines(s@.skip(0)));
    }
    while start < s.len()
        invariant
            start <= s.len(),
            lines(s@) == out@.map_values(|l: Vec<char>| l@) + lines(s@.skip(start as int)),
        decreases s.len() - start,
    {
        let ghost t = s@.skip(start as int);
        let nl = find_char(s, start, '\n');
        let mut line = copy_range(s, start, nl);
        proof {
            lemma_index_of_bounds(t, '\n');
            assert(t.take(nl - start) =~= s@.subrange(start as int, nl as int));
        }
        let ghost before = out@;
        if nl == s.len() {
            proof {
                assert(t.take(nl - start) =~= t);
                assert(lines(t) == seq![t]);
                assert(s@.skip(s.len() as int) =~= Seq::<char>::empty());
            }
            out.push(line);
            proof {
                assert(out@.map_values(|l: Vec<char>| l@) =~= before.map_values(|l: Vec<char>| l@).push(t));
                assert(lines(s@) =~= out@.map_values(|l: Vec<char>| l@) + lines(s@.skip(s.len() as int)));
            }
            start = s.len();
        } else {
            if line.len() > 0 && line[line.len() - 1] == '\r' {
                line.pop();
            }
            proof {
                assert(t.skip(nl - start + 1) =~= s@.skip(nl + 1));
                assert(lines(t) == seq![strip_cr(t.take(nl - start))] + lines(t.skip(nl - start + 1)));
            }
            out.push(line);
            proof {
                assert(out@.map_values(|l: Vec<char>| l@) =~= before.map_values(|l: Vec<char>| l@).push(
                    strip_cr(t.take(nl - start)),
                ));
                assert(lines(s@) =~= out@.map_values(|l: Vec<char>| l@) + lines(s@.skip(nl + 1)));
            }
            start = nl + 1;
        }
    }
    proof {
        assert(s@.skip(start as int) =~= Seq::<char>::empty());
        assert(out@.map_values(|l: Vec<char>| l@) + lines(s@.skip(start as int)) =~= out@.map_values(
            |l: Vec<char>| l@,
        ));
    }
    out
}


// ---------------------------------------------------------------- words

pub open spec fn nonws_lead(s: Seq<char>) -> nat
    decreases s.len(),
{
    if s.len() > 0 && !is_ws(s[0]) {
        1 + nonws_lead(s.drop_first())
    } else {
        0
    }
}

pub proof fn lemma_ws_lead_bounds(s: Seq<char>)
    ensures
        ws_lead(s) <= s.len(),
        ws_lead(s) < s.len() ==> !is_ws(s[ws_lead(s) as int]),
        forall|k: int| 0 <= k < ws_lead(s) ==> is_ws(#[trigger] s[k]),
    decreases s.len(),
{
    if s.len() > 0 && is_ws(s[0]) {
        lemma_ws_lead_bounds(s.drop_first());
        assert forall|k: int| 0 <= k < ws_lead(s) implies is_ws(#[trigger] s[k]) by {
            if k > 0 {
                assert(s[k] == s.drop_first()[k - 1]);
            }
        }
    }
}

pub proof fn lemma_nonws_lead_bounds(s: Seq<char>)
    ensures
        nonws_lead(s) <= s.len(),
        s.len() > 0 && !is_ws(s[0]) ==> nonws_lead(s) >= 1,
    decreases s.len(),
{
    if s.len() > 0 && !is_ws(s[0]) {
        lemma_nonws_lead_bounds(s.drop_first());
    }
}

pub proof fn lemma_nonws_lead(s: Seq<char>, i: int)
    requires
        0 <= i <= s.len(),
        forall|k: int| 0 <= k < i ==> !is_ws(#[trigger] s[k]),
        i == s.len() || is_ws(s[i]),
    ensures
        nonws_lead(s) == i,
    decreases i,
{
    if i > 0 {
        lemma_nonws_lead(s.drop_first(), i - 1);
    }
}

/// `str::split_whitespace`.
pub open spec fn words(s: Seq<char>) -> Seq<Seq<char>>
    decreases s.len(),
{
    proof {
        lemma_ws_lead_bounds(s);
    }
    let t = s.skip(ws_lead(s) as int);
    if t.len() == 0 {
        seq![]
    } else {
        proof {
            lemma_nonws_lead_bounds(t);
        }
        let w = nonws_lead(t);
        seq![t.take(w as int)] + words(t.skip(w as int))
    }
}

/// End of the non-whitespace run starting at `from`.
pub fn skip_nonws(s: &[char], from: usize) -> (i: usize)
    requires
        from <= s.len(),
    ensures
        from <= i <= s.len(),
        forall|k: int| from <= k < i ==> !is_ws(#[trigger] s@[k]),
        i == s.len() || is_ws(s@[i as int]),
{
    let mut i = from;
    while i < s.len() && !is_ws_char(s[i])
        invariant
            from <= i <= s.len(),
            forall|k: int| from <= k < i ==> !is_ws(#[trigger] s@[k]),
        decreases s.len() - i,
    {
        i += 1;
    }
    i
}

/// One step of `split_whitespace` from position `i`: either no word is
/// left (`None`), or the next word is `s[a..b]` and the rest starts at `b`.
pub fn next_word(s: &[char], i: usize) -> (r: Option<(usize, usize)>)
    requires
        i <= s.len(),
    ensures
        r is None ==> words(s@.skip(i as int)) == Seq::<Seq<char>>::empty(),
        r matches Some((a, b)) ==> i <= a < b <= s.len() && words(s@.skip(i as int)) == seq![
            s@.subrange(a as int, b as int),
        ] + words(s@.skip(b as int)),
{
    let a = skip_ws(s, i);
    let ghost u = s@.skip(i as int);
    proof {
        assert forall|k: int| 0 <= k < a - i implies is_ws(#[trigger] u[k]) by {
            assert(u[k] == s@[k + i]);
        }
        lemma_ws_lead(u, a - i);
        assert(u.skip(a - i) =~= s@.skip(a as int));
    }
    if a == s.len() {
        return None;
    }
    let b = skip_nonws(s, a);
    proof {
        let t = s@.skip(a as int);
        assert forall|k: int| 0 <= k < b - a implies !is_ws(#[trigger] t[k]) by {
            assert(t[k] == s@[k + a]);
        }
        lemma_nonws_lead(t, b - a);
        assert(t.take(b - a) =~= s@.subrange(a as int, b as int));
        assert(t.skip(b - a) =~= s@.skip(b as int));
    }
    Some((a, b))
}

/// `str::split_whitespace`, collected.
pub fn words_of(s: &[char]) -> (r: Vec<Vec<char>>)
    ensures
        r@.len() == words(s@).len(),
        forall|k: int| 0 <= k < r@.len() ==> #[trigger] r@[k]@ == words(s@)[k],
{
    let mut out: Vec<Vec<char>> = Vec::new();
    let mut i: usize = 0;
    proof {
        assert(s@.skip(0) =~= s@);
        assert(words(s@) =~= out@.map_values(|l: Vec<char>| l@) + words(s@.skip(0)));
    }
    loop
        invariant
            i <= s.len(),
            words(s@) == out@.map_values(|l: Vec<char>| l@) + words(s@.skip(i as int)),
        ensures
            words(s@) == out@.map_values(|l: Vec<char>| l@),
        decreases s.len() - i,
    {
        match next_word(s, i) {
            None => {
                assert(words(s@) =~= out@.map_values(|l: Vec<char>| l@));
                break ;
            },
            Some((a, b)) => {
                let w = copy_range(s, a, b);
                let ghost before = out@;
                out.push(w);
                assert(out@.map_values(|l: Vec<char>| l@) =~= before.map_values(|l: Vec<char>| l@).push(
                    s@.subrange(a as int, b as int),
                ));
                assert(words(s@) =~= out@.map_values(|l: Vec<char>| l@) + words(s@.skip(b as int)));
                i = b;
            },
        }
    }
    out
}

// ---------------------------------------------------------------- split on a character

/// `str::split(c)`: always at least one piece.
pub open spec fn split_char(s: Seq<char>, c: char) -> Seq<Seq<char>>
    decreases s.len(),
{
    let i = index_of(s, c);
    if i < 0 {
        seq![s]
    } else {
        proof {
            lemma_index_of_bounds(s, c);
        }
        seq![s.take(i)] + split_char(s.skip(i + 1), c)
    }
}

/// `str::split(c)`, collected.
pub fn split_char_of(s: &[char], c: char) -> (r: Vec<Vec<char>>)
    ensures
        r@.len() == split_char(s@, c).len(),
        forall|k: int| 0 <= k < r@.len() ==> #[trigger] r@[k]@ == split_char(s@, c)[k],
{
    let mut out: Vec<Vec<char>> = Vec::new();
    let mut start: usize = 0;
    proof {
        assert(s@.skip(0) =~= s@);
        assert(split_char(s@, c) =~= out@.map_values(|l: Vec<char>| l@) + split_char(s@.skip(0), c));
    }
    loop
        invariant_except_break
            start <= s.len(),
            split_char(s@, c) == out@.map_values(|l: Vec<char>| l@) + split_char(
                s@.skip(start as int),
                c,
            ),
        ensures
            split_char(s@, c) == out@.map_values(|l: Vec<char>| l@),
        decreases s.len() - start,
    {
        let ghost t = s@.skip(start as int);
        let i = find_char(s, start, c);
        let piece = copy_range(s, start, i);
        let ghost before = out@;
        out.push(piece);
        proof {
            lemma_index_of_bounds(t, c);
            assert(t.take(i - start) =~= s@.subrange(start as int, i as int));
        }
        if i == s.len() {
            proof {
                assert(t.take(i - start) =~= t);
                assert(out@.map_values(|l: Vec<char>| l@) =~= before.map_values(|l: Vec<char>| l@).push(t));
                assert(split_char(s@, c) =~= out@.map_values(|l: Vec<char>| l@));
            }
            break ;
        }
        proof {
            assert(t.skip(i - start + 1) =~= s@.skip(i + 1));
            assert(out@.map_values(|l: Vec<char>| l@) =~= before.map_values(|l: Vec<char>| l@).push(
                t.take(i - start),
            ));
            assert(split_char(s@, c) =~= out@.map_values(|l: Vec<char>| l@) + split_char(
                s@.skip(i + 1),
                c,
            ));
        }
        start = i + 1;
    }
    out
}


// ---------------------------------------------------------------- decimal numbers

/// The ASCII digit for `d < 10`.
pub open spec fn digit_char(d: nat) -> char {
    if d == 0 {
        '0'
    } else if d == 1 {
        '1'
    } else if d == 2 {
        '2'
    } else if d == 3 {
        '3'
    } else if d == 4 {
        '4'
    } else if d == 5 {
        '5'
    } else if d == 6 {
        '6'
    } else if d == 7 {
        '7'
    } else if d == 8 {
        '8'
    } else {
        '9'
    }
}

/// Decimal rendering of a natural number (`format!("{}", n)`).
pub open spec fn dec(n: nat) -> Seq<char>
    decreases n,
{
    if n < 10 {
        seq![digit_char(n)]
    } else {
        dec(n / 10).push(digit_char(n % 10))
    }
}

/// Decimal rendering zero-padded to at least three digits (`{:03}`).
pub open spec fn dec3(n: nat) -> Seq<char> {
    if n < 10 {
        seq!['0', '0'] + dec(n)
    } else if n < 100 {
        seq!['0'] + dec(n)
    } else {
        dec(n)
    }
}

/// Decimal rendering of a signed number (`format!("{}", n)`).
pub open spec fn dec_int(n: int) -> Seq<char> {
    if n < 0 {
        seq!['-'] + dec((-n) as nat)
    } else {
        dec(n as nat)
    }
}

fn digit(d: u64) -> (c: char)
    requires
        d < 10,
    ensures
        c == digit_char(d as nat),
{
    if d == 0 {
        '0'
    } else if d == 1 {
        '1'
    } else if d == 2 {
        '2'
    } else if d == 3 {
        '3'
    } else if d == 4 {
        '4'
    } else if d == 5 {
        '5'
    } else if d == 6 {
        '6'
    } else if d == 7 {
        '7'
    } else if d == 8 {
        '8'
    } else {
        '9'
    }
}

/// Appends the decimal rendering of `n`.
pub fn push_dec(s: &mut String, n: u64)
    ensures
        final(s)@ == old(s)@ + dec(n as nat),
    decreases n,
{
    if n >= 10 {
        push_dec(s, n / 10);
    }
    push_char(s, digit(n % 10));
    proof {
        if n >= 10 {
            assert(old(s)@ + dec((n / 10) as nat) + seq![digit_char((n % 10) as nat)] =~= old(s)@
                + dec(n as nat));
        } else {
            assert(old(s)@ + seq![digit_char((n % 10) as nat)] =~= old(s)@ + dec(n as nat));
        }
    }
}

/// Appends `n` zero-padded to three digits.
pub fn push_dec3(s: &mut String, n: u32)
    ensures
        final(s)@ == old(s)@ + dec3(n as nat),
{
    if n < 10 {
        push_char(s, '0');
        push_char(s, '0');
    } else if n < 100 {
        push_char(s, '0');
    }
    push_dec(s, n as u64);
    proof {
        assert(final(s)@ =~= old(s)@ + dec3(n as nat));
    }
}

/// Appends the decimal rendering of a signed 32-bit number.
pub fn push_dec_i32(s: &mut String, n: i32)
    ensures
        final(s)@ == old(s)@ + dec_int(n as int),
{
    if n < 0 {
        push_char(s, '-');
        let m: i64 = -(n as i64);
        push_dec(s, m as u64);
        assert(final(s)@ =~= old(s)@ + dec_int(n as int));
    } else {
        push_dec(s, n as u64);
    }
}

pub open spec fn digit_value(c: char) -> nat {
    (c as u32 - '0' as u32) as nat
}

pub open spec fn all_digits(s: Seq<char>) -> bool {
    forall|k: int| 0 <= k < s.len() ==> is_digit(#[trigger] s[k])
}

/// Value of a run of decimal digits.
pub open spec fn digits_value(s: Seq<char>) -> nat
    decreases s.len(),
{
    if s.len() == 0 {
        0
    } else {
        digits_value(s.drop_last()) * 10 + digit_value(s.last())
    }
}

/// `str::parse::<u64>()`: an optional `+` then one or more ASCII digits,
/// the value fitting in 64 bits.
pub open spec fn parse_u64(s: Seq<char>) -> Option<u64> {
    let d = if s.len() > 0 && s[0] == '+' {
        s.drop_first()
    } else {
        s
    };
    if d.len() > 0 && all_digits(d) && digits_value(d) <= u64::MAX {
        Some(digits_value(d) as u64)
    } else {
        None
    }
}

pub proof fn lemma_digits_value_mono(s: Seq<char>, k: int)
    requires
        0 <= k <= s.len(),
        all_digits(s),
    ensures
        digits_value(s.take(k)) <= digits_value(s),
    decreases s.len() - k,
{
    if k < s.len() {
        lemma_digits_value_mono(s, k + 1);
        assert(s.take(k + 1).drop_last() =~= s.take(k));
        assert(digits_value(s.take(k + 1)) == digits_value(s.take(k)) * 10 + digit_value(
            s.take(k + 1).last(),
        ));
        assert(digits_value(s.take(k)) <= digits_value(s.take(k)) * 10) by (nonlinear_arith);
    } else {
        assert(s.take(k) =~= s);
    }
}

/// Parses `s[a..b]` like `str::parse::<u64>()`.
pub fn parse_u64_range(s: &[char], a: usize, b: usize) -> (r: Option<u64>)
    requires
        a <= b <= s.len(),
    ensures
        r == parse_u64(s@.subrange(a as int, b as int)),
{
    let ghost t = s@.subrange(a as int, b as int);
    let mut i = a;
    if i < b && s[i] == '+' {
        i += 1;
    }
    let ghost d = s@.subrange(i as int, b as int);
    proof {
        if a < b && s@[a as int] == '+' {
            assert(t.drop_first() =~= d);
        } else {
            assert(t =~= d);
        }
    }
    if i == b {
        return None;
    }
    let start = i;
    let mut acc: u64 = 0;
    while i < b
        invariant
            start <= i <= b <= s.len(),
            d == s@.subrange(start as int, b as int),
            d.len() > 0,
            parse_u64(s@.subrange(a as int, b as int)) == (if all_digits(d) && digits_value(d)
                <= u64::MAX {
                Some(digits_value(d) as u64)
            } else {
                None::<u64>
            }),
            all_digits(s@.subrange(start as int, i as int)),
            acc as nat == digits_value(s@.subrange(start as int, i as int)),
        decreases b - i,
    {
        let c = s[i];
        let u = c as u32;
        proof {
            assert(s@.subrange(start as int, i + 1).drop_last() =~= s@.subrange(
                start as int,
                i as int,
            ));
        }
        if u < 0x30 || u > 0x39 {
            assert(d[i - start] == c);
            assert(!all_digits(d));
            return None;
        }
        let dv = (u - 0x30) as u64;
        if acc > (u64::MAX - dv) / 10 {
            proof {
                assert(digits_value(s@.subrange(start as int, i + 1)) == acc * 10 + dv);
                assert(acc * 10 + dv > u64::MAX) by (nonlinear_arith)
                    requires
                        acc > (u64::MAX - dv) / 10,
                        dv < 10,
                ;
                if all_digits(d) {
                    assert(d.take(i + 1 - start) =~= s@.subrange(start as int, i + 1));
                    lemma_digits_value_mono(d, i + 1 - start);
                }
            }
            return None;
        }
        proof {
            assert(acc * 10 + dv <= u64::MAX) by (nonlinear_arith)
                requires
                    acc <= (u64::MAX - dv) / 10,
                    dv < 10,
            ;
        }
        acc = acc * 10 + dv;
        i += 1;
        proof {
            assert(all_digits(s@.subrange(start as int, i as int))) by {
                assert forall|k: int| 0 <= k < i - start implies is_digit(
                    #[trigger] s@.subrange(start as int, i as int)[k],
                ) by {
                    if k < i - 1 - start {
                        assert(s@.subrange(start as int, i as int)[k] == s@.subrange(
                            start as int,
                            i - 1,
                        )[k]);
                    }
                }
            }
        }
    }
    Some(acc)
}


/// Equality of two string slices.
pub fn str_eq(a: &str, b: &str) -> (r: bool)
    ensures
        r == (a@ == b@),
{
    let x = chars_of(a);
    let y = chars_of(b);
    chars_eq(x.as_slice(), y.as_slice())
}

/// The character view of an optional string.
pub open spec fn opt_view(o: Option<String>) -> Option<Seq<char>> {
    match o {
        Some(s) => Some(s@),
        None => None,
    }
}

/// Copy of a string.
pub fn clone_string(s: &String) -> (r: String)
    ensures
        r@ == s@,
{
    String::from_str(s.as_str())
}

/// Copy of an optional string.
pub fn clone_opt(o: &Option<String>) -> (r: Option<String>)
    ensures
        opt_view(r) == opt_view(*o),
{
    match o {
        Some(s) => Some(clone_string(s)),
        None => None,
    }
}

/// Appends a string slice.
pub fn push_str(s: &mut String, t: &str)
    ensures
        final(s)@ == old(s)@ + t@,
{
    s.append(t);
}


/// `str::split_once(c)`, as two vectors.
pub fn split_once_of(s: &[char], c: char) -> (r: Option<(Vec<char>, Vec<char>)>)
    ensures
        match split_once(s@, c) {
            None => r is None,
            Some((a, b)) => r matches Some((x, y)) && x@ == a && y@ == b,
        },
{
    let i = find_char(s, 0, c);
    proof {
        assert(s@.skip(0) =~= s@);
    }
    if i == s.len() {
        return None;
    }
    let a = copy_range(s, 0, i);
    let b = copy_range(s, i + 1, s.len());
    proof {
        assert(s@.subrange(0, i as int) =~= s@.take(i as int));
        assert(s@.subrange(i + 1, s.len() as int) =~= s@.skip(i + 1));
    }
    Some((a, b))
}

/// `str::trim_matches(c)`, as a vector.
pub fn trim_char_of(s: &[char], c: char) -> (r: Vec<char>)
    ensures
        r@ == trim_char(s@, c),
{
    let (a, b) = trim_char_bounds(s, 0, s.len(), c);
    proof {
        assert(s@.subrange(0, s.len() as int) =~= s@);
    }
    copy_range(s, a, b)
}

/// Does `s` start with `p`?
pub fn starts_with_chars(s: &[char], p: &[char]) -> (r: bool)
    ensures
        r == starts_with(s@, p@),
{
    let r = starts_with_at(s, 0, p);
    proof {
        assert(s@.skip(0) =~= s@);
    }
    r
}


/// Code point of the ASCII lower case of a character.
pub open spec fn lower_code(c: char) -> u32 {
    if 'A' <= c && c <= 'Z' {
        (c as u32 + 32) as u32
    } else {
        c as u32
    }
}

/// `str::eq_ignore_ascii_case`.
pub open spec fn eq_ignore_ascii_case(a: Seq<char>, b: Seq<char>) -> bool {
    a.len() == b.len() && forall|i: int| 0 <= i < a.len() ==> lower_code(#[trigger] a[i]) == lower_code(b[i])
}

/// Exec form of [`lower_code`].
pub fn lower_code_of(c: char) -> (r: u32)
    ensures
        r == lower_code(c),
{
    if 'A' <= c && c <= 'Z' {
        (c as u32) + 32
    } else {
        c as u32
    }
}

/// Exec form of [`eq_ignore_ascii_case`].
pub fn eq_ignore_case(a: &str, b: &str) -> (r: bool)
    ensures
        r == eq_ignore_ascii_case(a@, b@),
{
    let x = chars_of(a);
    let y = chars_of(b);
    if x.len() != y.len() {
        return false;
    }
    let mut i: usize = 0;
    while i < x.len()
        invariant
            i <= x.len(),
            x.len() == y.len(),
            x@ == a@,
            y@ == b@,
            forall|k: int| 0 <= k < i ==> lower_code(#[trigger] x@[k]) == lower_code(y@[k]),
        decreases x.len() - i,
    {
        if lower_code_of(x[i]) != lower_code_of(y[i]) {
            return false;
        }
        i += 1;
    }
    true
}


/// Does `p` occur in `s` at `i` when `s` is folded to ASCII lower case?
/// (`p` is written in lower case.)
pub open spec fn fold_match_at(s: Seq<char>, i: int, p: Seq<char>) -> bool {
    0 <= i && i + p.len() <= s.len() && forall|k: int| 0 <= k < p.len() ==> lower_code(#[trigger] s[i + k]) == p[k] as u32
}

/// `s.to_lowercase().contains(p)` for a lower-case ASCII pattern. For the
/// patterns this library searches, no character other than an ASCII
/// letter lowers to one of their characters alone, so the ASCII fold and
/// the Unicode lower casing agree.
pub open spec fn fold_contains(s: Seq<char>, p: Seq<char>) -> bool {
    exists|i: int| fold_match_at(s, i, p)
}

/// `s.to_lowercase().ends_with(p)` for a lower-case ASCII pattern.
pub open spec fn fold_ends_with(s: Seq<char>, p: Seq<char>) -> bool {
    p.len() <= s.len() && fold_match_at(s, s.len() - p.len(), p)
}

fn fold_match_at_exec(s: &[char], i: usize, p: &[char]) -> (r: bool)
    requires
        i + p.len() <= s.len(),
    ensures
        r == fold_match_at(s@, i as int, p@),
{
    let mut k: usize = 0;
    while k < p.len()
        invariant
            k <= p.len(),
            i + p.len() <= s.len(),
            forall|j: int| 0 <= j < k ==> lower_code(#[trigger] s@[i + j]) == p@[j] as u32,
        decreases p.len() - k,
    {
        if lower_code_of(s[i + k]) != p[k] as u32 {
            return false;
        }
        k += 1;
    }
    true
}

/// Exec form of [`fold_contains`].
pub fn fold_contains_str(s: &str, p: &str) -> (r: bool)
    ensures
        r == fold_contains(s@, p@),
{
    let sv = chars_of(s);
    let pv = chars_of(p);
    if pv.len() > sv.len() {
        proof {
            assert forall|i: int| !fold_match_at(s@, i, p@) by {}
        }
        return false;
    }
    let mut i: usize = 0;
    let last: usize = sv.len() - pv.len();
    while i <= last
        invariant
            last == sv.len() - pv.len(),
            pv.len() <= sv.len(),
            i <= last + 1,
            sv@ == s@,
            pv@ == p@,
            forall|j: int| 0 <= j < i ==> !fold_match_at(s@, j, p@),
        decreases sv.len() - i,
    {
        if fold_match_at_exec(sv.as_slice(), i, pv.as_slice()) {
            return true;
        }
        i += 1;
    }
    proof {
        assert forall|j: int| !fold_match_at(s@, j, p@) by {
            if 0 <= j < i {
            } else {
                assert(!(0 <= j && j + p@.len() <= s@.len()));
            }
        }
    }
    false
}

/// Exec form of [`fold_ends_with`].
pub fn fold_ends_with_str(s: &str, p: &str) -> (r: bool)
    ensures
        r == fold_ends_with(s@, p@),
{
    let sv = chars_of(s);
    let pv = chars_of(p);
    if pv.len() > sv.len() {
        return false;
    }
    fold_match_at_exec(sv.as_slice(), sv.len() - pv.len(), pv.as_slice())
}


/// `str::trim_end_matches(p)` for a non-empty pattern: every trailing
/// repetition of `p` removed.
pub open spec fn trim_end_matches(s: Seq<char>, p: Seq<char>) -> Seq<char>
    decreases s.len(),
{
    if p.len() > 0 && p.len() <= s.len() && s.subrange(s.len() - p.len(), s.len() as int) == p {
        trim_end_matches(s.subrange(0, s.len() - p.len()), p)
    } else {
        s
    }
}

/// Exec form of [`trim_end_matches`], on characters.
pub fn trim_end_matches_of(s: &[char], p: &[char]) -> (r: Vec<char>)
    ensures
        r@ == trim_end_matches(s@, p@),
{
    let mut end: usize = s.len();
    if p.len() == 0 {
        return copy_range(s, 0, s.len());
    }
    proof {
        assert(s@.subrange(0, s.len() as int) =~= s@);
    }
    while end >= p.len() && starts_with_at(s, end - p.len(), p)
        invariant
            end <= s.len(),
            p.len() > 0,
            trim_end_matches(s@, p@) == trim_end_matches(s@.subrange(0, end as int), p@),
        decreases end,
    {
        proof {
            let c = s@.subrange(0, end as int);
            assert(c.subrange(c.len() - p.len(), c.len() as int) =~= s@.skip(end - p.len()).take(p.len() as int));
            assert(c.subrange(0, c.len() - p.len()) =~= s@.subrange(0, end - p.len()));
        }
        end = end - p.len();
    }
    proof {
        let c = s@.subrange(0, end as int);
        if end >= p.len() {
            assert(c.subrange(c.len() - p.len(), c.len() as int) =~= s@.skip(end - p.len()).take(p.len() as int));
        }
    }
    copy_range(s, 0, end)
}

/// Pieces joined with a separator (`[String]::join`).
pub open spec fn join_with(parts: Seq<Seq<char>>, sep: Seq<char>) -> Seq<char>
    decreases parts.len(),
{
    if parts.len() == 0 {
        seq![]
    } else if parts.len() == 1 {
        parts[0]
    } else {
        join_with(parts.drop_last(), sep) + sep + parts.last()
    }
}

/// Exec form of [`join_with`].
pub fn join_strings(parts: &Vec<String>, sep: &str) -> (r: String)
    ensures
        r@ == join_with(parts@.map_values(|s: String| s@), sep@),
{
    let ghost v = parts@.map_values(|s: String| s@);
    let mut r = String::new();
    let mut i: usize = 0;
    while i < parts.len()
        invariant
            i <= parts.len(),
            v == parts@.map_values(|s: String| s@),
            r@ == join_with(v.take(i as int), sep@),
        decreases parts.len() - i,
    {
        proof {
            assert(v.take(i + 1).drop_last() =~= v.take(i as int));
            assert(v.take(i + 1).last() == parts@[i as int]@);
        }
        if i > 0 {
            push_str(&mut r, sep);
        }
        push_str(&mut r, parts[i].as_str());
        proof {
            if i == 0 {
                assert(v.take(1)[0] == parts@[0]@);
            }
            assert(r@ =~= join_with(v.take(i + 1), sep@));
        }
        i += 1;
    }
    proof {
        assert(v.take(parts.len() as int) =~= v);
    }
    r
}

} // verus!
