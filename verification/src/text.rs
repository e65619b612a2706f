//! Verified text utilities: indexable character vectors, first-occurrence
//! substring search, whitespace trimming, and ASCII case folding.

use vstd::prelude::*;
use vstd::string::*;

verus! {

/// The pattern `p` occurs in `t` at position `i`.
pub open spec fn match_at(t: Seq<char>, p: Seq<char>, i: int) -> bool {
    &&& 0 <= i
    &&& i + p.len() <= t.len()
    &&& t.subrange(i, i + p.len()) == p
}

/// The first position at or after `i` where `p` occurs in `t`, if any.
pub open spec fn first_match_from(t: Seq<char>, p: Seq<char>, i: int) -> Option<int>
    decreases t.len() + 1 - i,
{
    if i < 0 || i + p.len() > t.len() {
        None
    } else if match_at(t, p, i) {
        Some(i)
    } else {
        first_match_from(t, p, i + 1)
    }
}

/// Searching from `start` finds nothing in the already-inspected stretch
/// `[start, upto)`, so the search result from `start` and from `upto` agree.
proof fn lemma_first_match_skip(t: Seq<char>, p: Seq<char>, start: int, upto: int)
    requires
        0 <= start <= upto,
        forall|k: int| start <= k < upto ==> !match_at(t, p, k),
    ensures
        first_match_from(t, p, start) == first_match_from(t, p, upto),
    decreases upto - start,
{
    if start < upto {
        assert(!match_at(t, p, start));
        lemma_first_match_skip(t, p, start + 1, upto);
    }
}

/// The characters of `s`, one vector entry per character.
pub fn chars_of(s: &str) -> (r: Vec<char>)
    ensures
        r@ == s@,
{
    let n = s.unicode_len();
    let mut r: Vec<char> = Vec::new();
    let mut i: usize = 0;
    while i < n
        invariant
            n == s@.len(),
            i <= n,
            r@ == s@.take(i as int),
        decreases n - i,
    {
        r.push(s.get_char(i));
        assert(r@ =~= s@.take(i + 1 as int));
        i = i + 1;
    }
    assert(r@ =~= s@);
    r
}

/// A string holding exactly the characters of `v`.
pub fn string_of(v: &Vec<char>) -> (r: String)
    ensures
        r@ == v@,
{
    let mut r = String::new();
    let mut buf = [0u8; 4];
    let mut i: usize = 0;
    while i < v.len()
        invariant
            i <= v@.len(),
            r@ == v@.take(i as int),
        decreases v@.len() - i,
    {
        r.append(char_str(v[i], &mut buf));
        assert(r@ =~= v@.take(i + 1 as int));
        i = i + 1;
    }
    assert(r@ =~= v@);
    r
}

/// Relies on `char::encode_utf8` of std: the returned slice prints exactly
/// the one character `c`.
#[verifier::external_body]
fn char_str<'a>(c: char, buf: &'a mut [u8; 4]) -> (r: &'a str)
    ensures
        r@ == seq![c],
{
    c.encode_utf8(buf)
}

/// Does `p` occur in `t` at position `i`?
fn is_match_at(t: &Vec<char>, p: &Vec<char>, i: usize) -> (r: bool)
    requires
        i + p@.len() <= t@.len(),
    ensures
        r == match_at(t@, p@, i as int),
{
    let tlen = t.len();
    let mut j: usize = 0;
    while j < p.len()
        invariant
            tlen == t@.len(),
            i + p@.len() <= t@.len(),
            j <= p@.len(),
            forall|k: int| 0 <= k < j ==> t@[i + k] == p@[k],
        decreases p@.len() - j,
    {
        if t[i + j] != p[j] {
            assert(!match_at(t@, p@, i as int)) by {
                if match_at(t@, p@, i as int) {
                    assert(t@.subrange(i as int, i + p@.len())[j as int] == p@[j as int]);
                }
            }
            return false;
        }
        j = j + 1;
    }
    assert(t@.subrange(i as int, i + p@.len()) =~= p@);
    true
}

/// The position of the first occurrence of `p` in `t` at or after `start`.
pub fn find_from(t: &Vec<char>, p: &Vec<char>, start: usize) -> (r: Option<usize>)
    requires
        start <= t@.len(),
    ensures
        match r {
            Some(i) => first_match_from(t@, p@, start as int) == Some(i as int),
            None => first_match_from(t@, p@, start as int) is None,
        },
        r matches Some(i) ==> start <= i && match_at(t@, p@, i as int),
{
    if p.len() > t.len() {
        return None;
    }
    if p.len() == 0 {
        proof {
            assert(t@.subrange(start as int, start as int) =~= p@);
        }
        return Some(start);
    }
    let tl = t.len();
    let last = t.len() - p.len();
    let mut i: usize = start;
    while i <= last
        invariant
            start <= i,
            i <= tl,
            tl == t@.len(),
            1 <= p@.len() <= t@.len(),
            last == t@.len() - p@.len(),
            forall|k: int| start <= k < i ==> !match_at(t@, p@, k),
        decreases tl - i,
    {
        if is_match_at(t, p, i) {
            proof {
                lemma_first_match_skip(t@, p@, start as int, i as int);
            }
            return Some(i);
        }
        i = i + 1;
    }
    proof {
        assert(forall|k: int| start <= k < i ==> !match_at(t@, p@, k));
        assert(forall|k: int| i <= k ==> !match_at(t@, p@, k));
        lemma_first_match_skip(t@, p@, start as int, i as int);
    }
    None
}

/// A character the trimming operations treat as whitespace: the
/// `White_Space` set that `char::is_whitespace` of std recognizes.
pub open spec fn is_space_char(c: char) -> bool {
    ||| c == ' ' || c == '\t' || c == '\n' || c == '\r' || c == '\u{b}' || c == '\u{c}'
    ||| c == '\u{85}' || c == '\u{a0}' || c == '\u{1680}'
    ||| ('\u{2000}' <= c && c <= '\u{200a}')
    ||| c == '\u{2028}' || c == '\u{2029}' || c == '\u{202f}' || c == '\u{205f}' || c == '\u{3000}'
}

/// `s` without its leading whitespace.
pub open spec fn trim_front(s: Seq<char>) -> Seq<char>
    decreases s.len(),
{
    if s.len() > 0 && is_space_char(s[0]) {
        trim_front(s.drop_first())
    } else {
        s
    }
}

/// `s` without its trailing whitespace.
pub open spec fn trim_back(s: Seq<char>) -> Seq<char>
    decreases s.len(),
{
    if s.len() > 0 && is_space_char(s[s.len() - 1]) {
        trim_back(s.drop_last())
    } else {
        s
    }
}

/// `s` without surrounding whitespace.
pub open spec fn trim_of(s: Seq<char>) -> Seq<char> {
    trim_back(trim_front(s))
}

/// Dropping leading whitespace keeps the stretch from the first non-space
/// character on.
proof fn lemma_trim_front_idx(s: Seq<char>, lo: int)
    requires
        0 <= lo <= s.len(),
        forall|k: int| 0 <= k < lo ==> is_space_char(s[k]),
        lo < s.len() ==> !is_space_char(s[lo]),
    ensures
        trim_front(s) == s.subrange(lo, s.len() as int),
    decreases lo,
{
    if lo == 0 {
        assert(s.subrange(0, s.len() as int) =~= s);
    } else {
        assert(is_space_char(s[0]));
        lemma_trim_front_idx(s.drop_first(), lo - 1);
        assert(s.drop_first().subrange(lo - 1, s.drop_first().len() as int) =~= s.subrange(
            lo,
            s.len() as int,
        ));
    }
}

/// Dropping trailing whitespace keeps the stretch up to the last non-space
/// character.
proof fn lemma_trim_back_idx(s: Seq<char>, hi: int)
    requires
        0 <= hi <= s.len(),
        forall|k: int| hi <= k < s.len() ==> is_space_char(s[k]),
        hi > 0 ==> !is_space_char(s[hi - 1]),
    ensures
        trim_back(s) == s.subrange(0, hi),
    decreases s.len() - hi,
{
    if hi == s.len() {
        assert(s.subrange(0, hi) =~= s);
    } else {
        assert(is_space_char(s[s.len() - 1]));
        lemma_trim_back_idx(s.drop_last(), hi);
        assert(s.drop_last().subrange(0, hi) =~= s.subrange(0, hi));
    }
}

fn is_space(c: char) -> (r: bool)
    ensures
        r == is_space_char(c),
{
    (c == ' ' || c == '\t' || c == '\n' || c == '\r' || c == '\u{b}' || c == '\u{c}') || (c
        == '\u{85}' || c == '\u{a0}' || c == '\u{1680}') || ('\u{2000}' <= c && c <= '\u{200a}')
        || (c == '\u{2028}' || c == '\u{2029}' || c == '\u{202f}' || c == '\u{205f}' || c
        == '\u{3000}')
}

/// The characters of `v` without surrounding whitespace.
pub fn trim(v: &Vec<char>) -> (r: Vec<char>)
    ensures
        r@ == trim_of(v@),
{
    let mut lo: usize = 0;
    while lo < v.len() && is_space(v[lo])
        invariant
            lo <= v@.len(),
            forall|k: int| 0 <= k < lo ==> is_space_char(v@[k]),
        decreases v@.len() - lo,
    {
        lo = lo + 1;
    }
    let mut hi: usize = v.len();
    while hi > lo && is_space(v[hi - 1])
        invariant
            lo <= hi <= v@.len(),
            forall|k: int| hi <= k < v@.len() ==> is_space_char(v@[k]),
            hi < v@.len() ==> hi >= lo,
            lo < v@.len() ==> !is_space_char(v@[lo as int]) || hi <= lo,
        decreases hi,
    {
        hi = hi - 1;
    }
    let mut r: Vec<char> = Vec::new();
    let mut i: usize = lo;
    while i < hi
        invariant
            lo <= i <= hi <= v@.len(),
            r@ == v@.subrange(lo as int, i as int),
        decreases hi - i,
    {
        r.push(v[i]);
        assert(r@ =~= v@.subrange(lo as int, i + 1 as int));
        i = i + 1;
    }
    proof {
        if hi == lo {
            // everything outside [lo, hi) is whitespace and the slice is empty
            lemma_trim_front_all_space(v@, lo as int);
        } else {
            lemma_trim_front_idx(v@, lo as int);
            lemma_trim_back_idx(v@.subrange(lo as int, v@.len() as int), hi - lo);
            assert(v@.subrange(lo as int, v@.len() as int).subrange(0, hi - lo) =~= v@.subrange(
                lo as int,
                hi as int,
            ));
        }
    }
    r
}

/// When every character from `lo` on is whitespace and so is everything
/// before `lo`, trimming leaves nothing.
proof fn lemma_trim_front_all_space(s: Seq<char>, lo: int)
    requires
        0 <= lo <= s.len(),
        forall|k: int| 0 <= k < lo ==> is_space_char(s[k]),
        forall|k: int| lo <= k < s.len() ==> is_space_char(s[k]),
    ensures
        trim_of(s).len() == 0,
{
    assert(forall|k: int| 0 <= k < s.len() ==> is_space_char(s[k]));
    lemma_trim_front_idx(s, s.len() as int);
    assert(trim_front(s) =~= Seq::<char>::empty());
    assert(trim_back(Seq::<char>::empty()) =~= Seq::<char>::empty());
}

/// ASCII lower-casing of one character; anything but an ASCII capital
/// letter is unchanged.
pub open spec fn lower_char(c: char) -> char {
    match c {
        'A' => 'a',
        'B' => 'b',
        'C' => 'c',
        'D' => 'd',
        'E' => 'e',
        'F' => 'f',
        'G' => 'g',
        'H' => 'h',
        'I' => 'i',
        'J' => 'j',
        'K' => 'k',
        'L' => 'l',
        'M' => 'm',
        'N' => 'n',
        'O' => 'o',
        'P' => 'p',
        'Q' => 'q',
        'R' => 'r',
        'S' => 's',
        'T' => 't',
        'U' => 'u',
        'V' => 'v',
        'W' => 'w',
        'X' => 'x',
        'Y' => 'y',
        'Z' => 'z',
        _ => c,
    }
}

/// ASCII lower-casing of a character sequence.
pub open spec fn lower_of(s: Seq<char>) -> Seq<char> {
    s.map_values(|c: char| lower_char(c))
}

/// The characters of `v`, ASCII lower-cased.
pub fn to_lower(v: &Vec<char>) -> (r: Vec<char>)
    ensures
        r@ == lower_of(v@),
{
    let mut r: Vec<char> = Vec::new();
    let mut i: usize = 0;
    while i < v.len()
        invariant
            i <= v@.len(),
            r@ == lower_of(v@.take(i as int)),
        decreases v@.len() - i,
    {
        let c = v[i];
        let l = match c {
            'A' => 'a',
            'B' => 'b',
            'C' => 'c',
            'D' => 'd',
            'E' => 'e',
            'F' => 'f',
            'G' => 'g',
            'H' => 'h',
            'I' => 'i',
            'J' => 'j',
            'K' => 'k',
            'L' => 'l',
            'M' => 'm',
            'N' => 'n',
            'O' => 'o',
            'P' => 'p',
            'Q' => 'q',
            'R' => 'r',
            'S' => 's',
            'T' => 't',
            'U' => 'u',
            'V' => 'v',
            'W' => 'w',
            'X' => 'x',
            'Y' => 'y',
            'Z' => 'z',
            _ => c,
        };
        assert(l == lower_char(v@[i as int]));
        r.push(l);
        assert(r@ =~= lower_of(v@.take(i + 1 as int)));
        i = i + 1;
    }
    assert(v@.take(v@.len() as int) =~= v@);
    r
}

/// The sequences of `parts`, joined by `sep`.
pub open spec fn join_with(parts: Seq<Seq<char>>, sep: Seq<char>) -> Seq<char>
    decreases parts.len(),
{
    if parts.len() == 0 {
        Seq::empty()
    } else if parts.len() == 1 {
        parts[0]
    } else {
        parts[0] + sep + join_with(parts.drop_first(), sep)
    }
}

/// The views of a sequence of strings.
pub open spec fn views_of(parts: Seq<String>) -> Seq<Seq<char>> {
    parts.map_values(|s: String| s@)
}

/// Joining one more part appends a separator (unless nothing was joined
/// yet) and the part.
pub proof fn lemma_join_push(parts: Seq<Seq<char>>, x: Seq<char>, sep: Seq<char>)
    ensures
        parts.len() == 0 ==> join_with(parts.push(x), sep) == x,
        parts.len() > 0 ==> join_with(parts.push(x), sep) == join_with(parts, sep) + sep + x,
    decreases parts.len(),
{
    let whole = parts.push(x);
    if parts.len() == 0 {
        assert(whole.len() == 1);
        assert(whole[0] == x);
    } else {
        assert(whole.len() >= 2);
        assert(whole[0] == parts[0]);
        assert(whole.drop_first() =~= parts.drop_first().push(x));
        lemma_join_push(parts.drop_first(), x, sep);
        if parts.len() == 1 {
            assert(join_with(whole, sep) == parts[0] + sep + x);
            assert(join_with(parts, sep) == parts[0]);
        } else {
            assert(join_with(whole, sep) == parts[0] + sep + (join_with(
                parts.drop_first(),
                sep,
            ) + sep + x));
            assert(parts[0] + sep + (join_with(parts.drop_first(), sep) + sep + x) =~= (parts[0]
                + sep + join_with(parts.drop_first(), sep)) + sep + x);
        }
    }
}

/// The strings of `parts`, joined by `sep`.
pub fn join_strings(parts: &Vec<String>, sep: &str) -> (r: String)
    ensures
        r@ == join_with(views_of(parts@), sep@),
{
    let ghost vs = views_of(parts@);
    let mut r = String::new();
    let mut i: usize = 0;
    while i < parts.len()
        invariant
            vs == views_of(parts@),
            vs.len() == parts@.len(),
            i <= parts@.len(),
            r@ == join_with(vs.take(i as int), sep@),
        decreases parts@.len() - i,
    {
        proof {
            lemma_join_push(vs.take(i as int), vs[i as int], sep@);
            assert(vs.take(i + 1 as int) =~= vs.take(i as int).push(vs[i as int]));
        }
        if i > 0 {
            r.append(sep);
            r.append(parts[i].as_str());
            assert(r@ =~= join_with(vs.take(i as int), sep@) + sep@ + vs[i as int]);
        } else {
            r.append(parts[i].as_str());
            assert(vs.take(0int) =~= Seq::<Seq<char>>::empty());
            assert(r@ =~= vs[0int]);
        }
        i = i + 1;
    }
    proof {
        assert(vs.take(parts@.len() as int) =~= vs);
    }
    r
}

/// Two character vectors hold the same characters.
pub fn chars_eq(a: &Vec<char>, b: &Vec<char>) -> (r: bool)
    ensures
        r == (a@ == b@),
{
    if a.len() != b.len() {
        assert(a@ != b@);
        return false;
    }
    let mut i: usize = 0;
    while i < a.len()
        invariant
            a@.len() == b@.len(),
            i <= a@.len(),
            forall|k: int| 0 <= k < i ==> a@[k] == b@[k],
        decreases a@.len() - i,
    {
        if a[i] != b[i] {
            assert(a@ != b@);
            return false;
        }
        i = i + 1;
    }
    assert(a@ =~= b@);
    true
}

} // verus!
