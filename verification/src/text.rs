//! Character-level helpers shared by the parsers and command builders.

use vstd::prelude::*;
use vstd::std_specs::iter::IteratorSpec;
use vstd::string::StringExecFns;

verus! {

broadcast use vstd::string::group_string_axioms;

/// Believed of std's `String::push`, for which vstd has no contract: the
/// character goes to the end of the string, and what was there stays.
pub assume_specification[ String::push ](s: &mut String, ch: char)
    ensures
        final(s)@ == old(s)@.push(ch),
;

/// The characters of `s`, in order.
pub fn to_chars(s: &str) -> (v: Vec<char>)
    ensures
        v@ == s@,
{
    let mut it = s.chars();
    let mut v: Vec<char> = Vec::new();
    loop
        invariant
            it.obeys_prophetic_iter_laws(),
            it.decrease() is Some,
            v@ + it.remaining() == s@,
        ensures
            v@ == s@,
        decreases it.decrease()->0,
    {
        let ghost before = it.remaining();
        let ghost done = v@;
        match it.next() {
            Some(c) => {
                v.push(c);
                assert(v@ + it.remaining() =~= done + before) by {
                    assert(before =~= seq![c] + before.drop_first());
                }
            },
            None => {
                assert(before.len() == 0);
                assert(v@ + it.remaining() =~= v@);
                break;
            },
        }
    }
    v
}

/// The string made of the characters of `v`, in order.
pub fn from_chars(v: &[char]) -> (s: String)
    ensures
        s@ == v@,
{
    let mut s = String::new();
    let mut i: usize = 0;
    while i < v.len()
        invariant
            i <= v.len(),
            s@ == v@.take(i as int),
        decreases v.len() - i,
    {
        s.push(v[i]);
        i += 1;
        assert(v@.take(i as int) =~= v@.take(i - 1).push(v@[i - 1]));
    }
    assert(v@.take(v.len() as int) =~= v@);
    s
}

/// Whether `c` is white space in the sense of Unicode's `White_Space` property.
pub open spec fn is_ws(c: char) -> bool {
    let n = c as u32;
    (0x09 <= n <= 0x0D) || n == 0x20 || n == 0x85 || n == 0xA0 || n == 0x1680 || (0x2000 <= n
        <= 0x200A) || n == 0x2028 || n == 0x2029 || n == 0x202F || n == 0x205F || n == 0x3000
}

/// Executable form of [`is_ws`].
pub fn is_whitespace(c: char) -> (b: bool)
    ensures
        b == is_ws(c),
{
    let n: u32 = c as u32;
    (0x09 <= n && n <= 0x0D) || n == 0x20 || n == 0x85 || n == 0xA0 || n == 0x1680 || (0x2000 <= n
        && n <= 0x200A) || n == 0x2028 || n == 0x2029 || n == 0x202F || n == 0x205F || n == 0x3000
}

/// The first index at or after `i` that holds no white space, or the length.
pub open spec fn skip_ws(s: Seq<char>, i: int) -> int
    decreases s.len() - i,
{
    if 0 <= i < s.len() && is_ws(s[i]) {
        skip_ws(s, i + 1)
    } else {
        i
    }
}

/// The end of `s[lo..j]` once its trailing white space is dropped.
pub open spec fn back_ws(s: Seq<char>, lo: int, j: int) -> int
    decreases j,
{
    if 0 <= lo < j <= s.len() && is_ws(s[j - 1]) {
        back_ws(s, lo, j - 1)
    } else {
        j
    }
}

/// `s` without its leading and trailing white space.
pub open spec fn trim(s: Seq<char>) -> Seq<char> {
    let a = skip_ws(s, 0);
    s.subrange(a, back_ws(s, a, s.len() as int))
}

/// `s` without its leading white space.
pub open spec fn trim_start(s: Seq<char>) -> Seq<char> {
    s.subrange(skip_ws(s, 0), s.len() as int)
}

pub proof fn lemma_skip_ws_bounds(s: Seq<char>, i: int)
    requires
        0 <= i <= s.len(),
    ensures
        i <= skip_ws(s, i) <= s.len(),
    decreases s.len() - i,
{
    if i < s.len() && is_ws(s[i]) {
        lemma_skip_ws_bounds(s, i + 1);
    }
}

/// Copies `v[lo..hi]`.
pub(crate) fn slice_to_vec(v: &[char], lo: usize, hi: usize) -> (r: Vec<char>)
    requires
        lo <= hi <= v.len(),
    ensures
        r@ == v@.subrange(lo as int, hi as int),
{
    let mut r: Vec<char> = Vec::new();
    let mut i: usize = lo;
    while i < hi
        invariant
            lo <= i <= hi <= v.len(),
            r@ == v@.subrange(lo as int, i as int),
        decreases hi - i,
    {
        r.push(v[i]);
        i += 1;
        assert(v@.subrange(lo as int, i as int) =~= v@.subrange(lo as int, i - 1).push(v@[i - 1]));
    }
    r
}

/// Index of the first character at or after `i` that is no white space.
pub(crate) fn skip_whitespace(v: &[char], i: usize) -> (k: usize)
    requires
        i <= v.len(),
    ensures
        k == skip_ws(v@, i as int),
        i <= k <= v.len(),
{
    let mut k: usize = i;
    while k < v.len() && is_whitespace(v[k])
        invariant
            i <= k <= v.len(),
            skip_ws(v@, k as int) == skip_ws(v@, i as int),
        decreases v.len() - k,
    {
        k += 1;
    }
    k
}

/// End of `v[lo..hi]` once trailing white space is dropped.
pub(crate) fn back_whitespace(v: &[char], lo: usize, hi: usize) -> (k: usize)
    requires
        lo <= hi <= v.len(),
    ensures
        k == back_ws(v@, lo as int, hi as int),
        lo <= k <= hi,
{
    let mut k: usize = hi;
    while k > lo && is_whitespace(v[k - 1])
        invariant
            lo <= k <= hi <= v.len(),
            back_ws(v@, lo as int, k as int) == back_ws(v@, lo as int, hi as int),
        decreases k,
    {
        k -= 1;
    }
    k
}

/// `v` without leading and trailing white space.
pub fn trimmed(v: &[char]) -> (r: Vec<char>)
    ensures
        r@ == trim(v@),
{
    let a = skip_whitespace(v, 0);
    let b = back_whitespace(v, a, v.len());
    slice_to_vec(v, a, b)
}

/// Whether `p` occurs in `s` starting at index `i`.
pub open spec fn has_at(s: Seq<char>, p: Seq<char>, i: int) -> bool {
    0 <= i && i + p.len() <= s.len() && s.subrange(i, i + p.len()) == p
}

/// Whether `p` occurs somewhere in `s`.
pub open spec fn contains(s: Seq<char>, p: Seq<char>) -> bool {
    exists|i: int| has_at(s, p, i)
}

/// Whether `s` begins with `p`.
pub open spec fn starts_with(s: Seq<char>, p: Seq<char>) -> bool {
    has_at(s, p, 0)
}

/// Whether `s` ends with `p`.
pub open spec fn ends_with(s: Seq<char>, p: Seq<char>) -> bool {
    has_at(s, p, s.len() - p.len())
}

/// Whether the character `c` occurs in `s`.
pub open spec fn has_char(s: Seq<char>, c: char) -> bool {
    exists|i: int| 0 <= i < s.len() && s[i] == c
}

/// The ASCII lower-case form of `c`.
pub open spec fn lower_char(c: char) -> char {
    if 'A' <= c <= 'Z' {
        ((c as u8 + 32) as u8) as char
    } else {
        c
    }
}

/// `s` with each ASCII upper-case letter replaced by its lower-case form.
pub open spec fn lower(s: Seq<char>) -> Seq<char> {
    Seq::new(s.len(), |i: int| lower_char(s[i]))
}

/// Whether `a` and `b` are equal once ASCII letters are lower-cased.
pub open spec fn eq_ignore_case(a: Seq<char>, b: Seq<char>) -> bool {
    lower(a) == lower(b)
}

/// Whether `p` occurs in `v` at index `i`.
pub fn matches_at(v: &[char], p: &[char], i: usize) -> (b: bool)
    ensures
        b == has_at(v@, p@, i as int),
{
    if p.len() > v.len() || i > v.len() - p.len() {
        return false;
    }
    let mut k: usize = 0;
    while k < p.len()
        invariant
            k <= p.len(),
            i + p.len() <= v.len(),
            v@.subrange(i as int, i + k) == p@.take(k as int),
        decreases p.len() - k,
    {
        if v[i + k] != p[k] {
            assert(v@.subrange(i as int, i + p.len())[k as int] != p@[k as int]);
            return false;
        }
        k += 1;
        assert(v@.subrange(i as int, i + k) =~= v@.subrange(i as int, i + k - 1).push(
            v@[i + k - 1],
        ));
        assert(p@.take(k as int) =~= p@.take(k - 1).push(p@[k - 1]));
    }
    assert(p@.take(p.len() as int) =~= p@);
    true
}

/// Whether `v` begins with `p`.
pub fn begins_with(v: &[char], p: &[char]) -> (b: bool)
    ensures
        b == starts_with(v@, p@),
{
    matches_at(v, p, 0)
}

/// Whether `v` ends with `p`.
pub fn finishes_with(v: &[char], p: &[char]) -> (b: bool)
    ensures
        b == ends_with(v@, p@),
{
    if p.len() > v.len() {
        return false;
    }
    matches_at(v, p, v.len() - p.len())
}

/// Whether `p` occurs somewhere in `v`.
pub fn includes(v: &[char], p: &[char]) -> (b: bool)
    ensures
        b == contains(v@, p@),
{
    if p.len() > v.len() {
        assert(forall|i: int| !has_at(v@, p@, i));
        return false;
    }
    let last: usize = v.len() - p.len();
    let mut i: usize = 0;
    loop
        invariant
            last == v.len() - p.len(),
            i <= last,
            forall|j: int| 0 <= j < i ==> !has_at(v@, p@, j),
        ensures
            forall|j: int| 0 <= j <= last ==> !has_at(v@, p@, j),
        decreases last - i,
    {
        if matches_at(v, p, i) {
            return true;
        }
        if i == last {
            break;
        }
        i += 1;
    }
    assert(forall|j: int| !has_at(v@, p@, j));
    false
}

/// Whether the character `c` occurs in `v`.
pub fn includes_char(v: &[char], c: char) -> (b: bool)
    ensures
        b == has_char(v@, c),
{
    let mut i: usize = 0;
    while i < v.len()
        invariant
            i <= v.len(),
            forall|j: int| 0 <= j < i ==> v@[j] != c,
        decreases v.len() - i,
    {
        if v[i] == c {
            return true;
        }
        i += 1;
    }
    false
}

/// Whether `a` and `b` hold the same characters.
pub fn same(a: &[char], b: &[char]) -> (r: bool)
    ensures
        r == (a@ == b@),
{
    if a.len() != b.len() {
        return false;
    }
    let r = matches_at(a, b, 0);
    assert(a@.subrange(0, a.len() as int) =~= a@);
    r
}

/// Executable form of [`lower_char`].
pub fn to_lower(c: char) -> (r: char)
    ensures
        r == lower_char(c),
{
    if 'A' <= c && c <= 'Z' {
        let n: u8 = c as u8;
        let m: u8 = n + 32;
        m as char
    } else {
        c
    }
}

/// Executable form of [`lower`].
pub fn lowered(v: &[char]) -> (r: Vec<char>)
    ensures
        r@ == lower(v@),
{
    let mut r: Vec<char> = Vec::new();
    let mut i: usize = 0;
    while i < v.len()
        invariant
            i <= v.len(),
            r@.len() == i,
            forall|j: int| 0 <= j < i ==> r@[j] == lower_char(v@[j]),
        decreases v.len() - i,
    {
        r.push(to_lower(v[i]));
        i += 1;
    }
    assert(r@ =~= lower(v@));
    r
}

/// Executable form of [`eq_ignore_case`].
pub fn same_ignoring_case(a: &[char], b: &[char]) -> (r: bool)
    ensures
        r == eq_ignore_case(a@, b@),
{
    let la = lowered(a);
    let lb = lowered(b);
    same(la.as_slice(), lb.as_slice())
}

/// The character sequences held by a vector of character vectors.
pub open spec fn views(v: Seq<Vec<char>>) -> Seq<Seq<char>> {
    Seq::new(v.len(), |i: int| v[i]@)
}

/// The character sequences held by a vector of strings.
pub open spec fn str_views(v: Seq<String>) -> Seq<Seq<char>> {
    Seq::new(v.len(), |i: int| v[i]@)
}

/// The first index at or after `i` that holds `c`, or the length.
pub open spec fn find_from(s: Seq<char>, c: char, i: int) -> int
    decreases s.len() - i,
{
    if 0 <= i < s.len() && s[i] != c {
        find_from(s, c, i + 1)
    } else {
        i
    }
}

pub proof fn lemma_find_from_bounds(s: Seq<char>, c: char, i: int)
    requires
        0 <= i <= s.len(),
    ensures
        i <= find_from(s, c, i) <= s.len(),
        find_from(s, c, i) < s.len() ==> s[find_from(s, c, i)] == c,
        forall|j: int| i <= j < find_from(s, c, i) ==> s[j] != c,
    decreases s.len() - i,
{
    if i < s.len() && s[i] != c {
        lemma_find_from_bounds(s, c, i + 1);
    }
}

/// `l` without one trailing carriage return.
pub open spec fn strip_cr(l: Seq<char>) -> Seq<char> {
    if l.len() > 0 && l.last() == '\r' {
        l.drop_last()
    } else {
        l
    }
}

/// The lines of `s` from index `i` on: a line ends at a line feed, which is
/// dropped together with a carriage return just before it; text after the
/// last line feed is a line of its own unless it is empty.
pub open spec fn lines_from(s: Seq<char>, i: int) -> Seq<Seq<char>>
    decreases s.len() - i,
    via lines_from_decreases
{
    if !(0 <= i < s.len()) {
        Seq::empty()
    } else {
        let e = find_from(s, '\n', i);
        if e >= s.len() {
            seq![s.subrange(i, s.len() as int)]
        } else {
            seq![strip_cr(s.subrange(i, e))] + lines_from(s, e + 1)
        }
    }
}

#[via_fn]
proof fn lines_from_decreases(s: Seq<char>, i: int) {
    if 0 <= i < s.len() {
        lemma_find_from_bounds(s, '\n', i);
    }
}

/// The lines of `s`.
pub open spec fn lines(s: Seq<char>) -> Seq<Seq<char>> {
    lines_from(s, 0)
}

/// The pieces of `s` from index `i` on that the separator `c` delimits.
pub open spec fn split_from(s: Seq<char>, c: char, i: int) -> Seq<Seq<char>>
    decreases s.len() - i,
    via split_from_decreases
{
    if !(0 <= i <= s.len()) {
        Seq::empty()
    } else {
        let e = find_from(s, c, i);
        if e >= s.len() {
            seq![s.subrange(i, s.len() as int)]
        } else {
            seq![s.subrange(i, e)] + split_from(s, c, e + 1)
        }
    }
}

#[via_fn]
proof fn split_from_decreases(s: Seq<char>, c: char, i: int) {
    if 0 <= i <= s.len() {
        lemma_find_from_bounds(s, c, i);
    }
}

/// The pieces of `s` that the separator `c` delimits; never empty.
pub open spec fn split(s: Seq<char>, c: char) -> Seq<Seq<char>> {
    split_from(s, c, 0)
}

/// The first index at or after `i` that holds white space, or the length.
pub open spec fn find_ws(s: Seq<char>, i: int) -> int
    decreases s.len() - i,
{
    if 0 <= i < s.len() && !is_ws(s[i]) {
        find_ws(s, i + 1)
    } else {
        i
    }
}

pub proof fn lemma_find_ws_bounds(s: Seq<char>, i: int)
    requires
        0 <= i <= s.len(),
    ensures
        i <= find_ws(s, i) <= s.len(),
        i < s.len() && !is_ws(s[i]) ==> i < find_ws(s, i),
    decreases s.len() - i,
{
    if i < s.len() && !is_ws(s[i]) {
        lemma_find_ws_bounds(s, i + 1);
    }
}

/// The maximal runs of characters other than white space in `s` from index
/// `i` on.
pub open spec fn tokens_from(s: Seq<char>, i: int) -> Seq<Seq<char>>
    decreases s.len() - i,
    via tokens_from_decreases
{
    if !(0 <= i <= s.len()) {
        Seq::empty()
    } else {
        let a = skip_ws(s, i);
        if a >= s.len() {
            Seq::empty()
        } else {
            let e = find_ws(s, a);
            seq![s.subrange(a, e)] + tokens_from(s, e)
        }
    }
}

#[via_fn]
proof fn tokens_from_decreases(s: Seq<char>, i: int) {
    if 0 <= i <= s.len() {
        lemma_skip_ws_bounds(s, i);
        let a = skip_ws(s, i);
        if a < s.len() {
            lemma_skip_ws_stops(s, i);
            lemma_find_ws_bounds(s, a);
        }
    }
}

pub proof fn lemma_skip_ws_stops(s: Seq<char>, i: int)
    requires
        0 <= i <= s.len(),
    ensures
        skip_ws(s, i) < s.len() ==> !is_ws(s[skip_ws(s, i)]),
    decreases s.len() - i,
{
    if i < s.len() && is_ws(s[i]) {
        lemma_skip_ws_stops(s, i + 1);
    }
}

/// The words of `s`: its maximal runs of characters other than white space.
pub open spec fn tokens(s: Seq<char>) -> Seq<Seq<char>> {
    tokens_from(s, 0)
}

/// Index of the first `c` at or after `i`, or the length.
pub(crate) fn find_char(v: &[char], c: char, i: usize) -> (k: usize)
    requires
        i <= v.len(),
    ensures
        k == find_from(v@, c, i as int),
        i <= k <= v.len(),
{
    let mut k: usize = i;
    while k < v.len() && v[k] != c
        invariant
            i <= k <= v.len(),
            find_from(v@, c, k as int) == find_from(v@, c, i as int),
        decreases v.len() - k,
    {
        k += 1;
    }
    k
}

/// Index of the first white space at or after `i`, or the length.
pub(crate) fn find_whitespace(v: &[char], i: usize) -> (k: usize)
    requires
        i <= v.len(),
    ensures
        k == find_ws(v@, i as int),
        i <= k <= v.len(),
{
    let mut k: usize = i;
    while k < v.len() && !is_whitespace(v[k])
        invariant
            i <= k <= v.len(),
            find_ws(v@, k as int) == find_ws(v@, i as int),
        decreases v.len() - k,
    {
        k += 1;
    }
    k
}

/// Executable form of [`lines`].
pub fn split_lines(v: &[char]) -> (r: Vec<Vec<char>>)
    ensures
        views(r@) == lines(v@),
{
    let mut r: Vec<Vec<char>> = Vec::new();
    let mut i: usize = 0;
    assert(views(r@) =~= Seq::<Seq<char>>::empty());
    while i < v.len()
        invariant
            i <= v.len(),
            views(r@) + lines_from(v@, i as int) == lines(v@),
        decreases v.len() - i,
    {
        let e = find_char(v, '\n', i);
        let ghost before = views(r@);
        if e >= v.len() {
            let line = slice_to_vec(v, i, v.len());
            r.push(line);
            assert(views(r@) =~= before.push(line@));
            assert(lines_from(v@, v.len() as int) =~= Seq::<Seq<char>>::empty());
            assert(views(r@) + lines_from(v@, v.len() as int) =~= before + lines_from(
                v@,
                i as int,
            ));
            i = v.len();
        } else {
            let mut hi: usize = e;
            if hi > i && v[hi - 1] == '\r' {
                hi -= 1;
            }
            let line = slice_to_vec(v, i, hi);
            assert(line@ =~= strip_cr(v@.subrange(i as int, e as int)));
            r.push(line);
            assert(views(r@) =~= before.push(line@));
            assert(views(r@) + lines_from(v@, e + 1) =~= before + lines_from(v@, i as int));
            i = e + 1;
        }
    }
    assert(lines_from(v@, i as int) =~= Seq::<Seq<char>>::empty());
    assert(views(r@) + lines_from(v@, i as int) =~= views(r@));
    r
}

/// Executable form of [`split`].
pub fn split_on(v: &[char], c: char) -> (r: Vec<Vec<char>>)
    ensures
        views(r@) == split(v@, c),
        r@.len() >= 1,
{
    let mut r: Vec<Vec<char>> = Vec::new();
    let mut i: usize = 0;
    assert(views(r@) =~= Seq::<Seq<char>>::empty());
    loop
        invariant_except_break
            views(r@) + split_from(v@, c, i as int) == split(v@, c),
        invariant
            i <= v.len(),
        ensures
            views(r@) == split(v@, c),
            r@.len() >= 1,
        decreases v.len() - i,
    {
        let e = find_char(v, c, i);
        let ghost before = views(r@);
        if e >= v.len() {
            let piece = slice_to_vec(v, i, v.len());
            r.push(piece);
            assert(views(r@) =~= before.push(piece@));
            assert(views(r@) =~= before + split_from(v@, c, i as int));
            break;
        }
        let piece = slice_to_vec(v, i, e);
        r.push(piece);
        assert(views(r@) =~= before.push(piece@));
        assert(views(r@) + split_from(v@, c, e + 1) =~= before + split_from(v@, c, i as int));
        i = e + 1;
    }
    r
}

/// Executable form of [`tokens`].
pub fn split_words(v: &[char]) -> (r: Vec<Vec<char>>)
    ensures
        views(r@) == tokens(v@),
{
    let mut r: Vec<Vec<char>> = Vec::new();
    let mut i: usize = 0;
    assert(views(r@) =~= Seq::<Seq<char>>::empty());
    loop
        invariant
            i <= v.len(),
            views(r@) + tokens_from(v@, i as int) == tokens(v@),
        ensures
            views(r@) == tokens(v@),
        decreases v.len() - i,
    {
        let a = skip_whitespace(v, i);
        let ghost before = views(r@);
        if a >= v.len() {
            assert(tokens_from(v@, i as int) =~= Seq::<Seq<char>>::empty());
            assert(before + tokens_from(v@, i as int) =~= before);
            break;
        }
        proof {
            lemma_skip_ws_stops(v@, i as int);
            lemma_find_ws_bounds(v@, a as int);
        }
        let e = find_whitespace(v, a);
        let word = slice_to_vec(v, a, e);
        r.push(word);
        assert(views(r@) =~= before.push(word@));
        assert(views(r@) + tokens_from(v@, e as int) =~= before + tokens_from(v@, i as int));
        i = e;
    }
    r
}

/// Whether `c` is one of the ten ASCII digits.
pub open spec fn is_digit(c: char) -> bool {
    '0' <= c <= '9'
}

/// The digit character for `d`, which is below ten.
pub open spec fn digit_char(d: nat) -> char {
    ((48 + d) as u8) as char
}

/// The number that the digit `c` stands for.
pub open spec fn digit_value(c: char) -> nat {
    (c as u8 - 48) as nat
}

/// `n` written in decimal, without leading zeros.
pub open spec fn decimal_text(n: nat) -> Seq<char>
    decreases n,
{
    if n < 10 {
        seq![digit_char(n)]
    } else {
        decimal_text(n / 10).push(digit_char(n % 10))
    }
}

/// The number that a run of digits `s` writes in decimal; 0 for no digit.
pub open spec fn digits_value(s: Seq<char>) -> nat
    decreases s.len(),
{
    if s.len() == 0 {
        0
    } else {
        digits_value(s.drop_last()) * 10 + digit_value(s.last())
    }
}

/// Whether `s` holds digits only.
pub open spec fn all_digits(s: Seq<char>) -> bool {
    forall|i: int| 0 <= i < s.len() ==> is_digit(#[trigger] s[i])
}

/// `s` without one leading plus sign.
pub open spec fn unsigned_part(s: Seq<char>) -> Seq<char> {
    if s.len() > 0 && s[0] == '+' {
        s.skip(1)
    } else {
        s
    }
}

/// The number that `s` writes: an optional plus sign, then at least one
/// digit and nothing else, with a value that 64 bits hold.
pub open spec fn parsed_u64(s: Seq<char>) -> Option<u64> {
    let d = unsigned_part(s);
    if d.len() > 0 && all_digits(d) && digits_value(d) <= u64::MAX {
        Some(digits_value(d) as u64)
    } else {
        None
    }
}

pub proof fn lemma_digits_value_grows(s: Seq<char>, k: int)
    requires
        0 <= k <= s.len(),
    ensures
        digits_value(s.take(k)) <= digits_value(s),
    decreases s.len() - k,
{
    if k < s.len() {
        lemma_digits_value_grows(s, k + 1);
        assert(s.take(k + 1).drop_last() =~= s.take(k));
        assert(digits_value(s.take(k + 1)) >= digits_value(s.take(k)) * 10) by {
            assert(digits_value(s.take(k + 1)) == digits_value(s.take(k + 1).drop_last()) * 10
                + digit_value(s.take(k + 1).last()));
        }
    } else {
        assert(s.take(k) =~= s);
    }
}

/// Executable form of [`decimal_text`].
pub fn decimal(n: u64) -> (r: Vec<char>)
    ensures
        r@ == decimal_text(n as nat),
    decreases n,
{
    if n < 10 {
        let d: u8 = n as u8;
        let b: u8 = 48 + d;
        let mut r: Vec<char> = Vec::new();
        r.push(b as char);
        assert(r@ =~= seq![digit_char(n as nat)]);
        r
    } else {
        let mut r = decimal(n / 10);
        let d: u8 = (n % 10) as u8;
        let b: u8 = 48 + d;
        r.push(b as char);
        r
    }
}

/// Executable form of [`parsed_u64`].
pub fn parse_u64(v: &[char]) -> (r: Option<u64>)
    ensures
        r == parsed_u64(v@),
{
    let start: usize = if v.len() > 0 && v[0] == '+' {
        1
    } else {
        0
    };
    let ghost d = unsigned_part(v@);
    assert(d =~= v@.subrange(start as int, v.len() as int));
    if start >= v.len() {
        return None;
    }
    let mut acc: u64 = 0;
    let mut i: usize = start;
    assert(d.take(0) =~= Seq::<char>::empty());
    while i < v.len()
        invariant
            start <= i <= v.len(),
            d == v@.subrange(start as int, v.len() as int),
            d == unsigned_part(v@),
            all_digits(d.take(i - start)),
            acc == digits_value(d.take(i - start)),
        decreases v.len() - i,
    {
        let c = v[i];
        let ghost k = i - start;
        assert(d[k] == c);
        assert(d.take(k + 1).drop_last() =~= d.take(k));
        assert(d.take(k + 1).last() == c);
        if !('0' <= c && c <= '9') {
            assert(!all_digits(d));
            return None;
        }
        let digit: u64 = (c as u8 - 48) as u64;
        assert(digits_value(d.take(k + 1)) == acc * 10 + digit);
        if acc > (u64::MAX - digit) / 10 {
            proof {
                lemma_digits_value_grows(d, k + 1);
            }
            return None;
        }
        acc = acc * 10 + digit;
        i += 1;
        assert(all_digits(d.take(k + 1))) by {
            assert forall|j: int| 0 <= j < k + 1 implies is_digit(#[trigger] d.take(k + 1)[j]) by {
                if j < k {
                    assert(d.take(k)[j] == d.take(k + 1)[j]);
                }
            }
        }
    }
    assert(d.take(d.len() as int) =~= d);
    Some(acc)
}

/// Whether `a` comes before `b` in the order of strings, decided from index
/// `i` on: at the first index where they differ the smaller character
/// decides, and a proper prefix comes first.
pub open spec fn before_from(a: Seq<char>, b: Seq<char>, i: int) -> bool
    decreases a.len() - i,
{
    if i < 0 || i >= b.len() {
        false
    } else if i >= a.len() {
        true
    } else if a[i] != b[i] {
        a[i] < b[i]
    } else {
        before_from(a, b, i + 1)
    }
}

/// Whether `a` comes strictly before `b` in the order of strings.
pub open spec fn before(a: Seq<char>, b: Seq<char>) -> bool {
    before_from(a, b, 0)
}

/// Whether each item of `s` comes strictly before the next: `s` is in order
/// and holds nothing twice.
pub open spec fn ascending(s: Seq<Seq<char>>) -> bool {
    forall|i: int, j: int| 0 <= i < j < s.len() ==> before(#[trigger] s[i], #[trigger] s[j])
}

/// Whether `a` and `b` hold the same items, in whatever order and number.
pub open spec fn same_items(a: Seq<Seq<char>>, b: Seq<Seq<char>>) -> bool {
    forall|x: Seq<char>| a.contains(x) <==> b.contains(x)
}

pub proof fn lemma_before_from_trans(a: Seq<char>, b: Seq<char>, c: Seq<char>, i: int)
    requires
        0 <= i,
        before_from(a, b, i),
        before_from(b, c, i),
    ensures
        before_from(a, c, i),
    decreases a.len() - i,
{
    if i < a.len() && a[i] == b[i] && b[i] == c[i] {
        lemma_before_from_trans(a, b, c, i + 1);
    }
}

pub proof fn lemma_before_from_total(a: Seq<char>, b: Seq<char>, i: int)
    requires
        0 <= i <= a.len(),
        i <= b.len(),
        a.take(i) == b.take(i),
    ensures
        before_from(a, b, i) || before_from(b, a, i) || a == b,
        !(before_from(a, b, i) && before_from(b, a, i)),
        a == b ==> !before_from(a, b, i),
    decreases a.len() - i,
{
    if i < a.len() && i < b.len() {
        if a[i] == b[i] {
            assert(a.take(i + 1) =~= a.take(i).push(a[i]));
            assert(b.take(i + 1) =~= b.take(i).push(b[i]));
            lemma_before_from_total(a, b, i + 1);
        } else {
            assert(a != b);
        }
    } else if i == a.len() && i == b.len() {
        assert(a.take(i) =~= a);
        assert(b.take(i) =~= b);
    } else {
        assert(a.len() != b.len());
    }
}

/// How two strings stand to each other in the order of strings.
#[derive(Clone, Copy, Debug, PartialEq, Eq, Structural)]
pub enum Rank {
    Before,
    Same,
    After,
}

/// Tells how `a` stands to `b` in the order of strings.
pub fn rank(a: &[char], b: &[char]) -> (r: Rank)
    ensures
        r == Rank::Before <==> before(a@, b@),
        r == Rank::Same <==> a@ == b@,
        r == Rank::After <==> before(b@, a@),
{
    let mut i: usize = 0;
    proof {
        assert(a@.take(0) =~= b@.take(0));
        lemma_before_from_total(a@, b@, 0);
    }
    while i < a.len() && i < b.len()
        invariant
            i <= a.len(),
            i <= b.len(),
            a@.take(i as int) == b@.take(i as int),
            before_from(a@, b@, i as int) == before(a@, b@),
            before_from(b@, a@, i as int) == before(b@, a@),
        decreases a.len() - i,
    {
        let x: char = a[i];
        let y: char = b[i];
        if x < y {
            assert(a@[i as int] != b@[i as int]);
            assert(a@ != b@);
            return Rank::Before;
        }
        if y < x {
            assert(a@[i as int] != b@[i as int]);
            assert(a@ != b@);
            return Rank::After;
        }
        assert(a@[i as int] == b@[i as int]);
        assert(a@.take(i + 1) =~= a@.take(i as int).push(a@[i as int]));
        assert(b@.take(i + 1) =~= b@.take(i as int).push(b@[i as int]));
        i += 1;
    }
    proof {
        lemma_before_from_total(a@, b@, i as int);
    }
    if i < b.len() {
        Rank::Before
    } else if i < a.len() {
        Rank::After
    } else {
        Rank::Same
    }
}

/// Puts `x` into `v`, which is in order and holds nothing twice, at its
/// place, unless `v` holds it already.
pub(crate) fn insert_ascending(v: &mut Vec<Vec<char>>, x: Vec<char>)
    requires
        ascending(views(old(v)@)),
    ensures
        ascending(views(final(v)@)),
        forall|y: Seq<char>| views(final(v)@).contains(y) <==> (views(old(v)@).contains(y) || y == x@),
{
    let ghost before_all = views(v@);
    let ghost item = x@;
    let mut k: usize = 0;
    loop
        invariant
            k <= v.len(),
            item == x@,
            views(v@) == before_all,
            *v == *old(v),
            ascending(before_all),
            forall|j: int| 0 <= j < k ==> before(#[trigger] before_all[j], item),
        ensures
            k < before_all.len() ==> before(item, before_all[k as int]),
        decreases v.len() - k,
    {
        if k >= v.len() {
            break ;
        }
        assert(before_all[k as int] == v@[k as int]@);
        match rank(v[k].as_slice(), x.as_slice()) {
            Rank::Before => {
                k += 1;
            },
            Rank::Same => {
                assert(before_all.contains(item));
                return ;
            },
            Rank::After => {
                break ;
            },
        }
    }
    v.insert(k, x);
    let ghost after_all = views(v@);
    assert(after_all =~= before_all.insert(k as int, item));
    assert forall|i: int, j: int| 0 <= i < j < after_all.len() implies before(
        #[trigger] after_all[i],
        #[trigger] after_all[j],
    ) by {
        if j < k {
            assert(after_all[i] == before_all[i] && after_all[j] == before_all[j]);
        } else if j == k {
            assert(after_all[i] == before_all[i]);
        } else if i == k {
            assert(after_all[j] == before_all[j - 1]);
            if j - 1 > k {
                assert(before(before_all[k as int], before_all[j - 1]));
                lemma_before_from_trans(item, before_all[k as int], before_all[j - 1], 0);
            }
        } else if i < k {
            assert(after_all[i] == before_all[i] && after_all[j] == before_all[j - 1]);
        } else {
            assert(after_all[i] == before_all[i - 1] && after_all[j] == before_all[j - 1]);
        }
    }
    assert forall|y: Seq<char>| after_all.contains(y) <==> (before_all.contains(y) || y
        == item) by {
        if after_all.contains(y) {
            let i = choose|i: int| 0 <= i < after_all.len() && after_all[i] == y;
            if i < k {
                assert(before_all[i] == y);
            } else if i > k {
                assert(before_all[i - 1] == y);
            }
        }
        if before_all.contains(y) {
            let i = choose|i: int| 0 <= i < before_all.len() && before_all[i] == y;
            if i < k {
                assert(after_all[i] == y);
            } else {
                assert(after_all[i + 1] == y);
            }
        }
        if y == item {
            assert(after_all[k as int] == y);
        }
    }
}

/// `s` without the prefix `p`, where it begins with `p`.
pub open spec fn strip_prefix(s: Seq<char>, p: Seq<char>) -> Option<Seq<char>> {
    if starts_with(s, p) {
        Some(s.skip(p.len() as int))
    } else {
        None
    }
}

/// `s` without its first character where that is `c`.
pub open spec fn strip_one(s: Seq<char>, c: char) -> Seq<char> {
    if s.len() > 0 && s[0] == c {
        s.skip(1)
    } else {
        s
    }
}

/// The last index below `j` that holds `c`, or -1.
pub open spec fn rfind_from(s: Seq<char>, c: char, j: int) -> int
    decreases j,
{
    if j <= 0 || j > s.len() {
        -1
    } else if s[j - 1] == c {
        j - 1
    } else {
        rfind_from(s, c, j - 1)
    }
}

/// The last index of `s` that holds `c`, or -1.
pub open spec fn rfind(s: Seq<char>, c: char) -> int {
    rfind_from(s, c, s.len() as int)
}

/// Executable form of [`strip_prefix`].
pub fn without_prefix(v: &[char], p: &[char]) -> (r: Option<Vec<char>>)
    ensures
        match r {
            Some(rest) => strip_prefix(v@, p@) == Some(rest@),
            None => strip_prefix(v@, p@) is None,
        },
{
    if matches_at(v, p, 0) {
        let rest = slice_to_vec(v, p.len(), v.len());
        assert(rest@ =~= v@.skip(p.len() as int));
        Some(rest)
    } else {
        None
    }
}

/// Executable form of [`strip_one`].
pub fn without_first(v: &[char], c: char) -> (r: Vec<char>)
    ensures
        r@ == strip_one(v@, c),
{
    if v.len() > 0 && v[0] == c {
        let r = slice_to_vec(v, 1, v.len());
        assert(r@ =~= v@.skip(1));
        r
    } else {
        let r = slice_to_vec(v, 0, v.len());
        assert(r@ =~= v@);
        r
    }
}

/// Executable form of [`rfind`]: the index, or `None` for -1.
pub fn last_index_of(v: &[char], c: char) -> (r: Option<usize>)
    ensures
        match r {
            Some(k) => rfind(v@, c) == k && k < v.len() && v@[k as int] == c,
            None => rfind(v@, c) == -1,
        },
{
    let mut j: usize = v.len();
    while j > 0
        invariant
            j <= v.len(),
            rfind_from(v@, c, j as int) == rfind(v@, c),
        decreases j,
    {
        if v[j - 1] == c {
            return Some(j - 1);
        }
        j -= 1;
    }
    None
}

/// The strings that hold what the character vectors of `v` hold.
pub fn to_strings(v: &Vec<Vec<char>>) -> (r: Vec<String>)
    ensures
        str_views(r@) == views(v@),
{
    let mut r: Vec<String> = Vec::new();
    let mut i: usize = 0;
    while i < v.len()
        invariant
            i <= v.len(),
            r@.len() == i,
            forall|j: int| 0 <= j < i ==> r@[j]@ == v@[j]@,
        decreases v.len() - i,
    {
        r.push(from_chars(v[i].as_slice()));
        i += 1;
    }
    assert(str_views(r@) =~= views(v@));
    r
}

/// Appends the characters of `v` to `s`.
pub fn push_chars(s: &mut String, v: &[char])
    ensures
        final(s)@ == old(s)@ + v@,
{
    let mut i: usize = 0;
    assert(s@ =~= old(s)@ + v@.take(0));
    while i < v.len()
        invariant
            i <= v.len(),
            s@ == old(s)@ + v@.take(i as int),
        decreases v.len() - i,
    {
        s.push(v[i]);
        i += 1;
        assert(v@.take(i as int) =~= v@.take(i - 1).push(v@[i - 1]));
        assert(s@ =~= old(s)@ + v@.take(i as int));
    }
    assert(v@.take(v.len() as int) =~= v@);
}

/// Whether `c` is an ASCII letter or digit.
pub open spec fn is_alnum(c: char) -> bool {
    ('0' <= c <= '9') || ('A' <= c <= 'Z') || ('a' <= c <= 'z')
}

/// Executable form of [`is_alnum`].
pub fn is_alphanumeric(c: char) -> (b: bool)
    ensures
        b == is_alnum(c),
{
    ('0' <= c && c <= '9') || ('A' <= c && c <= 'Z') || ('a' <= c && c <= 'z')
}

/// The lines `ls` with a line feed between each two.
pub open spec fn joined(ls: Seq<Seq<char>>) -> Seq<char>
    decreases ls.len(),
{
    if ls.len() == 0 {
        Seq::empty()
    } else if ls.len() == 1 {
        ls[0]
    } else {
        joined(ls.drop_last()) + seq!['\n'] + ls.last()
    }
}

/// Executable form of [`joined`].
pub fn join_strings(v: &Vec<String>) -> (r: String)
    ensures
        r@ == joined(str_views(v@)),
{
    let ghost want = str_views(v@);
    let mut out = String::new();
    let mut i: usize = 0;
    assert(want.take(0) =~= Seq::<Seq<char>>::empty());
    while i < v.len()
        invariant
            i <= v.len(),
            want == str_views(v@),
            out@ == joined(want.take(i as int)),
        decreases v.len() - i,
    {
        assert(want.take(i + 1).drop_last() =~= want.take(i as int));
        assert(want.take(i + 1).last() == v@[i as int]@);
        if i > 0 {
            out.push('\n');
            out.append(v[i].as_str());
            assert(out@ =~= joined(want.take(i as int)) + seq!['\n'] + v@[i as int]@);
        } else {
            out.append(v[i].as_str());
            assert(out@ =~= v@[i as int]@);
            assert(want.take(1)[0] == v@[i as int]@);
        }
        i += 1;
    }
    assert(want.take(v.len() as int) =~= want);
    out
}

/// Two lists in order and without repetition that hold the same items are
/// the same list: such a list is told by what it holds.
pub proof fn law_ascending_is_unique(a: Seq<Seq<char>>, b: Seq<Seq<char>>)
    requires
        ascending(a),
        ascending(b),
        same_items(a, b),
    ensures
        a == b,
    decreases a.len(),
{
    if a.len() == 0 {
        if b.len() > 0 {
            assert(b.contains(b[0]));
            assert(a.contains(b[0]));
        }
        assert(a =~= b);
    } else {
        assert(a.contains(a[0]));
        assert(b.contains(a[0]));
        let j = choose|j: int| 0 <= j < b.len() && b[j] == a[0];
        assert(b.contains(b[0]));
        assert(a.contains(b[0]));
        let i = choose|i: int| 0 <= i < a.len() && a[i] == b[0];
        assert(a[0].take(0) =~= b[0].take(0));
        lemma_before_from_total(a[0], b[0], 0);
        if j > 0 && i > 0 {
            assert(before(b[0], b[j]));
            assert(before(a[0], a[i]));
        }
        assert(a[0] == b[0]);
        let a2 = a.skip(1);
        let b2 = b.skip(1);
        assert forall|x: int, y: int| 0 <= x < y < a2.len() implies before(
            #[trigger] a2[x],
            #[trigger] a2[y],
        ) by {
            assert(before(a[x + 1], a[y + 1]));
        }
        assert forall|x: int, y: int| 0 <= x < y < b2.len() implies before(
            #[trigger] b2[x],
            #[trigger] b2[y],
        ) by {
            assert(before(b[x + 1], b[y + 1]));
        }
        assert forall|x: Seq<char>| a2.contains(x) <==> b2.contains(x) by {
            if a2.contains(x) {
                let k = choose|k: int| 0 <= k < a2.len() && a2[k] == x;
                assert(a[k + 1] == x);
                assert(before(a[0], a[k + 1]));
                assert(a[0].take(0) =~= x.take(0));
                lemma_before_from_total(a[0], x, 0);
                assert(a.contains(x));
                assert(b.contains(x));
                let m = choose|m: int| 0 <= m < b.len() && b[m] == x;
                assert(m > 0);
                assert(b2[m - 1] == x);
            }
            if b2.contains(x) {
                let k = choose|k: int| 0 <= k < b2.len() && b2[k] == x;
                assert(b[k + 1] == x);
                assert(before(b[0], b[k + 1]));
                assert(b[0].take(0) =~= x.take(0));
                lemma_before_from_total(b[0], x, 0);
                assert(b.contains(x));
                assert(a.contains(x));
                let m = choose|m: int| 0 <= m < a.len() && a[m] == x;
                assert(m > 0);
                assert(a2[m - 1] == x);
            }
        }
        law_ascending_is_unique(a2, b2);
        assert(a =~= seq![a[0]] + a2);
        assert(b =~= seq![b[0]] + b2);
    }
}

} // verus!
