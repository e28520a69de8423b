//! Character and string rules shared by the parsers and the renderers.

use vstd::prelude::*;
use vstd::string::*;

verus! {

/// The code points that Unicode gives the `White_Space` property.
pub open spec fn is_space(c: char) -> bool {
    let n = c as u32;
    ||| 0x09 <= n <= 0x0d
    ||| n == 0x20
    ||| n == 0x85
    ||| n == 0xa0
    ||| n == 0x1680
    ||| 0x2000 <= n <= 0x200a
    ||| n == 0x2028
    ||| n == 0x2029
    ||| n == 0x202f
    ||| n == 0x205f
    ||| n == 0x3000
}

/// Whether `c` separates words.
pub fn is_whitespace(c: char) -> (b: bool)
    ensures
        b == is_space(c),
{
    let n: u32 = c as u32;
    (0x09 <= n && n <= 0x0d) || n == 0x20 || n == 0x85 || n == 0xa0 || n == 0x1680 || (0x2000 <= n
        && n <= 0x200a) || n == 0x2028 || n == 0x2029 || n == 0x202f || n == 0x205f || n == 0x3000
}

/// The characters of `s`, in order.
pub fn chars_of(s: &str) -> (v: Vec<char>)
    ensures
        v@ == s@,
{
    broadcast use vstd::string::group_string_axioms;

    let mut v: Vec<char> = Vec::new();
    for c in it: s.chars()
        invariant
            it.seq() == s@,
            v@ == it.seq().take(it.index()),
    {
        v.push(c);
    }
    v
}

/// `String::push` of std: appends the one character `c` to the end of `s`.
pub assume_specification[ String::push ](s: &mut String, c: char)
    ensures
        final(s)@ == old(s)@.push(c),
;

/// The characters of `v` from `start` up to `end`, as a string.
pub fn slice_string(v: &Vec<char>, start: usize, end: usize) -> (s: String)
    requires
        start <= end <= v.len(),
    ensures
        s@ == v@.subrange(start as int, end as int),
{
    let mut s = String::new();
    let mut i: usize = start;
    while i < end
        invariant
            start <= i <= end <= v.len(),
            s@ == v@.subrange(start as int, i as int),
        decreases end - i,
    {
        s.push(v[i]);
        i += 1;
    }
    s
}

/// A set of characters that a trim removes from the ends of a string.
#[derive(Clone, Copy, Debug, PartialEq, Eq)]
pub enum CharClass {
    /// Unicode white space.
    Space,
    /// The square brackets `[` and `]`.
    Bracket,
    /// This one character.
    Only(char),
}

impl CharClass {
    /// Whether `c` belongs to the class.
    pub open spec fn has(self, c: char) -> bool {
        match self {
            CharClass::Space => is_space(c),
            CharClass::Bracket => c == '[' || c == ']',
            CharClass::Only(only) => c == only,
        }
    }

    /// Whether `c` belongs to the class.
    pub fn contains(&self, c: char) -> (b: bool)
        ensures
            b == self.has(c),
    {
        match self {
            CharClass::Space => is_whitespace(c),
            CharClass::Bracket => c == '[' || c == ']',
            CharClass::Only(only) => c == *only,
        }
    }
}

/// `s` without its longest prefix of characters of `class`.
pub open spec fn strip_start(s: Seq<char>, class: CharClass) -> Seq<char>
    decreases s.len(),
{
    if s.len() > 0 && class.has(s[0]) {
        strip_start(s.drop_first(), class)
    } else {
        s
    }
}

/// `s` without its longest suffix of characters of `class`.
pub open spec fn strip_end(s: Seq<char>, class: CharClass) -> Seq<char>
    decreases s.len(),
{
    if s.len() > 0 && class.has(s.last()) {
        strip_end(s.drop_last(), class)
    } else {
        s
    }
}

/// `s` without the characters of `class` at either end.
pub open spec fn strip(s: Seq<char>, class: CharClass) -> Seq<char> {
    strip_end(strip_start(s, class), class)
}

/// Trimming takes characters away and leaves none of `class` at the end
/// that it trims.
pub proof fn lemma_strip_end(s: Seq<char>, class: CharClass)
    ensures
        strip_end(s, class).len() <= s.len(),
        strip_end(s, class) == s.take(strip_end(s, class).len() as int),
        strip_end(s, class).len() > 0 ==> !class.has(strip_end(s, class).last()),
    decreases s.len(),
{
    if s.len() > 0 && class.has(s.last()) {
        lemma_strip_end(s.drop_last(), class);
    }
}

/// Trimming takes characters away and leaves none of `class` at the start
/// that it trims.
pub proof fn lemma_strip_start(s: Seq<char>, class: CharClass)
    ensures
        strip_start(s, class).len() <= s.len(),
        strip_start(s, class) == s.skip(s.len() - strip_start(s, class).len()),
        strip_start(s, class).len() > 0 ==> !class.has(strip_start(s, class)[0]),
    decreases s.len(),
{
    if s.len() > 0 && class.has(s[0]) {
        lemma_strip_start(s.drop_first(), class);
    }
}

/// What a trim at both ends leaves begins and ends with no character of
/// `class`, and is no longer than what was trimmed.
pub proof fn lemma_strip(s: Seq<char>, class: CharClass)
    ensures
        strip(s, class).len() <= s.len(),
        strip(s, class).len() > 0 ==> !class.has(strip(s, class)[0]) && !class.has(
            strip(s, class).last(),
        ),
{
    lemma_strip_start(s, class);
    lemma_strip_end(strip_start(s, class), class);
}

/// The index at which `strip_start` of `v` begins.
fn start_after(v: &Vec<char>, class: CharClass) -> (start: usize)
    ensures
        start <= v.len(),
        strip_start(v@, class) == v@.skip(start as int),
{
    let mut start: usize = 0;
    assert(v@.skip(0) == v@);
    while start < v.len() && class.contains(v[start])
        invariant
            start <= v.len(),
            strip_start(v@, class) == strip_start(v@.skip(start as int), class),
        decreases v.len() - start,
    {
        assert(v@.skip(start as int).drop_first() == v@.skip(start + 1));
        start += 1;
    }
    start
}

/// The index at which `strip_end` of the part of `v` from `start` on ends.
fn end_before(v: &Vec<char>, start: usize, class: CharClass) -> (end: usize)
    requires
        start <= v.len(),
    ensures
        start <= end <= v.len(),
        strip_end(v@.skip(start as int), class) == v@.subrange(start as int, end as int),
{
    let mut end: usize = v.len();
    while end > start && class.contains(v[end - 1])
        invariant
            start <= end <= v.len(),
            strip_end(v@.skip(start as int), class) == strip_end(
                v@.subrange(start as int, end as int),
                class,
            ),
        decreases end - start,
    {
        assert(v@.subrange(start as int, end as int).drop_last() == v@.subrange(
            start as int,
            end - 1,
        ));
        end -= 1;
    }
    end
}

/// `s` without the characters of `class` at either end.
pub fn trim_matches(s: &str, class: CharClass) -> (r: String)
    ensures
        r@ == strip(s@, class),
{
    let v = chars_of(s);
    let start = start_after(&v, class);
    let end = end_before(&v, start, class);
    slice_string(&v, start, end)
}

/// `s` without the characters of `class` at its end.
pub fn trim_end_matches(s: &str, class: CharClass) -> (r: String)
    ensures
        r@ == strip_end(s@, class),
{
    let v = chars_of(s);
    let end = end_before(&v, 0, class);
    assert(v@.skip(0) == v@);
    slice_string(&v, 0, end)
}

/// `s` without the white space at either end.
pub fn trim(s: &str) -> (r: String)
    ensures
        r@ == strip(s@, CharClass::Space),
{
    trim_matches(s, CharClass::Space)
}

/// The character that writes the digit `d`: the digits follow one another
/// from `0`, which has the code 48.
pub open spec fn digit_char(d: nat) -> char
    recommends
        d < 10,
{
    (48 + d) as char
}

/// `n` written in base ten, without leading zeros.
pub open spec fn decimal(n: nat) -> Seq<char>
    decreases n,
{
    if n < 10 {
        seq![digit_char(n)]
    } else {
        decimal(n / 10).push(digit_char(n % 10))
    }
}

/// Appends `n`, written in base ten, to `out`.
pub fn push_decimal(out: &mut String, n: usize)
    ensures
        final(out)@ == old(out)@ + decimal(n as nat),
    decreases n,
{
    if n >= 10 {
        push_decimal(out, n / 10);
    }
    let d: u8 = (n % 10) as u8;
    let c: char = (48u8 + d) as char;
    out.push(c);
}

/// The view of a string that may be missing.
pub open spec fn opt_view(s: Option<String>) -> Option<Seq<char>> {
    match s {
        Some(s) => Some(s@),
        None => None,
    }
}

/// The views of a list of strings.
pub open spec fn views(items: Seq<String>) -> Seq<Seq<char>> {
    items.map_values(|s: String| s@)
}

/// The pieces of `s` between the characters of `sep`, in order. There is
/// one piece more than there are separators, and a piece may be empty.
pub open spec fn pieces(s: Seq<char>, sep: CharClass) -> Seq<Seq<char>>
    decreases s.len(),
{
    if s.len() == 0 {
        seq![Seq::empty()]
    } else {
        let before = pieces(s.drop_last(), sep);
        if sep.has(s.last()) {
            before.push(Seq::empty())
        } else {
            before.drop_last().push(before.last().push(s.last()))
        }
    }
}

/// Those of `list` that are not empty, in order.
pub open spec fn non_empty(list: Seq<Seq<char>>) -> Seq<Seq<char>>
    decreases list.len(),
{
    if list.len() == 0 {
        Seq::empty()
    } else if list.last().len() == 0 {
        non_empty(list.drop_last())
    } else {
        non_empty(list.drop_last()).push(list.last())
    }
}

/// The words of `s`: its maximal runs of characters that are not white space.
pub open spec fn words(s: Seq<char>) -> Seq<Seq<char>> {
    non_empty(pieces(s, CharClass::Space))
}

/// There is always at least one piece.
pub proof fn lemma_pieces_len(s: Seq<char>, sep: CharClass)
    ensures
        pieces(s, sep).len() >= 1,
    decreases s.len(),
{
    if s.len() > 0 {
        lemma_pieces_len(s.drop_last(), sep);
    }
}

/// The pieces of `s` between the characters of `sep`.
pub fn split(s: &str, sep: CharClass) -> (list: Vec<String>)
    ensures
        views(list@) == pieces(s@, sep),
{
    let v = chars_of(s);
    let mut list: Vec<String> = Vec::new();
    let mut current = String::new();
    let mut i: usize = 0;
    while i < v.len()
        invariant
            i <= v.len(),
            pieces(v@.take(i as int), sep) == views(list@).push(current@),
        decreases v.len() - i,
    {
        proof {
            assert(v@.take(i + 1).drop_last() == v@.take(i as int));
        }
        if sep.contains(v[i]) {
            list.push(current);
            current = String::new();
        } else {
            current.push(v[i]);
        }
        i += 1;
    }
    assert(v@.take(v.len() as int) == v@);
    list.push(current);
    list
}

/// The words of `s`.
pub fn split_whitespace(s: &str) -> (list: Vec<String>)
    ensures
        views(list@) == words(s@),
{
    let all = split(s, CharClass::Space);
    let mut list: Vec<String> = Vec::new();
    let mut i: usize = 0;
    while i < all.len()
        invariant
            i <= all.len(),
            views(list@) == non_empty(views(all@).take(i as int)),
        decreases all.len() - i,
    {
        proof {
            assert(views(all@).take(i + 1).drop_last() == views(all@).take(i as int));
        }
        if !all[i].as_str().is_empty() {
            list.push(all[i].clone());
        }
        i += 1;
    }
    assert(views(all@).take(all.len() as int) == views(all@));
    list
}

/// Whether `a` and `b` hold the same characters.
pub fn same(a: &str, b: &str) -> (eq: bool)
    ensures
        eq == (a@ == b@),
{
    let x = chars_of(a);
    let y = chars_of(b);
    if x.len() != y.len() {
        return false;
    }
    let mut i: usize = 0;
    while i < x.len()
        invariant
            i <= x.len(),
            x.len() == y.len(),
            x@ == a@,
            y@ == b@,
            x@.take(i as int) == y@.take(i as int),
        decreases x.len() - i,
    {
        if x[i] != y[i] {
            return false;
        }
        i += 1;
    }
    assert(x@.take(x.len() as int) == x@);
    assert(y@.take(y.len() as int) == y@);
    true
}

/// The last piece is what follows the last separator: where the characters
/// of `s` from `k` on hold no separator and a separator, or nothing, stands
/// before them, they are the last piece.
pub proof fn lemma_last_piece(s: Seq<char>, sep: CharClass, k: int)
    requires
        0 <= k <= s.len(),
        forall|i: int| k <= i < s.len() ==> !sep.has(s[i]),
        k == 0 || sep.has(s[k - 1]),
    ensures
        pieces(s, sep).len() >= 1,
        pieces(s, sep).last() == s.skip(k),
    decreases s.len(),
{
    lemma_pieces_len(s, sep);
    if s.len() > k {
        lemma_last_piece(s.drop_last(), sep, k);
    }
}

/// Whether `s` begins with `prefix`.
pub open spec fn begins_with(s: Seq<char>, prefix: Seq<char>) -> bool {
    prefix.len() <= s.len() && s.take(prefix.len() as int) == prefix
}

/// `s` with the first occurrence of `pattern` replaced by `with`; `s`
/// itself where `pattern` does not occur.
pub open spec fn replaced_first(s: Seq<char>, pattern: Seq<char>, with: Seq<char>) -> Seq<char>
    decreases s.len(),
{
    if begins_with(s, pattern) {
        with + s.skip(pattern.len() as int)
    } else if s.len() == 0 {
        s
    } else {
        seq![s[0]] + replaced_first(s.drop_first(), pattern, with)
    }
}

/// `s` with each `from` replaced by `to`.
pub open spec fn replaced_char(s: Seq<char>, from: char, to: char) -> Seq<char> {
    s.map_values(
        |c: char|
            if c == from {
                to
            } else {
                c
            },
    )
}

/// Whether `pattern` stands in `v` at index `at`.
fn stands_at(v: &Vec<char>, at: usize, pattern: &Vec<char>) -> (found: bool)
    requires
        at <= v.len(),
    ensures
        found == begins_with(v@.skip(at as int), pattern@),
{
    if pattern.len() > v.len() - at {
        return false;
    }
    let mut i: usize = 0;
    while i < pattern.len()
        invariant
            i <= pattern.len(),
            at <= v.len(),
            pattern.len() <= v.len() - at,
            forall|j: int| 0 <= j < i ==> v@[at + j] == pattern@[j],
        decreases pattern.len() - i,
    {
        if v[at + i] != pattern[i] {
            return false;
        }
        i += 1;
    }
    assert(v@.skip(at as int).take(pattern.len() as int) == pattern@);
    true
}

/// Whether `s` begins with `prefix`.
pub fn starts_with(s: &str, prefix: &str) -> (found: bool)
    ensures
        found == begins_with(s@, prefix@),
{
    let v = chars_of(s);
    let p = chars_of(prefix);
    assert(v@.skip(0) == v@);
    stands_at(&v, 0, &p)
}

/// `s` with the first occurrence of `pattern` replaced by `with`.
pub fn replace_first(s: &str, pattern: &str, with: &str) -> (out: String)
    ensures
        out@ == replaced_first(s@, pattern@, with@),
{
    let v = chars_of(s);
    let p = chars_of(pattern);
    let mut out = String::new();
    let mut i: usize = 0;
    assert(v@.skip(0) == v@);
    loop
        invariant
            i <= v.len(),
            v@ == s@,
            p@ == pattern@,
            replaced_first(s@, pattern@, with@) == out@ + replaced_first(
                v@.skip(i as int),
                pattern@,
                with@,
            ),
        decreases v.len() - i,
    {
        if stands_at(&v, i, &p) {
            out.append(with);
            let rest = slice_string(&v, i + p.len(), v.len());
            out.append(rest.as_str());
            return out;
        }
        if i == v.len() {
            return out;
        }
        assert(v@.skip(i as int).drop_first() == v@.skip(i + 1));
        out.push(v[i]);
        i += 1;
    }
}

/// `s` with each `from` replaced by `to`.
pub fn replace_char(s: &str, from: char, to: char) -> (out: String)
    ensures
        out@ == replaced_char(s@, from, to),
{
    let v = chars_of(s);
    let mut out = String::new();
    let mut i: usize = 0;
    while i < v.len()
        invariant
            i <= v.len(),
            out@ == replaced_char(v@.take(i as int), from, to),
        decreases v.len() - i,
    {
        if v[i] == from {
            out.push(to);
        } else {
            out.push(v[i]);
        }
        i += 1;
    }
    out
}

} // verus!
