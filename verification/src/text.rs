//! Text: characters, words, numbers in decimal, padding and ordering.
//!
//! A text is the sequence of its characters. The functions here work on that
//! sequence, so none of them depends on how a `String` is encoded.
use vstd::prelude::*;

verus! {

/// `String::push` appends one character to the end of the string.
pub assume_specification[ String::push ](s: &mut String, c: char)
    ensures
        final(s)@ == old(s)@.push(c),
;

/// The characters with the Unicode property White_Space.
pub open spec fn white_space(c: char) -> bool {
    ||| '\u{9}' <= c <= '\u{d}'
    ||| c == ' '
    ||| c == '\u{85}'
    ||| c == '\u{a0}'
    ||| c == '\u{1680}'
    ||| '\u{2000}' <= c <= '\u{200a}'
    ||| c == '\u{2028}'
    ||| c == '\u{2029}'
    ||| c == '\u{202f}'
    ||| c == '\u{205f}'
    ||| c == '\u{3000}'
}

/// `char::is_whitespace` tells whether a character has the Unicode property
/// White_Space.
pub assume_specification[ char::is_whitespace ](c: char) -> (r: bool)
    ensures
        r == white_space(c),
;

/// Whether two texts are the same.
pub fn same(a: &str, b: &str) -> (r: bool)
    ensures
        r == (a@ == b@),
{
    a.to_owned() == b.to_owned()
}

/// The characters of a text, one by one.
pub fn chars_of(s: &str) -> (v: Vec<char>)
    ensures
        v@ == s@,
{
    let mut v: Vec<char> = Vec::new();
    for c in it: s.chars()
        invariant
            it.seq() == s@,
            v@ == s@.take(it.index() as int),
    {
        assert(s@.take(it.index() + 1) == s@.take(it.index() as int).push(c));
        v.push(c);
    }
    assert(s@.take(s@.len() as int) == s@);
    v
}

/// The texts of a list, each as a sequence of characters.
pub open spec fn texts(v: Seq<String>) -> Seq<Seq<char>> {
    v.map_values(|s: String| s@)
}

/// Owned copies of some texts.
pub fn owned(list: &[&str]) -> (r: Vec<String>)
    ensures
        texts(r@) == list@.map_values(|s: &str| s@),
{
    let mut out: Vec<String> = Vec::new();
    let mut i: usize = 0;
    while i < list.len()
        invariant
            i <= list.len(),
            texts(out@) == list@.take(i as int).map_values(|s: &str| s@),
        decreases list.len() - i,
    {
        let s = list[i].to_owned();
        proof {
            assert(texts(out@.push(s)) == texts(out@).push(s@));
            assert(list@.take(i + 1) == list@.take(i as int).push(list@[i as int]));
        }
        out.push(s);
        i += 1;
    }
    assert(list@.take(list.len() as int) == list@);
    out
}

/// The decimal digit of a number below ten.
pub open spec fn digit(d: nat) -> char {
    (48 + d) as char
}

/// A number in decimal, without leading zeros.
pub open spec fn decimal(n: nat) -> Seq<char>
    decreases n,
{
    if n < 10 {
        seq![digit(n)]
    } else {
        decimal(n / 10).push(digit(n % 10))
    }
}

/// Appends a number in decimal.
pub fn push_decimal(out: &mut String, n: usize)
    ensures
        final(out)@ == old(out)@ + decimal(n as nat),
    decreases n,
{
    let ghost before = out@;
    if n >= 10 {
        push_decimal(out, n / 10);
    }
    let d: u8 = (n % 10) as u8;
    out.push((48u8 + d) as char);
    assert(out@ == before + decimal(n as nat));
}

/// The text made of a stretch of characters.
pub fn text_of(v: &Vec<char>, from: usize, to: usize) -> (s: String)
    requires
        from <= to <= v.len(),
    ensures
        s@ == v@.subrange(from as int, to as int),
{
    let mut s = String::new();
    let mut i: usize = from;
    while i < to
        invariant
            from <= i <= to <= v.len(),
            s@ == v@.subrange(from as int, i as int),
        decreases to - i,
    {
        s.push(v[i]);
        i += 1;
    }
    s
}

/// A text without its leading white space.
pub open spec fn skip_white(s: Seq<char>) -> Seq<char>
    decreases s.len(),
{
    if s.len() > 0 && white_space(s[0]) {
        skip_white(s.drop_first())
    } else {
        s
    }
}

/// A text without its trailing white space.
pub open spec fn drop_white(s: Seq<char>) -> Seq<char>
    decreases s.len(),
{
    if s.len() > 0 && white_space(s.last()) {
        drop_white(s.drop_last())
    } else {
        s
    }
}

/// A text without the white space at both ends.
pub open spec fn trimmed(s: Seq<char>) -> Seq<char> {
    drop_white(skip_white(s))
}

/// The word at the start of a text: all of it up to the first white space.
pub open spec fn word(s: Seq<char>) -> Seq<char>
    decreases s.len(),
{
    if s.len() == 0 || white_space(s[0]) {
        Seq::empty()
    } else {
        seq![s[0]] + word(s.drop_first())
    }
}

/// The first word of a text; empty where it has none.
pub open spec fn first_word(s: Seq<char>) -> Seq<char> {
    word(skip_white(s))
}

/// The second word of a text; empty where it has none.
pub open spec fn second_word(s: Seq<char>) -> Seq<char> {
    first_word(skip_white(s).skip(first_word(s).len() as int))
}

/// The index of the first character, from `from` on, that is no white space.
fn solid_from(v: &Vec<char>, from: usize) -> (r: usize)
    requires
        from <= v.len(),
    ensures
        from <= r <= v.len(),
        v@.skip(r as int) == skip_white(v@.skip(from as int)),
{
    let mut i: usize = from;
    while i < v.len() && v[i].is_whitespace()
        invariant
            from <= i <= v.len(),
            skip_white(v@.skip(i as int)) == skip_white(v@.skip(from as int)),
        decreases v.len() - i,
    {
        assert(v@.skip(i as int).drop_first() == v@.skip(i + 1));
        i += 1;
    }
    i
}

/// The end of the word that starts at `from`.
fn word_end(v: &Vec<char>, from: usize) -> (r: usize)
    requires
        from <= v.len(),
    ensures
        from <= r <= v.len(),
        v@.subrange(from as int, r as int) == word(v@.skip(from as int)),
{
    let mut i: usize = from;
    assert(word(v@.skip(from as int)) == v@.subrange(from as int, i as int) + word(v@.skip(i as int)));
    while i < v.len() && !v[i].is_whitespace()
        invariant
            from <= i <= v.len(),
            word(v@.skip(from as int)) == v@.subrange(from as int, i as int) + word(
                v@.skip(i as int),
            ),
        decreases v.len() - i,
    {
        proof {
            let here = v@.skip(i as int);
            assert(here.drop_first() == v@.skip(i + 1));
            assert(v@.subrange(from as int, i as int) + (seq![here[0]] + word(v@.skip(i + 1)))
                == v@.subrange(from as int, i + 1) + word(v@.skip(i + 1)));
        }
        i += 1;
    }
    assert(v@.subrange(from as int, i as int) + word(v@.skip(i as int)) == v@.subrange(
        from as int,
        i as int,
    ));
    i
}

/// The text without the white space at both ends.
pub fn trim(s: &str) -> (r: String)
    ensures
        r@ == trimmed(s@),
{
    let v = chars_of(s);
    assert(v@.skip(0) == v@);
    let from = solid_from(&v, 0);
    let mut to: usize = v.len();
    assert(v@.subrange(from as int, to as int) == v@.skip(from as int));
    while from < to && v[to - 1].is_whitespace()
        invariant
            from <= to <= v.len(),
            drop_white(v@.subrange(from as int, to as int)) == trimmed(v@),
        decreases to,
    {
        assert(v@.subrange(from as int, to as int).drop_last() == v@.subrange(
            from as int,
            to - 1,
        ));
        to -= 1;
    }
    text_of(&v, from, to)
}

/// The first two words of a text.
pub fn two_words(s: &str) -> (r: (String, String))
    ensures
        r.0@ == first_word(s@),
        r.1@ == second_word(s@),
{
    let v = chars_of(s);
    assert(v@.skip(0) == v@);
    let a = solid_from(&v, 0);
    let b = word_end(&v, a);
    assert(v@.skip(b as int) == v@.skip(a as int).skip(b - a));
    let c = solid_from(&v, b);
    let d = word_end(&v, c);
    (text_of(&v, a, b), text_of(&v, c, d))
}

/// At most the first `n` characters of a text.
pub open spec fn first_chars(s: Seq<char>, n: nat) -> Seq<char> {
    if s.len() <= n {
        s
    } else {
        s.take(n as int)
    }
}

/// At most the first `n` characters of a text.
pub fn prefix(s: &str, n: usize) -> (r: String)
    ensures
        r@ == first_chars(s@, n as nat),
{
    let v = chars_of(s);
    let to: usize = if v.len() <= n { v.len() } else { n };
    text_of(&v, 0, to)
}

/// The part of a text before the first occurrence of a character; all of it
/// where the character does not occur.
pub open spec fn until(s: Seq<char>, c: char) -> Seq<char>
    decreases s.len(),
{
    if s.len() == 0 || s[0] == c {
        Seq::empty()
    } else {
        seq![s[0]] + until(s.drop_first(), c)
    }
}

/// The part of a text before the first occurrence of a character.
pub fn before(s: &str, c: char) -> (r: String)
    ensures
        r@ == until(s@, c),
{
    let v = chars_of(s);
    let mut i: usize = 0;
    assert(v@.take(0) + until(v@.skip(0), c) == until(v@, c)) by {
        assert(v@.skip(0) == v@);
    }
    while i < v.len() && v[i] != c
        invariant
            i <= v.len(),
            until(v@, c) == v@.take(i as int) + until(v@.skip(i as int), c),
        decreases v.len() - i,
    {
        proof {
            let here = v@.skip(i as int);
            assert(here.drop_first() == v@.skip(i + 1));
            assert(v@.take(i as int) + (seq![here[0]] + until(v@.skip(i + 1), c)) == v@.take(
                i + 1,
            ) + until(v@.skip(i + 1), c));
        }
        i += 1;
    }
    assert(v@.take(i as int) + until(v@.skip(i as int), c) == v@.subrange(0, i as int));
    text_of(&v, 0, i)
}

/// Whether a text begins with another.
pub fn begins(s: &str, p: &str) -> (r: bool)
    ensures
        r == p@.is_prefix_of(s@),
{
    let v = chars_of(s);
    let w = chars_of(p);
    occurs_at(&v, 0, &w)
}

/// Whether `w` stands in `v` from index `i` on.
fn occurs_at(v: &Vec<char>, i: usize, w: &Vec<char>) -> (r: bool)
    requires
        i <= v.len(),
    ensures
        r == w@.is_prefix_of(v@.skip(i as int)),
        r == (w.len() <= v.len() - i && v@.subrange(i as int, i + w.len()) == w@),
        i == 0 ==> r == w@.is_prefix_of(v@),
{
    assert(v@.skip(0) == v@);
    if w.len() > v.len() - i {
        return false;
    }
    let mut k: usize = 0;
    while k < w.len()
        invariant
            i <= v.len(),
            w.len() <= v.len() - i,
            k <= w.len(),
            forall|j: int| 0 <= j < k ==> v@[i + j] == w@[j],
        decreases w.len() - k,
    {
        if v[i + k] != w[k] {
            assert(v@.skip(i as int)[k as int] != w@[k as int]);
            assert(v@.subrange(i as int, i + w.len())[k as int] != w@[k as int]);
            return false;
        }
        k += 1;
    }
    assert(v@.subrange(i as int, i + w.len()) == w@);
    assert(v@.skip(i as int).subrange(0, w.len() as int) == w@);
    true
}

/// Whether a text occurs somewhere in another.
pub open spec fn occurs(s: Seq<char>, p: Seq<char>) -> bool {
    exists|i: int|
        0 <= i <= s.len() - p.len() && #[trigger] s.subrange(i, i + p.len()) == p
}

/// Whether `p` occurs somewhere in `s`.
pub fn contains(s: &str, p: &str) -> (r: bool)
    ensures
        r == occurs(s@, p@),
{
    let v = chars_of(s);
    let w = chars_of(p);
    let mut i: usize = 0;
    while i < v.len()
        invariant
            v@ == s@,
            w@ == p@,
            i <= v.len(),
            forall|j: int| 0 <= j < i && j <= v.len() - w.len() ==> #[trigger] v@.subrange(j, j + w.len()) != w@,
        decreases v.len() - i,
    {
        if occurs_at(&v, i, &w) {
            return true;
        }
        i += 1;
    }
    occurs_at(&v, i, &w)
}

/// A character in ASCII lower case.
pub open spec fn lower(c: char) -> char {
    if 'A' <= c <= 'Z' {
        (c as int + 32) as char
    } else {
        c
    }
}

/// A text in ASCII lower case.
pub open spec fn lowered(s: Seq<char>) -> Seq<char> {
    s.map_values(|c: char| lower(c))
}

/// A text in ASCII lower case.
pub fn to_lower(s: &str) -> (r: String)
    ensures
        r@ == lowered(s@),
{
    let v = chars_of(s);
    let mut r = String::new();
    let mut i: usize = 0;
    while i < v.len()
        invariant
            i <= v.len(),
            r@ == lowered(v@.take(i as int)),
        decreases v.len() - i,
    {
        let c = v[i];
        let d: char = if 'A' <= c && c <= 'Z' { ((c as u8) + 32u8) as char } else { c };
        r.push(d);
        assert(v@.take(i + 1) == v@.take(i as int).push(c));
        assert(lowered(v@.take(i + 1)) == lowered(v@.take(i as int)).push(lower(c)));
        i += 1;
    }
    assert(v@.take(v.len() as int) == v@);
    r
}

/// A text filled up with spaces on the right to at least `n` characters.
pub open spec fn padded(s: Seq<char>, n: nat) -> Seq<char> {
    if s.len() >= n {
        s
    } else {
        s + Seq::new((n - s.len()) as nat, |i: int| ' ')
    }
}

/// The text filled up with spaces on the right to at least `n` characters.
pub fn pad(s: &str, n: usize) -> (r: String)
    ensures
        r@ == padded(s@, n as nat),
{
    let mut r = s.to_owned();
    let len = s.unicode_len();
    let mut k: usize = len;
    while k < n
        invariant
            len == s@.len(),
            len <= k,
            k <= n || k == len,
            r@ == s@ + Seq::new((k - len) as nat, |i: int| ' '),
        decreases n - k,
    {
        r.push(' ');
        k += 1;
    }
    assert(r@ == padded(s@, n as nat));
    r
}

/// Whether a text stands before another in the order of code points, compared
/// character by character; a text stands before every longer one that begins
/// with it.
pub open spec fn precedes(a: Seq<char>, b: Seq<char>) -> bool
    decreases a.len(),
{
    if b.len() == 0 {
        false
    } else if a.len() == 0 {
        true
    } else if a[0] != b[0] {
        a[0] < b[0]
    } else {
        precedes(a.drop_first(), b.drop_first())
    }
}

/// No text stands before itself, and of two different texts exactly one stands
/// before the other.
pub proof fn order_is_total(a: Seq<char>, b: Seq<char>)
    ensures
        !precedes(a, a),
        a != b ==> precedes(a, b) != precedes(b, a),
    decreases a.len(),
{
    if a.len() > 0 {
        order_is_total(a.drop_first(), a.drop_first());
    }
    if a.len() > 0 && b.len() > 0 && a[0] == b[0] {
        order_is_total(a.drop_first(), b.drop_first());
        if a.drop_first() == b.drop_first() {
            assert(a == seq![a[0]] + a.drop_first());
            assert(b == seq![b[0]] + b.drop_first());
        }
    }
    if a.len() == 0 && b.len() == 0 {
        assert(a == b);
    }
}

/// What stands before a text also stands before all that the text stands before.
pub proof fn order_is_transitive(a: Seq<char>, b: Seq<char>, c: Seq<char>)
    requires
        precedes(a, b),
        precedes(b, c),
    ensures
        precedes(a, c),
    decreases a.len(),
{
    if a.len() > 0 && a[0] == b[0] && b[0] == c[0] {
        order_is_transitive(a.drop_first(), b.drop_first(), c.drop_first());
    }
}

/// Whether `a` stands before `b` in the order of code points.
pub fn less(a: &str, b: &str) -> (r: bool)
    ensures
        r == precedes(a@, b@),
{
    let v = chars_of(a);
    let w = chars_of(b);
    let mut i: usize = 0;
    assert(v@.skip(0) == v@);
    assert(w@.skip(0) == w@);
    while i < v.len() && i < w.len() && v[i] == w[i]
        invariant
            i <= v.len(),
            i <= w.len(),
            precedes(v@, w@) == precedes(v@.skip(i as int), w@.skip(i as int)),
        decreases v.len() - i,
    {
        assert(v@.skip(i as int).drop_first() == v@.skip(i + 1));
        assert(w@.skip(i as int).drop_first() == w@.skip(i + 1));
        i += 1;
    }
    i < w.len() && (i >= v.len() || v[i] < w[i])
}

/// Trimming keeps the middle of a text, where all before and behind it is white
/// space and it neither begins nor ends with any.
pub proof fn trimming_keeps_the_middle(s: Seq<char>, from: int, to: int)
    requires
        0 <= from <= to <= s.len(),
        forall|i: int| 0 <= i < from ==> white_space(#[trigger] s[i]),
        forall|i: int| to <= i < s.len() ==> white_space(#[trigger] s[i]),
        from < to ==> !white_space(s[from]) && !white_space(s[to - 1]),
    ensures
        trimmed(s) == s.subrange(from, to),
{
    if from < to {
        skipping_stops(s, from);
        let rest = s.skip(from);
        dropping_stops(rest, to - from);
        assert(rest.take(to - from) == s.subrange(from, to));
    } else {
        assert forall|i: int| 0 <= i < s.len() implies white_space(#[trigger] s[i]) by {}
        skipping_stops(s, s.len() as int);
        assert(s.skip(s.len() as int) == Seq::<char>::empty());
        assert(s.subrange(from, to) == Seq::<char>::empty());
    }
}

proof fn skipping_stops(s: Seq<char>, n: int)
    requires
        0 <= n <= s.len(),
        forall|i: int| 0 <= i < n ==> white_space(#[trigger] s[i]),
        n < s.len() ==> !white_space(s[n]),
    ensures
        skip_white(s) == s.skip(n),
    decreases n,
{
    if n > 0 {
        assert(white_space(s[0]));
        let rest = s.drop_first();
        assert forall|i: int| 0 <= i < n - 1 implies white_space(#[trigger] rest[i]) by {
            assert(rest[i] == s[i + 1]);
        }
        skipping_stops(rest, n - 1);
        assert(rest.skip(n - 1) == s.skip(n));
    } else {
        assert(s.skip(0) == s);
    }
}

proof fn dropping_stops(s: Seq<char>, n: int)
    requires
        0 <= n <= s.len(),
        forall|i: int| n <= i < s.len() ==> white_space(#[trigger] s[i]),
        n > 0 ==> !white_space(s[n - 1]),
    ensures
        drop_white(s) == s.take(n),
    decreases s.len(),
{
    if s.len() > n {
        assert(white_space(s[s.len() - 1]));
        let rest = s.drop_last();
        assert forall|i: int| n <= i < rest.len() implies white_space(#[trigger] rest[i]) by {
            assert(rest[i] == s[i]);
        }
        dropping_stops(rest, n);
        assert(rest.take(n) == s.take(n));
    } else {
        assert(s.take(n) == s);
    }
}

/// The first two words of a text are its first two stretches without white space:
/// white space, then the first, then white space, then the second, and after that
/// white space or the end.
pub proof fn words_are_between_white_space(s: Seq<char>, a: int, b: int, c: int, d: int)
    requires
        0 <= a <= b <= c <= d <= s.len(),
        forall|i: int| 0 <= i < a ==> white_space(#[trigger] s[i]),
        forall|i: int| a <= i < b ==> !white_space(#[trigger] s[i]),
        forall|i: int| b <= i < c ==> white_space(#[trigger] s[i]),
        forall|i: int| c <= i < d ==> !white_space(#[trigger] s[i]),
        a < s.len() ==> a < b,
        b < s.len() ==> b < c,
        c < s.len() ==> c < d,
        d < s.len() ==> white_space(s[d]),
    ensures
        first_word(s) == s.subrange(a, b),
        second_word(s) == s.subrange(c, d),
{
    skipping_stops(s, a);
    let one = s.skip(a);
    assert forall|i: int| 0 <= i < b - a implies !white_space(#[trigger] one[i]) by {
        assert(one[i] == s[a + i]);
    }
    if b < s.len() {
        assert(one[b - a] == s[b]);
        assert(white_space(s[b]));
    }
    word_stops(one, b - a);
    assert(one.take(b - a) == s.subrange(a, b));
    let two = one.skip(b - a);
    assert(two == s.skip(b));
    assert forall|i: int| 0 <= i < c - b implies white_space(#[trigger] two[i]) by {
        assert(two[i] == s[b + i]);
    }
    if c < s.len() {
        assert(two[c - b] == s[c]);
        assert(!white_space(s[c]));
    }
    skipping_stops(two, c - b);
    let three = two.skip(c - b);
    assert(three == s.skip(c));
    assert forall|i: int| 0 <= i < d - c implies !white_space(#[trigger] three[i]) by {
        assert(three[i] == s[c + i]);
    }
    if d < s.len() {
        assert(three[d - c] == s[d]);
    }
    word_stops(three, d - c);
    assert(three.take(d - c) == s.subrange(c, d));
}

proof fn word_stops(s: Seq<char>, n: int)
    requires
        0 <= n <= s.len(),
        forall|i: int| 0 <= i < n ==> !white_space(#[trigger] s[i]),
        n < s.len() ==> white_space(s[n]),
    ensures
        word(s) == s.take(n),
    decreases n,
{
    if n > 0 {
        assert(!white_space(s[0]));
        let rest = s.drop_first();
        assert forall|i: int| 0 <= i < n - 1 implies !white_space(#[trigger] rest[i]) by {
            assert(rest[i] == s[i + 1]);
        }
        word_stops(rest, n - 1);
        assert(seq![s[0]] + rest.take(n - 1) == s.take(n));
    } else {
        assert(s.take(0) == Seq::<char>::empty());
    }
}

/// The part before a character is a beginning of the text without that character,
/// and goes up to it or to the end.
pub proof fn until_stops_at_the_first(s: Seq<char>, c: char)
    ensures
        until(s, c).is_prefix_of(s),
        !until(s, c).contains(c),
        until(s, c).len() < s.len() ==> s[until(s, c).len() as int] == c,
    decreases s.len(),
{
    if s.len() > 0 && s[0] != c {
        let rest = s.drop_first();
        let u = until(rest, c);
        until_stops_at_the_first(rest, c);
        let all = seq![s[0]] + u;
        assert(all == s.take(all.len() as int)) by {
            assert forall|i: int| 0 <= i < all.len() implies all[i] == s[i] by {
                if i > 0 {
                    assert(u[i - 1] == rest[i - 1]);
                }
            }
        }
        assert forall|i: int| 0 <= i < all.len() implies all[i] != c by {
            if i > 0 {
                assert(u[i - 1] != c);
            }
        }
        if all.len() < s.len() {
            assert(rest[u.len() as int] == s[all.len() as int]);
        }
    }
}

/// A text that is cut keeps its beginning, all of it where it is short enough.
pub proof fn cutting_keeps_the_beginning(s: Seq<char>, n: nat)
    ensures
        first_chars(s, n).is_prefix_of(s),
        first_chars(s, n).len() == if s.len() < n {
            s.len()
        } else {
            n
        },
{
}

/// A text that is filled up begins with the text, goes on with spaces, and is as
/// long as asked for or as the text.
pub proof fn padding_appends_spaces(s: Seq<char>, n: nat)
    ensures
        s.is_prefix_of(padded(s, n)),
        padded(s, n).len() == if s.len() < n {
            n
        } else {
            s.len()
        },
        forall|i: int| s.len() <= i < padded(s, n).len() ==> #[trigger] padded(s, n)[i] == ' ',
{
}

/// Lower case changes the 26 capital letters of ASCII, each to its small one, and no
/// other character.
pub proof fn lower_case_changes_capitals(s: Seq<char>, i: int)
    requires
        0 <= i < s.len(),
    ensures
        lowered(s).len() == s.len(),
        'A' <= s[i] <= 'Z' ==> lowered(s)[i] as int == s[i] as int + ('a' as int - 'A' as int),
        !('A' <= s[i] <= 'Z') ==> lowered(s)[i] == s[i],
{
}

/// The number that decimal digits stand for.
pub open spec fn value_of(digits: Seq<char>) -> int
    decreases digits.len(),
{
    if digits.len() == 0 {
        0
    } else {
        value_of(digits.drop_last()) * 10 + (digits.last() as int - '0' as int)
    }
}

/// A number's digits stand for it. They are digits all, at least one, and the first
/// is no zero unless it is the only one.
pub proof fn decimal_reads_back(n: nat)
    ensures
        value_of(decimal(n)) == n,
        decimal(n).len() > 0,
        decimal(n).len() > 1 ==> decimal(n)[0] != '0',
        n > 0 ==> decimal(n)[0] != '0',
        forall|i: int| 0 <= i < decimal(n).len() ==> '0' <= #[trigger] decimal(n)[i] <= '9',
    decreases n,
{
    if n >= 10 {
        decimal_reads_back(n / 10);
        let d = decimal(n / 10);
        assert(decimal(n).drop_last() == d);
        assert forall|i: int| 0 <= i < decimal(n).len() implies '0' <= #[trigger] decimal(n)[i]
            <= '9' by {
            if i < d.len() {
                assert(decimal(n)[i] == d[i]);
            }
        }
    } else {
        assert(decimal(n).drop_last() == Seq::<char>::empty());
        reveal_with_fuel(value_of, 2);
    }
}

/// A text stands before another where the two first differ at a character that is
/// smaller there, or where it ends and the other goes on.
pub proof fn order_is_by_the_first_difference(a: Seq<char>, b: Seq<char>, k: int)
    requires
        0 <= k <= a.len(),
        k < b.len(),
        forall|i: int| 0 <= i < k ==> #[trigger] a[i] == b[i],
        k < a.len() ==> a[k] != b[k],
    ensures
        precedes(a, b) <==> k == a.len() || a[k] < b[k],
    decreases k,
{
    if k > 0 {
        assert(a[0] == b[0]);
        let (c, d) = (a.drop_first(), b.drop_first());
        assert forall|i: int| 0 <= i < k - 1 implies #[trigger] c[i] == d[i] by {
            assert(c[i] == a[i + 1] && d[i] == b[i + 1]);
            assert(a[i + 1] == b[i + 1]);
        }
        order_is_by_the_first_difference(c, d, k - 1);
    }
}

/// A text occurs in another exactly where the other is something, then it, then
/// something.
pub proof fn occurring_is_being_in_between(s: Seq<char>, p: Seq<char>, a: Seq<char>, b: Seq<char>)
    ensures
        s == a + p + b ==> occurs(s, p),
        occurs(s, p) ==> exists|i: int|
            0 <= i <= s.len() - p.len() && s == #[trigger] s.take(i) + p + s.skip(i + p.len()),
{
    if s == a + p + b {
        let k = a.len() as int;
        assert(s.subrange(k, k + p.len()) == p);
    }
    if occurs(s, p) {
        let i = choose|i: int|
            0 <= i <= s.len() - p.len() && #[trigger] s.subrange(i, i + p.len()) == p;
        assert(s == s.take(i) + p + s.skip(i + p.len())) by {
            assert(s == s.take(i) + s.subrange(i, i + p.len()) + s.skip(i + p.len()));
        }
    }
}

} // verus!
