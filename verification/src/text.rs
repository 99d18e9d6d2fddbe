//! Text as sequences of characters: the small vocabulary of operations that the
//! rest of the crate builds command lines, paths and messages from.
//!
//! Every operation has a mathematical counterpart over `Seq<char>`; the
//! executable functions are proved to compute exactly that.

use vstd::prelude::*;
use vstd::string::*;

verus! {

/// `String::push` appends one character at the end of the string.
///
/// Trusted: taken from the documentation of the standard library.
pub assume_specification[ String::push ](s: &mut String, c: char)
    ensures
        final(s)@ == old(s)@.push(c),
;

/// `==` on string slices holds exactly when both hold the same characters.
///
/// Trusted: taken from the documentation of the standard library.
pub assume_specification[ <str as PartialEq>::eq ](a: &str, b: &str) -> (r: bool)
    ensures
        r == (a@ == b@),
;

/// The character contents of a list of strings.
pub open spec fn texts(v: Seq<String>) -> Seq<Seq<char>> {
    v.map_values(|s: String| s@)
}

/// The character contents of a list of key and value pairs.
pub open spec fn pairs(v: Seq<(String, String)>) -> Seq<(Seq<char>, Seq<char>)> {
    v.map_values(|p: (String, String)| (p.0@, p.1@))
}

pub proof fn lemma_texts_push(v: Seq<String>, s: String)
    ensures
        texts(v.push(s)) == texts(v).push(s@),
{
    assert(texts(v.push(s)) =~= texts(v).push(s@));
}

pub proof fn lemma_pairs_push(v: Seq<(String, String)>, p: (String, String))
    ensures
        pairs(v.push(p)) == pairs(v).push((p.0@, p.1@)),
{
    assert(pairs(v.push(p)) =~= pairs(v).push((p.0@, p.1@)));
}

/// The characters of `s`, in a vector that can be indexed in constant time.
pub fn chars_of(s: &str) -> (r: Vec<char>)
    ensures
        r@ == s@,
{
    let mut out: Vec<char> = Vec::new();
    for c in it: s.chars()
        invariant
            out@ == it.seq().take(it.index@),
    {
        out.push(c);
    }
    out
}

/// The string made of `chars[from..to]`.
pub fn text_of(chars: &Vec<char>, from: usize, to: usize) -> (r: String)
    requires
        from <= to <= chars.len(),
    ensures
        r@ == chars@.subrange(from as int, to as int),
{
    let mut out = String::new();
    let mut i: usize = from;
    while i < to
        invariant
            from <= i <= to <= chars.len(),
            out@ == chars@.subrange(from as int, i as int),
        decreases to - i,
    {
        out.push(chars[i]);
        i = i + 1;
        assert(out@ =~= chars@.subrange(from as int, i as int));
    }
    out
}

/// `a` followed by `b`.
pub fn concat2(a: &str, b: &str) -> (r: String)
    ensures
        r@ == a@ + b@,
{
    let mut out = String::from_str(a);
    out.append(b);
    out
}

/// `a`, `b` and `c`, one after the other.
pub fn concat3(a: &str, b: &str, c: &str) -> (r: String)
    ensures
        r@ == a@ + b@ + c@,
{
    let mut out = String::from_str(a);
    out.append(b);
    out.append(c);
    out
}

/// Whether `needle` occurs in `hay` as a run of consecutive characters.
pub open spec fn occurs_in(needle: Seq<char>, hay: Seq<char>) -> bool {
    exists|i: int| occurs_at(needle, hay, i)
}

/// Whether `needle` stands in `hay` at position `i`.
pub open spec fn occurs_at(needle: Seq<char>, hay: Seq<char>, i: int) -> bool {
    0 <= i && i + needle.len() <= hay.len() && hay.subrange(i, i + needle.len()) == needle
}

fn matches_at(needle: &Vec<char>, hay: &Vec<char>, i: usize) -> (r: bool)
    requires
        i + needle.len() <= hay.len(),
    ensures
        r == occurs_at(needle@, hay@, i as int),
{
    let m: usize = needle.len();
    let mut j: usize = 0;
    while j < m
        invariant
            j <= m == needle.len(),
            i + m <= hay.len(),
            hay@.subrange(i as int, i + j) == needle@.subrange(0, j as int),
        decreases m - j,
    {
        if hay[i + j] != needle[j] {
            proof {
                let w = hay@.subrange(i as int, i + m);
                assert(w[j as int] != needle@[j as int]);
            }
            return false;
        }
        j = j + 1;
        assert(hay@.subrange(i as int, i + j) =~= needle@.subrange(0, j as int)) by {
            let a = hay@.subrange(i as int, i + j);
            let b = needle@.subrange(0, j as int);
            let a0 = hay@.subrange(i as int, i + j - 1);
            let b0 = needle@.subrange(0, j as int - 1);
            assert(a0 == b0);
            assert forall|k: int| 0 <= k < j implies a[k] == b[k] by {
                if k < j - 1 {
                    assert(a[k] == a0[k]);
                    assert(b[k] == b0[k]);
                }
            }
        }
    }
    assert(needle@.subrange(0, m as int) =~= needle@);
    true
}

/// Whether `needle` occurs in `hay`, as `str::contains` does for a string pattern.
pub fn contains(hay: &str, needle: &str) -> (r: bool)
    ensures
        r == occurs_in(needle@, hay@),
{
    let h = chars_of(hay);
    let p = chars_of(needle);
    if p.len() > h.len() {
        return false;
    }
    let last: usize = h.len() - p.len();
    let mut i: usize = 0;
    loop
        invariant
            i <= last,
            last == h.len() - p.len(),
            p.len() <= h.len(),
            h@ == hay@,
            p@ == needle@,
            forall|k: int| 0 <= k < i ==> !occurs_at(p@, h@, k),
        decreases last - i,
    {
        if matches_at(&p, &h, i) {
            return true;
        }
        if i == last {
            return false;
        }
        i = i + 1;
    }
}

/// Whether `hay` begins with `prefix`, as `str::starts_with` does.
pub fn starts_with(hay: &str, prefix: &str) -> (r: bool)
    ensures
        r == prefix@.is_prefix_of(hay@),
{
    let h = chars_of(hay);
    let p = chars_of(prefix);
    if p.len() > h.len() {
        return false;
    }
    let r = matches_at(&p, &h, 0);
    proof {
        if prefix@.is_prefix_of(hay@) {
            assert(hay@.subrange(0, prefix@.len() as int) =~= prefix@);
        }
    }
    r
}

/// The position of the first `sep` in `s`, or the length of `s` if there is none.
pub open spec fn first_index(s: Seq<char>, sep: char) -> int
    decreases s.len(),
{
    if s.len() == 0 || s[0] == sep {
        0
    } else {
        1 + first_index(s.drop_first(), sep)
    }
}

pub proof fn lemma_first_index(s: Seq<char>, sep: char)
    ensures
        0 <= first_index(s, sep) <= s.len(),
        forall|k: int| 0 <= k < first_index(s, sep) ==> s[k] != sep,
        first_index(s, sep) < s.len() ==> s[first_index(s, sep)] == sep,
    decreases s.len(),
{
    if s.len() == 0 || s[0] == sep {
    } else {
        lemma_first_index(s.drop_first(), sep);
        let t = s.drop_first();
        assert forall|k: int| 0 <= k < first_index(s, sep) implies s[k] != sep by {
            if k > 0 {
                assert(s[k] == t[k - 1]);
            }
        }
    }
}

/// A position before which `sep` does not occur, and where it stands or `s` ends,
/// is the first index of `sep`.
pub proof fn lemma_first_index_is(s: Seq<char>, sep: char, i: int)
    requires
        0 <= i <= s.len(),
        forall|k: int| 0 <= k < i ==> s[k] != sep,
        i < s.len() ==> s[i] == sep,
    ensures
        first_index(s, sep) == i,
{
    lemma_first_index(s, sep);
    let f = first_index(s, sep);
    if f < i {
        assert(s[f] == sep);
    } else if i < f {
        assert(s[i] == sep);
    }
}

/// The pieces of `s` between occurrences of `sep`, as `str::split` gives them
/// for a character pattern: one piece more than there are separators.
pub open spec fn split(s: Seq<char>, sep: char) -> Seq<Seq<char>>
    decreases s.len(),
{
    let i = first_index(s, sep);
    if 0 <= i < s.len() {
        seq![s.take(i)] + split(s.skip(i + 1), sep)
    } else {
        seq![s]
    }
}

/// The pieces found so far, followed by the split of what is left.
spec fn split_from(chars: Seq<char>, sep: char, done: Seq<Seq<char>>, start: int) -> Seq<Seq<char>> {
    done + split(chars.skip(start), sep)
}

/// The pieces of `s` between occurrences of `sep`.
pub fn split_on(s: &str, sep: char) -> (r: Vec<String>)
    ensures
        texts(r@) == split(s@, sep),
{
    let chars = chars_of(s);
    let n: usize = chars.len();
    let mut out: Vec<String> = Vec::new();
    let mut start: usize = 0;
    let mut i: usize = 0;
    assert(chars@.skip(0) =~= chars@);
    assert(texts(out@) =~= Seq::<Seq<char>>::empty());
    while i < n
        invariant
            start <= i <= n == chars.len(),
            chars@ == s@,
            split_from(chars@, sep, texts(out@), start as int) == split(s@, sep),
            forall|k: int| start <= k < i ==> chars@[k] != sep,
        decreases n - i,
    {
        if chars[i] == sep {
            let piece = text_of(&chars, start, i);
            proof {
                let rest = chars@.skip(start as int);
                lemma_first_index_is(rest, sep, i - start);
                assert(rest.take(i - start) =~= chars@.subrange(start as int, i as int));
                assert(rest.skip(i - start + 1) =~= chars@.skip(i + 1));
                lemma_texts_push(out@, piece);
                assert(texts(out@).push(piece@) + split(chars@.skip(i + 1), sep) =~= texts(out@)
                    + (seq![piece@] + split(chars@.skip(i + 1), sep)));
            }
            out.push(piece);
            start = i + 1;
        }
        i = i + 1;
    }
    let piece = text_of(&chars, start, n);
    proof {
        let rest = chars@.skip(start as int);
        lemma_first_index_is(rest, sep, n - start);
        assert(rest =~= chars@.subrange(start as int, n as int));
        lemma_texts_push(out@, piece);
        assert(texts(out@).push(piece@) =~= texts(out@) + seq![piece@]);
    }
    out.push(piece);
    out
}

/// The decimal digit for `d`, where `d < 10`.
pub open spec fn digit(d: nat) -> char {
    if d == 0 {
        '0'
    } else if d == 1 {
        '1'
    } else if d == 2 {
        '2'
    } else if d == 3 {
        '3'
    } else if d == 4 {
        '4'
    } else if d == 5 {
        '5'
    } else if d == 6 {
        '6'
    } else if d == 7 {
        '7'
    } else if d == 8 {
        '8'
    } else {
        '9'
    }
}

/// `n` written in decimal, without sign or leading zeros.
pub open spec fn decimal(n: nat) -> Seq<char>
    decreases n,
{
    if n < 10 {
        seq![digit(n)]
    } else {
        decimal(n / 10).push(digit(n % 10))
    }
}

fn digit_char(d: u64) -> (c: char)
    requires
        d < 10,
    ensures
        c == digit(d as nat),
{
    if d == 0 {
        '0'
    } else if d == 1 {
        '1'
    } else if d == 2 {
        '2'
    } else if d == 3 {
        '3'
    } else if d == 4 {
        '4'
    } else if d == 5 {
        '5'
    } else if d == 6 {
        '6'
    } else if d == 7 {
        '7'
    } else if d == 8 {
        '8'
    } else {
        '9'
    }
}

/// Appends `n` in decimal to `out`.
pub fn push_decimal(out: &mut String, n: u64)
    ensures
        final(out)@ == old(out)@ + decimal(n as nat),
    decreases n,
{
    if n >= 10 {
        push_decimal(out, n / 10);
    }
    out.push(digit_char(n % 10));
    proof {
        if n >= 10 {
            assert(final(out)@ =~= old(out)@ + decimal(n as nat));
        } else {
            assert(final(out)@ =~= old(out)@ + decimal(n as nat));
        }
    }
}

/// `n` in decimal.
pub fn decimal_text(n: u64) -> (r: String)
    ensures
        r@ == decimal(n as nat),
{
    let mut out = String::new();
    push_decimal(&mut out, n);
    assert(out@ =~= decimal(n as nat));
    out
}

/// The `parts`, with `sep` between each two neighbours.
pub open spec fn join(parts: Seq<Seq<char>>, sep: Seq<char>) -> Seq<char>
    decreases parts.len(),
{
    if parts.len() == 0 {
        Seq::empty()
    } else if parts.len() == 1 {
        parts[0]
    } else {
        join(parts.drop_last(), sep) + sep + parts.last()
    }
}

/// The `parts`, with `sep` between each two neighbours, as `join` on a slice of
/// strings gives them.
pub fn joined(parts: &Vec<String>, sep: &str) -> (r: String)
    ensures
        r@ == join(texts(parts@), sep@),
{
    let mut out = String::new();
    let n: usize = parts.len();
    let mut i: usize = 0;
    while i < n
        invariant
            i <= n == parts.len(),
            out@ == join(texts(parts@).take(i as int), sep@),
        decreases n - i,
    {
        let ghost before = texts(parts@).take(i as int);
        let ghost after = texts(parts@).take(i + 1);
        proof {
            assert(after.drop_last() =~= before);
            assert(after.last() == parts@[i as int]@);
        }
        if i > 0 {
            out.append(sep);
        }
        out.append(parts[i].as_str());
        proof {
            if i == 0 {
                assert(out@ =~= after[0]);
            }
        }
        i = i + 1;
    }
    assert(texts(parts@).take(n as int) =~= texts(parts@));
    out
}

/// `s` without the occurrences of `c`.
pub open spec fn without(s: Seq<char>, c: char) -> Seq<char> {
    s.filter(|x: char| x != c)
}

/// `s` without the occurrences of `c`, as `str::replace` gives it when a
/// one-character pattern is replaced by nothing.
pub fn removed(s: &str, c: char) -> (r: String)
    ensures
        r@ == without(s@, c),
{
    let chars = chars_of(s);
    let n: usize = chars.len();
    let mut out = String::new();
    let mut i: usize = 0;
    assert(chars@.take(0) =~= Seq::<char>::empty());
    while i < n
        invariant
            i <= n == chars.len(),
            out@ == without(chars@.take(i as int), c),
        decreases n - i,
    {
        proof {
            let pred = |x: char| x != c;
            assert(chars@.take(i + 1) =~= chars@.take(i as int).push(chars@[i as int]));
            assert(chars@.take(i + 1).drop_last() =~= chars@.take(i as int));
            reveal(Seq::filter);
        }
        if chars[i] != c {
            out.push(chars[i]);
        }
        i = i + 1;
    }
    assert(chars@.take(n as int) =~= chars@);
    out
}

/// The first `n` characters of `s`, or all of `s` if it has fewer.
pub open spec fn prefix(s: Seq<char>, n: nat) -> Seq<char> {
    if s.len() <= n {
        s
    } else {
        s.take(n as int)
    }
}

/// The first `n` characters of `s`, or all of `s` if it has fewer.
pub fn cut(s: &str, n: usize) -> (r: String)
    ensures
        r@ == prefix(s@, n as nat),
{
    let chars = chars_of(s);
    if chars.len() <= n {
        let r = text_of(&chars, 0, chars.len());
        assert(chars@.subrange(0, chars.len() as int) =~= chars@);
        r
    } else {
        text_of(&chars, 0, n)
    }
}

/// What a filter keeps: the items of the sequence that meet the condition,
/// and nothing else.
pub proof fn lemma_filter_contains<A>(s: Seq<A>, pred: spec_fn(A) -> bool, a: A)
    ensures
        s.filter(pred).contains(a) <==> (s.contains(a) && pred(a)),
    decreases s.len(),
{
    reveal(Seq::filter);
    if s.len() > 0 {
        let shorter = s.drop_last();
        lemma_filter_contains(shorter, pred, a);
        if s.filter(pred).contains(a) {
            let i = choose|i: int| 0 <= i < s.filter(pred).len() && s.filter(pred)[i] == a;
            if pred(s.last()) && i == s.filter(pred).len() - 1 {
                assert(s[s.len() - 1] == a);
            } else {
                assert(shorter.filter(pred)[i] == a);
                assert(shorter.filter(pred).contains(a));
                let j = choose|j: int| 0 <= j < shorter.len() && shorter[j] == a;
                assert(s[j] == a);
            }
        }
        if s.contains(a) && pred(a) {
            let j = choose|j: int| 0 <= j < s.len() && s[j] == a;
            if j == s.len() - 1 {
                assert(s.filter(pred)[s.filter(pred).len() - 1] == a);
            } else {
                assert(shorter[j] == a);
                assert(shorter.filter(pred).contains(a));
                let i = choose|i: int|
                    0 <= i < shorter.filter(pred).len() && shorter.filter(pred)[i] == a;
                assert(s.filter(pred)[i] == a);
            }
        }
    }
}

/// Appends a copy of `s` to the list `v`.
pub fn push_text(v: &mut Vec<String>, s: &str)
    ensures
        texts(final(v)@) == texts(old(v)@).push(s@),
{
    let item = String::from_str(s);
    proof {
        lemma_texts_push(v@, item);
    }
    v.push(item);
}

/// Appends copies of the items of `more` to the list `v`.
pub fn push_texts(v: &mut Vec<String>, more: &Vec<String>)
    ensures
        texts(final(v)@) == texts(old(v)@) + texts(more@),
{
    let n: usize = more.len();
    let mut i: usize = 0;
    assert(texts(v@) =~= texts(old(v)@) + texts(more@).take(0));
    while i < n
        invariant
            i <= n == more.len(),
            texts(v@) == texts(old(v)@) + texts(more@).take(i as int),
        decreases n - i,
    {
        let ghost before = v@;
        push_text(v, more[i].as_str());
        assert(texts(v@) =~= texts(old(v)@) + texts(more@).take(i + 1));
        i = i + 1;
    }
    assert(texts(more@).take(n as int) =~= texts(more@));
}

/// Each of the `values` with `flag` before it, as the arguments of a command
/// that takes the flag once for each value.
pub open spec fn flagged(flag: Seq<char>, values: Seq<Seq<char>>) -> Seq<Seq<char>>
    decreases values.len(),
{
    if values.len() == 0 {
        Seq::empty()
    } else {
        flagged(flag, values.drop_last()).push(flag).push(values.last())
    }
}

/// Appends to `v` each of the `values` with `flag` before it.
pub fn push_flagged(v: &mut Vec<String>, flag: &str, values: &Vec<String>)
    ensures
        texts(final(v)@) == texts(old(v)@) + flagged(flag@, texts(values@)),
{
    let n: usize = values.len();
    let mut i: usize = 0;
    assert(texts(v@) =~= texts(old(v)@) + flagged(flag@, texts(values@).take(0)));
    while i < n
        invariant
            i <= n == values.len(),
            texts(v@) == texts(old(v)@) + flagged(flag@, texts(values@).take(i as int)),
        decreases n - i,
    {
        proof {
            assert(texts(values@).take(i + 1).drop_last() =~= texts(values@).take(i as int));
        }
        push_text(v, flag);
        push_text(v, values[i].as_str());
        assert(texts(v@) =~= texts(old(v)@) + flagged(flag@, texts(values@).take(i + 1)));
        i = i + 1;
    }
    assert(texts(values@).take(n as int) =~= texts(values@));
}

/// Every value that stands in `flagged(flag, values)` behind the flag is one
/// of the values, and each of the values stands there.
pub proof fn lemma_flagged(flag: Seq<char>, values: Seq<Seq<char>>)
    ensures
        flagged(flag, values).len() == 2 * values.len(),
        forall|i: int|
            0 <= i < values.len() ==> #[trigger] flagged(flag, values)[2 * i] == flag && flagged(
                flag,
                values,
            )[2 * i + 1] == values[i],
    decreases values.len(),
{
    if values.len() > 0 {
        lemma_flagged(flag, values.drop_last());
        let shorter = flagged(flag, values.drop_last());
        assert forall|i: int| 0 <= i < values.len() implies #[trigger] flagged(flag, values)[2 * i]
            == flag && flagged(flag, values)[2 * i + 1] == values[i] by {
            if i < values.len() - 1 {
                assert(flagged(flag, values)[2 * i] == shorter[2 * i]);
                assert(flagged(flag, values)[2 * i + 1] == shorter[2 * i + 1]);
                assert(values.drop_last()[i] == values[i]);
            }
        }
    }
}

/// The word `true` in any mix of upper and lower case: the texts that
/// lowercasing turns into `true`.
pub open spec fn spells_true(s: Seq<char>) -> bool {
    &&& s.len() == 4
    &&& (s[0] == 't' || s[0] == 'T')
    &&& (s[1] == 'r' || s[1] == 'R')
    &&& (s[2] == 'u' || s[2] == 'U')
    &&& (s[3] == 'e' || s[3] == 'E')
}

pub fn is_true_word(s: &str) -> (r: bool)
    ensures
        r == spells_true(s@),
{
    let c = chars_of(s);
    c.len() == 4 && (c[0] == 't' || c[0] == 'T') && (c[1] == 'r' || c[1] == 'R') && (c[2] == 'u'
        || c[2] == 'U') && (c[3] == 'e' || c[3] == 'E')
}

} // verus!
