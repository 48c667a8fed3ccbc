//! Character-sequence vocabulary shared by the rest of the crate.
//!
//! Contracts throughout the crate are stated over `Seq<char>`, the view of
//! `str` and `String`. This module defines the few operations on such
//! sequences that those contracts need (splitting at a separator, joining,
//! decimal rendering of integers), proves the facts about them that the
//! round-trip laws rest on, and implements them on real strings.

use vstd::prelude::*;

verus! {

/// `String::push` of the standard library, which vstd leaves unspecified.
/// Its documentation says that it appends the given `char` to the end of the
/// string; the contract states exactly that over the string's view.
pub assume_specification[ String::push ](s: &mut String, c: char)
    ensures
        final(s)@ == old(s)@.push(c),
;

/// The view of a `Result`, taken on both sides.
pub open spec fn result_view<T: DeepView, E: DeepView>(r: Result<T, E>) -> Result<T::V, E::V> {
    match r {
        Ok(t) => Ok(t.deep_view()),
        Err(e) => Err(e.deep_view()),
    }
}

/// Index of the first occurrence of `c` in `s`, or `s.len()` if there is none.
pub open spec fn index_of(s: Seq<char>, c: char) -> int
    decreases s.len(),
{
    if s.len() == 0 {
        0
    } else if s[0] == c {
        0
    } else {
        1 + index_of(s.drop_first(), c)
    }
}

/// The pieces of `s` between occurrences of `sep`. There is always at least
/// one piece; `n` separators give `n + 1` pieces, some of which may be empty.
pub open spec fn split(s: Seq<char>, sep: char) -> Seq<Seq<char>>
    decreases s.len(),
{
    let i = index_of(s, sep);
    if 0 <= i < s.len() {
        seq![s.take(i)] + split(s.skip(i + 1), sep)
    } else {
        seq![s]
    }
}

/// The pieces of `parts` written one after the other with `sep` between them.
pub open spec fn join(parts: Seq<Seq<char>>, sep: char) -> Seq<char>
    decreases parts.len(),
{
    if parts.len() == 0 {
        Seq::empty()
    } else if parts.len() == 1 {
        parts[0]
    } else {
        parts[0] + seq![sep] + join(parts.drop_first(), sep)
    }
}

/// The decimal digit `d`, for `0 <= d <= 9`.
pub open spec fn digit(d: int) -> char {
    if d == 0 {
        '0'
    } else if d == 1 {
        '1'
    } else if d == 2 {
        '2'
    } else if d == 3 {
        '3'
    } else if d == 4 {
        '4'
    } else if d == 5 {
        '5'
    } else if d == 6 {
        '6'
    } else if d == 7 {
        '7'
    } else if d == 8 {
        '8'
    } else {
        '9'
    }
}

/// Decimal rendering of a natural number, without leading zeros.
pub open spec fn decimal_nat(n: nat) -> Seq<char>
    decreases n,
{
    if n < 10 {
        seq![digit(n as int)]
    } else {
        decimal_nat(n / 10).push(digit((n % 10) as int))
    }
}

/// Decimal rendering of an integer, with a leading `-` when negative.
pub open spec fn decimal(i: int) -> Seq<char> {
    if i < 0 {
        seq!['-'] + decimal_nat((-i) as nat)
    } else {
        decimal_nat(i as nat)
    }
}

/// `index_of` stays within `0..=s.len()`, points at `c` when inside, and
/// nothing before it is `c`.
pub proof fn lemma_index_of(s: Seq<char>, c: char)
    ensures
        0 <= index_of(s, c) <= s.len(),
        index_of(s, c) < s.len() ==> s[index_of(s, c)] == c,
        forall|j: int| 0 <= j < index_of(s, c) ==> s[j] != c,
        index_of(s, c) == s.len() <==> !s.contains(c),
    decreases s.len(),
{
    if s.len() == 0 {
    } else if s[0] == c {
        assert(s.contains(c));
    } else {
        let t = s.drop_first();
        lemma_index_of(t, c);
        let i = index_of(t, c);
        assert forall|j: int| 0 <= j < index_of(s, c) implies s[j] != c by {
            if j > 0 {
                assert(s[j] == t[j - 1]);
            }
        }
        if i < t.len() {
            assert(s[i + 1] == t[i]);
            assert(s.contains(c));
        } else {
            if s.contains(c) {
                let k = choose|k: int| 0 <= k < s.len() && s[k] == c;
                assert(t[k - 1] == c);
                assert(t.contains(c));
            }
        }
    }
}

/// A sequence without the separator is a single piece.
pub proof fn lemma_split_whole(s: Seq<char>, sep: char)
    requires
        !s.contains(sep),
    ensures
        split(s, sep) == seq![s],
{
    lemma_index_of(s, sep);
}

/// Splitting `a + [sep] + b`, where `a` is free of the separator, gives `a`
/// and then the pieces of `b`.
pub proof fn lemma_split_first(a: Seq<char>, sep: char, b: Seq<char>)
    requires
        !a.contains(sep),
    ensures
        split(a + seq![sep] + b, sep) == seq![a] + split(b, sep),
{
    let s = a + seq![sep] + b;
    lemma_index_of(s, sep);
    let i = index_of(s, sep);
    assert(s[a.len() as int] == sep);
    assert(s.contains(sep));
    if i < a.len() {
        assert(a[i] == s[i]);
        assert(a.contains(sep));
    }
    assert(i == a.len());
    assert(s.take(i) =~= a);
    assert(s.skip(i + 1) =~= b);
}

/// Joining pieces that are free of the separator and splitting again gives
/// the pieces back.
pub proof fn lemma_split_join(parts: Seq<Seq<char>>, sep: char)
    requires
        parts.len() > 0,
        forall|i: int| 0 <= i < parts.len() ==> !(#[trigger] parts[i]).contains(sep),
    ensures
        split(join(parts, sep), sep) == parts,
    decreases parts.len(),
{
    if parts.len() == 1 {
        lemma_split_whole(parts[0], sep);
        assert(seq![parts[0]] =~= parts);
    } else {
        let rest = parts.drop_first();
        assert forall|i: int| 0 <= i < rest.len() implies !(#[trigger] rest[i]).contains(sep) by {
            assert(rest[i] == parts[i + 1]);
        }
        lemma_split_join(rest, sep);
        lemma_split_first(parts[0], sep, join(rest, sep));
        assert(seq![parts[0]] + rest =~= parts);
    }
}

/// No piece of a split contains the separator, and every split has a piece.
pub proof fn lemma_split_pieces(s: Seq<char>, sep: char)
    ensures
        split(s, sep).len() >= 1,
        forall|i: int| 0 <= i < split(s, sep).len() ==> !(#[trigger] split(s, sep)[i]).contains(sep),
    decreases s.len(),
{
    lemma_index_of(s, sep);
    let i = index_of(s, sep);
    if 0 <= i < s.len() {
        let head = s.take(i);
        let tail = s.skip(i + 1);
        lemma_split_pieces(tail, sep);
        if head.contains(sep) {
            let k = choose|k: int| 0 <= k < head.len() && head[k] == sep;
            assert(s[k] == sep);
        }
        assert forall|j: int| 0 <= j < split(s, sep).len() implies !(#[trigger] split(s, sep)[j]).contains(sep) by {
            if j > 0 {
                assert(split(s, sep)[j] == split(tail, sep)[j - 1]);
            }
        }
    }
}

/// The characters of `s`, in order.
pub fn chars_of(s: &str) -> (v: Vec<char>)
    ensures
        v@ == s@,
{
    let mut v: Vec<char> = Vec::new();
    for c in it: s.chars()
        invariant
            v@ == it.seq().take(it.index() as int),
            it.seq() == s@,
    {
        v.push(c);
        assert(it.seq().take(it.index() + 1) =~= it.seq().take(it.index() as int).push(c));
    }
    v
}

/// Appends `v[from..to]` to `s`.
pub fn push_range(s: &mut String, v: &Vec<char>, from: usize, to: usize)
    requires
        from <= to <= v.len(),
    ensures
        final(s)@ == old(s)@ + v@.subrange(from as int, to as int),
{
    let mut i: usize = from;
    while i < to
        invariant
            from <= i <= to <= v.len(),
            s@ == old(s)@ + v@.subrange(from as int, i as int),
        decreases to - i,
    {
        s.push(v[i]);
        assert(v@.subrange(from as int, i + 1) =~= v@.subrange(from as int, i as int).push(v@[i as int]));
        i = i + 1;
    }
}

/// The string made of `v[from..to]`.
pub fn string_of_range(v: &Vec<char>, from: usize, to: usize) -> (s: String)
    requires
        from <= to <= v.len(),
    ensures
        s@ == v@.subrange(from as int, to as int),
{
    let mut s = String::new();
    push_range(&mut s, v, from, to);
    s
}

/// Whether `c` occurs in `s`.
pub fn contains_char(s: &str, c: char) -> (found: bool)
    ensures
        found == s@.contains(c),
{
    let v = chars_of(s);
    let mut i: usize = 0;
    while i < v.len()
        invariant
            i <= v.len(),
            v@ == s@,
            forall|j: int| 0 <= j < i ==> v@[j] != c,
        decreases v.len() - i,
    {
        if v[i] == c {
            return true;
        }
        i = i + 1;
    }
    false
}

/// The pieces of `s` between occurrences of `sep`.
pub fn split_str(s: &str, sep: char) -> (parts: Vec<String>)
    ensures
        parts.deep_view() == split(s@, sep),
{
    let v = chars_of(s);
    let mut parts: Vec<String> = Vec::new();
    let mut start: usize = 0;
    let mut i: usize = 0;
    proof {
        assert(v@.skip(0) =~= v@);
        assert(parts.deep_view() + split(v@, sep) =~= split(v@, sep));
    }
    while i < v.len()
        invariant
            start <= i <= v.len(),
            v@ == s@,
            forall|j: int| start <= j < i ==> v@[j] != sep,
            split(s@, sep) == parts.deep_view() + split(v@.skip(start as int), sep),
        decreases v.len() - i,
    {
        if v[i] == sep {
            let piece = string_of_range(&v, start, i);
            proof {
                let rest = v@.skip(start as int);
                lemma_index_of(rest, sep);
                let k = index_of(rest, sep);
                assert(rest[i - start] == sep);
                if k < i - start {
                    assert(rest[k] == v@[start + k]);
                }
                assert(k == i - start);
                assert(rest.take(k) =~= v@.subrange(start as int, i as int));
                assert(rest.skip(k + 1) =~= v@.skip(i + 1));
                assert(parts.deep_view().push(piece@) + split(v@.skip(i + 1), sep)
                    =~= parts.deep_view() + (seq![piece@] + split(v@.skip(i + 1), sep)));
            }
            let ghost before = parts.deep_view();
            parts.push(piece);
            assert(parts.deep_view() =~= before.push(piece@));
            start = i + 1;
        }
        i = i + 1;
    }
    let piece = string_of_range(&v, start, v.len());
    proof {
        let rest = v@.skip(start as int);
        lemma_index_of(rest, sep);
        if rest.contains(sep) {
            let k = choose|k: int| 0 <= k < rest.len() && rest[k] == sep;
            assert(rest[k] == v@[start + k]);
        }
        assert(rest =~= v@.subrange(start as int, v.len() as int));
        assert(parts.deep_view().push(piece@) =~= parts.deep_view() + seq![rest]);
    }
    let ghost before = parts.deep_view();
    parts.push(piece);
    assert(parts.deep_view() =~= before.push(piece@));
    parts
}

/// A copy of `text`, where there is one.
pub fn clone_text(text: &Option<String>) -> (copy: Option<String>)
    ensures
        copy.deep_view() == text.deep_view(),
{
    match text {
        Some(text) => Some(text.clone()),
        None => None,
    }
}

/// Appends the decimal rendering of `n` to `s`.
pub fn push_decimal_nat(s: &mut String, n: u64)
    ensures
        final(s)@ == old(s)@ + decimal_nat(n as nat),
    decreases n,
{
    if n >= 10 {
        push_decimal_nat(s, n / 10);
    }
    let d = n % 10;
    let c = if d == 0 {
        '0'
    } else if d == 1 {
        '1'
    } else if d == 2 {
        '2'
    } else if d == 3 {
        '3'
    } else if d == 4 {
        '4'
    } else if d == 5 {
        '5'
    } else if d == 6 {
        '6'
    } else if d == 7 {
        '7'
    } else if d == 8 {
        '8'
    } else {
        '9'
    };
    s.push(c);
    assert(s@ =~= old(s)@ + decimal_nat(n as nat));
}

/// Appends the decimal rendering of `i` to `s`.
pub fn push_decimal(s: &mut String, i: i32)
    ensures
        final(s)@ == old(s)@ + decimal(i as int),
{
    if i < 0 {
        s.push('-');
        let magnitude: i64 = -(i as i64);
        push_decimal_nat(s, magnitude as u64);
        assert(s@ =~= old(s)@ + decimal(i as int));
    } else {
        push_decimal_nat(s, i as u64);
    }
}

} // verus!
