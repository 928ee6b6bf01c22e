//! Text primitives over sequences of characters.
//!
//! Every string in this crate is modelled by its `Seq<char>` view. The
//! functions here scan a string once into a `Vec<char>`, compute character
//! positions, and cut the results back out of the original string.

use vstd::prelude::*;

verus! {

/// The characters of `s`, in order.
pub fn chars_of(s: &str) -> (v: Vec<char>)
    ensures
        v@ == s@,
{
    let mut v: Vec<char> = Vec::new();
    for c in it: s.chars()
        invariant
            it.seq() == s@,
            v@ == it.seq().take(it.index()),
    {
        v.push(c);
    }
    v
}

/// `pat` occurs in `s` at position `i`.
pub open spec fn occurs_at(s: Seq<char>, pat: Seq<char>, i: int) -> bool {
    &&& 0 <= i
    &&& i + pat.len() <= s.len()
    &&& s.subrange(i, i + pat.len()) == pat
}

/// The first position at or after `from` where `pat` occurs in `s`.
pub open spec fn find_from(s: Seq<char>, pat: Seq<char>, from: int) -> Option<int>
    decreases s.len() - from + 1,
{
    if from < 0 || from + pat.len() > s.len() {
        None
    } else if occurs_at(s, pat, from) {
        Some(from)
    } else {
        find_from(s, pat, from + 1)
    }
}

/// The first position where `pat` occurs in `s`.
pub open spec fn find(s: Seq<char>, pat: Seq<char>) -> Option<int> {
    find_from(s, pat, 0)
}

/// `pat` occurs somewhere in `s`.
pub open spec fn contains(s: Seq<char>, pat: Seq<char>) -> bool {
    exists|i: int| occurs_at(s, pat, i)
}

/// `find_from` returns the least occurrence at or after `from`, and `None`
/// exactly when there is none.
pub proof fn lemma_find_from(s: Seq<char>, pat: Seq<char>, from: int)
    requires
        0 <= from,
    ensures
        match find_from(s, pat, from) {
            Some(i) => from <= i && occurs_at(s, pat, i) && forall|j: int|
                from <= j < i ==> !occurs_at(s, pat, j),
            None => forall|j: int| from <= j ==> !occurs_at(s, pat, j),
        },
    decreases s.len() - from + 1,
{
    if from + pat.len() > s.len() {
    } else if occurs_at(s, pat, from) {
    } else {
        lemma_find_from(s, pat, from + 1);
    }
}

/// `contains` holds exactly when `find` succeeds.
pub proof fn lemma_contains_iff_find(s: Seq<char>, pat: Seq<char>)
    ensures
        contains(s, pat) <==> find(s, pat) is Some,
{
    lemma_find_from(s, pat, 0);
}

/// Whether `pat` occurs in `s` at position `i`.
pub fn matches_at(s: &Vec<char>, pat: &Vec<char>, i: usize) -> (b: bool)
    ensures
        b == occurs_at(s@, pat@, i as int),
{
    if pat.len() > s.len() || i > s.len() - pat.len() {
        return false;
    }
    let mut k: usize = 0;
    while k < pat.len()
        invariant
            k <= pat.len(),
            i + pat.len() <= s.len(),
            forall|j: int| 0 <= j < k ==> s@[i + j] == pat@[j],
        decreases pat.len() - k,
    {
        if s[i + k] != pat[k] {
            assert(s@.subrange(i as int, i + pat.len())[k as int] == s@[i + k]);
            return false;
        }
        k += 1;
    }
    assert(s@.subrange(i as int, i + pat.len()) =~= pat@);
    true
}

/// The first position at or after `from` where `pat` occurs in `s`.
pub fn find_in(s: &Vec<char>, pat: &Vec<char>, from: usize) -> (r: Option<usize>)
    ensures
        match r {
            Some(i) => find_from(s@, pat@, from as int) == Some(i as int),
            None => find_from(s@, pat@, from as int) is None,
        },
{
    if pat.len() > s.len() {
        return None;
    }
    let last: usize = s.len() - pat.len();
    let mut i: usize = from;
    while i <= last
        invariant
            from <= i,
            last == s.len() - pat.len(),
            find_from(s@, pat@, from as int) == find_from(s@, pat@, i as int),
        decreases last + 1 - i,
    {
        if matches_at(s, pat, i) {
            return Some(i);
        }
        if i == last {
            assert(find_from(s@, pat@, i + 1) is None);
            return None;
        }
        i += 1;
    }
    None
}


/// Whether `pat` occurs somewhere in `s`.
pub fn contains_chars(s: &Vec<char>, pat: &Vec<char>) -> (b: bool)
    ensures
        b == contains(s@, pat@),
{
    proof {
        lemma_contains_iff_find(s@, pat@);
    }
    find_in(s, pat, 0).is_some()
}

/// The characters of `s` from position `from` up to, not including, `to`.
pub fn substring(s: &str, from: usize, to: usize) -> (r: String)
    requires
        from <= to <= s@.len(),
    ensures
        r@ == s@.subrange(from as int, to as int),
{
    s.substring_char(from, to).to_owned()
}

/// The Unicode `White_Space` characters.
pub open spec fn is_whitespace(c: char) -> bool {
    ||| '\u{9}' <= c <= '\u{d}'
    ||| c == ' '
    ||| c == '\u{85}'
    ||| c == '\u{a0}'
    ||| c == '\u{1680}'
    ||| '\u{2000}' <= c <= '\u{200a}'
    ||| c == '\u{2028}'
    ||| c == '\u{2029}'
    ||| c == '\u{202f}'
    ||| c == '\u{205f}'
    ||| c == '\u{3000}'
}

/// Whether `c` is a Unicode `White_Space` character.
pub fn char_is_whitespace(c: char) -> (b: bool)
    ensures
        b == is_whitespace(c),
{
    ('\u{9}' <= c && c <= '\u{d}') || c == ' ' || c == '\u{85}' || c == '\u{a0}' || c
        == '\u{1680}' || ('\u{2000}' <= c && c <= '\u{200a}') || c == '\u{2028}' || c
        == '\u{2029}' || c == '\u{202f}' || c == '\u{205f}' || c == '\u{3000}'
}

/// `s` without its leading whitespace.
pub open spec fn trim_start(s: Seq<char>) -> Seq<char>
    decreases s.len(),
{
    if s.len() > 0 && is_whitespace(s[0]) {
        trim_start(s.drop_first())
    } else {
        s
    }
}

/// `s` without its trailing whitespace.
pub open spec fn trim_end(s: Seq<char>) -> Seq<char>
    decreases s.len(),
{
    if s.len() > 0 && is_whitespace(s.last()) {
        trim_end(s.drop_last())
    } else {
        s
    }
}

/// `s` without its leading and trailing whitespace.
pub open spec fn trim(s: Seq<char>) -> Seq<char> {
    trim_end(trim_start(s))
}

/// The position of the first non-whitespace character of `v` at or after
/// `from`, or `to` when there is none before `to`.
pub fn skip_whitespace(v: &Vec<char>, from: usize, to: usize) -> (a: usize)
    requires
        from <= to <= v.len(),
    ensures
        from <= a <= to,
        trim_start(v@.subrange(from as int, to as int)) == v@.subrange(a as int, to as int),
{
    let mut a: usize = from;
    while a < to && char_is_whitespace(v[a])
        invariant
            from <= a <= to <= v.len(),
            trim_start(v@.subrange(from as int, to as int)) == trim_start(
                v@.subrange(a as int, to as int),
            ),
        decreases to - a,
    {
        assert(v@.subrange(a as int, to as int).drop_first() =~= v@.subrange(
            a + 1,
            to as int,
        ));
        a += 1;
    }
    a
}

/// The position just after the last non-whitespace character of `v` before
/// `to`, or `from` when there is none at or after `from`.
pub fn skip_whitespace_back(v: &Vec<char>, from: usize, to: usize) -> (b: usize)
    requires
        from <= to <= v.len(),
    ensures
        from <= b <= to,
        trim_end(v@.subrange(from as int, to as int)) == v@.subrange(from as int, b as int),
{
    let mut b: usize = to;
    while b > from && char_is_whitespace(v[b - 1])
        invariant
            from <= b <= to <= v.len(),
            trim_end(v@.subrange(from as int, to as int)) == trim_end(
                v@.subrange(from as int, b as int),
            ),
        decreases b - from,
    {
        assert(v@.subrange(from as int, b as int).drop_last() =~= v@.subrange(
            from as int,
            b - 1,
        ));
        b -= 1;
    }
    b
}

/// The bounds of `trim` of the part of `v` between `from` and `to`.
pub fn trim_bounds(v: &Vec<char>, from: usize, to: usize) -> (r: (usize, usize))
    requires
        from <= to <= v.len(),
    ensures
        from <= r.0 <= r.1 <= to,
        trim(v@.subrange(from as int, to as int)) == v@.subrange(r.0 as int, r.1 as int),
{
    let a = skip_whitespace(v, from, to);
    let b = skip_whitespace_back(v, a, to);
    (a, b)
}

/// `s` without its leading and trailing whitespace.
pub fn trimmed(s: &str) -> (r: String)
    ensures
        r@ == trim(s@),
{
    let v = chars_of(s);
    let (a, b) = trim_bounds(&v, 0, v.len());
    assert(v@.subrange(0, v.len() as int) =~= v@);
    substring(s, a, b)
}


/// The first position of the character `c` in `s`.
pub open spec fn find_char(s: Seq<char>, c: char) -> Option<int> {
    find(s, seq![c])
}

/// The pieces of `s` between occurrences of `sep`. There is always at least
/// one piece; a separator at either end gives an empty piece there.
pub open spec fn split(s: Seq<char>, sep: char) -> Seq<Seq<char>>
    decreases s.len(),
{
    match find_char(s, sep) {
        Some(i) => if 0 <= i < s.len() {
            seq![s.take(i)] + split(s.skip(i + 1), sep)
        } else {
            seq![s]
        },
        None => seq![s],
    }
}

/// `find_char` gives the least index that holds `c`.
pub proof fn lemma_find_char(s: Seq<char>, c: char)
    ensures
        match find_char(s, c) {
            Some(i) => 0 <= i < s.len() && s[i] == c && forall|j: int|
                0 <= j < i ==> s[j] != c,
            None => forall|j: int| 0 <= j < s.len() ==> s[j] != c,
        },
{
    lemma_find_from(s, seq![c], 0);
    assert forall|j: int| 0 <= j < s.len() implies (occurs_at(s, seq![c], j) <==> s[j] == c) by {
        if s[j] == c {
            assert(s.subrange(j, j + 1) =~= seq![c]);
        } else {
            assert(s.subrange(j, j + 1)[0] == s[j]);
        }
    }
    match find_char(s, c) {
        Some(i) => {
            assert(occurs_at(s, seq![c], i));
            assert(seq![c].len() == 1);
        },
        None => {},
    }
}

/// The bounds in `v` of each piece of `split`.
pub fn split_bounds(v: &Vec<char>, sep: char) -> (r: Vec<(usize, usize)>)
    ensures
        r@.len() == split(v@, sep).len(),
        r@.len() >= 1,
        forall|k: int| 0 <= k < r@.len() ==> (#[trigger] r@[k]).0 <= r@[k].1 <= v@.len(),
        forall|k: int|
            0 <= k < r@.len() ==> v@.subrange(r@[k].0 as int, r@[k].1 as int) == #[trigger] split(
                v@,
                sep,
            )[k],
{
    let mut r: Vec<(usize, usize)> = Vec::new();
    let mut start: usize = 0;
    let mut i: usize = 0;
    assert(v@.skip(0) =~= v@);
    while i < v.len()
        invariant
            start <= i <= v.len(),
            forall|j: int| start <= j < i ==> v@[j] != sep,
            split(v@, sep).len() == r@.len() + split(v@.skip(start as int), sep).len(),
            forall|k: int| 0 <= k < r@.len() ==> (#[trigger] r@[k]).0 <= r@[k].1 <= v@.len(),
            forall|k: int|
                0 <= k < r@.len() ==> v@.subrange(r@[k].0 as int, r@[k].1 as int)
                    == #[trigger] split(v@, sep)[k],
            forall|k: int|
                0 <= k < split(v@.skip(start as int), sep).len() ==> split(v@, sep)[r@.len() + k]
                    == #[trigger] split(v@.skip(start as int), sep)[k],
        decreases v.len() - i,
    {
        if v[i] == sep {
            proof {
                let rest = v@.skip(start as int);
                lemma_find_char(rest, sep);
                assert(rest[i - start] == sep);
                assert(find_char(rest, sep) == Some(i - start));
                assert(rest.skip(i - start + 1) =~= v@.skip(i + 1));
                assert(rest.take(i - start) =~= v@.subrange(start as int, i as int));
                let tail = split(v@.skip(i + 1), sep);
                assert(split(rest, sep) == seq![v@.subrange(start as int, i as int)] + tail);
                assert(split(rest, sep)[0] == v@.subrange(start as int, i as int));
                assert(split(v@, sep)[r@.len() + 0int] == split(rest, sep)[0]);
                assert forall|k: int| 0 <= k < tail.len() implies split(v@, sep)[r@.len() + 1 + k]
                    == #[trigger] tail[k] by {
                    assert(split(rest, sep)[k + 1] == tail[k]);
                }
            }
            r.push((start, i));
            start = i + 1;
        }
        i += 1;
    }
    proof {
        let rest = v@.skip(start as int);
        lemma_find_char(rest, sep);
        assert(find_char(rest, sep) is None) by {
            if find_char(rest, sep) is Some {
                let j = find_char(rest, sep).unwrap();
                assert(rest[j] == v@[start + j]);
            }
        }
        assert(split(rest, sep) == seq![rest]);
        assert(rest =~= v@.subrange(start as int, v@.len() as int));
        assert(split(rest, sep)[0] == rest);
        assert(split(v@, sep)[r@.len() + 0int] == split(rest, sep)[0]);
    }
    r.push((start, v.len()));
    r
}


/// The number of leading non-whitespace characters of `s`.
pub open spec fn word_len(s: Seq<char>) -> nat
    decreases s.len(),
{
    if s.len() > 0 && !is_whitespace(s[0]) {
        1 + word_len(s.drop_first())
    } else {
        0
    }
}

/// The maximal runs of non-whitespace characters of `s`, in order.
pub open spec fn words(s: Seq<char>) -> Seq<Seq<char>>
    decreases s.len(),
{
    if s.len() == 0 {
        Seq::empty()
    } else if is_whitespace(s[0]) {
        words(s.drop_first())
    } else {
        let n = word_len(s) as int;
        if 1 <= n <= s.len() {
            seq![s.take(n)] + words(s.skip(n))
        } else {
            Seq::empty()
        }
    }
}

/// The position just after the run of non-whitespace characters of `v` that
/// starts at `from`.
pub fn skip_word(v: &Vec<char>, from: usize, to: usize) -> (e: usize)
    requires
        from <= to <= v.len(),
    ensures
        from <= e <= to,
        e - from == word_len(v@.subrange(from as int, to as int)),
{
    let mut e: usize = from;
    while e < to && !char_is_whitespace(v[e])
        invariant
            from <= e <= to <= v.len(),
            word_len(v@.subrange(from as int, to as int)) == (e - from) + word_len(
                v@.subrange(e as int, to as int),
            ),
        decreases to - e,
    {
        assert(v@.subrange(e as int, to as int).drop_first() =~= v@.subrange(e + 1, to as int));
        e += 1;
    }
    e
}

/// The bounds in `v` of each of the `words` between `from` and `to`.
pub fn words_bounds(v: &Vec<char>, from: usize, to: usize) -> (r: Vec<(usize, usize)>)
    requires
        from <= to <= v.len(),
    ensures
        r@.len() == words(v@.subrange(from as int, to as int)).len(),
        forall|k: int| 0 <= k < r@.len() ==> (#[trigger] r@[k]).0 <= r@[k].1 <= v@.len(),
        forall|k: int|
            0 <= k < r@.len() ==> v@.subrange(r@[k].0 as int, r@[k].1 as int) == #[trigger] words(
                v@.subrange(from as int, to as int),
            )[k],
{
    let ghost all = words(v@.subrange(from as int, to as int));
    let mut r: Vec<(usize, usize)> = Vec::new();
    let mut i: usize = from;
    while i < to
        invariant
            from <= i <= to <= v.len(),
            all == words(v@.subrange(from as int, to as int)),
            all.len() == r@.len() + words(v@.subrange(i as int, to as int)).len(),
            forall|k: int| 0 <= k < r@.len() ==> (#[trigger] r@[k]).0 <= r@[k].1 <= v@.len(),
            forall|k: int|
                0 <= k < r@.len() ==> v@.subrange(r@[k].0 as int, r@[k].1 as int)
                    == #[trigger] all[k],
            forall|k: int|
                0 <= k < words(v@.subrange(i as int, to as int)).len() ==> all[r@.len() + k]
                    == #[trigger] words(v@.subrange(i as int, to as int))[k],
        decreases to - i,
    {
        let ghost rest = v@.subrange(i as int, to as int);
        if char_is_whitespace(v[i]) {
            assert(rest.drop_first() =~= v@.subrange(i + 1, to as int));
            i += 1;
        } else {
            let e = skip_word(v, i, to);
            proof {
                let n = e - i;
                assert(rest.take(n) =~= v@.subrange(i as int, e as int));
                assert(rest.skip(n) =~= v@.subrange(e as int, to as int));
                let tail = words(v@.subrange(e as int, to as int));
                assert(words(rest) == seq![v@.subrange(i as int, e as int)] + tail);
                assert(words(rest)[0] == v@.subrange(i as int, e as int));
                assert(all[r@.len() + 0int] == words(rest)[0]);
                assert forall|k: int| 0 <= k < tail.len() implies all[r@.len() + 1 + k]
                    == #[trigger] tail[k] by {
                    assert(words(rest)[k + 1] == tail[k]);
                }
            }
            r.push((i, e));
            i = e;
        }
    }
    r
}

/// `s` after every leading repetition of `prefix` is taken away.
pub open spec fn strip_prefixes(s: Seq<char>, prefix: Seq<char>) -> Seq<char>
    decreases s.len(),
{
    if prefix.len() > 0 && occurs_at(s, prefix, 0) {
        strip_prefixes(s.skip(prefix.len() as int), prefix)
    } else {
        s
    }
}

/// The position in `v` where `strip_prefixes` of the part between `from`
/// and `to` begins.
pub fn skip_prefixes(v: &Vec<char>, prefix: &Vec<char>, from: usize, to: usize) -> (a: usize)
    requires
        from <= to <= v.len(),
    ensures
        from <= a <= to,
        strip_prefixes(v@.subrange(from as int, to as int), prefix@) == v@.subrange(
            a as int,
            to as int,
        ),
{
    let n = prefix.len();
    if n == 0 {
        return from;
    }
    let mut a: usize = from;
    loop
        invariant
            n == prefix.len(),
            n > 0,
            from <= a <= to <= v.len(),
            strip_prefixes(v@.subrange(from as int, to as int), prefix@) == strip_prefixes(
                v@.subrange(a as int, to as int),
                prefix@,
            ),
        decreases to - a,
    {
        let ghost rest = v@.subrange(a as int, to as int);
        if to - a < n {
            return a;
        }
        assert(rest.subrange(0, n as int) =~= v@.subrange(a as int, a + n));
        if !matches_at(v, prefix, a) {
            return a;
        }
        assert(rest.skip(n as int) =~= v@.subrange(a + n, to as int));
        a += n;
    }
}


/// Whether two strings hold the same characters.
pub fn same_text(a: &str, b: &str) -> (r: bool)
    ensures
        r == (a@ == b@),
{
    let x = chars_of(a);
    let y = chars_of(b);
    if x.len() != y.len() {
        return false;
    }
    let mut i: usize = 0;
    while i < x.len()
        invariant
            i <= x.len(),
            x.len() == y.len(),
            x@ == a@,
            y@ == b@,
            forall|j: int| 0 <= j < i ==> x@[j] == y@[j],
        decreases x.len() - i,
    {
        if x[i] != y[i] {
            return false;
        }
        i += 1;
    }
    assert(x@ =~= y@);
    true
}

/// Whether `pat` occurs somewhere in `s`.
pub fn text_contains(s: &str, pat: &str) -> (b: bool)
    ensures
        b == contains(s@, pat@),
{
    let v = chars_of(s);
    let p = chars_of(pat);
    contains_chars(&v, &p)
}

/// The texts of a list of strings.
pub open spec fn texts(v: Seq<String>) -> Seq<Seq<char>> {
    Seq::new(v.len(), |i: int| v[i]@)
}

/// The text of an optional string.
pub open spec fn optional_text(s: Option<String>) -> Option<Seq<char>> {
    match s {
        Some(s) => Some(s@),
        None => None,
    }
}

/// The last piece of `pieces` that is not empty.
pub open spec fn last_nonempty(pieces: Seq<Seq<char>>) -> Option<Seq<char>>
    decreases pieces.len(),
{
    if pieces.len() == 0 {
        None
    } else if pieces.last().len() > 0 {
        Some(pieces.last())
    } else {
        last_nonempty(pieces.drop_last())
    }
}

/// The last piece of `s` between occurrences of `sep` that is not empty.
pub fn last_nonempty_piece(s: &str, sep: char) -> (r: Option<String>)
    ensures
        r matches Some(p) ==> last_nonempty(split(s@, sep)) == Some(p@),
        r is None ==> last_nonempty(split(s@, sep)) is None,
{
    let v = chars_of(s);
    let bounds = split_bounds(&v, sep);
    let ghost pieces = split(s@, sep);
    let mut k: usize = bounds.len();
    assert(pieces.take(k as int) =~= pieces);
    while k > 0
        invariant
            k <= bounds.len(),
            v@ == s@,
            pieces == split(s@, sep),
            bounds@.len() == pieces.len(),
            forall|j: int| 0 <= j < bounds@.len() ==> (#[trigger] bounds@[j]).0 <= bounds@[j].1 <= v@.len(),
            forall|j: int|
                0 <= j < bounds@.len() ==> v@.subrange(bounds@[j].0 as int, bounds@[j].1 as int)
                    == #[trigger] pieces[j],
            last_nonempty(pieces) == last_nonempty(pieces.take(k as int)),
        decreases k,
    {
        let b = bounds[k - 1];
        assert(pieces.take(k as int).last() == pieces[k - 1]);
        assert(v@.subrange(b.0 as int, b.1 as int) == pieces[k - 1]);
        if b.1 > b.0 {
            return Some(substring(s, b.0, b.1));
        }
        assert(pieces.take(k as int).drop_last() =~= pieces.take(k - 1));
        k -= 1;
    }
    None
}

} // verus!

