//! Character-level helpers for strings.
//!
//! Strings are modelled by their sequence of characters (`s@`); everything
//! here is stated over those sequences.

use vstd::prelude::*;
use vstd::string::StringExecFns;

verus! {

/// `needle` occurs in `hay` as a contiguous run of characters that starts at
/// index `at`.
pub open spec fn occurs_at(hay: Seq<char>, needle: Seq<char>, at: int) -> bool {
    &&& 0 <= at
    &&& at + needle.len() <= hay.len()
    &&& forall|k: int| 0 <= k < needle.len() ==> hay[at + k] == needle[k]
}

/// `needle` is a contiguous, case-sensitive run of characters of `hay`.
/// The empty sequence is contained in every sequence.
pub open spec fn contains_text(hay: Seq<char>, needle: Seq<char>) -> bool {
    exists|at: int| occurs_at(hay, needle, at)
}

/// The view of an optional string.
pub open spec fn opt_text(s: Option<String>) -> Option<Seq<char>> {
    match s {
        Some(t) => Some(t@),
        None => None,
    }
}

/// The views of a list of strings.
pub open spec fn texts(v: Seq<String>) -> Seq<Seq<char>> {
    Seq::new(v.len(), |i: int| v[i]@)
}

/// The characters of `s`, in order.
pub fn chars_of(s: &str) -> (v: Vec<char>)
    ensures
        v@ == s@,
{
    let mut v: Vec<char> = Vec::new();
    for c in it: s.chars()
        invariant
            v@ == it.seq().take(it.index() as int),
    {
        v.push(c);
    }
    v
}

/// Whether `needle` occurs in `hay` starting at index `at`.
pub fn matches_at(hay: &Vec<char>, needle: &Vec<char>, at: usize) -> (found: bool)
    requires
        at + needle.len() <= hay.len(),
    ensures
        found == occurs_at(hay@, needle@, at as int),
{
    let mut k: usize = 0;
    while k < needle.len()
        invariant
            k <= needle.len(),
            at + needle.len() <= hay.len(),
            forall|j: int| 0 <= j < k ==> hay@[at + j] == needle@[j],
        decreases needle.len() - k,
    {
        if hay[at + k] != needle[k] {
            return false;
        }
        k += 1;
    }
    true
}

/// Whether `needle` is a contiguous run of `hay`.
pub fn contains_chars(hay: &Vec<char>, needle: &Vec<char>) -> (found: bool)
    ensures
        found == contains_text(hay@, needle@),
{
    if needle.len() > hay.len() {
        return false;
    }
    let last: usize = hay.len() - needle.len();
    let mut at: usize = 0;
    while at <= last
        invariant
            at <= last + 1,
            last == hay.len() - needle.len(),
            needle.len() <= hay.len(),
            forall|j: int| 0 <= j < at ==> !occurs_at(hay@, needle@, j),
        decreases last + 1 - at,
    {
        if matches_at(hay, needle, at) {
            return true;
        }
        at += 1;
    }
    false
}

/// Whether `needle` is a case-sensitive substring of `hay`.
pub fn contains(hay: &str, needle: &str) -> (found: bool)
    ensures
        found == contains_text(hay@, needle@),
{
    let h = chars_of(hay);
    let n = chars_of(needle);
    contains_chars(&h, &n)
}

/// A copy of an optional string.
pub fn clone_opt(s: &Option<String>) -> (r: Option<String>)
    ensures
        opt_text(r) == opt_text(*s),
{
    match s {
        Some(t) => Some(t.clone()),
        None => None,
    }
}

/// A copy of a list of strings.
pub fn clone_texts(v: &Vec<String>) -> (r: Vec<String>)
    ensures
        texts(r@) == texts(v@),
{
    let mut r: Vec<String> = Vec::new();
    let mut i: usize = 0;
    while i < v.len()
        invariant
            i <= v.len(),
            r.len() == i,
            forall|j: int| 0 <= j < i ==> r@[j]@ == v@[j]@,
        decreases v.len() - i,
    {
        r.push(v[i].clone());
        i += 1;
    }
    assert(texts(r@) =~= texts(v@));
    r
}

/// `c` is white space: one of the code points with the Unicode property
/// `White_Space`.
pub open spec fn is_white_space(c: char) -> bool {
    let u = c as u32;
    ||| 0x09 <= u <= 0x0D
    ||| u == 0x20
    ||| u == 0x85
    ||| u == 0xA0
    ||| u == 0x1680
    ||| 0x2000 <= u <= 0x200A
    ||| u == 0x2028
    ||| u == 0x2029
    ||| u == 0x202F
    ||| u == 0x205F
    ||| u == 0x3000
}

/// Whether `c` is white space.
pub fn white_space(c: char) -> (white: bool)
    ensures
        white == is_white_space(c),
{
    let u: u32 = c as u32;
    (0x09 <= u && u <= 0x0D) || u == 0x20 || u == 0x85 || u == 0xA0 || u == 0x1680 || (0x2000 <= u
        && u <= 0x200A) || u == 0x2028 || u == 0x2029 || u == 0x202F || u == 0x205F || u == 0x3000
}

/// `s` without its leading white space.
pub open spec fn trim_start_of(s: Seq<char>) -> Seq<char>
    decreases s.len(),
{
    if s.len() > 0 && is_white_space(s[0]) {
        trim_start_of(s.drop_first())
    } else {
        s
    }
}

/// `s` without its trailing white space.
pub open spec fn trim_end_of(s: Seq<char>) -> Seq<char>
    decreases s.len(),
{
    if s.len() > 0 && is_white_space(s.last()) {
        trim_end_of(s.drop_last())
    } else {
        s
    }
}

/// `s` without its leading and trailing white space.
pub open spec fn trim_of(s: Seq<char>) -> Seq<char> {
    trim_end_of(trim_start_of(s))
}

/// Dropping `a` leading white-space characters that are followed by the end
/// or by another character is trimming the start.
proof fn lemma_trim_start(s: Seq<char>, a: int)
    requires
        0 <= a <= s.len(),
        forall|k: int| 0 <= k < a ==> is_white_space(s[k]),
        a < s.len() ==> !is_white_space(s[a]),
    ensures
        trim_start_of(s) == s.subrange(a, s.len() as int),
    decreases a,
{
    if a == 0 {
        assert(s.subrange(0, s.len() as int) =~= s);
    } else {
        let rest = s.drop_first();
        assert forall|k: int| 0 <= k < a - 1 implies is_white_space(rest[k]) by {
            assert(rest[k] == s[k + 1]);
        }
        lemma_trim_start(rest, a - 1);
        assert(rest.subrange(a - 1, rest.len() as int) =~= s.subrange(a, s.len() as int));
    }
}

/// Dropping the trailing white-space characters that follow the end `b` is
/// trimming the end.
proof fn lemma_trim_end(s: Seq<char>, b: int)
    requires
        0 <= b <= s.len(),
        forall|k: int| b <= k < s.len() ==> is_white_space(s[k]),
        0 < b ==> !is_white_space(s[b - 1]),
    ensures
        trim_end_of(s) == s.subrange(0, b),
    decreases s.len() - b,
{
    if b == s.len() {
        assert(s.subrange(0, b) =~= s);
    } else {
        let rest = s.drop_last();
        lemma_trim_end(rest, b);
        assert(rest.subrange(0, b) =~= s.subrange(0, b));
    }
}

/// The bounds of `chars[from..to]` without its leading and trailing white
/// space.
pub fn trim_bounds(chars: &Vec<char>, from: usize, to: usize) -> (bounds: (usize, usize))
    requires
        from <= to <= chars.len(),
    ensures
        from <= bounds.0 <= bounds.1 <= to,
        chars@.subrange(bounds.0 as int, bounds.1 as int) == trim_of(
            chars@.subrange(from as int, to as int),
        ),
{
    let ghost s = chars@.subrange(from as int, to as int);
    let mut a: usize = from;
    while a < to && white_space(chars[a])
        invariant
            from <= a <= to <= chars.len(),
            forall|k: int| from <= k < a ==> is_white_space(chars@[k]),
        decreases to - a,
    {
        a += 1;
    }
    let mut b: usize = to;
    while b > a && white_space(chars[b - 1])
        invariant
            from <= a <= b <= to <= chars.len(),
            forall|k: int| b <= k < to ==> is_white_space(chars@[k]),
        decreases b - a,
    {
        b -= 1;
    }
    proof {
        lemma_trim_start(s, a - from);
        let t = s.subrange(a - from, s.len() as int);
        assert(t =~= chars@.subrange(a as int, to as int));
        lemma_trim_end(t, b - a);
        assert(t.subrange(0, b - a) =~= chars@.subrange(a as int, b as int));
    }
    (a, b)
}

/// `s` without its leading and trailing white space.
pub fn trim(s: &str) -> (trimmed: String)
    ensures
        trimmed@ == trim_of(s@),
{
    let chars = chars_of(s);
    let (a, b) = trim_bounds(&chars, 0, chars.len());
    proof {
        assert(chars@.subrange(0, chars.len() as int) =~= chars@);
    }
    s.substring_char(a, b).to_string()
}

/// The index of the first `sep` in `s`, or the length of `s` where it holds
/// none.
pub open spec fn first_sep(s: Seq<char>, sep: char) -> int
    decreases s.len(),
{
    if s.len() == 0 || s[0] == sep {
        0
    } else {
        1 + first_sep(s.drop_first(), sep)
    }
}

/// The pieces of `s` between the occurrences of `sep`: one more piece than
/// there are separators, empty pieces included.
pub open spec fn split_on(s: Seq<char>, sep: char) -> Seq<Seq<char>>
    decreases s.len(),
{
    let i = first_sep(s, sep);
    if 0 <= i < s.len() {
        seq![s.subrange(0, i)] + split_on(s.subrange(i + 1, s.len() as int), sep)
    } else {
        seq![s]
    }
}

/// `first_sep` is the least index that holds `sep`, within the length.
pub proof fn lemma_first_sep(s: Seq<char>, sep: char)
    ensures
        0 <= first_sep(s, sep) <= s.len(),
        forall|k: int| 0 <= k < first_sep(s, sep) ==> s[k] != sep,
        first_sep(s, sep) < s.len() ==> s[first_sep(s, sep)] == sep,
    decreases s.len(),
{
    if s.len() > 0 && s[0] != sep {
        let rest = s.drop_first();
        lemma_first_sep(rest, sep);
        assert forall|k: int| 0 <= k < first_sep(s, sep) implies s[k] != sep by {
            if k > 0 {
                assert(rest[k - 1] == s[k]);
            }
        }
    }
}

/// An index that holds `sep` after none before it is `first_sep`; the length
/// is, where no index holds `sep`.
pub proof fn lemma_first_sep_is(s: Seq<char>, sep: char, i: int)
    requires
        0 <= i <= s.len(),
        forall|k: int| 0 <= k < i ==> s[k] != sep,
        i < s.len() ==> s[i] == sep,
    ensures
        first_sep(s, sep) == i,
{
    lemma_first_sep(s, sep);
}

/// The non-empty entries of a list: its pieces between the occurrences of
/// `sep`, each without the white space around it, those that are then empty
/// left out.
pub open spec fn entries_of(s: Seq<char>, sep: char) -> Seq<Seq<char>> {
    split_on(s, sep).map_values(|piece: Seq<char>| trim_of(piece)).filter(
        |entry: Seq<char>| entry.len() > 0,
    )
}

/// Appends `chars[from..to]` without the white space around it to `list`,
/// unless nothing is left of it.
fn push_entry(s: &str, chars: &Vec<char>, from: usize, to: usize, list: &mut Vec<String>)
    requires
        chars@ == s@,
        from <= to <= chars.len(),
    ensures
        trim_of(chars@.subrange(from as int, to as int)).len() > 0 ==> texts(final(list)@) == texts(
            old(list)@,
        ).push(trim_of(chars@.subrange(from as int, to as int))),
        trim_of(chars@.subrange(from as int, to as int)).len() == 0 ==> texts(final(list)@)
            == texts(old(list)@),
{
    let (a, b) = trim_bounds(chars, from, to);
    if a < b {
        list.push(s.substring_char(a, b).to_string());
        assert(texts(list@) =~= texts(old(list)@).push(
            trim_of(chars@.subrange(from as int, to as int)),
        ));
    }
}

/// The non-empty entries of a list whose entries are separated by `sep`.
pub fn entries(s: &str, sep: char) -> (list: Vec<String>)
    ensures
        texts(list@) == entries_of(s@, sep),
{
    let chars = chars_of(s);
    let n = chars.len();
    let ghost trimmed = |piece: Seq<char>| trim_of(piece);
    let ghost kept = |entry: Seq<char>| entry.len() > 0;
    let mut list: Vec<String> = Vec::new();
    let mut start: usize = 0;
    let mut j: usize = 0;
    let ghost mut pieces: Seq<Seq<char>> = Seq::empty();
    proof {
        reveal(Seq::filter);
        assert(chars@.subrange(0, n as int) =~= chars@);
        assert(pieces + split_on(chars@.subrange(0, n as int), sep) =~= split_on(chars@, sep));
        assert(pieces.map_values(trimmed).filter(kept) =~= texts(list@));
    }
    while j < n
        invariant
            chars@ == s@,
            n == chars.len(),
            start <= j <= n,
            trimmed == (|piece: Seq<char>| trim_of(piece)),
            kept == (|entry: Seq<char>| entry.len() > 0),
            forall|k: int| start <= k < j ==> chars@[k] != sep,
            split_on(chars@, sep) == pieces + split_on(chars@.subrange(start as int, n as int), sep),
            texts(list@) == pieces.map_values(trimmed).filter(kept),
        decreases n - j,
    {
        if chars[j] == sep {
            let ghost rest = chars@.subrange(start as int, n as int);
            let ghost piece = chars@.subrange(start as int, j as int);
            proof {
                assert forall|k: int| 0 <= k < j - start implies rest[k] != sep by {
                    assert(rest[k] == chars@[start + k]);
                }
                lemma_first_sep_is(rest, sep, j - start);
                assert(rest.subrange(0, j - start) =~= piece);
                assert(rest.subrange(j - start + 1, rest.len() as int) =~= chars@.subrange(
                    j as int + 1,
                    n as int,
                ));
                assert(pieces + (seq![piece] + split_on(
                    chars@.subrange(j as int + 1, n as int),
                    sep,
                )) =~= pieces.push(piece) + split_on(chars@.subrange(j as int + 1, n as int), sep));
            }
            push_entry(s, &chars, start, j, &mut list);
            proof {
                reveal(Seq::filter);
                let mapped = pieces.map_values(trimmed);
                let longer = pieces.push(piece).map_values(trimmed);
                assert(longer =~= mapped.push(trim_of(piece)));
                assert(longer.drop_last() =~= mapped);
                pieces = pieces.push(piece);
            }
            start = j + 1;
        }
        j += 1;
    }
    let ghost rest = chars@.subrange(start as int, n as int);
    proof {
        assert forall|k: int| 0 <= k < rest.len() implies rest[k] != sep by {
            assert(rest[k] == chars@[start + k]);
        }
        lemma_first_sep_is(rest, sep, rest.len() as int);
        assert(pieces + seq![rest] =~= pieces.push(rest));
    }
    push_entry(s, &chars, start, n, &mut list);
    proof {
        reveal(Seq::filter);
        let mapped = pieces.map_values(trimmed);
        let longer = pieces.push(rest).map_values(trimmed);
        assert(longer =~= mapped.push(trim_of(rest)));
        assert(longer.drop_last() =~= mapped);
    }
    list
}

/// `s` with every occurrence of `pat` removed, found from the left and not
/// overlapping; `s` itself where `pat` is empty.
pub open spec fn removing(s: Seq<char>, pat: Seq<char>) -> Seq<char>
    decreases s.len(),
{
    if pat.len() == 0 || s.len() < pat.len() {
        s
    } else if occurs_at(s, pat, 0) {
        removing(s.skip(pat.len() as int), pat)
    } else {
        seq![s[0]] + removing(s.drop_first(), pat)
    }
}

/// `s` with every occurrence of `pat` removed.
pub fn remove_all(s: &str, pat: &str) -> (rest: String)
    ensures
        rest@ == removing(s@, pat@),
{
    let chars = chars_of(s);
    let needle = chars_of(pat);
    let n = chars.len();
    let m = needle.len();
    if m == 0 || n < m {
        return s.to_string();
    }
    let mut rest = String::new();
    let mut kept_from: usize = 0;
    let mut i: usize = 0;
    proof {
        assert(chars@.skip(0) =~= chars@);
        assert(rest@ + chars@.subrange(0, 0) + removing(chars@.skip(0), needle@) =~= removing(
            chars@,
            needle@,
        ));
    }
    while i <= n - m
        invariant
            chars@ == s@,
            needle@ == pat@,
            n == chars.len(),
            m == needle.len(),
            0 < m <= n,
            kept_from <= i <= n,
            rest@ + chars@.subrange(kept_from as int, i as int) + removing(
                chars@.skip(i as int),
                needle@,
            ) == removing(chars@, needle@),
        decreases n - i,
    {
        let ghost tail = chars@.skip(i as int);
        let found = matches_at(&chars, &needle, i);
        proof {
            assert(occurs_at(chars@, needle@, i as int) <==> occurs_at(tail, needle@, 0)) by {
                if occurs_at(chars@, needle@, i as int) {
                    assert forall|k: int| 0 <= k < needle@.len() implies tail[0 + k]
                        == needle@[k] by {
                        assert(tail[k] == chars@[i + k]);
                    }
                }
                if occurs_at(tail, needle@, 0) {
                    assert forall|k: int| 0 <= k < needle@.len() implies chars@[i + k]
                        == needle@[k] by {
                        assert(tail[0 + k] == chars@[i + k]);
                    }
                }
            }
        }
        if found {
            rest = rest.concat(s.substring_char(kept_from, i));
            proof {
                assert(tail.skip(m as int) =~= chars@.skip(i as int + m as int));
                assert(chars@.subrange(i as int + m as int, i as int + m as int) =~= Seq::<
                    char,
                >::empty());
            }
            i = i + m;
            kept_from = i;
        } else {
            proof {
                assert(tail.drop_first() =~= chars@.skip(i as int + 1));
                assert(chars@.subrange(kept_from as int, i as int) + (seq![tail[0]] + removing(
                    chars@.skip(i as int + 1),
                    needle@,
                )) =~= chars@.subrange(kept_from as int, i as int + 1) + removing(
                    chars@.skip(i as int + 1),
                    needle@,
                ));
            }
            i = i + 1;
        }
    }
    proof {
        assert(chars@.subrange(kept_from as int, i as int) + chars@.skip(i as int)
            =~= chars@.subrange(kept_from as int, n as int));
    }
    rest.concat(s.substring_char(kept_from, n))
}

} // verus!
