//! Character-sequence utilities the dispatcher is built on.
//!
//! Request paths, header values and configuration strings are manipulated
//! as vectors of characters, whose view is the same `Seq<char>` that a
//! `String` or `&str` has; `chars_of` moves between the two.

use vstd::prelude::*;

verus! {

/// The characters of a string slice, as a vector with the same view.
pub fn chars_of(s: &str) -> (r: Vec<char>)
    ensures
        r@ == s@,
{
    let mut r: Vec<char> = Vec::new();
    for c in it: s.chars()
        invariant
            it.seq() == s@,
            r@ == s@.take(it.index() as int),
    {
        r.push(c);
    }
    proof {
        assert(r@ =~= s@);
    }
    r
}

/// Whether two character vectors hold the same characters.
pub fn chars_eq(a: &Vec<char>, b: &Vec<char>) -> (r: bool)
    ensures
        r <==> a@ == b@,
{
    if a.len() != b.len() {
        proof {
            assert(a@ != b@);
        }
        return false;
    }
    let mut i: usize = 0;
    while i < a.len()
        invariant
            0 <= i <= a.len(),
            a.len() == b.len(),
            forall|j: int| 0 <= j < i ==> a@[j] == b@[j],
        decreases a.len() - i,
    {
        if a[i] != b[i] {
            proof {
                assert(a@ != b@);
            }
            return false;
        }
        i += 1;
    }
    proof {
        assert(a@ =~= b@);
    }
    true
}

/// Whether the character `c` occurs in `s`.
pub open spec fn spec_contains_char(s: Seq<char>, c: char) -> bool {
    exists|i: int| 0 <= i < s.len() && s[i] == c
}

pub fn contains_char(v: &Vec<char>, c: char) -> (r: bool)
    ensures
        r <==> spec_contains_char(v@, c),
{
    let mut i: usize = 0;
    while i < v.len()
        invariant
            0 <= i <= v.len(),
            forall|j: int| 0 <= j < i ==> v@[j] != c,
        decreases v.len() - i,
    {
        if v[i] == c {
            return true;
        }
        i += 1;
    }
    false
}

/// Whether `pat` occurs in `s` starting at position `at`.
pub open spec fn matches_at(s: Seq<char>, pat: Seq<char>, at: int) -> bool {
    &&& 0 <= at
    &&& at + pat.len() <= s.len()
    &&& s.subrange(at, at + pat.len()) == pat
}

/// Whether `pat` occurs somewhere in `s`.
pub open spec fn spec_contains_seq(s: Seq<char>, pat: Seq<char>) -> bool {
    exists|i: int| matches_at(s, pat, i)
}

/// The first position at which `pat` occurs in `s`; meaningful only when it occurs.
pub open spec fn spec_find(s: Seq<char>, pat: Seq<char>) -> int
    decreases s.len(),
{
    if matches_at(s, pat, 0) {
        0
    } else if s.len() == 0 {
        0
    } else {
        1 + spec_find(s.drop_first(), pat)
    }
}

/// The position returned by `find` is the first match.
pub proof fn lemma_find_first(s: Seq<char>, pat: Seq<char>)
    requires
        spec_contains_seq(s, pat),
    ensures
        matches_at(s, pat, spec_find(s, pat)),
        forall|j: int| 0 <= j < spec_find(s, pat) ==> !matches_at(s, pat, j),
    decreases s.len(),
{
    if matches_at(s, pat, 0) {
    } else {
        let i = choose|i: int| matches_at(s, pat, i);
        assert(i != 0);
        assert(matches_at(s.drop_first(), pat, i - 1)) by {
            assert(s.drop_first().subrange(i - 1, i - 1 + pat.len() as int) =~= s.subrange(
                i,
                i + pat.len() as int,
            ));
        }
        lemma_find_first(s.drop_first(), pat);
        let f = spec_find(s.drop_first(), pat);
        assert(matches_at(s, pat, f + 1)) by {
            assert(s.subrange(f + 1, f + 1 + pat.len() as int) =~= s.drop_first().subrange(
                f,
                f + pat.len() as int,
            ));
        }
        assert forall|j: int| 0 <= j < f + 1 && j != 0 implies !matches_at(s, pat, j) by {
            if matches_at(s, pat, j) {
                assert(s.drop_first().subrange(j - 1, j - 1 + pat.len() as int) =~= s.subrange(
                    j,
                    j + pat.len() as int,
                ));
                assert(matches_at(s.drop_first(), pat, j - 1));
            }
        }
    }
}

/// Whether `pat` occurs in `v` at offset `at`.
pub fn match_at(v: &Vec<char>, pat: &Vec<char>, at: usize) -> (r: bool)
    requires
        at + pat@.len() <= v@.len(),
    ensures
        r <==> matches_at(v@, pat@, at as int),
{
    let n = v.len();
    let mut k: usize = 0;
    while k < pat.len()
        invariant
            0 <= k <= pat.len(),
            n == v@.len(),
            at + pat@.len() <= n,
            forall|j: int| 0 <= j < k ==> v@[at + j] == pat@[j],
        decreases pat.len() - k,
    {
        if v[at + k] != pat[k] {
            proof {
                assert(v@.subrange(at as int, at + pat@.len())[k as int] == v@[at + k]);
            }
            return false;
        }
        k += 1;
    }
    proof {
        assert(v@.subrange(at as int, at + pat@.len()) =~= pat@);
    }
    true
}

/// The first position at which `pat` occurs in `v`, if it occurs at all.
pub fn find_seq(v: &Vec<char>, pat: &Vec<char>) -> (r: Option<usize>)
    ensures
        match r {
            Some(i) => matches_at(v@, pat@, i as int) && forall|j: int|
                0 <= j < i ==> !matches_at(v@, pat@, j),
            None => !spec_contains_seq(v@, pat@),
        },
{
    if pat.len() > v.len() {
        return None;
    }
    if pat.len() == 0 {
        proof {
            assert(v@.subrange(0, 0) =~= pat@);
        }
        return Some(0);
    }
    let bound = v.len() - pat.len();
    let mut i: usize = 0;
    while i <= bound
        invariant
            pat.len() <= v.len(),
            pat.len() >= 1,
            bound == v.len() - pat.len(),
            0 <= i <= bound + 1,
            forall|j: int| 0 <= j < i ==> !matches_at(v@, pat@, j),
        decreases bound + 1 - i,
    {
        if match_at(v, pat, i) {
            return Some(i);
        }
        i += 1;
    }
    proof {
        assert forall|j: int| 0 <= j < v@.len() implies !matches_at(v@, pat@, j) by {
            if matches_at(v@, pat@, j) {
                assert(j + pat@.len() <= v@.len());
                assert(j < i);
            }
        }
    }
    None
}

/// Whether `pat` occurs somewhere in `v`.
pub fn contains_seq(v: &Vec<char>, pat: &Vec<char>) -> (r: bool)
    ensures
        r <==> spec_contains_seq(v@, pat@),
{
    find_seq(v, pat).is_some()
}

/// `s` without one leading `p`, when `s` starts with `p`; otherwise `s` itself.
pub open spec fn spec_remove_prefix(s: Seq<char>, p: Seq<char>) -> Seq<char> {
    if p.len() <= s.len() && s.take(p.len() as int) == p {
        s.skip(p.len() as int)
    } else {
        s
    }
}

/// `s` without one trailing `p`, when `s` ends with `p`; otherwise `s` itself.
pub open spec fn spec_remove_suffix(s: Seq<char>, p: Seq<char>) -> Seq<char> {
    if p.len() <= s.len() && s.skip(s.len() - p.len()) == p {
        s.take(s.len() - p.len())
    } else {
        s
    }
}

/// Whether `s` starts with `p`.
pub fn starts_with(s: &Vec<char>, p: &Vec<char>) -> (r: bool)
    ensures
        r <==> (p@.len() <= s@.len() && s@.take(p@.len() as int) == p@),
{
    if p.len() > s.len() {
        return false;
    }
    let mut i: usize = 0;
    while i < p.len()
        invariant
            0 <= i <= p.len() <= s.len(),
            forall|j: int| 0 <= j < i ==> s@[j] == p@[j],
        decreases p.len() - i,
    {
        if s[i] != p[i] {
            proof {
                assert(s@.take(p@.len() as int)[i as int] == s@[i as int]);
            }
            return false;
        }
        i += 1;
    }
    proof {
        assert(s@.take(p@.len() as int) =~= p@);
    }
    true
}

/// Whether `s` ends with `p`.
pub fn ends_with(s: &Vec<char>, p: &Vec<char>) -> (r: bool)
    ensures
        r <==> (p@.len() <= s@.len() && s@.skip(s@.len() - p@.len()) == p@),
{
    if p.len() > s.len() {
        return false;
    }
    let base = s.len() - p.len();
    let mut i: usize = 0;
    while i < p.len()
        invariant
            0 <= i <= p.len() <= s.len(),
            base == s.len() - p.len(),
            forall|j: int| 0 <= j < i ==> s@[base + j] == p@[j],
        decreases p.len() - i,
    {
        if s[base + i] != p[i] {
            proof {
                assert(s@.skip(s@.len() - p@.len())[i as int] == s@[base + i]);
            }
            return false;
        }
        i += 1;
    }
    proof {
        assert(s@.skip(s@.len() - p@.len()) =~= p@);
    }
    true
}

/// A copy of the characters of `s` from `from` (inclusive) to `to` (exclusive).
pub fn sub_chars(s: &Vec<char>, from: usize, to: usize) -> (r: Vec<char>)
    requires
        from <= to <= s@.len(),
    ensures
        r@ == s@.subrange(from as int, to as int),
{
    let mut r: Vec<char> = Vec::new();
    let mut k: usize = from;
    while k < to
        invariant
            from <= k <= to <= s.len(),
            r@ =~= s@.subrange(from as int, k as int),
        decreases to - k,
    {
        r.push(s[k]);
        k += 1;
    }
    proof {
        assert(r@ =~= s@.subrange(from as int, to as int));
    }
    r
}

/// Strips one occurrence of the prefix `p` from `s`, if `s` starts with it.
pub fn remove_prefix(s: &Vec<char>, p: &Vec<char>) -> (r: Vec<char>)
    ensures
        r@ == spec_remove_prefix(s@, p@),
{
    if starts_with(s, p) {
        let r = sub_chars(s, p.len(), s.len());
        proof {
            assert(r@ =~= s@.skip(p@.len() as int));
        }
        r
    } else {
        clone_chars(s)
    }
}

/// Strips one occurrence of the suffix `p` from `s`, if `s` ends with it.
pub fn remove_suffix(s: &Vec<char>, p: &Vec<char>) -> (r: Vec<char>)
    ensures
        r@ == spec_remove_suffix(s@, p@),
{
    if ends_with(s, p) {
        let r = sub_chars(s, 0, s.len() - p.len());
        proof {
            assert(r@ =~= s@.take(s@.len() - p@.len()));
        }
        r
    } else {
        clone_chars(s)
    }
}

/// A copy of a character vector, with the same view.
pub fn clone_chars(s: &Vec<char>) -> (r: Vec<char>)
    ensures
        r@ == s@,
{
    let mut r: Vec<char> = Vec::new();
    let mut i: usize = 0;
    while i < s.len()
        invariant
            0 <= i <= s.len(),
            r@ =~= s@.subrange(0, i as int),
        decreases s.len() - i,
    {
        r.push(s[i]);
        i += 1;
    }
    proof {
        assert(r@ =~= s@);
    }
    r
}

/// `v` extended by all of `tail`.
pub fn push_all(v: &mut Vec<char>, tail: &Vec<char>)
    ensures
        final(v)@ == old(v)@ + tail@,
{
    let mut i: usize = 0;
    while i < tail.len()
        invariant
            0 <= i <= tail.len(),
            v@ =~= old(v)@ + tail@.subrange(0, i as int),
        decreases tail.len() - i,
    {
        v.push(tail[i]);
        i += 1;
    }
    proof {
        assert(v@ =~= old(v)@ + tail@);
    }
}

/// The decimal digit `d` (below ten) as a character.
pub open spec fn spec_digit(d: nat) -> char {
    (48 + d) as u8 as char
}

/// The decimal notation of `n`, most significant digit first.
pub open spec fn spec_dec(n: nat) -> Seq<char>
    decreases n,
{
    if n < 10 {
        seq![spec_digit(n)]
    } else {
        spec_dec(n / 10).push(spec_digit(n % 10))
    }
}

/// The decimal notation of `n`, as characters.
pub fn dec_chars(n: u64) -> (r: Vec<char>)
    ensures
        r@ == spec_dec(n as nat),
{
    let mut rev: Vec<char> = Vec::new();
    let mut m = n;
    while m >= 10
        invariant
            spec_dec(n as nat) == spec_dec(m as nat) + rev@.reverse(),
        decreases m,
    {
        let d = (48 + (m % 10) as u8) as char;
        proof {
            assert(spec_dec(m as nat) == spec_dec((m / 10) as nat).push(spec_digit((m % 10) as nat)));
            assert((spec_dec((m / 10) as nat) + rev@.push(d).reverse()) =~= spec_dec(m as nat)
                + rev@.reverse());
        }
        rev.push(d);
        m = m / 10;
    }
    let mut r: Vec<char> = Vec::new();
    r.push((48 + (m % 10) as u8) as char);
    proof {
        assert(m % 10 == m as nat);
        assert(r@ =~= spec_dec(m as nat));
    }
    let mut k: usize = rev.len();
    while k > 0
        invariant
            0 <= k <= rev.len(),
            r@ =~= spec_dec(m as nat) + rev@.reverse().take(rev@.len() - k),
        decreases k,
    {
        k -= 1;
        r.push(rev[k]);
        proof {
            assert(rev@.reverse()[rev@.len() - k - 1] == rev@[k as int]);
            assert(r@ =~= spec_dec(m as nat) + rev@.reverse().take(rev@.len() - k));
        }
    }
    proof {
        assert(rev@.reverse().take(rev@.len() as int) =~= rev@.reverse());
        assert(r@ =~= spec_dec(n as nat));
    }
    r
}

/// A lower-case ASCII letter raised to upper case; any other character unchanged.
pub open spec fn spec_upper_char(c: char) -> char {
    if 'a' <= c && c <= 'z' {
        ((c as u8) - 32) as char
    } else {
        c
    }
}

/// A string with every lower-case ASCII letter raised to upper case.
pub open spec fn spec_upper(s: Seq<char>) -> Seq<char> {
    s.map_values(|c: char| spec_upper_char(c))
}

/// The upper-case form of `v`, ASCII letters only.
pub fn to_upper(v: &Vec<char>) -> (r: Vec<char>)
    ensures
        r@ == spec_upper(v@),
{
    let mut r: Vec<char> = Vec::new();
    let mut i: usize = 0;
    while i < v.len()
        invariant
            0 <= i <= v.len(),
            r@ =~= v@.take(i as int).map_values(|c: char| spec_upper_char(c)),
        decreases v.len() - i,
    {
        let c = v[i];
        if 'a' <= c && c <= 'z' {
            r.push(((c as u8) - 32) as char);
        } else {
            r.push(c);
        }
        proof {
            assert(r@ =~= v@.take(i + 1).map_values(|c: char| spec_upper_char(c)));
        }
        i += 1;
    }
    proof {
        assert(v@.take(v@.len() as int) =~= v@);
    }
    r
}

/// `s` left-aligned in a field of `width` spaces; unchanged when already wider.
pub open spec fn spec_pad_right(s: Seq<char>, width: nat) -> Seq<char> {
    if s.len() >= width {
        s
    } else {
        s + Seq::new((width - s.len()) as nat, |i: int| ' ')
    }
}

/// Pads `v` on the right with spaces up to `width` characters.
pub fn pad_right(v: &Vec<char>, width: usize) -> (r: Vec<char>)
    ensures
        r@ == spec_pad_right(v@, width as nat),
{
    let mut r = clone_chars(v);
    while r.len() < width
        invariant
            v@.len() >= width ==> r@ == v@,
            v@.len() < width ==> r@.len() <= width && r@ =~= v@ + Seq::new(
                (r@.len() - v@.len()) as nat,
                |i: int| ' ',
            ),
        decreases width - r.len(),
    {
        r.push(' ');
        proof {
            assert(r@ =~= v@ + Seq::new((r@.len() - v@.len()) as nat, |i: int| ' '));
        }
    }
    proof {
        if v@.len() < width {
            assert(r@ =~= spec_pad_right(v@, width as nat));
        }
    }
    r
}

/// The first position of the character `c` in `v`, if it occurs.
pub fn find_char(v: &Vec<char>, c: char) -> (r: Option<usize>)
    ensures
        match r {
            Some(i) => i < v@.len() && v@[i as int] == c && forall|j: int| 0 <= j < i ==> v@[j] != c,
            None => !spec_contains_char(v@, c),
        },
{
    let mut i: usize = 0;
    while i < v.len()
        invariant
            0 <= i <= v.len(),
            forall|j: int| 0 <= j < i ==> v@[j] != c,
        decreases v.len() - i,
    {
        if v[i] == c {
            return Some(i);
        }
        i += 1;
    }
    None
}

/// `s` without its leading characters drawn from `set`.
pub open spec fn spec_trim_left(s: Seq<char>, set: Seq<char>) -> Seq<char>
    decreases s.len(),
{
    if s.len() > 0 && spec_contains_char(set, s[0]) {
        spec_trim_left(s.drop_first(), set)
    } else {
        s
    }
}

/// `s` without its trailing characters drawn from `set`.
pub open spec fn spec_trim_right(s: Seq<char>, set: Seq<char>) -> Seq<char>
    decreases s.len(),
{
    if s.len() > 0 && spec_contains_char(set, s.last()) {
        spec_trim_right(s.drop_last(), set)
    } else {
        s
    }
}

/// `s` without leading and trailing characters drawn from `set`.
pub open spec fn spec_trim(s: Seq<char>, set: Seq<char>) -> Seq<char> {
    spec_trim_right(spec_trim_left(s, set), set)
}

/// Strips the characters of `set` from both ends of `v`.
pub fn trim_set(v: &Vec<char>, set: &Vec<char>) -> (r: Vec<char>)
    ensures
        r@ == spec_trim(v@, set@),
{
    proof {
        assert(v@.skip(0) =~= v@);
    }
    let mut a: usize = 0;
    while a < v.len() && contains_char(set, v[a])
        invariant
            0 <= a <= v.len(),
            spec_trim_left(v@, set@) == spec_trim_left(v@.skip(a as int), set@),
        decreases v.len() - a,
    {
        proof {
            assert(v@.skip(a as int)[0] == v@[a as int]);
            assert(v@.skip(a as int).drop_first() =~= v@.skip(a + 1));
        }
        a += 1;
    }
    proof {
        if a < v@.len() {
            assert(v@.skip(a as int)[0] == v@[a as int]);
            assert(spec_trim_left(v@, set@) =~= v@.skip(a as int));
        } else {
            assert(v@.skip(a as int) =~= Seq::<char>::empty());
        }
    }
    let mut b: usize = v.len();
    while b > a && contains_char(set, v[b - 1])
        invariant
            a <= b <= v.len(),
            spec_trim_left(v@, set@) == v@.skip(a as int),
            spec_trim_right(v@.skip(a as int), set@) == spec_trim_right(
                v@.subrange(a as int, b as int),
                set@,
            ),
        decreases b,
    {
        proof {
            let cur = v@.subrange(a as int, b as int);
            assert(cur.last() == v@[b - 1]);
            assert(cur.drop_last() =~= v@.subrange(a as int, b - 1));
        }
        b -= 1;
    }
    proof {
        let cur = v@.subrange(a as int, b as int);
        if b > a {
            assert(cur.last() == v@[b - 1]);
            assert(spec_trim_right(cur, set@) == cur);
        } else {
            assert(cur =~= Seq::<char>::empty());
        }
    }
    sub_chars(v, a, b)
}

/// The last position of the character `c` in `v`, if it occurs.
pub fn rfind_char(v: &Vec<char>, c: char) -> (r: Option<usize>)
    ensures
        match r {
            Some(i) => i < v@.len() && v@[i as int] == c && forall|j: int|
                i < j < v@.len() ==> v@[j] != c,
            None => !spec_contains_char(v@, c),
        },
{
    let mut i: usize = v.len();
    while i > 0
        invariant
            0 <= i <= v.len(),
            forall|j: int| i <= j < v@.len() ==> v@[j] != c,
        decreases i,
    {
        i -= 1;
        if v[i] == c {
            return Some(i);
        }
    }
    None
}

/// Strips the characters of `set` from the end of `v`.
pub fn trim_right_set(v: &Vec<char>, set: &Vec<char>) -> (r: Vec<char>)
    ensures
        r@ == spec_trim_right(v@, set@),
{
    proof {
        assert(v@.subrange(0, v@.len() as int) =~= v@);
    }
    let mut b: usize = v.len();
    while b > 0 && contains_char(set, v[b - 1])
        invariant
            0 <= b <= v.len(),
            spec_trim_right(v@, set@) == spec_trim_right(v@.subrange(0, b as int), set@),
        decreases b,
    {
        proof {
            let cur = v@.subrange(0, b as int);
            assert(cur.last() == v@[b - 1]);
            assert(cur.drop_last() =~= v@.subrange(0, b - 1));
        }
        b -= 1;
    }
    proof {
        assert(v@.subrange(0, v@.len() as int) =~= v@);
        let cur = v@.subrange(0, b as int);
        if b > 0 {
            assert(cur.last() == v@[b - 1]);
            assert(spec_trim_right(cur, set@) == cur);
        } else {
            assert(cur =~= Seq::<char>::empty());
        }
    }
    sub_chars(v, 0, b)
}

/// The position of the last occurrence of `c` in `s`; negative when there
/// is none.
pub open spec fn spec_last_index(s: Seq<char>, c: char) -> int
    decreases s.len(),
{
    if s.len() == 0 {
        -1
    } else if s.last() == c {
        s.len() - 1
    } else {
        spec_last_index(s.drop_last(), c)
    }
}

/// An occurrence with none after it is the last occurrence.
pub proof fn lemma_last_index_of_max(s: Seq<char>, c: char, i: int)
    requires
        0 <= i < s.len(),
        s[i] == c,
        forall|j: int| i < j < s.len() ==> s[j] != c,
    ensures
        spec_last_index(s, c) == i,
    decreases s.len(),
{
    if i == s.len() - 1 {
    } else {
        assert(s.last() != c);
        assert(s.drop_last()[i] == c);
        lemma_last_index_of_max(s.drop_last(), c, i);
    }
}

/// Where `c` does not occur, the last index is negative.
pub proof fn lemma_last_index_absent(s: Seq<char>, c: char)
    requires
        !spec_contains_char(s, c),
    ensures
        spec_last_index(s, c) == -1,
    decreases s.len(),
{
    if s.len() > 0 {
        assert(!spec_contains_char(s.drop_last(), c)) by {
            if spec_contains_char(s.drop_last(), c) {
                let i = choose|i: int| 0 <= i < s.drop_last().len() && s.drop_last()[i] == c;
                assert(s[i] == c);
            }
        }
        lemma_last_index_absent(s.drop_last(), c);
    }
}

} // verus!
