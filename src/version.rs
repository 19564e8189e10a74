//! Comparison of dotted version strings such as `4.42.1` or `v1.2`.
use vstd::prelude::*;
use crate::text::{
    chars_of, split_on, split_range, trim_blank_range, trim_end, trim_start, views,
};

verus! {

pub open spec fn is_digit(c: char) -> bool {
    '0' <= c && c <= '9'
}

/// Drops one leading `v`, if there is one.
pub open spec fn strip_v(s: Seq<char>) -> Seq<char> {
    if s.len() > 0 && s[0] == 'v' {
        s.drop_first()
    } else {
        s
    }
}

/// The version text proper: one optional leading `v` removed, then blanks
/// trimmed on both ends.
pub open spec fn clean_version(s: Seq<char>) -> Seq<char> {
    trim_start(trim_end(strip_v(s)))
}

/// The pieces of `s` between dots; an empty text is one empty piece.
pub open spec fn split_dots(s: Seq<char>) -> Seq<Seq<char>> {
    split_on(s, '.')
}

/// The number that a run of decimal digits denotes.
pub open spec fn digits_value(d: Seq<char>) -> nat
    decreases d.len(),
{
    if d.len() == 0 {
        0
    } else {
        digits_value(d.drop_last()) * 10 + (d.last() as int - '0' as int) as nat
    }
}

pub open spec fn all_digits(d: Seq<char>) -> bool {
    forall|i: int| 0 <= i < d.len() ==> is_digit(#[trigger] d[i])
}

/// The value of a non-empty run of digits that fits in 32 bits.
pub open spec fn digits_u32(d: Seq<char>) -> Option<nat> {
    if d.len() > 0 && all_digits(d) && digits_value(d) <= u32::MAX {
        Some(digits_value(d))
    } else {
        None
    }
}

/// A component is numeric when it is a run of digits, after an optional
/// `+`, whose value fits in 32 bits (what `u32::from_str` accepts).
pub open spec fn component_value(d: Seq<char>) -> Option<nat> {
    if d.len() > 0 && d[0] == '+' {
        digits_u32(d.drop_first())
    } else {
        digits_u32(d)
    }
}

/// The numeric components of a version string, or `None` when any of its
/// components is not a number.
pub open spec fn parse_version(s: Seq<char>) -> Option<Seq<nat>> {
    let parts = split_dots(clean_version(s));
    if forall|i: int| 0 <= i < parts.len() ==> (#[trigger] component_value(parts[i])) is Some {
        Some(Seq::new(parts.len(), |i: int| component_value(parts[i])->0))
    } else {
        None
    }
}

/// Component `i` of `p`, a missing component counting as zero.
pub open spec fn part_at(p: Seq<nat>, i: int) -> nat {
    if 0 <= i < p.len() {
        p[i]
    } else {
        0
    }
}

pub open spec fn max_len(a: Seq<nat>, b: Seq<nat>) -> int {
    if a.len() >= b.len() {
        a.len() as int
    } else {
        b.len() as int
    }
}

/// Whether `latest` is greater than `current` in the components from `i` on,
/// given that the components before `i` agree.
pub open spec fn newer_from(latest: Seq<nat>, current: Seq<nat>, i: int) -> bool
    decreases max_len(latest, current) - i,
{
    if i < 0 || i >= max_len(latest, current) {
        false
    } else if part_at(latest, i) > part_at(current, i) {
        true
    } else if part_at(latest, i) < part_at(current, i) {
        false
    } else {
        newer_from(latest, current, i + 1)
    }
}

/// Component-wise comparison, a missing trailing component counting as zero.
pub open spec fn version_newer(latest: Seq<nat>, current: Seq<nat>) -> bool {
    newer_from(latest, current, 0)
}

/// Whether the version text `latest` names a newer version than `current`;
/// false whenever either of them holds a component that is not a number.
pub open spec fn is_newer_version(current: Seq<char>, latest: Seq<char>) -> bool {
    match (parse_version(current), parse_version(latest)) {
        (Some(c), Some(l)) => version_newer(l, c),
        _ => false,
    }
}

proof fn lemma_newer_from_by_parts(
    l1: Seq<nat>,
    c1: Seq<nat>,
    l2: Seq<nat>,
    c2: Seq<nat>,
    i: int,
)
    requires
        0 <= i,
        forall|j: int|
            #![trigger part_at(l1, j)]
            #![trigger part_at(c1, j)]
            part_at(l1, j) == part_at(l2, j) && part_at(c1, j) == part_at(c2, j),
    ensures
        newer_from(l1, c1, i) == newer_from(l2, c2, i),
    decreases (if max_len(l1, c1) >= max_len(l2, c2) {
        max_len(l1, c1)
    } else {
        max_len(l2, c2)
    }) - i,
{
    let m1 = max_len(l1, c1);
    let m2 = max_len(l2, c2);
    if i < m1 || i < m2 {
        lemma_newer_from_by_parts(l1, c1, l2, c2, i + 1);
        assert(part_at(l1, i) == part_at(l2, i) && part_at(c1, i) == part_at(c2, i));
        if i >= m1 {
            assert(!newer_from(l1, c1, i + 1));
        }
        if i >= m2 {
            assert(!newer_from(l2, c2, i + 1));
        }
    }
}

/// Zero components at the end of either version do not change the
/// comparison: `4.42.1.0` is no newer than `4.42.1`, nor the other way.
pub proof fn lemma_trailing_zero_ignored(latest: Seq<nat>, current: Seq<nat>)
    ensures
        version_newer(latest.push(0), current) == version_newer(latest, current),
        version_newer(latest, current.push(0)) == version_newer(latest, current),
{
    assert forall|j: int| #[trigger] part_at(latest.push(0), j) == part_at(latest, j) by {}
    assert forall|j: int| #[trigger] part_at(current.push(0), j) == part_at(current, j) by {}
    lemma_newer_from_by_parts(latest.push(0), current, latest, current, 0);
    lemma_newer_from_by_parts(latest, current.push(0), latest, current, 0);
}

/// The number of occurrences of `sep` in `s`.
pub open spec fn count_of(s: Seq<char>, sep: char) -> nat
    decreases s.len(),
{
    if s.len() == 0 {
        0
    } else {
        count_of(s.drop_last(), sep) + if s.last() == sep {
            1nat
        } else {
            0nat
        }
    }
}

proof fn lemma_split_len(s: Seq<char>, sep: char)
    ensures
        split_on(s, sep).len() == 1 + count_of(s, sep),
    decreases s.len(),
{
    if s.len() > 0 {
        lemma_split_len(s.drop_last(), sep);
    }
}

proof fn lemma_count_first(s: Seq<char>, sep: char)
    requires
        s.len() > 0,
        s[0] == sep,
    ensures
        count_of(s, sep) >= 1,
    decreases s.len(),
{
    if s.len() > 1 {
        assert(s.drop_last()[0] == s[0]);
        lemma_count_first(s.drop_last(), sep);
    }
}

/// The first piece of a text that does not start with the separator
/// starts with the text's first character.
proof fn lemma_split_first(s: Seq<char>, sep: char)
    requires
        s.len() > 0,
    ensures
        s[0] == sep ==> split_on(s, sep)[0].len() == 0,
        s[0] != sep ==> split_on(s, sep)[0].len() > 0 && split_on(s, sep)[0][0] == s[0],
    decreases s.len(),
{
    let t = s.drop_last();
    lemma_split_len(t, sep);
    if s.len() > 1 {
        assert(t[0] == s[0]);
        lemma_split_first(t, sep);
        if s[0] == sep {
            lemma_count_first(t, sep);
        }
    }
}

/// Every piece of `s` between dots is a non-empty run of digits.
pub open spec fn digit_parts(s: Seq<char>) -> bool {
    forall|i: int|
        0 <= i < split_dots(s).len() ==> (#[trigger] split_dots(s)[i]).len() > 0 && all_digits(
            split_dots(s)[i],
        )
}

proof fn lemma_digit_parts_clean(s: Seq<char>)
    requires
        digit_parts(s),
    ensures
        s.len() > 0,
        clean_version(s) == s,
{
    let p = split_dots(s);
    lemma_split_len(s, '.');
    assert(p[0].len() > 0 && all_digits(p[0]));
    if s.len() == 0 {
        assert(p[0] == Seq::<char>::empty());
    }
    lemma_split_first(s, '.');
    assert(is_digit(p[0][0]));
    let q = split_dots(s.drop_last());
    lemma_split_len(s.drop_last(), '.');
    let last = p[p.len() - 1];
    assert(last.len() > 0 && all_digits(last));
    if s.last() == '.' {
        assert(p == q.push(Seq::<char>::empty()));
    } else {
        assert(last == q.last().push(s.last()));
        assert(is_digit(last[last.len() - 1]));
    }
}

proof fn lemma_split_append_zero(s: Seq<char>)
    ensures
        split_dots(s + seq!['.', '0']) == split_dots(s).push(seq!['0']),
{
    let u = s + seq!['.', '0'];
    let w = s.push('.');
    assert(u.drop_last() =~= w);
    assert(w.drop_last() =~= s);
    lemma_split_len(s, '.');
    let p = split_dots(s).push(Seq::<char>::empty());
    assert(split_dots(w) == p);
    assert(p.update(p.len() - 1, p.last().push('0')) =~= split_dots(s).push(seq!['0']));
}

proof fn lemma_parse_append_zero(a: Seq<char>)
    requires
        digit_parts(a),
    ensures
        parse_version(a + seq!['.', '0']) == (match parse_version(a) {
            Some(n) => Some(n.push(0)),
            None => None,
        }),
{
    let u = a + seq!['.', '0'];
    let p = split_dots(a);
    let pu = split_dots(u);
    lemma_split_append_zero(a);
    assert(pu == p.push(seq!['0']));
    assert(digit_parts(u)) by {
        assert forall|i: int| 0 <= i < pu.len() implies (#[trigger] pu[i]).len() > 0 && all_digits(
            pu[i],
        ) by {
            if i < p.len() {
                assert(pu[i] == p[i]);
            } else {
                assert(pu[i] == seq!['0']);
            }
        }
    }
    lemma_digit_parts_clean(a);
    lemma_digit_parts_clean(u);
    let zero = seq!['0'];
    assert(zero.drop_last() =~= Seq::<char>::empty());
    assert(zero.last() == '0');
    assert(digits_value(zero.drop_last()) == 0);
    assert(digits_value(zero) == 0);
    assert(component_value(zero) == Some(0nat));
    if forall|i: int| 0 <= i < p.len() ==> (#[trigger] component_value(p[i])) is Some {
        assert forall|i: int| 0 <= i < pu.len() implies (#[trigger] component_value(pu[i])) is Some by {
            if i < p.len() {
                assert(pu[i] == p[i]);
            }
        }
        let n = Seq::new(p.len(), |i: int| component_value(p[i])->0);
        assert(Seq::new(pu.len(), |i: int| component_value(pu[i])->0) =~= n.push(0));
    } else {
        let i = choose|i: int| 0 <= i < p.len() && !(#[trigger] component_value(p[i]) is Some);
        assert(pu[i] == p[i]);
        assert(!(component_value(pu[i]) is Some));
    }
}

/// A trailing `.0` never changes the comparison of versions written as
/// dot-separated runs of digits: `4.42.1.0` is no newer than `4.42.1`,
/// nor the other way.
pub proof fn lemma_trailing_zero_text_ignored(a: Seq<char>, b: Seq<char>)
    requires
        digit_parts(a),
        digit_parts(b),
    ensures
        is_newer_version(a + seq!['.', '0'], b) == is_newer_version(a, b),
        is_newer_version(a, b + seq!['.', '0']) == is_newer_version(a, b),
{
    lemma_parse_append_zero(a);
    lemma_parse_append_zero(b);
    match (parse_version(a), parse_version(b)) {
        (Some(c), Some(l)) => {
            lemma_trailing_zero_ignored(l, c);
        },
        _ => {},
    }
}

pub open spec fn as_nats(v: Seq<u32>) -> Seq<nat> {
    v.map_values(|x: u32| x as nat)
}

proof fn lemma_digits_value_prefix(d: Seq<char>, j: int)
    requires
        all_digits(d),
        0 <= j <= d.len(),
    ensures
        digits_value(d.take(j)) <= digits_value(d),
    decreases d.len(),
{
    if j < d.len() {
        let e = d.drop_last();
        assert(all_digits(e)) by {
            assert forall|i: int| 0 <= i < e.len() implies is_digit(#[trigger] e[i]) by {
                assert(e[i] == d[i]);
            }
        }
        lemma_digits_value_prefix(e, j);
        assert(e.take(j) =~= d.take(j));
    } else {
        assert(d.take(j) =~= d);
    }
}

/// The value of the digits `d[start..]`, or `None`.
fn parse_digits(d: &Vec<char>, start: usize) -> (r: Option<u32>)
    requires
        start <= d@.len(),
    ensures
        r matches Some(x) ==> digits_u32(d@.subrange(start as int, d@.len() as int)) == Some(
            x as nat,
        ),
        r is None ==> digits_u32(d@.subrange(start as int, d@.len() as int)) is None,
{
    let ghost x = d@.subrange(start as int, d@.len() as int);
    if start == d.len() {
        return None;
    }
    let mut acc: u64 = 0;
    let mut i: usize = start;
    assert(x.take(0) =~= Seq::<char>::empty());
    while i < d.len()
        invariant
            start <= i <= d@.len(),
            x == d@.subrange(start as int, d@.len() as int),
            forall|k: int| 0 <= k < i - start ==> is_digit(#[trigger] x[k]),
            acc as nat == digits_value(x.take(i - start)),
            acc <= u32::MAX,
        decreases d@.len() - i,
    {
        let c = d[i];
        assert(x[i - start] == c);
        if !('0' <= c && c <= '9') {
            assert(!is_digit(x[i - start]));
            return None;
        }
        let digit = (c as u32 - '0' as u32) as u64;
        let next = acc * 10 + digit;
        assert(x.take(i - start + 1).drop_last() =~= x.take(i - start));
        assert(next as nat == digits_value(x.take(i - start + 1)));
        if next > u32::MAX as u64 {
            proof {
                if all_digits(x) {
                    lemma_digits_value_prefix(x, i - start + 1);
                }
            }
            return None;
        }
        acc = next;
        i = i + 1;
    }
    assert(x.take(i - start) =~= x);
    Some(acc as u32)
}

/// The value of a numeric component, or `None`.
fn parse_component(d: &Vec<char>) -> (r: Option<u32>)
    ensures
        r matches Some(x) ==> component_value(d@) == Some(x as nat),
        r is None ==> component_value(d@) is None,
{
    if d.len() > 0 && d[0] == '+' {
        assert(d@.subrange(1, d@.len() as int) =~= d@.drop_first());
        parse_digits(d, 1)
    } else {
        assert(d@.subrange(0, d@.len() as int) =~= d@);
        parse_digits(d, 0)
    }
}

/// The numeric components of a version string, or `None` when any
/// component is not a number.
fn parse_version_parts(s: &str) -> (r: Option<Vec<u32>>)
    ensures
        r matches Some(v) ==> parse_version(s@) == Some(as_nats(v@)),
        r is None ==> parse_version(s@) is None,
{
    let v = chars_of(s);
    let ghost sv = v@;
    let start: usize = if v.len() > 0 && v[0] == 'v' {
        1
    } else {
        0
    };
    assert(sv.subrange(start as int, sv.len() as int) =~= strip_v(sv));
    let (lo, hi) = trim_blank_range(&v, start, v.len());
    assert(clean_version(sv) == sv.subrange(lo as int, hi as int));
    let parts = split_range(&v, lo, hi, '.');
    let ghost pv = split_dots(clean_version(sv));
    assert(views(parts@) == pv);
    let mut out: Vec<u32> = Vec::new();
    let mut k: usize = 0;
    while k < parts.len()
        invariant
            0 <= k <= parts@.len(),
            views(parts@) == pv,
            pv == split_dots(clean_version(s@)),
            pv.len() == parts@.len(),
            out@.len() == k,
            forall|m: int|
                0 <= m < k ==> component_value(pv[m]) == Some(#[trigger] out@[m] as nat),
        decreases parts@.len() - k,
    {
        assert(parts@[k as int]@ == pv[k as int]);
        match parse_component(&parts[k]) {
            Some(x) => {
                out.push(x);
            },
            None => {
                assert(component_value(pv[k as int]) is None);
                return None;
            },
        }
        k = k + 1;
    }
    assert forall|i: int| 0 <= i < pv.len() implies (#[trigger] component_value(pv[i])) is Some by {
        assert(component_value(pv[i]) == Some(out@[i] as nat));
    }
    assert(Seq::new(pv.len(), |i: int| component_value(pv[i])->0) =~= as_nats(out@));
    Some(out)
}

/// Whether `latest` names a newer version than `current`.
///
/// Surrounding blanks and leading `v`s are ignored, components are compared
/// as numbers from the left with a missing one counting as zero, and a
/// component that is not a number makes the answer `false`.
pub fn compare_versions(current: &str, latest: &str) -> (r: bool)
    ensures
        r == is_newer_version(current@, latest@),
{
    let c = match parse_version_parts(current) {
        Some(c) => c,
        None => {
            return false;
        },
    };
    let l = match parse_version_parts(latest) {
        Some(l) => l,
        None => {
            return false;
        },
    };
    let ghost cn = as_nats(c@);
    let ghost ln = as_nats(l@);
    let n: usize = if c.len() >= l.len() {
        c.len()
    } else {
        l.len()
    };
    let mut i: usize = 0;
    while i < n
        invariant
            0 <= i <= n,
            n == max_len(ln, cn),
            cn == as_nats(c@),
            ln == as_nats(l@),
            newer_from(ln, cn, 0) == newer_from(ln, cn, i as int),
            parse_version(current@) == Some(cn),
            parse_version(latest@) == Some(ln),
        decreases n - i,
    {
        let cp: u32 = if i < c.len() {
            c[i]
        } else {
            0
        };
        let lp: u32 = if i < l.len() {
            l[i]
        } else {
            0
        };
        assert(cp as nat == part_at(cn, i as int));
        assert(lp as nat == part_at(ln, i as int));
        if lp > cp {
            return true;
        } else if lp < cp {
            return false;
        }
        i = i + 1;
    }
    false
}

} // verus!
