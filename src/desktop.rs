//! Reading the desktop application's version out of the text that the
//! platform's probes print: a registry query, or a file-metadata query.
use vstd::prelude::*;
use crate::text::{
    chars_of, contains, contains_chars, is_blank, is_blank_char, split_on, split_range,
    string_of_range, trim_blank_range, trim_end, trim_start, views,
};
use crate::updates::{keep_components, normalize_desktop_version};


verus! {

/// The first of `lines`, from index `i` on, that holds `needle`.
pub open spec fn first_with(lines: Seq<Seq<char>>, needle: Seq<char>, i: int) -> Option<
    Seq<char>,
>
    decreases lines.len() - i,
{
    if i < 0 || i >= lines.len() {
        None
    } else if contains(lines[i], needle) {
        Some(lines[i])
    } else {
        first_with(lines, needle, i + 1)
    }
}

/// The run of non-blank characters at the end of `t`.
pub open spec fn last_run(t: Seq<char>) -> Seq<char>
    decreases t.len(),
{
    if t.len() == 0 || is_blank(t.last()) {
        Seq::<char>::empty()
    } else {
        last_run(t.drop_last()).push(t.last())
    }
}

/// The last blank-separated word of `line`.
pub open spec fn last_word(line: Seq<char>) -> Seq<char> {
    last_run(trim_end(line))
}

pub open spec fn strip_leading(s: Seq<char>, c: char) -> Seq<char>
    decreases s.len(),
{
    if s.len() > 0 && s[0] == c {
        strip_leading(s.drop_first(), c)
    } else {
        s
    }
}

pub open spec fn strip_trailing(s: Seq<char>, c: char) -> Seq<char>
    decreases s.len(),
{
    if s.len() > 0 && s.last() == c {
        strip_trailing(s.drop_last(), c)
    } else {
        s
    }
}

/// A found version text, cut to three components; none when it is empty.
pub open spec fn version_from_text(v: Seq<char>) -> Option<Seq<char>> {
    if v.len() > 0 {
        Some(keep_components(v, 3))
    } else {
        None
    }
}

/// The version in a registry query's output: the last word of the first
/// line that names `CurrentVersion`, without surrounding quotes and blanks.
pub open spec fn registry_version_of(output: Seq<char>) -> Option<Seq<char>> {
    match first_with(split_on(output, '\n'), "CurrentVersion"@, 0) {
        Some(line) => version_from_text(
            trim_start(trim_end(strip_trailing(strip_leading(last_word(line), '"'), '"'))),
        ),
        None => None,
    }
}

/// The version in a file-metadata query's output: the text after the `=`
/// of the first line that holds `Version=`, up to any further `=`,
/// without surrounding blanks.
pub open spec fn metadata_version_of(output: Seq<char>) -> Option<Seq<char>> {
    match first_with(split_on(output, '\n'), "Version="@, 0) {
        Some(line) => {
            let pieces = split_on(line, '=');
            if pieces.len() >= 2 {
                version_from_text(trim_start(trim_end(pieces[1])))
            } else {
                None
            }
        },
        None => None,
    }
}

fn first_line_with(lines: &Vec<Vec<char>>, needle: &Vec<char>) -> (r: Option<usize>)
    ensures
        match r {
            Some(i) => i < lines@.len() && first_with(views(lines@), needle@, 0) == Some(
                lines@[i as int]@,
            ),
            None => first_with(views(lines@), needle@, 0) is None,
        },
{
    let mut i: usize = 0;
    while i < lines.len()
        invariant
            0 <= i <= lines@.len(),
            first_with(views(lines@), needle@, 0) == first_with(views(lines@), needle@, i as int),
        decreases lines@.len() - i,
    {
        assert(views(lines@)[i as int] == lines@[i as int]@);
        if contains_chars(&lines[i], needle) {
            return Some(i);
        }
        i = i + 1;
    }
    None
}

/// The bounds of `v[lo..hi]` without `c` at either end.
fn strip_char_range(v: &Vec<char>, lo: usize, hi: usize, c: char) -> (r: (usize, usize))
    requires
        lo <= hi <= v@.len(),
    ensures
        lo <= r.0 <= r.1 <= hi,
        v@.subrange(r.0 as int, r.1 as int) == strip_trailing(
            strip_leading(v@.subrange(lo as int, hi as int), c),
            c,
        ),
{
    let mut a: usize = lo;
    while a < hi && v[a] == c
        invariant
            lo <= a <= hi <= v@.len(),
            strip_leading(v@.subrange(lo as int, hi as int), c) == strip_leading(
                v@.subrange(a as int, hi as int),
                c,
            ),
        decreases hi - a,
    {
        assert(v@.subrange(a as int, hi as int).drop_first() =~= v@.subrange(
            a as int + 1,
            hi as int,
        ));
        a = a + 1;
    }
    let mut b: usize = hi;
    while b > a && v[b - 1] == c
        invariant
            lo <= a <= b <= hi <= v@.len(),
            strip_leading(v@.subrange(lo as int, hi as int), c) == v@.subrange(
                a as int,
                hi as int,
            ),
            strip_trailing(v@.subrange(a as int, hi as int), c) == strip_trailing(
                v@.subrange(a as int, b as int),
                c,
            ),
        decreases b,
    {
        assert(v@.subrange(a as int, b as int).drop_last() =~= v@.subrange(
            a as int,
            b as int - 1,
        ));
        b = b - 1;
    }
    (a, b)
}

/// The bounds of the last blank-separated word of `v`.
fn last_word_range(v: &Vec<char>) -> (r: (usize, usize))
    ensures
        r.0 <= r.1 <= v@.len(),
        v@.subrange(r.0 as int, r.1 as int) == last_word(v@),
{
    let mut e: usize = v.len();
    assert(v@.subrange(0, e as int) =~= v@);
    while e > 0 && is_blank_char(v[e - 1])
        invariant
            e <= v@.len(),
            trim_end(v@) == trim_end(v@.subrange(0, e as int)),
        decreases e,
    {
        assert(v@.subrange(0, e as int).drop_last() =~= v@.subrange(0, e as int - 1));
        e = e - 1;
    }
    let mut b: usize = e;
    assert(last_run(v@.subrange(0, e as int)) + v@.subrange(e as int, e as int) =~= last_run(
        v@.subrange(0, e as int),
    ));
    while b > 0 && !is_blank_char(v[b - 1])
        invariant
            b <= e <= v@.len(),
            trim_end(v@) == v@.subrange(0, e as int),
            last_run(v@.subrange(0, e as int)) == last_run(v@.subrange(0, b as int))
                + v@.subrange(b as int, e as int),
        decreases b,
    {
        let ghost head = v@.subrange(0, b as int);
        assert(head.drop_last() =~= v@.subrange(0, b as int - 1));
        assert(head.last() == v@[b as int - 1]);
        assert(last_run(v@.subrange(0, b as int - 1)).push(v@[b as int - 1]) + v@.subrange(
            b as int,
            e as int,
        ) =~= last_run(v@.subrange(0, b as int - 1)) + v@.subrange(b as int - 1, e as int));
        b = b - 1;
    }
    assert(last_run(v@.subrange(0, b as int)) =~= Seq::<char>::empty());
    assert(last_run(v@.subrange(0, e as int)) =~= v@.subrange(b as int, e as int));
    (b, e)
}

/// The found version text `v[lo..hi]`, cut to three components.
fn version_in_range(v: &Vec<char>, lo: usize, hi: usize) -> (r: Option<String>)
    requires
        lo <= hi <= v@.len(),
    ensures
        match r {
            Some(s) => version_from_text(v@.subrange(lo as int, hi as int)) == Some(s@),
            None => version_from_text(v@.subrange(lo as int, hi as int)) is None,
        },
{
    if lo == hi {
        None
    } else {
        let text = string_of_range(v, lo, hi);
        Some(normalize_desktop_version(text.as_str()))
    }
}

/// The desktop application's version in the output of a registry query.
pub fn registry_version(output: &str) -> (r: Option<String>)
    ensures
        match r {
            Some(s) => registry_version_of(output@) == Some(s@),
            None => registry_version_of(output@) is None,
        },
{
    let v = chars_of(output);
    let lines = split_range(&v, 0, v.len(), '\n');
    assert(v@.subrange(0, v@.len() as int) =~= output@);
    let needle = chars_of("CurrentVersion");
    match first_line_with(&lines, &needle) {
        None => None,
        Some(i) => {
            let line = &lines[i];
            let (b, e) = last_word_range(line);
            let (qb, qe) = strip_char_range(line, b, e, '"');
            let (tb, te) = trim_blank_range(line, qb, qe);
            version_in_range(line, tb, te)
        },
    }
}

/// The desktop application's version in the output of a file-metadata
/// query.
pub fn metadata_version(output: &str) -> (r: Option<String>)
    ensures
        match r {
            Some(s) => metadata_version_of(output@) == Some(s@),
            None => metadata_version_of(output@) is None,
        },
{
    let v = chars_of(output);
    let lines = split_range(&v, 0, v.len(), '\n');
    assert(v@.subrange(0, v@.len() as int) =~= output@);
    let needle = chars_of("Version=");
    match first_line_with(&lines, &needle) {
        None => None,
        Some(i) => {
            let line = &lines[i];
            let pieces = split_range(line, 0, line.len(), '=');
            assert(line@.subrange(0, line@.len() as int) =~= line@);
            if pieces.len() < 2 {
                None
            } else {
                let p = &pieces[1];
                assert(views(pieces@)[1] == p@);
                let (a, b) = trim_blank_range(p, 0, p.len());
                assert(p@.subrange(0, p@.len() as int) =~= p@);
                version_in_range(p, a, b)
            }
        },
    }
}

} // verus!
