//! Character-level text primitives shared by the ingest pipeline: splitting a
//! delimited file into lines and fields, stripping carriage returns, trimming
//! edge whitespace, and ASCII case folding.

use vstd::prelude::*;

verus! {

/// The whitespace characters stripped from the edges of a status string.
/// Deliberately ASCII-only: every status vocabulary word is ASCII, so
/// wider Unicode whitespace would change nothing a vocabulary word needs,
/// and a label padded with exotic whitespace stays unrecognized.
pub open spec fn is_space(c: char) -> bool {
    c == ' ' || c == '\t' || c == '\r' || c == '\n'
}

/// ASCII case folding for one character: uppercase letters map to their
/// lowercase counterpart, every other character is unchanged.  As with
/// `is_space`, the restriction to ASCII is deliberate: the vocabularies
/// being matched are ASCII abbreviations.
pub open spec fn lower_char(c: char) -> char {
    if 65 <= c as u32 && c as u32 <= 90 {
        ((c as u8) + 32) as char
    } else {
        c
    }
}

/// ASCII case folding of a whole character sequence.
pub open spec fn lower_seq(s: Seq<char>) -> Seq<char> {
    Seq::new(s.len(), |i: int| lower_char(s[i]))
}

/// The sequence with its leading whitespace removed.
pub open spec fn trim_start(s: Seq<char>) -> Seq<char>
    decreases s.len(),
{
    if s.len() > 0 && is_space(s[0]) {
        trim_start(s.drop_first())
    } else {
        s
    }
}

/// The sequence with its trailing whitespace removed.
pub open spec fn trim_end(s: Seq<char>) -> Seq<char>
    decreases s.len(),
{
    if s.len() > 0 && is_space(s.last()) {
        trim_end(s.drop_last())
    } else {
        s
    }
}

/// The sequence with whitespace removed from both edges.
pub open spec fn trim_seq(s: Seq<char>) -> Seq<char> {
    trim_end(trim_start(s))
}

/// The index of the first occurrence of `sep` in `s`, or -1 if absent.
pub open spec fn find_char(s: Seq<char>, sep: char) -> int
    decreases s.len(),
{
    if s.len() == 0 {
        -1
    } else if s[0] == sep {
        0
    } else if find_char(s.drop_first(), sep) < 0 {
        -1
    } else {
        find_char(s.drop_first(), sep) + 1
    }
}

/// `find_char` returns exactly the position of the first separator.
pub proof fn lemma_find_char_at(s: Seq<char>, sep: char, j: int)
    requires
        0 <= j < s.len(),
        s[j] == sep,
        forall|k: int| 0 <= k < j ==> s[k] != sep,
    ensures
        find_char(s, sep) == j,
    decreases j,
{
    if j > 0 {
        assert(s[0] != sep);
        assert forall|k: int| 0 <= k < j - 1 implies s.drop_first()[k] != sep by {
            assert(s.drop_first()[k] == s[k + 1]);
        }
        assert(s.drop_first()[j - 1] == s[j]);
        lemma_find_char_at(s.drop_first(), sep, j - 1);
    }
}

pub proof fn lemma_find_char_none(s: Seq<char>, sep: char)
    requires
        forall|k: int| 0 <= k < s.len() ==> s[k] != sep,
    ensures
        find_char(s, sep) == -1,
    decreases s.len(),
{
    if s.len() > 0 {
        assert forall|k: int| 0 <= k < s.drop_first().len() implies s.drop_first()[k] != sep by {
            assert(s.drop_first()[k] == s[k + 1]);
        }
        lemma_find_char_none(s.drop_first(), sep);
    }
}

/// `s` split at every occurrence of `sep`; the separators themselves are
/// dropped.  A sequence with no separator yields one segment, so the number
/// of segments is always one more than the number of separators.
pub open spec fn split_on(s: Seq<char>, sep: char) -> Seq<Seq<char>>
    decreases s.len(),
{
    let i = find_char(s, sep);
    if i < 0 || i >= s.len() {
        seq![s]
    } else {
        seq![s.subrange(0, i)] + split_on(s.subrange(i + 1, s.len() as int), sep)
    }
}

/// The views of a sequence of owned strings.
pub open spec fn str_views(v: Seq<String>) -> Seq<Seq<char>> {
    Seq::new(v.len(), |i: int| v[i]@)
}

/// Splits `s` at every occurrence of `sep`.
pub fn split_str(s: &str, sep: char) -> (r: Vec<String>)
    ensures
        str_views(r@) == split_on(s@, sep),
{
    let n = s.unicode_len();
    let mut out: Vec<String> = Vec::new();
    let mut start: usize = 0;
    let mut i: usize = 0;
    proof {
        assert(s@.subrange(0, n as int) =~= s@);
        assert(str_views(out@) + split_on(s@, sep) =~= split_on(s@, sep));
    }
    while i < n
        invariant
            start <= i <= n == s@.len(),
            split_on(s@, sep) == str_views(out@) + split_on(s@.subrange(start as int, n as int), sep),
            forall|k: int| start <= k < i ==> s@[k] != sep,
        decreases n - i,
    {
        if s.get_char(i) == sep {
            let piece = s.substring_char(start, i).to_owned();
            proof {
                let t = s@.subrange(start as int, n as int);
                assert forall|k: int| 0 <= k < i - start implies t[k] != sep by {
                    assert(t[k] == s@[start + k]);
                }
                assert(t[i - start] == s@[i as int]);
                lemma_find_char_at(t, sep, i - start);
                assert(t.subrange(0, i - start) =~= s@.subrange(start as int, i as int));
                assert(t.subrange(i - start + 1, t.len() as int) =~= s@.subrange(
                    i + 1,
                    n as int,
                ));
                assert(str_views(out@.push(piece)) =~= str_views(out@) + seq![s@.subrange(
                    start as int,
                    i as int,
                )]);
            }
            out.push(piece);
            start = i + 1;
        }
        i = i + 1;
    }
    let piece = s.substring_char(start, n).to_owned();
    proof {
        let t = s@.subrange(start as int, n as int);
        assert forall|k: int| 0 <= k < t.len() implies t[k] != sep by {
            assert(t[k] == s@[start + k]);
        }
        lemma_find_char_none(t, sep);
        assert(str_views(out@.push(piece)) =~= str_views(out@) + seq![t]);
    }
    out.push(piece);
    out
}

/// A line with a trailing carriage return removed, so that files with CRLF
/// line endings parse the same as files with bare LF endings.
pub open spec fn strip_cr(l: Seq<char>) -> Seq<char> {
    if l.len() > 0 && l.last() == '\r' {
        l.drop_last()
    } else {
        l
    }
}

/// The lines of a file: split on newlines, each with a trailing carriage
/// return removed.
pub open spec fn lines_of(s: Seq<char>) -> Seq<Seq<char>> {
    split_on(s, '\n').map(|i: int, l: Seq<char>| strip_cr(l))
}

/// A line that takes part in parsing: non-blank and not a `#` comment.
pub open spec fn keep_line(l: Seq<char>) -> bool {
    l.len() > 0 && l[0] != '#'
}

/// The subsequence of lines that take part in parsing, in file order.
pub open spec fn kept_of(ls: Seq<Seq<char>>) -> Seq<Seq<char>>
    decreases ls.len(),
{
    if ls.len() == 0 {
        Seq::empty()
    } else if keep_line(ls.last()) {
        kept_of(ls.drop_last()).push(ls.last())
    } else {
        kept_of(ls.drop_last())
    }
}

/// The parsed lines of a file: comment lines and blank lines are skipped.
pub open spec fn kept_lines(s: Seq<char>) -> Seq<Seq<char>> {
    kept_of(lines_of(s))
}

/// Splits `s` into lines, drops carriage returns, comments and blanks.
pub fn content_lines(s: &str) -> (r: Vec<String>)
    ensures
        str_views(r@) == kept_lines(s@),
{
    let raw = split_str(s, '\n');
    let ghost ls = lines_of(s@);
    let mut out: Vec<String> = Vec::new();
    let mut i: usize = 0;
    proof {
        assert(ls.take(0) =~= Seq::<Seq<char>>::empty());
        assert(str_views(out@) =~= kept_of(ls.take(0)));
    }
    while i < raw.len()
        invariant
            i <= raw.len() == ls.len(),
            str_views(raw@) == split_on(s@, '\n'),
            ls == lines_of(s@),
            str_views(out@) == kept_of(ls.take(i as int)),
        decreases raw.len() - i,
    {
        let line: &String = &raw[i];
        let nl = line.as_str().unicode_len();
        let stripped: String = if nl > 0 && line.as_str().get_char(nl - 1) == '\r' {
            line.as_str().substring_char(0, nl - 1).to_owned()
        } else {
            line.clone()
        };
        proof {
            assert(line@.drop_last() =~= line@.subrange(0, nl - 1));
            assert(stripped@ == strip_cr(line@));
            assert(stripped@ == ls[i as int]);
            assert(ls.take(i + 1).drop_last() =~= ls.take(i as int));
            assert(ls.take(i + 1).last() == ls[i as int]);
        }
        let m = stripped.as_str().unicode_len();
        if m > 0 && stripped.as_str().get_char(0) != '#' {
            proof {
                assert(str_views(out@.push(stripped)) =~= str_views(out@).push(stripped@));
            }
            out.push(stripped);
        }
        i = i + 1;
    }
    proof {
        assert(ls.take(ls.len() as int) =~= ls);
    }
    out
}

/// Characterizes `trim_start` by the index of the first non-space character.
pub proof fn lemma_trim_start_at(s: Seq<char>, a: int)
    requires
        0 <= a <= s.len(),
        forall|k: int| 0 <= k < a ==> is_space(s[k]),
        a < s.len() ==> !is_space(s[a]),
    ensures
        trim_start(s) == s.subrange(a, s.len() as int),
    decreases a,
{
    if a == 0 {
        assert(s.subrange(0, s.len() as int) =~= s);
    } else {
        assert(is_space(s[0]));
        let t = s.drop_first();
        assert forall|k: int| 0 <= k < a - 1 implies is_space(t[k]) by {
            assert(t[k] == s[k + 1]);
        }
        lemma_trim_start_at(t, a - 1);
        assert(t.subrange(a - 1, t.len() as int) =~= s.subrange(a, s.len() as int));
    }
}

/// Characterizes `trim_end` by the index just past the last non-space
/// character.
pub proof fn lemma_trim_end_at(s: Seq<char>, b: int)
    requires
        0 <= b <= s.len(),
        forall|k: int| b <= k < s.len() ==> is_space(s[k]),
        b > 0 ==> !is_space(s[b - 1]),
    ensures
        trim_end(s) == s.subrange(0, b),
    decreases s.len() - b,
{
    if b == s.len() {
        assert(s.subrange(0, b) =~= s);
    } else {
        assert(is_space(s.last()));
        let t = s.drop_last();
        lemma_trim_end_at(t, b);
        assert(t.subrange(0, b) =~= s.subrange(0, b));
    }
}

/// Lowercases one character; ASCII-only folding, as `lower_char` specifies.
pub fn to_lower(c: char) -> (r: char)
    ensures
        r == lower_char(c),
{
    let u = c as u32;
    if 65 <= u && u <= 90 {
        ((c as u8) + 32) as char
    } else {
        c
    }
}

} // verus!
