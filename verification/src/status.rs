//! The status classifier: collapses each survey's disposition vocabulary
//! into a single three-way classification.  Matching is insensitive to edge
//! whitespace and to ASCII case; unrecognized labels classify as `Unknown`
//! and are reported by the ingestor, never fatal.

use vstd::prelude::*;
use crate::text::{
    is_space, lower_char, lower_seq, trim_seq, trim_start, trim_end, lemma_trim_start_at,
    lemma_trim_end_at, to_lower,
};

verus! {

/// The three-way classification of a raw disposition label, plus `Unknown`
/// for labels outside every survey's vocabulary.
#[derive(Clone, Copy, Debug, PartialEq, Eq, Structural)]
pub enum StatusClass {
    Confirmed,
    Candidate,
    FalsePositive,
    Unknown,
}

/// The trimmed, case-folded form of a raw status string; classification
/// depends on a status string only through this form.
pub open spec fn normalize(s: Seq<char>) -> Seq<char> {
    lower_seq(trim_seq(s))
}

/// The vocabulary, across all three surveys, for a confirmed planet.
pub open spec fn confirmed_word(n: Seq<char>) -> bool {
    n == "confirmed"@ || n == "cp"@ || n == "kp"@ || n == "validated"@
}

/// The vocabulary, across all three surveys, for a confirmed non-planet.
pub open spec fn false_positive_word(n: Seq<char>) -> bool {
    n == "false positive"@ || n == "fp"@ || n == "fa"@
}

/// The vocabulary, across all three surveys, for a still-unsettled candidate.
pub open spec fn candidate_word(n: Seq<char>) -> bool {
    n == "candidate"@ || n == "pc"@ || n == "apc"@ || n == "candidate planet"@
}

/// The class of an already-normalized label.
pub open spec fn class_of(n: Seq<char>) -> StatusClass {
    if confirmed_word(n) {
        StatusClass::Confirmed
    } else if false_positive_word(n) {
        StatusClass::FalsePositive
    } else if candidate_word(n) {
        StatusClass::Candidate
    } else {
        StatusClass::Unknown
    }
}

/// The class of a raw status string as read from a source file.
pub open spec fn classify_spec(s: Seq<char>) -> StatusClass {
    class_of(normalize(s))
}

/// Whether `c` is edge whitespace for status normalization.
fn is_space_char(c: char) -> (r: bool)
    ensures
        r == is_space(c),
{
    c == ' ' || c == '\t' || c == '\r' || c == '\n'
}

/// Whether the case-folded range `s[lo..hi]` equals `w`.
fn eq_folded(s: &str, lo: usize, hi: usize, w: &str) -> (r: bool)
    requires
        lo <= hi <= s@.len(),
    ensures
        r == (lower_seq(s@.subrange(lo as int, hi as int)) == w@),
{
    let ghost t = lower_seq(s@.subrange(lo as int, hi as int));
    let wn = w.unicode_len();
    if hi - lo != wn {
        proof {
            assert(t.len() != w@.len());
        }
        return false;
    }
    let mut k: usize = 0;
    while k < wn
        invariant
            k <= wn == w@.len(),
            lo <= hi <= s@.len(),
            hi - lo == wn,
            t == lower_seq(s@.subrange(lo as int, hi as int)),
            forall|j: int| 0 <= j < k ==> t[j] == w@[j],
        decreases wn - k,
    {
        let c = to_lower(s.get_char(lo + k));
        if c != w.get_char(k) {
            proof {
                assert(t[k as int] == lower_char(s@.subrange(lo as int, hi as int)[k as int]));
                assert(t[k as int] != w@[k as int]);
            }
            return false;
        }
        proof {
            assert(t[k as int] == lower_char(s@.subrange(lo as int, hi as int)[k as int]));
        }
        k = k + 1;
    }
    proof {
        assert(t =~= w@);
    }
    true
}

/// Classifies a raw status string, insensitive to edge whitespace and to
/// ASCII case.
pub fn classify(raw: &str) -> (r: StatusClass)
    ensures
        r == classify_spec(raw@),
{
    let n = raw.unicode_len();
    let mut a: usize = 0;
    while a < n && is_space_char(raw.get_char(a))
        invariant
            a <= n == raw@.len(),
            forall|k: int| 0 <= k < a ==> is_space(raw@[k]),
        decreases n - a,
    {
        a = a + 1;
    }
    let mut b: usize = n;
    while b > a && is_space_char(raw.get_char(b - 1))
        invariant
            a <= b <= n == raw@.len(),
            forall|k: int| b <= k < n ==> is_space(raw@[k]),
        decreases b,
    {
        b = b - 1;
    }
    proof {
        lemma_trim_start_at(raw@, a as int);
        let u = raw@.subrange(a as int, n as int);
        assert forall|k: int| b - a <= k < u.len() implies is_space(u[k]) by {
            assert(u[k] == raw@[a + k]);
        }
        if b > a {
            assert(u[b - a - 1] == raw@[b - 1]);
        }
        lemma_trim_end_at(u, b - a);
        assert(u.subrange(0, b - a) =~= raw@.subrange(a as int, b as int));
        assert(trim_seq(raw@) == raw@.subrange(a as int, b as int));
    }
    if eq_folded(raw, a, b, "confirmed") || eq_folded(raw, a, b, "cp") || eq_folded(
        raw,
        a,
        b,
        "kp",
    ) || eq_folded(raw, a, b, "validated") {
        StatusClass::Confirmed
    } else if eq_folded(raw, a, b, "false positive") || eq_folded(raw, a, b, "fp") || eq_folded(
        raw,
        a,
        b,
        "fa",
    ) {
        StatusClass::FalsePositive
    } else if eq_folded(raw, a, b, "candidate") || eq_folded(raw, a, b, "pc") || eq_folded(
        raw,
        a,
        b,
        "apc",
    ) || eq_folded(raw, a, b, "candidate planet") {
        StatusClass::Candidate
    } else {
        StatusClass::Unknown
    }
}

/// Classification reads a status string only through its normalized form:
/// two strings with one trimmed, case-folded form always classify alike.
pub proof fn lemma_classify_normalized(s: Seq<char>, t: Seq<char>)
    requires
        normalize(s) == normalize(t),
    ensures
        classify_spec(s) == classify_spec(t),
{
}

/// Case-insensitivity: folding the case of a status string never changes
/// its class.
pub proof fn lemma_classify_case_insensitive(s: Seq<char>)
    ensures
        classify_spec(lower_seq(s)) == classify_spec(s),
{
    lemma_trim_lower_commute(s);
    lemma_lower_idempotent(trim_seq(s));
}

/// Whitespace-insensitivity: padding a status string with edge whitespace
/// never changes its class.
pub proof fn lemma_classify_space_insensitive(s: Seq<char>, pad: char)
    requires
        is_space(pad),
    ensures
        classify_spec(seq![pad] + s) == classify_spec(s),
        classify_spec(s + seq![pad]) == classify_spec(s),
{
    assert((seq![pad] + s)[0] == pad);
    assert((seq![pad] + s).drop_first() =~= s);
    lemma_trim_pad_end(s, pad);
}

/// Appending one whitespace character does not change the trimmed form.
proof fn lemma_trim_pad_end(s: Seq<char>, pad: char)
    requires
        is_space(pad),
    ensures
        trim_seq(s + seq![pad]) == trim_seq(s),
    decreases s.len(),
{
    let p = s + seq![pad];
    if s.len() == 0 {
        assert(p =~= seq![pad]);
        assert(p[0] == pad);
        assert(p.drop_first() =~= Seq::<char>::empty());
        assert(trim_start(p) == trim_start(Seq::<char>::empty()));
        assert(trim_start(Seq::<char>::empty()) == Seq::<char>::empty());
        assert(trim_end(Seq::<char>::empty()) == Seq::<char>::empty());
        assert(trim_start(s) == s);
        assert(trim_end(s) == s);
    } else if is_space(s[0]) {
        assert(p[0] == s[0]);
        assert(p.drop_first() =~= s.drop_first() + seq![pad]);
        assert(trim_start(p) == trim_start(s.drop_first() + seq![pad]));
        assert(trim_start(s) == trim_start(s.drop_first()));
        lemma_trim_pad_end(s.drop_first(), pad);
        assert(trim_seq(p) == trim_seq(s.drop_first() + seq![pad]));
        assert(trim_seq(s) == trim_seq(s.drop_first()));
    } else {
        assert(p[0] == s[0]);
        assert(trim_start(p) == p);
        assert(trim_start(s) == s);
        assert(p.last() == pad);
        assert(p.drop_last() =~= s);
        assert(trim_end(p) == trim_end(s));
        assert(trim_seq(p) == trim_end(s));
        assert(trim_seq(s) == trim_end(s));
    }
}

/// Case folding commutes with trimming: no whitespace character is an
/// uppercase letter, and folding introduces no whitespace.
proof fn lemma_trim_lower_commute(s: Seq<char>)
    ensures
        trim_seq(lower_seq(s)) == lower_seq(trim_seq(s)),
{
    lemma_trim_start_lower(s);
    lemma_trim_end_lower(trim_start(s));
}

proof fn lemma_space_fold(c: char)
    ensures
        is_space(lower_char(c)) == is_space(c),
{
}

proof fn lemma_trim_start_lower(s: Seq<char>)
    ensures
        trim_start(lower_seq(s)) == lower_seq(trim_start(s)),
    decreases s.len(),
{
    if s.len() > 0 && is_space(s[0]) {
        lemma_space_fold(s[0]);
        assert(lower_seq(s)[0] == lower_char(s[0]));
        assert(lower_seq(s).drop_first() =~= lower_seq(s.drop_first()));
        lemma_trim_start_lower(s.drop_first());
    } else if s.len() > 0 {
        lemma_space_fold(s[0]);
        assert(lower_seq(s)[0] == lower_char(s[0]));
    } else {
        assert(lower_seq(s) =~= Seq::<char>::empty());
    }
}

proof fn lemma_trim_end_lower(s: Seq<char>)
    ensures
        trim_end(lower_seq(s)) == lower_seq(trim_end(s)),
    decreases s.len(),
{
    if s.len() > 0 && is_space(s.last()) {
        lemma_space_fold(s.last());
        assert(lower_seq(s).last() == lower_char(s.last()));
        assert(lower_seq(s).drop_last() =~= lower_seq(s.drop_last()));
        lemma_trim_end_lower(s.drop_last());
    } else if s.len() > 0 {
        lemma_space_fold(s.last());
        assert(lower_seq(s).last() == lower_char(s.last()));
    } else {
        assert(lower_seq(s) =~= Seq::<char>::empty());
    }
}

proof fn lemma_lower_char_fix(c: char)
    ensures
        lower_char(lower_char(c)) == lower_char(c),
{
    if 65 <= c as u32 && c as u32 <= 90 {
        assert(((c as u8) + 32) as char as u32 == c as u32 + 32);
    }
}

proof fn lemma_lower_idempotent(s: Seq<char>)
    ensures
        lower_seq(lower_seq(s)) == lower_seq(s),
{
    assert forall|i: int| 0 <= i < s.len() implies lower_char(lower_char(s[i])) == lower_char(
        s[i],
    ) by {
        lemma_lower_char_fix(s[i]);
    }
    assert(lower_seq(lower_seq(s)) =~= lower_seq(s));
}

} // verus!
