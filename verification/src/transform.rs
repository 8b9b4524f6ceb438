//! The transform rule evaluator: one line in, a cleaned line or "drop" out,
//! with the rules applied in the fixed order trim, uppercase, empty-check,
//! duplicate-check.

use vstd::prelude::*;
use vstd::string::StrSliceExecFns;

use crate::dedup::Deduplicator;
use crate::profile::TransformProfile;

verus! {

/// The Unicode `White_Space` characters, the ones a whitespace trim removes
/// from the boundary of a line.
pub open spec fn is_whitespace_char(c: char) -> bool {
    let u = c as u32;
    ||| u == 0x09
    ||| u == 0x0A
    ||| u == 0x0B
    ||| u == 0x0C
    ||| u == 0x0D
    ||| u == 0x20
    ||| u == 0x85
    ||| u == 0xA0
    ||| u == 0x1680
    ||| (0x2000 <= u && u <= 0x200A)
    ||| u == 0x2028
    ||| u == 0x2029
    ||| u == 0x202F
    ||| u == 0x205F
    ||| u == 0x3000
}

fn is_whitespace(c: char) -> (r: bool)
    ensures
        r == is_whitespace_char(c),
{
    let u = c as u32;
    u == 0x09 || u == 0x0A || u == 0x0B || u == 0x0C || u == 0x0D || u == 0x20 || u == 0x85 || u
        == 0xA0 || u == 0x1680 || (0x2000 <= u && u <= 0x200A) || u == 0x2028 || u == 0x2029 || u
        == 0x202F || u == 0x205F || u == 0x3000
}

pub open spec fn trim_front(s: Seq<char>) -> Seq<char>
    decreases s.len(),
{
    if s.len() > 0 && is_whitespace_char(s[0]) {
        trim_front(s.drop_first())
    } else {
        s
    }
}

pub open spec fn trim_back(s: Seq<char>) -> Seq<char>
    decreases s.len(),
{
    if s.len() > 0 && is_whitespace_char(s.last()) {
        trim_back(s.drop_last())
    } else {
        s
    }
}

/// A line with its leading and trailing whitespace removed; the interior is
/// untouched.
pub open spec fn trim_spec(s: Seq<char>) -> Seq<char> {
    trim_back(trim_front(s))
}

proof fn lemma_trim_front_at(s: Seq<char>, i: int)
    requires
        0 <= i <= s.len(),
        forall|k: int| 0 <= k < i ==> is_whitespace_char(s[k]),
        i == s.len() || !is_whitespace_char(s[i]),
    ensures
        trim_front(s) == s.subrange(i, s.len() as int),
    decreases i,
{
    if i == 0 {
        assert(trim_front(s) =~= s.subrange(0, s.len() as int));
    } else {
        let t = s.drop_first();
        assert forall|k: int| 0 <= k < i - 1 implies is_whitespace_char(t[k]) by {
            assert(t[k] == s[k + 1]);
        }
        lemma_trim_front_at(t, i - 1);
        assert(t.subrange(i - 1, t.len() as int) =~= s.subrange(i, s.len() as int));
    }
}

proof fn lemma_trim_back_at(s: Seq<char>, j: int)
    requires
        0 <= j <= s.len(),
        forall|k: int| j <= k < s.len() ==> is_whitespace_char(s[k]),
        j == 0 || !is_whitespace_char(s[j - 1]),
    ensures
        trim_back(s) == s.subrange(0, j),
    decreases s.len() - j,
{
    if j == s.len() {
        assert(trim_back(s) =~= s.subrange(0, j));
    } else {
        let t = s.drop_last();
        assert(is_whitespace_char(s.last()));
        assert forall|k: int| j <= k < t.len() implies is_whitespace_char(t[k]) by {
            assert(t[k] == s[k]);
        }
        lemma_trim_back_at(t, j);
        assert(t.subrange(0, j) =~= s.subrange(0, j));
    }
}

/// Removes leading and trailing whitespace from a line.
pub fn trim_str(s: &str) -> (r: &str)
    ensures
        r@ == trim_spec(s@),
{
    let n = s.unicode_len();
    let mut start: usize = 0;
    while start < n && is_whitespace(s.get_char(start))
        invariant
            n == s@.len(),
            start <= n,
            forall|k: int| 0 <= k < start ==> is_whitespace_char(s@[k]),
        decreases n - start,
    {
        start = start + 1;
    }
    let mut end: usize = n;
    while start < end && is_whitespace(s.get_char(end - 1))
        invariant
            n == s@.len(),
            start <= end <= n,
            start == n || !is_whitespace_char(s@[start as int]),
            forall|k: int| 0 <= k < start ==> is_whitespace_char(s@[k]),
            forall|k: int| end <= k < n ==> is_whitespace_char(s@[k]),
        decreases end,
    {
        end = end - 1;
    }
    let r = s.substring_char(start, end);
    proof {
        lemma_trim_front_at(s@, start as int);
        let t = s@.subrange(start as int, s@.len() as int);
        assert forall|k: int| end - start <= k < t.len() implies is_whitespace_char(t[k]) by {
            assert(t[k] == s@[start + k]);
        }
        if end > start {
            assert(t[end - start - 1] == s@[end - 1]);
        }
        lemma_trim_back_at(t, end - start);
        assert(t.subrange(0, end - start) =~= s@.subrange(start as int, end as int));
    }
    r
}

/// An ASCII lowercase letter mapped to its uppercase form; every other
/// character, non-ASCII letters included, kept as it is.
pub open spec fn to_upper_char(c: char) -> char {
    if 97 <= c as u32 && c as u32 <= 122 {
        (c as u32 - 32) as char
    } else {
        c
    }
}

/// ASCII-only uppercasing of a whole line, character by character.
pub open spec fn upper_seq(s: Seq<char>) -> Seq<char> {
    Seq::new(s.len(), |i: int| to_upper_char(s[i]))
}

/// Relies on String::push: appends exactly the given character.
#[verifier::external_body]
fn push_char(s: &mut String, c: char)
    ensures
        final(s)@ == old(s)@.push(c),
{
    s.push(c);
}

/// Builds the ASCII-uppercased copy of a line.
pub fn ascii_upper(s: &str) -> (r: String)
    ensures
        r@ == upper_seq(s@),
{
    let n = s.unicode_len();
    let mut out = String::new();
    let mut i: usize = 0;
    while i < n
        invariant
            n == s@.len(),
            i <= n,
            out@ == upper_seq(s@).subrange(0, i as int),
        decreases n - i,
    {
        let c = s.get_char(i);
        let u = c as u32;
        let upper: char = if 97 <= u && u <= 122 {
            ((u - 32) as u8) as char
        } else {
            c
        };
        assert(upper == to_upper_char(c));
        push_char(&mut out, upper);
        i = i + 1;
        proof {
            assert(out@ =~= upper_seq(s@).subrange(0, i as int));
        }
    }
    proof {
        assert(upper_seq(s@).subrange(0, n as int) =~= upper_seq(s@));
    }
    out
}

/// The normalized form of a line under a profile: trimmed if `trim` is set,
/// then ASCII-uppercased if `to_upper` is set.
pub open spec fn normalized(line: Seq<char>, p: TransformProfile) -> Seq<char> {
    let t = if p.trim {
        trim_spec(line)
    } else {
        line
    };
    if p.to_upper {
        upper_seq(t)
    } else {
        t
    }
}

/// Whether the evaluator emits the line: it is dropped when `drop_empty` is
/// set and the normalized form is empty (the tracker is not consulted), or
/// when `deduplicate` is set and the normalized form was seen before.
pub open spec fn accepts(line: Seq<char>, p: TransformProfile, seen: Set<Seq<char>>) -> bool {
    let n = normalized(line, p);
    !(p.drop_empty && n.len() == 0) && !(p.deduplicate && seen.contains(n))
}

/// The tracker state after one evaluation: the normalized form is recorded
/// exactly when the line is accepted under an active `deduplicate` flag.
pub open spec fn seen_after(line: Seq<char>, p: TransformProfile, seen: Set<Seq<char>>) -> Set<
    Seq<char>,
> {
    if accepts(line, p, seen) && p.deduplicate {
        seen.insert(normalized(line, p))
    } else {
        seen
    }
}

/// Apply a profile to a single line: `Some` holds the normalized form when
/// the line is accepted, `None` means it was dropped; the tracker moves to
/// its after-evaluation state and is the only side effect.
pub fn transform_line(line: &str, profile: &TransformProfile, dedup: &mut Deduplicator) -> (r:
    Option<String>)
    ensures
        r is Some <==> accepts(line@, *profile, old(dedup)@),
        r matches Some(out) ==> out@ == normalized(line@, *profile),
        final(dedup)@ == seen_after(line@, *profile, old(dedup)@),
{
    let base: &str = if profile.trim {
        trim_str(line)
    } else {
        line
    };
    let out: String = if profile.to_upper {
        ascii_upper(base)
    } else {
        base.to_owned()
    };
    if profile.drop_empty && out.as_str().is_empty() {
        return None;
    }
    if profile.deduplicate {
        let fresh = dedup.insert(out.as_str());
        if !fresh {
            proof {
                assert(old(dedup)@.insert(out@) =~= old(dedup)@);
            }
            return None;
        }
    }
    Some(out)
}

/// Law: with deduplication on, a line the evaluator has just accepted is
/// rejected on every later evaluation against the resulting tracker state,
/// and a cleared (empty) tracker accepts it again.
pub proof fn lemma_dedup_accept_then_reject(
    line: Seq<char>,
    p: TransformProfile,
    seen: Set<Seq<char>>,
)
    requires
        p.deduplicate,
        accepts(line, p, seen),
    ensures
        !accepts(line, p, seen_after(line, p, seen)),
        seen_after(line, p, seen_after(line, p, seen)) == seen_after(line, p, seen),
        accepts(line, p, Set::<Seq<char>>::empty()),
{
}

/// Law: a line whose normalized form is empty is dropped by the empty-check
/// alone when `drop_empty` is set, whatever `deduplicate` says, and the
/// deduplication state is never polluted by such a line.
pub proof fn lemma_empty_drop_shields_dedup(
    line: Seq<char>,
    p: TransformProfile,
    seen: Set<Seq<char>>,
)
    requires
        p.drop_empty,
        normalized(line, p).len() == 0,
    ensures
        !accepts(line, p, seen),
        seen_after(line, p, seen) == seen,
{
}

/// Law: uppercasing is ASCII-only; a character that is not an ASCII
/// lowercase letter, a non-ASCII letter in particular, is left unchanged.
pub proof fn lemma_upper_ascii_only(s: Seq<char>, i: int)
    requires
        0 <= i < s.len(),
        !(97 <= s[i] as u32 && s[i] as u32 <= 122),
    ensures
        upper_seq(s)[i] == s[i],
{
}

} // verus!
