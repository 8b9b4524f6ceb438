//! The session and buffer boundary: a long-lived session bundling one rule
//! configuration with one deduplication tracker, and the handoff protocol
//! that packages an accepted line as an owned, zero-terminated byte block
//! whose ownership passes to the caller in one piece.

use vstd::prelude::*;
use vstd::string::StrSliceExecFns;
use vstd::utf8::decode_utf8;
use vstd::utf8::encode_utf8;
use vstd::utf8::valid_utf8;

use crate::dedup::Deduplicator;
use crate::profile::TransformProfile;
use crate::transform::accepts;
use crate::transform::normalized;
use crate::transform::seen_after;
use crate::transform::transform_line;

verus! {

/// Relies on std::str::from_utf8: succeeds exactly on well-formed UTF-8 and
/// yields the text those bytes decode to.
#[verifier::external_body]
fn decode_bytes(bytes: &[u8]) -> (r: Option<&str>)
    ensures
        r matches Some(s) ==> valid_utf8(bytes@) && s@ == decode_utf8(bytes@),
        r is None ==> !valid_utf8(bytes@),
{
    match std::str::from_utf8(bytes) {
        Ok(s) => Some(s),
        Err(_) => None,
    }
}

/// Session that holds the profile and deduplication state for callers on
/// the other side of the boundary. Created and destroyed explicitly by its
/// owner; one session never shares its tracker with another.
pub struct AstraSession {
    profile: TransformProfile,
    dedup: Deduplicator,
}

impl AstraSession {
    /// The rule configuration this session was opened with; fixed for the
    /// session's whole life.
    pub closed spec fn rules(&self) -> TransformProfile {
        self.profile
    }

    /// The set of normalized lines this session's tracker has accepted.
    pub closed spec fn seen(&self) -> Set<Seq<char>> {
        self.dedup@
    }

    /// Opens a session with a fresh, empty deduplication tracker.
    pub fn new(profile: TransformProfile) -> (s: Self)
        ensures
            s.rules() == profile,
            s.seen() == Set::<Seq<char>>::empty(),
    {
        let s = AstraSession { profile, dedup: Deduplicator::new() };
        s
    }

    /// Runs one byte block through the session's rules. An accepted,
    /// non-empty result comes back as an owned byte block holding the
    /// line's UTF-8 encoding plus one zero terminator byte, which is not
    /// counted in the logical length; ownership of the block passes to the
    /// caller. `None` stands for both "no output for this line" and
    /// "the bytes are not well-formed UTF-8": the boundary deliberately
    /// makes the two indistinguishable, and `None` needs no deallocation.
    pub fn transform_bytes(&mut self, input: &[u8]) -> (r: Option<Vec<u8>>)
        ensures
            final(self).rules() == old(self).rules(),
            !valid_utf8(input@) ==> r is None && final(self).seen() == old(self).seen(),
            valid_utf8(input@) ==> {
                let text = decode_utf8(input@);
                let out = normalized(text, old(self).rules());
                &&& final(self).seen() == seen_after(text, old(self).rules(), old(self).seen())
                &&& (r is Some <==> accepts(text, old(self).rules(), old(self).seen()) && out.len()
                    > 0)
                &&& (r matches Some(buf) ==> {
                    &&& buf@.len() == encode_utf8(out).len() + 1
                    &&& buf@.subrange(0, buf@.len() - 1) == encode_utf8(out)
                    &&& buf@.last() == 0u8
                })
            },
    {
        let text = match decode_bytes(input) {
            Some(t) => t,
            None => {
                return None;
            },
        };
        match transform_line(text, &self.profile, &mut self.dedup) {
            Some(out) => {
                if out.as_str().is_empty() {
                    None
                } else {
                    let mut buf = out.as_str().as_bytes_vec();
                    buf.push(0u8);
                    proof {
                        assert(buf@.subrange(0, buf@.len() - 1) =~= encode_utf8(out@));
                    }
                    Some(buf)
                }
            },
            None => None,
        }
    }
}

} // verus!
