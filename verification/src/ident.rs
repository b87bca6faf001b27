//! Identifiers: random UUIDs in text form, the robot identifier and the
//! boot identifier.

use crate::text::{is_space, run_len, tail_run_len, trim, trimmed, CharClass};
use vstd::prelude::*;

verus! {

/// Whether `c` is a decimal digit or one of the letters `a` to `f`.
pub open spec fn is_lower_hex(c: char) -> bool {
    ('0' <= c <= '9') || ('a' <= c <= 'f')
}

/// Whether `s` has the shape of a random (version 4) UUID in its
/// hyphenated lower-case form, `xxxxxxxx-xxxx-4xxx-yxxx-xxxxxxxxxxxx` with
/// `y` one of `8`, `9`, `a`, `b`.
pub open spec fn is_random_uuid_text(s: Seq<char>) -> bool {
    &&& s.len() == 36
    &&& forall|i: int|
        0 <= i < 36 ==> if i == 8 || i == 13 || i == 18 || i == 23 {
            #[trigger] s[i] == '-'
        } else {
            is_lower_hex(s[i])
        }
    &&& s[14] == '4'
    &&& (s[19] == '8' || s[19] == '9' || s[19] == 'a' || s[19] == 'b')
}

/// Draws a random UUID with `uuid::Uuid::new_v4` and renders it with its
/// `Display` impl. Believed, not proved: the text has the hyphenated
/// lower-case shape of a version 4 UUID. Which UUID it is depends on the
/// system's random source, so nothing more is claimed; `uuid` panics where
/// that source fails.
#[verifier::external_body]
pub(crate) fn random_uuid_text() -> (id: String)
    ensures
        is_random_uuid_text(id@),
{
    uuid::Uuid::new_v4().to_string()
}

/// A text that neither begins nor ends with white space is its own trimmed
/// form.
pub proof fn lemma_trimmed_without_margin(s: Seq<char>)
    requires
        s.len() > 0,
        !is_space(s[0]),
        !is_space(s.last()),
    ensures
        trimmed(s) == s,
{
    assert(run_len(s, CharClass::Space) == 0);
    assert(s.skip(0) =~= s);
    assert(tail_run_len(s, CharClass::Space) == 0);
    assert(s.take(s.len() as int) =~= s);
}

/// The identifier of the robot: the one supplied, or else a random UUID
/// drawn now.
pub fn resolve_robot_id(supplied: Option<String>) -> (id: String)
    ensures
        match supplied {
            Some(given) => id@ == given@,
            None => is_random_uuid_text(id@),
        },
{
    match supplied {
        Some(given) => given,
        None => random_uuid_text(),
    }
}

/// The boot identifier: what the kernel published, without the white space
/// around it; where the kernel published nothing readable, a random UUID
/// drawn now, so that the reading differs from every earlier one.
pub fn get_boot_id(published: Option<String>) -> (id: String)
    ensures
        match published {
            Some(text) => id@ == trimmed(text@),
            None => is_random_uuid_text(id@),
        },
{
    let raw = match published {
        Some(text) => text,
        None => {
            let fresh = random_uuid_text();
            proof {
                assert(is_lower_hex(fresh@[0]));
                assert(is_lower_hex(fresh@[35]));
                lemma_trimmed_without_margin(fresh@);
            }
            fresh
        },
    };
    trim(raw.as_str())
}

} // verus!
