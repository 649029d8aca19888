//! The identity a request presents: two random session identifiers and a
//! user agent drawn from a pool. A new one is made for every request.

use rand::seq::SliceRandom;
use vstd::prelude::*;
use vstd::string::{StrSliceExecFns, StringExecFns};

verus! {

/// A digit or one of the letters `a` to `f`.
pub open spec fn is_lower_hex(c: char) -> bool {
    ('0' <= c && c <= '9') || ('a' <= c && c <= 'f')
}

/// A digit or one of the letters `A` to `F`.
pub open spec fn is_upper_hex(c: char) -> bool {
    ('0' <= c && c <= '9') || ('A' <= c && c <= 'F')
}

/// The places of the four hyphens in the 36 characters of an identifier.
pub open spec fn is_hyphen_position(i: int) -> bool {
    i == 8 || i == 13 || i == 18 || i == 23
}

/// The hyphenated lower-case text of a random (version 4) identifier: 36
/// characters in groups of 8, 4, 4, 4 and 12 hexadecimal digits, the third
/// group starting with the version `4`, the fourth with the variant, one of
/// `8`, `9`, `a`, `b`.
pub open spec fn is_lower_session_id(text: Seq<char>) -> bool {
    &&& text.len() == 36
    &&& forall|i: int|
        0 <= i < 36 ==> if is_hyphen_position(i) {
            #[trigger] text[i] == '-'
        } else {
            is_lower_hex(text[i])
        }
    &&& text[14] == '4'
    &&& (text[19] == '8' || text[19] == '9' || text[19] == 'a' || text[19] == 'b')
}

/// The same text in upper case.
pub open spec fn is_upper_session_id(text: Seq<char>) -> bool {
    &&& text.len() == 36
    &&& forall|i: int|
        0 <= i < 36 ==> if is_hyphen_position(i) {
            #[trigger] text[i] == '-'
        } else {
            is_upper_hex(text[i])
        }
    &&& text[14] == '4'
    &&& (text[19] == '8' || text[19] == '9' || text[19] == 'A' || text[19] == 'B')
}

/// The upper-case form of an ASCII letter; any other character stays.
pub open spec fn upper_char(c: char) -> char {
    if 'a' <= c && c <= 'z' {
        ((c as u8) - 32) as char
    } else {
        c
    }
}

/// A text with each of its characters in upper case.
pub open spec fn upper_text(text: Seq<char>) -> Seq<char> {
    Seq::new(text.len(), |i: int| upper_char(text[i]))
}

/// Makes a random identifier with `uuid::Uuid::new_v4` and renders it with
/// `to_hyphenated`: the contract claims the hyphenated lower-case layout of
/// a version 4 identifier, and nothing of which identifier it is. The outside
/// function stops the program if the system has no random bytes to give.
#[verifier::external_body]
fn fresh_session_id() -> (text: String)
    ensures
        is_lower_session_id(text@),
{
    uuid::Uuid::new_v4().to_hyphenated().to_string()
}

/// Draws one entry of the pool with `choose` of `rand::seq::SliceRandom` on
/// the thread-local generator: `None` for an empty pool, else one of its
/// entries, whichever the generator picks.
#[verifier::external_body]
fn choose_user_agent<'a>(pool: &[&'a str]) -> (picked: Option<&'a str>)
    ensures
        picked is None <==> pool@.len() == 0,
        picked is Some ==> exists|i: int|
            0 <= i < pool@.len() && (#[trigger] pool@[i])@ == picked->Some_0@,
{
    pool.choose(&mut rand::thread_rng()).copied()
}

/// Appends one character with `String::push`.
#[verifier::external_body]
fn push_char(text: &mut String, c: char)
    ensures
        final(text)@ == old(text)@.push(c),
{
    text.push(c)
}

/// The upper-case form of an ASCII letter; any other character stays.
pub fn to_upper_char(c: char) -> (upper: char)
    ensures
        upper == upper_char(c),
{
    if 'a' <= c && c <= 'z' {
        ((c as u8) - 32) as char
    } else {
        c
    }
}

/// The text with its ASCII letters in upper case.
pub fn to_upper_text(text: &str) -> (upper: String)
    ensures
        upper@ == upper_text(text@),
{
    let length: usize = text.unicode_len();
    let mut upper = String::new();
    let mut done: usize = 0;
    while done < length
        invariant
            length == text@.len(),
            done <= length,
            upper@ == upper_text(text@.subrange(0, done as int)),
        decreases length - done,
    {
        let c = text.get_char(done);
        push_char(&mut upper, to_upper_char(c));
        done = done + 1;
        assert(upper@ =~= upper_text(text@.subrange(0, done as int)));
    }
    assert(text@.subrange(0, length as int) =~= text@);
    upper
}

/// The upper-case form of a lower-case identifier is the same identifier
/// in upper-case layout.
pub proof fn lemma_upper_session_id(text: Seq<char>)
    requires
        is_lower_session_id(text),
    ensures
        is_upper_session_id(upper_text(text)),
{
    let upper = upper_text(text);
    assert forall|i: int| 0 <= i < 36 implies if is_hyphen_position(i) {
        #[trigger] upper[i] == '-'
    } else {
        is_upper_hex(upper[i])
    } by {
        assert(is_hyphen_position(i) ==> text[i] == '-');
        assert(!is_hyphen_position(i) ==> is_lower_hex(text[i]));
    }
}

/// The identity that one request presents.
#[derive(Debug)]
pub struct RequestIdentity {
    /// The first session identifier, in upper case.
    pub upper_session_id: String,
    /// The second session identifier, in lower case.
    pub lower_session_id: String,
    /// The user agent.
    pub user_agent: String,
}

impl RequestIdentity {
    /// Both identifiers have the layout of a random identifier, and the user
    /// agent is an entry of `pool`.
    pub open spec fn drawn_from(self, pool: Seq<&str>) -> bool {
        &&& is_upper_session_id(self.upper_session_id@)
        &&& is_lower_session_id(self.lower_session_id@)
        &&& exists|i: int| 0 <= i < pool.len() && (#[trigger] pool[i])@ == self.user_agent@
    }
}

/// Puts an identity together from what was drawn: the first identifier is
/// turned to upper case, the second and the user agent are kept as they are.
pub fn identity_from_draws(first_id: &str, second_id: &str, user_agent: &str) -> (identity:
    RequestIdentity)
    ensures
        identity.upper_session_id@ == upper_text(first_id@),
        identity.lower_session_id@ == second_id@,
        identity.user_agent@ == user_agent@,
{
    RequestIdentity {
        upper_session_id: to_upper_text(first_id),
        lower_session_id: String::from_str(second_id),
        user_agent: String::from_str(user_agent),
    }
}

/// Draws a user agent at random from `pool`.
pub fn draw_user_agent<'a>(pool: &[&'a str]) -> (user_agent: &'a str)
    requires
        pool@.len() > 0,
    ensures
        exists|i: int| 0 <= i < pool@.len() && (#[trigger] pool@[i])@ == user_agent@,
{
    match choose_user_agent(pool) {
        Some(user_agent) => user_agent,
        None => unreached(),
    }
}

/// Makes a new identity: two new random session identifiers, and a user agent
/// drawn at random from `pool`. Nothing is kept from one call to the next.
pub fn next_identity(pool: &[&str]) -> (identity: RequestIdentity)
    requires
        pool@.len() > 0,
    ensures
        identity.drawn_from(pool@),
{
    let first_id = fresh_session_id();
    let second_id = fresh_session_id();
    proof {
        lemma_upper_session_id(first_id@);
    }
    identity_from_draws(first_id.as_str(), second_id.as_str(), draw_user_agent(pool))
}

} // verus!
