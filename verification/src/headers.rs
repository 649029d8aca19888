//! The headers that every request carries.

use vstd::prelude::*;
use vstd::string::StringExecFns;

verus! {

/// The value of the `Content-Language` header.
pub open spec fn content_language() -> Seq<char> {
    "en_US"@
}

/// A character that may stand in a header value: a tab, or anything from the
/// space on but the delete character.
pub open spec fn is_header_char(c: char) -> bool {
    (c as u32 >= 32 && c as u32 != 127) || c == '\t'
}

/// A text that may stand as a header value.
pub open spec fn is_header_text(text: Seq<char>) -> bool {
    forall|i: int| 0 <= i < text.len() ==> is_header_char(#[trigger] text[i])
}

/// Asks `HeaderValue::from_str` (of the http crate, as reqwest hands it on)
/// whether it takes the text. It refuses a text exactly when one of its bytes
/// is a control character other than the tab; the bytes of a character beyond
/// ASCII are all above 127 and pass, so the rule reads the same on characters.
#[verifier::external_body]
fn header_value_accepts(text: &str) -> (accepted: bool)
    ensures
        accepted == is_header_text(text@),
{
    reqwest::header::HeaderValue::from_str(text).is_ok()
}

/// The two headers of a request.
#[derive(Debug)]
pub struct RequestHeaders {
    /// The value of `User-Agent`.
    pub user_agent: String,
    /// The value of `Content-Language`.
    pub content_language: String,
}

impl RequestHeaders {
    /// The headers carry `user_agent` and the fixed content language.
    pub open spec fn carries(self, user_agent: Seq<char>) -> bool {
        &&& self.user_agent@ == user_agent
        &&& self.content_language@ == content_language()
    }

    /// Both values can stand as header values.
    pub open spec fn is_sendable(self) -> bool {
        &&& is_header_text(self.user_agent@)
        &&& is_header_text(self.content_language@)
    }
}

/// Builds the headers for a user agent, or `None` exactly when the user
/// agent cannot stand as a header value.
pub fn build_headers(user_agent: &str) -> (headers: Option<RequestHeaders>)
    ensures
        headers is Some <==> is_header_text(user_agent@),
        headers is Some ==> headers->Some_0.carries(user_agent@) && headers->Some_0.is_sendable(),
{
    if header_value_accepts(user_agent) {
        proof {
            lemma_content_language_is_header_text();
        }
        Some(
            RequestHeaders {
                user_agent: String::from_str(user_agent),
                content_language: String::from_str("en_US"),
            },
        )
    } else {
        None
    }
}

/// The fixed content language can stand as a header value.
pub proof fn lemma_content_language_is_header_text()
    ensures
        is_header_text(content_language()),
{
    reveal_strlit("en_US");
}

} // verus!
