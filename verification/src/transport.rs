//! How the transport is to be set up: directly, or through the proxy that
//! the environment names.

use crate::error::RecognitionError;
use vstd::prelude::*;

verus! {

/// `reqwest::Proxy`, carried from where it is parsed to where the transport
/// is built; nothing here looks inside it.
#[verifier::external_type_specification]
#[verifier::external_body]
pub struct ExProxy(reqwest::Proxy);

/// `reqwest::Error`, the reason a proxy URL was refused.
#[verifier::external_type_specification]
#[verifier::external_body]
pub struct ExTransportError(reqwest::Error);

/// The proxy for HTTPS traffic that `reqwest::Proxy::https` makes of a URL,
/// or `None` where it refuses the URL.
pub uninterp spec fn https_proxy_of(url: Seq<char>) -> Option<reqwest::Proxy>;

/// Calls `reqwest::Proxy::https` on the URL. The call reads nothing but its
/// argument, so its result is named: `https_proxy_of`.
#[verifier::external_body]
fn parse_https_proxy(url: &str) -> (parsed: Result<reqwest::Proxy, reqwest::Error>)
    ensures
        parsed is Ok ==> https_proxy_of(url@) == Some(parsed->Ok_0),
        parsed is Err ==> https_proxy_of(url@) is None,
{
    reqwest::Proxy::https(url)
}

/// How requests leave the machine.
#[derive(Debug)]
pub enum TransportPlan {
    /// Straight to the service.
    Direct,
    /// All HTTPS traffic through this proxy.
    Proxied(reqwest::Proxy),
}

/// A variable that names a proxy: it is set, and its value is not empty.
pub open spec fn names_a_proxy(variable: Option<Seq<char>>) -> bool {
    variable is Some && variable->Some_0.len() > 0
}

/// The proxy URL that is in force: the first non-empty value among
/// `https_proxy` and `HTTPS_PROXY`, in that order. A variable that is unset
/// or empty names no proxy.
pub open spec fn selected_proxy_url(lower: Option<Seq<char>>, upper: Option<Seq<char>>) -> Option<
    Seq<char>,
> {
    if names_a_proxy(lower) {
        lower
    } else if names_a_proxy(upper) {
        upper
    } else {
        None
    }
}

/// The text of a variable, if it is set.
pub open spec fn text_of(variable: Option<String>) -> Option<Seq<char>> {
    match variable {
        Some(value) => Some(value@),
        None => None,
    }
}

/// The plan that follows from the two proxy variables: direct where neither
/// names a proxy, through the proxy that the selected URL names where it is a
/// valid proxy URL, and a configuration error where it is not.
pub open spec fn planned_transport(lower: Option<Seq<char>>, upper: Option<Seq<char>>) -> Result<
    TransportPlan,
    RecognitionError,
> {
    match selected_proxy_url(lower, upper) {
        None => Ok(TransportPlan::Direct),
        Some(url) => match https_proxy_of(url) {
            Some(proxy) => Ok(TransportPlan::Proxied(proxy)),
            None => Err(RecognitionError::Configuration),
        },
    }
}

/// Picks the proxy URL that is in force, given the values of `https_proxy`
/// (`lower`) and `HTTPS_PROXY` (`upper`), each `None` where the variable is
/// not set. The first value that is not empty wins, the lower-case variable
/// before the upper-case one.
pub fn select_proxy_url(lower: Option<String>, upper: Option<String>) -> (selected: Option<String>)
    ensures
        text_of(selected) == selected_proxy_url(text_of(lower), text_of(upper)),
{
    if let Some(url) = lower {
        if !url.as_str().is_empty() {
            return Some(url);
        }
    }
    if let Some(url) = upper {
        if !url.as_str().is_empty() {
            return Some(url);
        }
    }
    None
}

/// Turns the outcome of parsing the selected proxy URL into a plan: the
/// proxy where the URL was accepted, a configuration error where it was not.
pub fn plan_with_proxy(parsed: Result<reqwest::Proxy, reqwest::Error>) -> (plan: Result<
    TransportPlan,
    RecognitionError,
>)
    ensures
        parsed is Ok ==> plan == Ok::<TransportPlan, RecognitionError>(
            TransportPlan::Proxied(parsed->Ok_0),
        ),
        parsed is Err ==> plan == Err::<TransportPlan, RecognitionError>(
            RecognitionError::Configuration,
        ),
{
    match parsed {
        Ok(proxy) => Ok(TransportPlan::Proxied(proxy)),
        Err(_) => Err(RecognitionError::Configuration),
    }
}

/// Plans the transport from the values of `https_proxy` (`lower`) and
/// `HTTPS_PROXY` (`upper`), each `None` where the variable is not set.
pub fn plan_transport(lower: Option<String>, upper: Option<String>) -> (plan: Result<
    TransportPlan,
    RecognitionError,
>)
    ensures
        plan == planned_transport(text_of(lower), text_of(upper)),
        !names_a_proxy(text_of(lower)) && !names_a_proxy(text_of(upper)) ==> plan == Ok::<
            TransportPlan,
            RecognitionError,
        >(TransportPlan::Direct),
{
    match select_proxy_url(lower, upper) {
        None => Ok(TransportPlan::Direct),
        Some(url) => plan_with_proxy(parse_https_proxy(url.as_str())),
    }
}

/// When both variables are set and the value of `https_proxy` is not empty,
/// that value is the one in force, whatever `HTTPS_PROXY` holds.
pub proof fn law_lower_case_variable_wins(lower: Seq<char>, upper: Seq<char>)
    requires
        lower.len() > 0,
    ensures
        selected_proxy_url(Some(lower), Some(upper)) == Some(lower),
        planned_transport(Some(lower), Some(upper)) == planned_transport(Some(lower), None),
{
}

/// A variable that is set but empty counts as unset: the other variable
/// decides alone.
pub proof fn law_empty_value_is_passed_over(other: Option<Seq<char>>)
    ensures
        selected_proxy_url(Some(Seq::empty()), other) == selected_proxy_url(None, other),
        selected_proxy_url(other, Some(Seq::empty())) == selected_proxy_url(other, None),
        planned_transport(Some(Seq::empty()), other) == planned_transport(None, other),
        planned_transport(other, Some(Seq::empty())) == planned_transport(other, None),
        planned_transport(Some(Seq::empty()), Some(Seq::empty())) == Ok::<
            TransportPlan,
            RecognitionError,
        >(TransportPlan::Direct),
{
}

} // verus!
