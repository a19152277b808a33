//! What the proxy does with each message from the client, and how it reads the
//! user's answer when it asks for approval.
//!
//! The proxy alternates its decisions with outside work (asking the user,
//! writing to the server or the client). Each decision here maps what the proxy
//! knows to the next [`GatewayAction`]; the program around it performs it.

use vstd::prelude::*;
use crate::filter::{FilterDecision, SecurityFilter, error_response_text};
use crate::text::text_eq;

verus! {

/// The next thing the proxy does with a message.
pub enum GatewayAction {
    /// Pass the message on to the server as one line (its text and a newline).
    ForwardLine,
    /// Pass the message's bytes on to the server unchanged.
    ForwardRaw,
    /// Ask the user whether to let a blocked request through, showing the reason.
    AskUser(String),
    /// Answer the client with this error response and drop the request.
    Reply(String),
}

/// The meaning of a [`GatewayAction`].
pub enum ActionView {
    ForwardLine,
    ForwardRaw,
    AskUser(Seq<char>),
    Reply(Seq<char>),
}

impl View for GatewayAction {
    type V = ActionView;

    open spec fn view(&self) -> ActionView {
        match self {
            GatewayAction::ForwardLine => ActionView::ForwardLine,
            GatewayAction::ForwardRaw => ActionView::ForwardRaw,
            GatewayAction::AskUser(reason) => ActionView::AskUser(reason@),
            GatewayAction::Reply(response) => ActionView::Reply(response@),
        }
    }
}

/// What the proxy does first with a message: `verdict` is `None` for a message
/// that is not a JSON-RPC request, else the filter's decision on the request.
pub open spec fn first_action(verdict: Option<Option<Seq<char>>>) -> ActionView {
    match verdict {
        None => ActionView::ForwardRaw,
        Some(None) => ActionView::ForwardLine,
        Some(Some(reason)) => ActionView::AskUser(reason),
    }
}

/// What the proxy does with a blocked request once the user has answered.
pub open spec fn answered_action(approved: bool, id_json: Seq<char>, reason: Seq<char>) -> ActionView {
    if approved {
        ActionView::ForwardLine
    } else {
        ActionView::Reply(error_response_text(id_json, reason))
    }
}

/// The decision of the filter, if the message was a request.
pub open spec fn verdict_of(decision: Option<&FilterDecision>) -> Option<Option<Seq<char>>> {
    match decision {
        Some(d) => Some(d@),
        None => None,
    }
}

/// The first action on a message: pass on what is not a request as it came,
/// pass on an allowed request as a line, and ask the user about a blocked one.
pub fn action_for_message(decision: Option<&FilterDecision>) -> (a: GatewayAction)
    ensures
        a@ == first_action(verdict_of(decision)),
{
    match decision {
        None => GatewayAction::ForwardRaw,
        Some(FilterDecision::Allow) => GatewayAction::ForwardLine,
        Some(FilterDecision::Block(reason)) => GatewayAction::AskUser(reason.clone()),
    }
}

/// The action on a blocked request after the user answered: pass it on if
/// approved, else answer the client with the error response for `id_json`.
pub fn action_after_answer(filter: &SecurityFilter, approved: bool, id_json: &str, reason: &str) -> (a: GatewayAction)
    ensures
        a@ == answered_action(approved, id_json@, reason@),
{
    if approved {
        GatewayAction::ForwardLine
    } else {
        GatewayAction::Reply(filter.make_error_response(id_json, reason))
    }
}

/// A request reaches the server as a line only if the filter allowed it or
/// the user approved it; a refused request is answered with the error
/// response for its id and the filter's reason.
pub proof fn law_forwarded_only_if_allowed_or_approved(
    decision: Option<Seq<char>>,
    approved: bool,
    id_json: Seq<char>,
)
    ensures
        first_action(Some(decision)) == ActionView::ForwardLine ==> decision is None,
        first_action(Some(decision)) is AskUser ==> decision is Some,
        decision matches Some(reason) ==> (
            answered_action(approved, id_json, reason) == ActionView::ForwardLine <==> approved),
        decision matches Some(reason) ==> (!approved ==>
            answered_action(approved, id_json, reason) == ActionView::Reply(error_response_text(id_json, reason))),
{
}

/// The characters with Unicode's `White_Space` property, which
/// `char::is_whitespace` tests for.
pub open spec fn is_white_space(c: char) -> bool {
    let n = c as u32;
    ||| 0x09 <= n <= 0x0d
    ||| n == 0x20
    ||| n == 0x85
    ||| n == 0xa0
    ||| n == 0x1680
    ||| 0x2000 <= n <= 0x200a
    ||| n == 0x2028
    ||| n == 0x2029
    ||| n == 0x202f
    ||| n == 0x205f
    ||| n == 0x3000
}

/// `s` without its leading whitespace.
pub open spec fn trim_start(s: Seq<char>) -> Seq<char>
    decreases s.len(),
{
    if s.len() > 0 && is_white_space(s[0]) {
        trim_start(s.drop_first())
    } else {
        s
    }
}

/// `s` without its trailing whitespace.
pub open spec fn trim_end(s: Seq<char>) -> Seq<char>
    decreases s.len(),
{
    if s.len() > 0 && is_white_space(s.last()) {
        trim_end(s.drop_last())
    } else {
        s
    }
}

/// `s` without its leading and trailing whitespace.
pub open spec fn trimmed(s: Seq<char>) -> Seq<char> {
    trim_end(trim_start(s))
}

/// The lower-case form of `s`, as `str::to_lowercase` gives it.
pub uninterp spec fn lowercased(s: Seq<char>) -> Seq<char>;

/// The ASCII lower-case form of a character (others are kept).
pub open spec fn ascii_lower(c: char) -> char {
    if 'A' <= c && c <= 'Z' {
        ((c as u32) + 32) as char
    } else {
        c
    }
}

/// Removes leading and trailing whitespace with `str::trim`.
///
/// Trusted: `str::trim` removes the leading and trailing characters for which
/// `char::is_whitespace` holds, those with Unicode's `White_Space` property.
#[verifier::external_body]
fn trim_text(s: &str) -> (r: &str)
    ensures
        r@ == trimmed(s@),
{
    s.trim()
}

/// Lower-cases a text with `str::to_lowercase`.
///
/// Trusted: the result is `lowercased` of the text; Unicode's case mapping
/// beyond ASCII is left to the name. On ASCII text it maps `A`..`Z` to
/// `a`..`z` and keeps every other character.
#[verifier::external_body]
fn lowercase_text(s: &str) -> (r: String)
    ensures
        r@ == lowercased(s@),
        (forall|i: int| 0 <= i < s@.len() ==> (#[trigger] s@[i] as u32) < 128)
            ==> r@ == s@.map_values(|c: char| ascii_lower(c)),
{
    s.to_lowercase()
}

/// Whether the user's answer to an approval prompt says yes: once trimmed
/// and lower-cased it reads `y` or `yes`.
pub fn is_approval(answer: &str) -> (r: bool)
    ensures
        r == (lowercased(trimmed(answer@)) == "y"@ || lowercased(trimmed(answer@)) == "yes"@),
        (forall|i: int| 0 <= i < trimmed(answer@).len() ==> (#[trigger] trimmed(answer@)[i] as u32) < 128) ==> r == (
            trimmed(answer@).map_values(|c: char| ascii_lower(c)) == "y"@
                || trimmed(answer@).map_values(|c: char| ascii_lower(c)) == "yes"@),
{
    let lowered = lowercase_text(trim_text(answer));
    text_eq(lowered.as_str(), "y") || text_eq(lowered.as_str(), "yes")
}

} // verus!
