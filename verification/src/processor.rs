//! The decoding policy: from a transport outcome to the text that is shown.

use crate::json::{
    error_text, from_slice, json_error_text, json_from_slice, json_to_string_pretty,
    to_string_pretty,
};
use crate::outcome::{OutcomeView, TransportOutcome};
use vstd::prelude::*;

verus! {

/// What decoding a response body came to.
#[derive(Debug, Clone, PartialEq, Eq)]
pub enum Decoded {
    /// The body is a JSON document; this is its pretty-printed text.
    Pretty(String),
    /// The body is a JSON document that the printer could not write out.
    Unformattable,
    /// The body is no JSON document; this is the parser's description of why.
    Invalid(String),
}

/// The mathematical value of a [`Decoded`].
pub ghost enum DecodedView {
    Pretty(Seq<char>),
    Unformattable,
    Invalid(Seq<char>),
}

impl View for Decoded {
    type V = DecodedView;

    open spec fn view(&self) -> DecodedView {
        match *self {
            Decoded::Pretty(text) => DecodedView::Pretty(text@),
            Decoded::Unformattable => DecodedView::Unformattable,
            Decoded::Invalid(description) => DecodedView::Invalid(description@),
        }
    }
}

/// The text put before a parser's description.
pub open spec fn parse_failure_prefix() -> Seq<char> {
    "Failed to parse JSON: "@
}

/// The text shown for a document that could not be written out.
pub open spec fn format_failure_text() -> Seq<char> {
    "Failed to format JSON"@
}

/// The text put before a transport's message.
pub open spec fn transport_failure_prefix() -> Seq<char> {
    "Error: "@
}

/// What decoding `body` comes to.
pub open spec fn decoded(body: Seq<u8>) -> DecodedView {
    match json_from_slice(body) {
        Ok(value) => match json_to_string_pretty(value) {
            Ok(text) => DecodedView::Pretty(text),
            Err(_) => DecodedView::Unformattable,
        },
        Err(err) => DecodedView::Invalid(json_error_text(err)),
    }
}

/// The text shown for a decoded body.
pub open spec fn rendered(d: DecodedView) -> Seq<char> {
    match d {
        DecodedView::Pretty(text) => text,
        DecodedView::Unformattable => format_failure_text(),
        DecodedView::Invalid(description) => parse_failure_prefix() + description,
    }
}

/// The text shown for an outcome.
pub open spec fn display_text(outcome: OutcomeView) -> Seq<char> {
    match outcome {
        OutcomeView::Success { body, .. } => rendered(decoded(body)),
        OutcomeView::Failure { message } => transport_failure_prefix() + message,
    }
}

/// Decodes a response body: parses it as JSON and prints the document again.
pub fn decode_body(body: &[u8]) -> (r: Decoded)
    ensures
        r@ == decoded(body@),
{
    match from_slice(body) {
        Ok(value) => match to_string_pretty(&value) {
            Ok(text) => Decoded::Pretty(text),
            Err(_) => Decoded::Unformattable,
        },
        Err(err) => Decoded::Invalid(error_text(&err)),
    }
}

/// The text shown for a decoded body: the pretty-printed document itself, or a
/// line that says what went wrong.
pub fn render(d: Decoded) -> (r: String)
    ensures
        r@ == rendered(d@),
{
    match d {
        Decoded::Pretty(text) => text,
        Decoded::Unformattable => "Failed to format JSON".to_owned(),
        Decoded::Invalid(description) => "Failed to parse JSON: ".to_owned().concat(
            description.as_str(),
        ),
    }
}

/// The text shown for a transport failure with the given message.
pub fn failure_text(message: &str) -> (r: String)
    ensures
        r@ == transport_failure_prefix() + message@,
{
    "Error: ".to_owned().concat(message)
}

/// Turns an outcome into the text to show. A response body is decoded and
/// rendered, whatever its status; a transport failure is reported with its
/// message. Every outcome has a text.
pub fn process(outcome: TransportOutcome) -> (r: String)
    ensures
        r@ == display_text(outcome@),
        outcome matches TransportOutcome::Failure { message } ==> r@ == "Error: "@ + message@,
{
    match outcome {
        TransportOutcome::Success { status: _, headers: _, body } => render(
            decode_body(body.as_slice()),
        ),
        TransportOutcome::Failure { message } => failure_text(message.as_str()),
    }
}

/// A response whose body is no JSON document is shown as a line that begins
/// with "Failed to parse JSON: " and goes on with the parser's description.
pub proof fn lemma_invalid_body_reported(
    status: u16,
    headers: Seq<(Seq<char>, Seq<char>)>,
    body: Seq<u8>,
)
    ensures
        json_from_slice(body) matches Err(err) ==> {
            let shown = display_text(OutcomeView::Success { status, headers, body });
            &&& parse_failure_prefix().is_prefix_of(shown)
            &&& shown == parse_failure_prefix() + json_error_text(err)
        },
{
    if let Err(err) = json_from_slice(body) {
        let shown = display_text(OutcomeView::Success { status, headers, body });
        assert(shown == parse_failure_prefix() + json_error_text(err));
        assert(shown.subrange(0, parse_failure_prefix().len() as int) =~= parse_failure_prefix());
    }
}

/// A transport failure is shown as "Error: " followed by its message, and by
/// nothing else.
pub proof fn lemma_failure_passthrough(message: Seq<char>)
    ensures
        display_text(OutcomeView::Failure { message }) == "Error: "@ + message,
        display_text(OutcomeView::Failure { message }).len() == 7 + message.len(),
{
    reveal_strlit("Error: ");
}

/// The text shown for a response depends on its body alone: neither the status
/// nor the headers change it.
pub proof fn lemma_body_alone_decides(
    status_a: u16,
    headers_a: Seq<(Seq<char>, Seq<char>)>,
    status_b: u16,
    headers_b: Seq<(Seq<char>, Seq<char>)>,
    body: Seq<u8>,
)
    ensures
        display_text(OutcomeView::Success { status: status_a, headers: headers_a, body })
            == display_text(OutcomeView::Success { status: status_b, headers: headers_b, body }),
{
}

} // verus!
