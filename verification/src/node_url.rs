//! Node addresses: which texts name a ledger node, and under which spelling
//! a node is remembered.
//!
//! Reading a URL is left to the `url` crate. Everything that is decided
//! about the outcome is decided here.

use vstd::prelude::*;

verus! {

/// What the URL parser found in a text, as plain values.
#[derive(Debug)]
pub struct ParsedUrl {
    /// The URL as the parser writes it back: its normal form.
    pub text: String,
    /// Whether the URL names a host.
    pub has_host: bool,
}

/// The mathematical content of a [`ParsedUrl`].
pub struct UrlRecord {
    pub text: Seq<char>,
    pub has_host: bool,
}

impl DeepView for ParsedUrl {
    type V = UrlRecord;

    open spec fn deep_view(&self) -> UrlRecord {
        UrlRecord { text: self.text@, has_host: self.has_host }
    }
}

/// The record that the URL parser gives for `input`, or `None` where it
/// rejects the text.
///
/// Parsing follows the WHATWG URL standard, which is far too long to restate;
/// this names the parser's answer, which depends on the text alone.
pub uninterp spec fn url_parse(input: Seq<char>) -> Option<UrlRecord>;

/// Calls `url::Url::parse` on `input`. On success the record holds what
/// `Url::has_host` says and the serialization that `String::from` takes out
/// of the parsed URL; a parse error of any kind gives `None`.
///
/// The contract is believed, not proved: it says that the result is the value
/// that `url_parse` names for this text.
#[verifier::external_body]
pub(crate) fn parse_url(input: &str) -> (parsed: Option<ParsedUrl>)
    ensures
        parsed.deep_view() == url_parse(input@),
{
    match ::url::Url::parse(input) {
        Ok(url) => Some(ParsedUrl { has_host: url.has_host(), text: String::from(url) }),
        Err(_) => None,
    }
}

/// The spelling under which a parsed address is remembered: the parser's
/// normal form, provided that the URL names a host.
pub open spec fn endpoint_of(parsed: Option<UrlRecord>) -> Option<Seq<char>> {
    match parsed {
        Some(record) => if record.has_host {
            Some(record.text)
        } else {
            None
        },
        None => None,
    }
}

/// The node that `input` names, if it names one.
pub open spec fn node_endpoint(input: Seq<char>) -> Option<Seq<char>> {
    endpoint_of(url_parse(input))
}

/// Decides what to make of a parser result: a URL without a host, like a
/// text that is no URL at all, names no node.
pub fn accept(parsed: &Option<ParsedUrl>) -> (endpoint: Option<String>)
    ensures
        endpoint.deep_view() == endpoint_of(parsed.deep_view()),
{
    match parsed {
        Some(record) => if record.has_host {
            Some(record.text.clone())
        } else {
            None
        },
        None => None,
    }
}

/// Reads `input` as a node address.
pub fn endpoint(input: &str) -> (endpoint: Option<String>)
    ensures
        endpoint.deep_view() == node_endpoint(input@),
{
    let parsed = parse_url(input);
    accept(&parsed)
}

} // verus!
