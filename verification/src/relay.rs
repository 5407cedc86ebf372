//! Which relay to use.
//!
//! `public` and `default` stand for the public relay fleet, `disabled`, `off` and `none` for no
//! relay at all, in any case of letters. Anything else is the URL of a relay, which speaks http,
//! https, ws or wss.
use std::str::FromStr;

use iroh_base::RelayUrl;
use vstd::prelude::*;

use crate::text::{ascii_lowercase, quote, quoted, same_text, to_ascii_lower};

verus! {

broadcast use vstd::string::group_string_axioms;

/// Which relay an endpoint uses.
#[derive(Debug, Clone, PartialEq, Eq)]
pub enum RelayMode {
    /// The public relay fleet.
    Default,
    /// No relay.
    Disabled,
    /// The relay at a URL.
    Custom(String),
}

/// A result with its texts taken by their views.
pub open spec fn text_result(out: Result<String, String>) -> Result<Seq<char>, Seq<char>> {
    match out {
        Ok(text) => Ok(text@),
        Err(text) => Err(text@),
    }
}

/// The scheme of a relay URL, or the words in which the parser refuses it.
pub uninterp spec fn relay_scheme(url: Seq<char>) -> Result<Seq<char>, Seq<char>>;

/// `RelayUrl::from_str` of `iroh_base` and the scheme of the URL that it returns, or the text of
/// its error. The URL parser that decides is deterministic; of its grammar nothing is claimed.
#[verifier::external_body]
fn parse_relay_url(url: &str) -> (scheme: Result<String, String>)
    ensures
        text_result(scheme) == relay_scheme(url@),
{
    match RelayUrl::from_str(url) {
        Ok(relay) => Ok(relay.scheme().to_owned()),
        Err(error) => Err(error.to_string()),
    }
}

/// The schemes that a relay speaks.
pub open spec fn is_relay_scheme(scheme: Seq<char>) -> bool {
    scheme == "http"@ || scheme == "https"@ || scheme == "ws"@ || scheme == "wss"@
}

/// The mode that a keyword stands for.
pub open spec fn keyword_mode(word: Seq<char>) -> Option<RelayMode> {
    if word == "public"@ || word == "default"@ {
        Some(RelayMode::Default)
    } else if word == "disabled"@ || word == "off"@ || word == "none"@ {
        Some(RelayMode::Disabled)
    } else {
        None
    }
}

/// Why a URL is no relay, given what the parser said of it.
pub open spec fn relay_url_fault(url: Seq<char>, parsed: Result<Seq<char>, Seq<char>>) -> Option<
    Seq<char>,
> {
    match parsed {
        Err(reason) => Some("invalid relay URL "@ + quoted(url) + ": "@ + reason),
        Ok(scheme) => if is_relay_scheme(scheme) {
            None
        } else {
            Some(
                "invalid relay URL "@ + quoted(url) + ": unsupported scheme "@ + quoted(scheme)
                    + " (expected http, https, ws or wss)"@,
            )
        },
    }
}

/// The mode that a keyword stands for, in any case of letters.
pub fn relay_keyword(url: &str) -> (mode: Option<RelayMode>)
    ensures
        mode == keyword_mode(ascii_lowercase(url@)),
{
    let word = to_ascii_lower(url);
    let word: &str = word.as_str();
    if same_text(word, "public") || same_text(word, "default") {
        Some(RelayMode::Default)
    } else if same_text(word, "disabled") || same_text(word, "off") || same_text(word, "none") {
        Some(RelayMode::Disabled)
    } else {
        None
    }
}

/// The custom mode of a URL, given its scheme or the reason why it does not parse.
pub fn custom_relay(url: &str, parsed: Result<String, String>) -> (mode: Result<RelayMode, String>)
    ensures
        match mode {
            Ok(RelayMode::Custom(relay)) => relay@ == url@ && relay_url_fault(
                url@,
                text_result(parsed),
            ) is None,
            Ok(_) => false,
            Err(text) => relay_url_fault(url@, text_result(parsed)) == Some(text@),
        },
{
    match parsed {
        Err(reason) => {
            Err(
                "invalid relay URL ".to_owned().concat(quote(url).as_str()).concat(": ").concat(
                    reason.as_str(),
                ),
            )
        },
        Ok(scheme) => {
            let name: &str = scheme.as_str();
            if same_text(name, "http") || same_text(name, "https") || same_text(name, "ws")
                || same_text(name, "wss") {
                Ok(RelayMode::Custom(url.to_owned()))
            } else {
                Err(
                    "invalid relay URL ".to_owned().concat(quote(url).as_str()).concat(
                        ": unsupported scheme ",
                    ).concat(quote(name).as_str()).concat(" (expected http, https, ws or wss)"),
                )
            }
        },
    }
}

/// The relay mode that a configured value stands for.
pub fn relay_mode_from_url(url: &str) -> (mode: Result<RelayMode, String>)
    ensures
        match keyword_mode(ascii_lowercase(url@)) {
            Some(keyword) => mode == Ok::<_, String>(keyword),
            None => match mode {
                Ok(RelayMode::Custom(relay)) => relay@ == url@ && relay_url_fault(
                    url@,
                    relay_scheme(url@),
                ) is None,
                Ok(_) => false,
                Err(text) => relay_url_fault(url@, relay_scheme(url@)) == Some(text@),
            },
        },
{
    match relay_keyword(url) {
        Some(mode) => Ok(mode),
        None => custom_relay(url, parse_relay_url(url)),
    }
}

/// The check that an engine makes of the relay URL in a configuration: any URL that parses will
/// do.
pub fn engine_relay(url: &str) -> (mode: Result<RelayMode, crate::transfer::engine::Error>)
    ensures
        match mode {
            Ok(RelayMode::Custom(relay)) => relay@ == url@ && relay_scheme(url@) is Ok,
            Ok(_) => false,
            Err(crate::transfer::engine::Error::RelayUrl { url: given, source }) => given@ == url@
                && relay_scheme(url@) == Err::<Seq<char>, _>(source@),
            Err(_) => false,
        },
{
    match parse_relay_url(url) {
        Ok(_) => Ok(RelayMode::Custom(url.to_owned())),
        Err(source) => Err(
            crate::transfer::engine::Error::RelayUrl { url: url.to_owned(), source },
        ),
    }
}

} // verus!
