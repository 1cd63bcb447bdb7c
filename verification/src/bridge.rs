//! What the agent and the gateway have in common: routes below a prefix, the
//! token that they share, and the addresses that they listen at.
use vstd::prelude::*;

use crate::text::{
    before, begins_with, chars_of, copy_text, find_char, matches_at, nonblank, optional_str,
    same_text, string_of, trim, trim_end_of, trim_text, trimmed, trimmed_end_of,
};
use crate::url::{form_encoded, url_encode_with};
use crate::windows::VIEWER_URL;

verus! {

// ---------------------------------------------------------------------------
// Routes
// ---------------------------------------------------------------------------

/// The prefix of all routes: the setting without white space around it and
/// without slashes at its end, and with one slash at its start.
pub open spec fn route_prefix(configured: Option<Seq<char>>) -> Seq<char> {
    match configured {
        None => Seq::empty(),
        Some(value) => {
            let cut = trimmed_end_of(trimmed(value), '/');
            if cut.len() == 0 || cut[0] == '/' {
                cut
            } else {
                "/"@ + cut
            }
        },
    }
}

/// Reads the prefix of all routes from its setting.
pub fn gateway_path_prefix(configured: Option<&str>) -> (r: String)
    ensures
        r@ == route_prefix(optional_str(configured)),
{
    match configured {
        None => String::new(),
        Some(value) => {
            let chars = chars_of(value);
            let cut = trim_end_of(trim(chars.as_slice()), '/');
            if cut.len() == 0 || cut[0] == '/' {
                string_of(cut)
            } else {
                let mut out = copy_text("/");
                out.append(string_of(cut).as_str());
                out
            }
        },
    }
}

/// The route that a path names below a prefix. What follows a question mark
/// does not count, and a path that is not below the prefix is its own route.
pub open spec fn route_below(prefix: Seq<char>, path: Seq<char>) -> Seq<char> {
    let route = before(path, '?');
    if prefix.len() == 0 {
        route
    } else if route == prefix {
        "/"@
    } else if begins_with(route, prefix) && route.len() > prefix.len() && route[prefix.len() as int]
        == '/' {
        route.skip(prefix.len() as int)
    } else {
        route
    }
}

/// Finds the route that a path names, given the setting of the prefix.
pub fn clean_route<'a>(path: &'a str, configured: Option<&str>) -> (r: &'a str)
    ensures
        r@ == route_below(route_prefix(optional_str(configured)), path@),
{
    let chars = chars_of(path);
    let end = find_char(chars.as_slice(), '?');
    let route = path.substring_char(0, end);
    let prefix = gateway_path_prefix(configured);
    if prefix.as_str().is_empty() {
        return route;
    }
    if same_text(route, prefix.as_str()) {
        return "/";
    }
    let route_chars = chars_of(route);
    let prefix_chars = chars_of(prefix.as_str());
    let n = prefix_chars.len();
    proof {
        if n <= route@.len() {
            assert(route@.subrange(0, n as int) == prefix@ <==> begins_with(route@, prefix@));
        }
    }
    if matches_at(route_chars.as_slice(), prefix_chars.as_slice(), 0) && route_chars.len() > n
        && route_chars[n] == '/' {
        let rest = route.substring_char(n, route_chars.len());
        assert(rest@ =~= route@.skip(n as int));
        return rest;
    }
    route
}

/// The path of a route below a prefix.
pub open spec fn path_below(prefix: Seq<char>, route: Seq<char>) -> Seq<char> {
    if prefix.len() == 0 {
        route
    } else if route == "/"@ {
        prefix
    } else {
        prefix + route
    }
}

/// Writes the path of a route, given the setting of the prefix.
pub fn gateway_path(path: &str, configured: Option<&str>) -> (r: String)
    ensures
        r@ == path_below(route_prefix(optional_str(configured)), path@),
{
    let mut prefix = gateway_path_prefix(configured);
    if prefix.as_str().is_empty() {
        return copy_text(path);
    }
    if !same_text(path, "/") {
        prefix.append(path);
    }
    prefix
}

// ---------------------------------------------------------------------------
// The token
// ---------------------------------------------------------------------------

/// The token, empty where none is set.
pub open spec fn token_text(configured: Option<Seq<char>>) -> Seq<char> {
    match configured {
        Some(token) => token,
        None => Seq::empty(),
    }
}

/// The token, given its setting.
pub fn bridge_token(configured: Option<&str>) -> (r: &str)
    ensures
        r@ == token_text(optional_str(configured)),
{
    match configured {
        Some(token) => token,
        None => {
            proof {
                reveal_strlit("");
                assert(""@ =~= Seq::empty());
            }
            ""
        },
    }
}

/// Whether a token is set that is not blank. Neither the agent nor the gateway
/// runs without one.
pub fn has_bridge_token(configured: Option<&str>) -> (r: bool)
    ensures
        r == nonblank(optional_str(configured)) is Some,
{
    match configured {
        Some(token) => {
            let word = trim_text(token);
            !word.as_str().is_empty()
        },
        None => false,
    }
}

// ---------------------------------------------------------------------------
// Addresses
// ---------------------------------------------------------------------------

/// A setting as it stands, or the default where it is missing.
pub open spec fn given_or(value: Option<Seq<char>>, default: Seq<char>) -> Seq<char> {
    match value {
        Some(s) => s,
        None => default,
    }
}

/// Where the agent listens, given the setting.
pub fn default_agent_bind(configured: Option<&str>) -> (r: String)
    ensures
        r@ == given_or(optional_str(configured), "127.0.0.1:8788"@),
{
    match configured {
        Some(s) => copy_text(s),
        None => copy_text("127.0.0.1:8788"),
    }
}

/// Where the gateway listens, given the setting.
pub fn default_gateway_bind(configured: Option<&str>) -> (r: String)
    ensures
        r@ == given_or(optional_str(configured), "0.0.0.0:8878"@),
{
    match configured {
        Some(s) => copy_text(s),
        None => copy_text("0.0.0.0:8878"),
    }
}

/// Where the gateway finds the agent, given the setting.
pub fn default_agent_url(configured: Option<&str>) -> (r: String)
    ensures
        r@ == given_or(optional_str(configured), "http://127.0.0.1:8788"@),
{
    match configured {
        Some(s) => copy_text(s),
        None => copy_text("http://127.0.0.1:8788"),
    }
}

/// Percent-encodes `value` for a form: a space is a plus sign.
pub fn url_encode(value: &str) -> (r: String)
    ensures
        r@ == form_encoded(value@),
{
    url_encode_with(value, "+")
}

/// The address at which the viewer shows a document.
pub open spec fn viewer_address(source: Seq<char>) -> Seq<char> {
    VIEWER_URL@ + form_encoded(source)
}

/// Writes the address at which the viewer shows a document.
pub fn microsoft_office_viewer_url(src: &str) -> (r: String)
    ensures
        r@ == viewer_address(src@),
{
    let mut out = copy_text(VIEWER_URL);
    out.append(url_encode(src).as_str());
    out
}

} // verus!
