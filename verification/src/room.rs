//! Room codes and room links.
//!
//! A room is named either by its bare code or by the full invite link. Both
//! shapes are given as regular expressions and matched by the `regex` crate;
//! what is done with the two answers is decided here.

use crate::text::{option_text, starts_with};
use vstd::prelude::*;
use vstd::string::*;

verus! {

/// The shape of a full invite link.
pub const LINK_PATTERN: &'static str =
    r"^https://link\.brawlstars\.com/invite/gameroom/[a-z]{2}\?tag=[A-Za-z0-9]+$";

/// The shape of a bare room code.
pub const CODE_PATTERN: &'static str = r"^[A-Za-z0-9]{6,10}$";

/// The host that every invite link starts with.
pub const LINK_HOST: &'static str = "https://link.brawlstars.com";

/// What a bare room code is appended to.
pub const LINK_STEM: &'static str = "https://link.brawlstars.com/invite/gameroom/en?tag=";

/// What the `regex` crate answers for a pattern and a haystack: `None` where
/// it refuses to compile the pattern, else whether the pattern matches
/// somewhere in the haystack.
pub uninterp spec fn regex_match(pattern: Seq<char>, haystack: Seq<char>) -> Option<bool>;

/// Compiles `pattern` with `regex::Regex::new` and searches `haystack` with
/// `Regex::is_match`. Neither panics: a pattern that does not compile comes
/// back as an error, which is handed on as `None`. The answer depends on the
/// two strings alone, and is named [`regex_match`]; nothing else is claimed.
#[verifier::external_body]
fn regex_is_match(pattern: &str, haystack: &str) -> (r: Option<bool>)
    ensures
        r == regex_match(pattern@, haystack@),
{
    match regex::Regex::new(pattern) {
        Ok(re) => Some(re.is_match(haystack)),
        Err(_) => None,
    }
}

/// The link for an input, given whether it matched the link pattern and
/// whether it matched the code pattern. An input that starts with the host
/// and has the shape of a link is the link; else one with the shape of a code
/// is appended to the stem; any other names no room.
pub open spec fn room_link(input: Seq<char>, link_hit: bool, code_hit: bool) -> Option<Seq<char>> {
    if LINK_HOST@.is_prefix_of(input) && link_hit {
        Some(input)
    } else if code_hit {
        Some(LINK_STEM@ + input)
    } else {
        None
    }
}

/// The link for an input: [`room_link`] on the answers of the `regex` crate,
/// and none where either pattern did not compile.
pub open spec fn geturl_spec(input: Seq<char>) -> Option<Seq<char>> {
    match (regex_match(LINK_PATTERN@, input), regex_match(CODE_PATTERN@, input)) {
        (Some(link_hit), Some(code_hit)) => room_link(input, link_hit, code_hit),
        _ => None,
    }
}

/// Turns an input into a room link, given the answers of the two patterns.
pub fn resolve(input: &str, link_hit: bool, code_hit: bool) -> (r: Option<String>)
    ensures
        option_text(r) == room_link(input@, link_hit, code_hit),
{
    if link_hit && starts_with(input, LINK_HOST) {
        Some(String::from_str(input))
    } else if code_hit {
        let mut link = String::from_str(LINK_STEM);
        link.append(input);
        Some(link)
    } else {
        None
    }
}

/// Turns what a user typed, a room code or a full invite link, into the
/// canonical room link; `None` where it is neither.
pub fn geturl(input: &str) -> (r: Option<String>)
    ensures
        option_text(r) == geturl_spec(input@),
{
    let link_hit = regex_is_match(LINK_PATTERN, input);
    let code_hit = regex_is_match(CODE_PATTERN, input);
    match (link_hit, code_hit) {
        (Some(l), Some(c)) => resolve(input, l, c),
        _ => None,
    }
}

/// An input that has neither the shape of a link nor the shape of a code
/// names no room.
pub proof fn lemma_neither_shape_no_room(input: Seq<char>)
    requires
        regex_match(LINK_PATTERN@, input) == Some(false),
        regex_match(CODE_PATTERN@, input) == Some(false),
    ensures
        geturl_spec(input) is None,
{
}

/// An input with the shape of a code that is no link is appended to the
/// stem, and an input with the shape of a link behind the host is kept as it
/// is.
pub proof fn lemma_shape_decides(input: Seq<char>)
    ensures
        regex_match(LINK_PATTERN@, input) == Some(false) && regex_match(CODE_PATTERN@, input)
            == Some(true) ==> geturl_spec(input) == Some(LINK_STEM@ + input),
        regex_match(LINK_PATTERN@, input) == Some(true) && regex_match(CODE_PATTERN@, input)
            is Some && LINK_HOST@.is_prefix_of(input) ==> geturl_spec(input) == Some(input),
{
}

} // verus!
