use vstd::prelude::*;
use vstd::string::{StringExecFns, StrSliceExecFns};
use crate::model::{RouteState, ReadError};

verus! {

/// The characters of Unicode's `White_Space` property.
pub open spec fn is_white_space(c: char) -> bool {
    let n = c as u32;
    (0x9 <= n && n <= 0xd) || n == 0x20 || n == 0x85 || n == 0xa0 || n == 0x1680
        || (0x2000 <= n && n <= 0x200a) || n == 0x2028 || n == 0x2029 || n == 0x202f
        || n == 0x205f || n == 0x3000
}

/// `s` without its leading white space.
pub open spec fn trim_start_spec(s: Seq<char>) -> Seq<char>
    decreases s.len(),
{
    if s.len() > 0 && is_white_space(s[0]) {
        trim_start_spec(s.drop_first())
    } else {
        s
    }
}

/// `s` without its trailing white space.
pub open spec fn trim_end_spec(s: Seq<char>) -> Seq<char>
    decreases s.len(),
{
    if s.len() > 0 && is_white_space(s.last()) {
        trim_end_spec(s.drop_last())
    } else {
        s
    }
}

/// `s` without white space at either end.
pub open spec fn trim_spec(s: Seq<char>) -> Seq<char> {
    trim_end_spec(trim_start_spec(s))
}

/// Relies on `str::trim`, which drops the leading and trailing characters
/// that have Unicode's `White_Space` property.
#[verifier::external_body]
fn trim(s: &str) -> (r: &str)
    ensures
        r@ == trim_spec(s@),
{
    s.trim()
}

/// The command that enables (`enable`) or disables the route whose comment is `comment`.
pub open spec fn toggle_command_spec(comment: Seq<char>, enable: bool) -> Seq<char> {
    if enable {
        "/ip route enable [find where comment=\""@ + comment + "\"]"@
    } else {
        "/ip route disable [find where comment=\""@ + comment + "\"]"@
    }
}

/// The command that prints the disabled flag of the route whose comment is `comment`.
pub open spec fn query_command_spec(comment: Seq<char>) -> Seq<char> {
    ":put [/ip route get [find where comment=\""@ + comment + "\"] disabled]"@
}

/// The state that a response to the query stands for: `true` is the disabled
/// flag set, `false` the flag clear, white space around either ignored.
pub open spec fn parse_flag_spec(response: Seq<char>) -> Result<RouteState, ReadError> {
    if trim_spec(response) == "true"@ {
        Ok(RouteState::Disabled)
    } else if trim_spec(response) == "false"@ {
        Ok(RouteState::Enabled)
    } else {
        Err(ReadError::Unrecognized)
    }
}

/// The command that sets the route whose comment is `comment` to `state`.
pub fn toggle_command(comment: &str, state: RouteState) -> (r: String)
    ensures
        r@ == toggle_command_spec(comment@, state == RouteState::Enabled),
{
    let mut s = if state == RouteState::Enabled {
        String::from_str("/ip route enable [find where comment=\"")
    } else {
        String::from_str("/ip route disable [find where comment=\"")
    };
    s.append(comment);
    s.append("\"]");
    s
}

/// The command that asks for the disabled flag of the route whose comment is `comment`.
pub fn query_command(comment: &str) -> (r: String)
    ensures
        r@ == query_command_spec(comment@),
{
    let mut s = String::from_str(":put [/ip route get [find where comment=\"");
    s.append(comment);
    s.append("\"] disabled]");
    s
}

/// The route state that the router's response to `query_command` reports.
pub fn parse_disabled_flag(response: &str) -> (r: Result<RouteState, ReadError>)
    ensures
        r == parse_flag_spec(response@),
{
    let t = String::from_str(trim(response));
    if t == String::from_str("true") {
        Ok(RouteState::Disabled)
    } else if t == String::from_str("false") {
        Ok(RouteState::Enabled)
    } else {
        Err(ReadError::Unrecognized)
    }
}

} // verus!
