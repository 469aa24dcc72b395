//! The file that the tokens of the bot are first read from.

use vstd::prelude::*;
use crate::text::{chars_of, string_of, trim, trimmed};

verus! {

/// The text of each group of the leftmost match of a regular expression in
/// a text, the whole match first. There is nothing where the pattern is no
/// regular expression or matches nowhere; a group that took no part in the
/// match has no text.
pub uninterp spec fn regex_captures(pattern: Seq<char>, text: Seq<char>) -> Option<
    Seq<Option<Seq<char>>>,
>;

/// The view of each group.
pub open spec fn group_views(groups: Option<Vec<Option<String>>>) -> Option<Seq<Option<Seq<char>>>> {
    match groups {
        Some(list) => Some(
            Seq::new(
                list@.len(),
                |i: int|
                    match list@[i] {
                        Some(text) => Some(text@),
                        None => None,
                    },
            ),
        ),
        None => None,
    }
}

/// Matches a regular expression against a text.
///
/// Trusted: compiles the pattern with `regex::Regex::new` and searches the
/// text with `regex::Regex::captures`, which returns the groups of the
/// leftmost match and depends on the pattern and the text alone. Each
/// group is handed on as the text it matched.
#[verifier::external_body]
fn captures(pattern: &str, text: &str) -> (groups: Option<Vec<Option<String>>>)
    ensures
        group_views(groups) == regex_captures(pattern@, text@),
{
    let regex = regex::Regex::new(pattern).ok()?;
    let found = regex.captures(text)?;
    Some(found.iter().map(|group| group.map(|m| m.as_str().to_owned())).collect())
}

/// The form of the file that the tokens are read from: three lines, among
/// others, that name the access token, the refresh token and the time at
/// which the access token expires, in this order.
pub const INIT_FILE_PATTERN: &'static str =
    r"User Access Token:\s+(?<accessToken>\w+)\s*[\r\n]+.*?Refresh Token:\s+(?<refreshToken>\w+)\s*[\r\n]+.*?Expires At:\s+(?<expiresAt>.*)";

/// What the file of tokens holds.
#[derive(Debug, Clone, PartialEq, Eq)]
pub struct InitFile {
    pub access_token: String,
    pub refresh_token: String,
    /// The time at which the access token expires, as it is written in the
    /// file, without white space around it.
    pub expires_at: String,
}

/// Whether the groups of a match are those of a file of tokens: the whole
/// match and the three values, each of which has taken part.
pub open spec fn complete(groups: Seq<Option<Seq<char>>>) -> bool {
    &&& groups.len() == 4
    &&& groups[1] is Some
    &&& groups[2] is Some
    &&& groups[3] is Some
}

/// Reads the tokens from the contents of the file. A file of another form
/// holds none.
pub fn parse_init_file(contents: &str) -> (file: Option<InitFile>)
    ensures
        match regex_captures(INIT_FILE_PATTERN@, contents@) {
            Some(groups) if complete(groups) => {
                &&& file matches Some(found)
                &&& found.access_token@ == groups[1]->0
                &&& found.refresh_token@ == groups[2]->0
                &&& found.expires_at@ == trimmed(groups[3]->0)
            },
            _ => file is None,
        },
{
    let groups = match captures(INIT_FILE_PATTERN, contents) {
        Some(groups) => groups,
        None => {
            return None;
        },
    };
    if groups.len() != 4 {
        return None;
    }
    match (&groups[1], &groups[2], &groups[3]) {
        (Some(access_token), Some(refresh_token), Some(expires_at)) => {
            let written = chars_of(expires_at.as_str());
            let expires_at = string_of(&trim(written.as_slice()));
            Some(
                InitFile {
                    access_token: access_token.clone(),
                    refresh_token: refresh_token.clone(),
                    expires_at,
                },
            )
        },
        _ => None,
    }
}

} // verus!
