//! The backing file: where it is, and what it holds.
//!
//! The file holds the username on its first line and the password on its
//! second. Nothing is escaped, so a text with a line feed in it does not come
//! back as it was written.

use vstd::prelude::*;
use crate::lines::{
    after_first_line, first_line, lemma_line_end, lemma_line_end_is, lemma_lines_unfold, line_end,
    lines, next_line,
};
use crate::record::{outcome_view, Credentials, CredentialsError, CredentialsView};

verus! {

/// The file that is used when the caller names none.
pub const DEFAULT_CREDENTIALS_FILE: &'static str = "credentials";

/// The path to use: the one named, or the default.
pub open spec fn resolved_path(file_name: Option<Seq<char>>) -> Seq<char> {
    match file_name {
        Some(name) => name,
        None => DEFAULT_CREDENTIALS_FILE@,
    }
}

/// The model of an optional text.
pub open spec fn name_view(file_name: Option<&str>) -> Option<Seq<char>> {
    match file_name {
        Some(name) => Some(name@),
        None => None,
    }
}

/// The path to use: the one named, or the default.
pub fn resolve_path<'a>(file_name: Option<&'a str>) -> (path: &'a str)
    ensures
        path@ == resolved_path(name_view(file_name)),
{
    match file_name {
        Some(name) => name,
        None => DEFAULT_CREDENTIALS_FILE,
    }
}

/// What a file with these contents stores: its first two lines as username
/// and password, whatever follows them; nothing if it has fewer than two.
pub open spec fn stored_credentials(contents: Seq<char>) -> Result<
    CredentialsView,
    CredentialsError,
> {
    let found = lines(contents);
    if found.len() >= 2 {
        Ok(CredentialsView { username: found[0], password: found[1] })
    } else {
        Err(CredentialsError::MalformedCredentialsFile)
    }
}

/// The text that is written for `credentials`: the username, a line feed, the
/// password.
pub open spec fn file_text(credentials: CredentialsView) -> Seq<char> {
    credentials.username + seq!['\n'] + credentials.password
}

/// Reads credentials out of the contents of the backing file.
pub fn parse_credentials(contents: &str) -> (parsed: Result<Credentials, CredentialsError>)
    ensures
        outcome_view(parsed) == stored_credentials(contents@),
{
    proof {
        lemma_lines_unfold(contents@);
    }
    match next_line(contents) {
        None => Err(CredentialsError::MalformedCredentialsFile),
        Some((username, rest)) => {
            proof {
                lemma_lines_unfold(rest@);
            }
            match next_line(rest) {
                None => Err(CredentialsError::MalformedCredentialsFile),
                Some((password, _)) => Ok(
                    Credentials { username: username.to_string(), password: password.to_string() },
                ),
            }
        },
    }
}

/// The contents of the backing file for `credentials`.
pub fn render_credentials(credentials: &Credentials) -> (text: String)
    ensures
        text@ == file_text(credentials@),
{
    proof {
        reveal_strlit("\n");
    }
    let mut text = credentials.username.clone();
    text.append("\n");
    text.append(credentials.password.as_str());
    text
}

/// Whether credentials come back from the backing file as they were written
/// to it: neither text holds a line feed, the username does not end with a
/// carriage return, and the password is not empty.
pub open spec fn survives_storage(credentials: CredentialsView) -> bool {
    &&& !credentials.username.contains('\n')
    &&& !(credentials.username.len() > 0 && credentials.username.last() == '\r')
    &&& !credentials.password.contains('\n')
    &&& credentials.password.len() > 0
}

/// Reading back what was written for `credentials` gives `credentials` again
/// exactly when they survive storage.
pub proof fn lemma_written_credentials_read_back(credentials: CredentialsView)
    ensures
        stored_credentials(file_text(credentials)) == Ok::<CredentialsView, CredentialsError>(
            credentials,
        ) <==> survives_storage(credentials),
{
    let username = credentials.username;
    let password = credentials.password;
    let text = file_text(credentials);
    lemma_line_end(username);
    lemma_line_end(password);
    // The first line ends where the username has its first line feed, or at
    // the line feed that was written after it.
    let end = line_end(username) as int;
    assert(forall|i: int| 0 <= i < end ==> text[i] == username[i]);
    lemma_line_end_is(text, end);
    lemma_lines_unfold(text);
    if end < username.len() {
        assert(username.contains(username[end]));
        assert(first_line(text).len() <= end);
    } else {
        assert(!username.contains('\n'));
        assert(text.take(end) =~= username);
        assert(after_first_line(text) =~= password);
        lemma_lines_unfold(password);
        if line_end(password) < password.len() {
            assert(password.contains(password[line_end(password) as int]));
            assert(first_line(password).len() < password.len());
        } else {
            assert(!password.contains('\n'));
        }
    }
}

} // verus!
