//! The credentials record and the ways in which obtaining one can fail.

use vstd::prelude::*;

verus! {

/// A username and a password, as the text that was read: nothing is trimmed,
/// checked or escaped, and either may be empty.
pub struct Credentials {
    pub username: String,
    pub password: String,
}

/// What a `Credentials` value stands for: its two texts.
pub struct CredentialsView {
    pub username: Seq<char>,
    pub password: Seq<char>,
}

impl View for Credentials {
    type V = CredentialsView;

    open spec fn view(&self) -> CredentialsView {
        CredentialsView { username: self.username@, password: self.password@ }
    }
}

impl Clone for Credentials {
    fn clone(&self) -> (copy: Self)
        ensures
            copy == *self,
    {
        Credentials { username: self.username.clone(), password: self.password.clone() }
    }
}

/// Why no credentials could be obtained.
#[derive(Debug, Clone, Copy, PartialEq, Eq, Structural)]
pub enum CredentialsError {
    /// The file could be read and holds fewer than two lines.
    MalformedCredentialsFile,
    /// The input ended, or could not be read, before a line had been taken.
    InputStreamClosed,
}

impl CredentialsError {
    /// The text of `message`.
    pub open spec fn message_text(self) -> Seq<char> {
        match self {
            CredentialsError::MalformedCredentialsFile => "credentials file holds fewer than two lines"@,
            CredentialsError::InputStreamClosed => "input stream closed before the credentials were read"@,
        }
    }

    /// A sentence that says what went wrong.
    pub fn message(&self) -> (text: String)
        ensures
            text@ == self.message_text(),
    {
        match self {
            CredentialsError::MalformedCredentialsFile => "credentials file holds fewer than two lines".to_string(),
            CredentialsError::InputStreamClosed => "input stream closed before the credentials were read".to_string(),
        }
    }
}

/// The model of an outcome: the credentials by their view, the error as it is.
pub open spec fn outcome_view(outcome: Result<Credentials, CredentialsError>) -> Result<
    CredentialsView,
    CredentialsError,
> {
    match outcome {
        Ok(credentials) => Ok(credentials@),
        Err(error) => Err(error),
    }
}

} // verus!
