//! The error taxonomy of the fetcher and the credential check.

use vstd::prelude::*;

verus! {

/// The terminal failures of a fetch run. Every one of them ends the process
/// with exit code 1 and a short message on standard output.
pub enum FetchError {
    /// The credential environment variable is not set.
    MissingToken,
    /// The HTTP client could not be constructed; carries the builder's message.
    ClientInit(String),
    /// The request failed below the HTTP layer; carries the failure's description.
    Transport(String),
    /// The response body is absent or does not parse as follower records.
    Parse,
}

impl FetchError {
    /// What `message` returns, as a sequence of characters.
    pub open spec fn message_spec(&self) -> Seq<char> {
        match self {
            FetchError::MissingToken => "environment variable not found: GITHUB_TOKEN"@,
            FetchError::ClientInit(m) => m@,
            FetchError::Transport(m) => m@,
            FetchError::Parse => "Error while parsing JSON"@,
        }
    }

    /// The line printed for this failure. The missing-credential message names
    /// the variable, a transport or client failure reports its own description,
    /// and a body that does not parse gets one fixed message.
    pub fn message(&self) -> (r: &str)
        ensures
            r@ == self.message_spec(),
    {
        match self {
            FetchError::MissingToken => "environment variable not found: GITHUB_TOKEN",
            FetchError::ClientInit(m) => m.as_str(),
            FetchError::Transport(m) => m.as_str(),
            FetchError::Parse => "Error while parsing JSON",
        }
    }

    /// Every failure is terminal and maps to the same process exit code.
    pub fn exit_code(&self) -> (r: i32)
        ensures
            r == 1,
    {
        1
    }
}

/// A missing credential is reported by a message that names the credential
/// variable: the variable's name stands, letter for letter, inside the
/// message printed for that failure.
pub proof fn lemma_missing_token_message_names_variable()
    ensures
        FetchError::MissingToken.message_spec().subrange(32, 44) == "GITHUB_TOKEN"@,
{
    reveal_strlit("environment variable not found: GITHUB_TOKEN");
    reveal_strlit("GITHUB_TOKEN");
    assert(FetchError::MissingToken.message_spec().subrange(32, 44) =~= "GITHUB_TOKEN"@);
}

/// Resolve the credential from its configuration value, read out of the
/// process environment by the caller. An absent value is the configuration
/// error; a present one is accepted as-is.
pub fn token_from_env(value: Option<String>) -> (r: Result<String, FetchError>)
    ensures
        value matches Some(t) ==> (r matches Ok(u) && u@ == t@),
        value is None ==> (r matches Err(e) && e is MissingToken),
{
    match value {
        Some(t) => Ok(t),
        None => Err(FetchError::MissingToken),
    }
}

} // verus!
