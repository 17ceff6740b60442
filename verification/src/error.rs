//! The failures that the command group reports.

use crate::text::Text;
use vstd::prelude::*;

verus! {

/// A failure, with the text shown to the user. `S` is `String` in running code and the
/// characters of that string in contracts.
#[derive(Debug, PartialEq, Eq)]
pub enum TeamsError<S = String> {
    /// The identity platform refused, or a token could not be had.
    AuthError(S),
    /// The user gave something that cannot be used.
    InvalidInput(S),
    /// Any other failure, of the keyring, the configuration or the network.
    Other(S),
}

impl View for TeamsError {
    type V = TeamsError<Text>;

    open spec fn view(&self) -> TeamsError<Text> {
        match self {
            TeamsError::AuthError(message) => TeamsError::AuthError(message@),
            TeamsError::InvalidInput(message) => TeamsError::InvalidInput(message@),
            TeamsError::Other(message) => TeamsError::Other(message@),
        }
    }
}

impl TeamsError<Text> {
    /// The text shown to the user.
    pub open spec fn text(self) -> Text {
        match self {
            TeamsError::AuthError(message) => message,
            TeamsError::InvalidInput(message) => message,
            TeamsError::Other(message) => message,
        }
    }
}

impl TeamsError {
    /// The text shown to the user.
    pub fn message(&self) -> (r: &str)
        ensures
            r@ == self@.text(),
    {
        match self {
            TeamsError::AuthError(message) => message.as_str(),
            TeamsError::InvalidInput(message) => message.as_str(),
            TeamsError::Other(message) => message.as_str(),
        }
    }
}

/// The value of an `Ok` and the failure of an `Err`, each by its view.
pub open spec fn result_view<T: View>(r: Result<T, TeamsError>) -> Result<T::V, TeamsError<Text>> {
    match r {
        Ok(value) => Ok(value@),
        Err(error) => Err(error@),
    }
}

/// Whatever the failure is, the user is shown the text that came with it.
pub proof fn law_failure_is_shown_by_its_text(message: Text)
    ensures
        TeamsError::AuthError(message).text() == message,
        TeamsError::InvalidInput(message).text() == message,
        TeamsError::Other(message).text() == message,
{
}

} // verus!
