//! What can go wrong between the server list and the patched game.

use vstd::prelude::*;
use vstd::string::StringExecFns;

verus! {

/// The input of the server record that was too long for its place.
#[derive(Debug, Clone, Copy, PartialEq, Eq, Structural)]
pub enum Field {
    PublicKey,
    Hostname,
}

/// Every failure that the loader reports.
#[derive(Debug, Clone, PartialEq, Eq)]
pub enum LoaderError {
    /// The request did not get through, or the reply was no reply of the
    /// master server. Holds what the transport said.
    Network(String),
    /// The address of the master server is no absolute URL, or the address of
    /// a game server does not fit behind it.
    InvalidUrl,
    /// The master server refused to list its servers, or listed none.
    Registry,
    /// The master server refused to hand out the public key. Holds its own
    /// message, letter for letter.
    Auth(String),
    /// The public key or the hostname is longer than the server record allows.
    Oversize(Field),
    /// No running process bears the game's name.
    ProcessNotFound,
    /// Not every byte of the record was written into the game.
    PartialWrite { written: usize, expected: usize },
}

impl LoaderError {
    /// The text of this failure, as it is shown to the user.
    pub open spec fn spec_message(&self) -> Seq<char> {
        match self {
            LoaderError::Network(detail) => detail@,
            LoaderError::InvalidUrl => "Invalid master server address!"@,
            LoaderError::Registry => "Master server return error!"@,
            LoaderError::Auth(message) => message@,
            LoaderError::Oversize(Field::PublicKey) => "Key's size is too big!"@,
            LoaderError::Oversize(Field::Hostname) => "Host's size is too big!"@,
            LoaderError::ProcessNotFound => "Can't find process"@,
            LoaderError::PartialWrite { .. } => "Exception happened during the patch!"@,
        }
    }

    /// The text of this failure, as it is shown to the user.
    pub fn message(&self) -> (text: String)
        ensures
            text@ == self.spec_message(),
    {
        match self {
            LoaderError::Network(detail) => detail.clone(),
            LoaderError::InvalidUrl => String::from_str("Invalid master server address!"),
            LoaderError::Registry => String::from_str("Master server return error!"),
            LoaderError::Auth(message) => message.clone(),
            LoaderError::Oversize(Field::PublicKey) => String::from_str("Key's size is too big!"),
            LoaderError::Oversize(Field::Hostname) => String::from_str("Host's size is too big!"),
            LoaderError::ProcessNotFound => String::from_str("Can't find process"),
            LoaderError::PartialWrite { .. } => String::from_str(
                "Exception happened during the patch!",
            ),
        }
    }
}

} // verus!
