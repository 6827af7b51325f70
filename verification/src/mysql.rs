//! The error that a MySQL or MariaDB server answers with.

use vstd::prelude::*;

verus! {

/// The error packet of a server, as far as diagnostics read it.
#[derive(Clone, Debug, PartialEq, Eq)]
pub struct ErrPacket {
    /// The message that the server gives, for a reader.
    pub error_message: String,
}

/// An error that the server reported.
#[derive(Clone, Debug, PartialEq, Eq)]
pub struct MySqlError(pub ErrPacket);

impl MySqlError {
    /// The message that the server gave.
    pub fn message(&self) -> (text: &str)
        ensures
            text@ == self.0.error_message@,
    {
        self.0.error_message.as_str()
    }
}

} // verus!
