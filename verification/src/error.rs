//! What can go wrong while a command is carried out.

use vstd::prelude::*;
use vstd::string::*;

verus! {

/// The ways in which a command fails.
#[derive(Debug, Clone, PartialEq, Eq)]
pub enum AppError {
    /// The store failed; the text says how.
    PdbError(String),
    /// Reading or writing failed; the text says how.
    IoError(String),
    AlreadyExistingId,
    DataNotFound,
    InvalidPassword,
    NotExistingId,
    NoAnyRoom,
    InvalidCommand,
}

impl AppError {
    /// The text that tells the user of this error.
    pub open spec fn message_spec(self) -> Seq<char> {
        match self {
            AppError::PdbError(text) => text@,
            AppError::IoError(text) => text@,
            AppError::AlreadyExistingId => "This id already exists."@,
            AppError::DataNotFound => "Data not found in database."@,
            AppError::InvalidPassword => "Invalid password."@,
            AppError::NotExistingId => "No such room"@,
            AppError::NoAnyRoom => "There is no any room yet"@,
            AppError::InvalidCommand => "Invalid command."@,
        }
    }

    /// The text that tells the user of this error.
    pub fn message(&self) -> (text: String)
        ensures
            text@ == self.message_spec(),
    {
        match self {
            AppError::PdbError(text) => text.clone(),
            AppError::IoError(text) => text.clone(),
            AppError::AlreadyExistingId => String::from_str("This id already exists."),
            AppError::DataNotFound => String::from_str("Data not found in database."),
            AppError::InvalidPassword => String::from_str("Invalid password."),
            AppError::NotExistingId => String::from_str("No such room"),
            AppError::NoAnyRoom => String::from_str("There is no any room yet"),
            AppError::InvalidCommand => String::from_str("Invalid command."),
        }
    }
}

} // verus!
