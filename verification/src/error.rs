//! What can end a run of the viewer.

use vstd::prelude::*;

verus! {

/// The ways a run can fail. Each is final: nothing is retried.
#[derive(Debug, PartialEq, Eq)]
pub enum CartaTermError {
    /// A file could not be read.
    FileRead { path: String },
    /// The schema text was refused; the message says why.
    SchemaCompile { message: String },
    /// The terminal could not be switched or read.
    Terminal { message: String },
}

impl CartaTermError {
    /// The text shown to the user for this error.
    pub open spec fn message_text(self) -> Seq<char> {
        match self {
            CartaTermError::FileRead { path } => "Error reading file: "@ + path@,
            CartaTermError::SchemaCompile { message } => message@,
            CartaTermError::Terminal { message } => message@,
        }
    }

    /// The text shown to the user for this error: for a file that could not
    /// be read it names the file, otherwise it is the message of the cause.
    pub fn message(&self) -> (text: String)
        ensures
            text@ == self.message_text(),
    {
        match self {
            CartaTermError::FileRead { path } => {
                let mut text = "Error reading file: ".to_owned();
                text.append(path.as_str());
                text
            },
            CartaTermError::SchemaCompile { message } => message.clone(),
            CartaTermError::Terminal { message } => message.clone(),
        }
    }
}

} // verus!
