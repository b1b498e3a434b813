//! The errors of the analyser.

use vstd::prelude::*;
use vstd::string::*;

verus! {

/// `std::io::Error`, carried through as it came from the file system.
#[verifier::external_type_specification]
#[verifier::external_body]
pub struct ExIoError(std::io::Error);

/// A function of Open JTalk failed.
///
/// `E` is the error of `text2mecab`, the one function that says why it failed.
#[derive(Debug)]
pub struct OpenjtalkFunctionError<E> {
    pub function: &'static str,
    pub source: Option<E>,
}

impl<E> OpenjtalkFunctionError<E> {
    /// The message of an error in the function of that name.
    pub open spec fn message_of(function: Seq<char>) -> Seq<char> {
        "`"@ + function + "`の実行が失敗しました"@
    }

    /// What the error tells a user: which function failed.
    pub fn message(&self) -> (message: String)
        ensures
            message@ == Self::message_of(self.function@),
            message@ == "`"@ + self.function@ + "`の実行が失敗しました"@,
    {
        let mut message = String::from_str("`");
        message.append(self.function);
        message.append("`の実行が失敗しました");
        message
    }
}

/// Why a user dictionary could not be taken into use.
#[derive(Debug)]
pub enum UseUserDictError {
    /// A temporary file could not be created or written.
    Io(std::io::Error),
    /// The dictionary was not loaded; the text says why.
    Message(&'static str),
}

/// Why an operation on the analyser's dictionaries failed.
#[derive(Debug)]
pub enum ErrorRepr {
    /// The system dictionary was not loaded.
    NotLoadedOpenjtalkDict,
    /// The user dictionary was not taken into use.
    UseUserDict(UseUserDictError),
}

} // verus!
