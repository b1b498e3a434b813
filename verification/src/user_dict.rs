//! Taking a user dictionary into use.

use crate::error::{ErrorRepr, UseUserDictError};
use vstd::prelude::*;

verus! {

/// The replacement of the analyser's user dictionary, as far as it has come.
///
/// The words go to a temporary file in CSV, which MeCab compiles to a dictionary in a second
/// temporary file, which is then loaded. A variant names the call to be made next. The reply goes
/// to [`UserDictUpdate::resume`].
#[derive(Debug)]
pub enum UserDictUpdate {
    /// Create the temporary file for the words, answered by [`UserDictReply::Io`].
    CreateCsv { dict_dir: String, words: String },
    /// Write all of `words` to the first file and close it, answered by [`UserDictReply::Io`].
    WriteCsv { dict_dir: String, words: String },
    /// Create the temporary file for the dictionary and close it, answered by
    /// [`UserDictReply::Io`].
    CreateDict { dict_dir: String },
    /// Tell the path of the second file, answered by [`UserDictReply::Path`].
    DictPath { dict_dir: String },
    /// Tell the path of the first file, answered by [`UserDictReply::Path`].
    CsvPath { dict_dir: String, user_dict: String },
    /// `mecab_dict_index` on [`UserDictUpdate::mecab_dict_index_args`], answered by
    /// [`UserDictReply::Done`] whatever it returns.
    Compile { dict_dir: String, user_dict: String, csv: String },
    /// Lock the resources of the analyser, answered by [`UserDictReply::Done`].
    Lock { dict_dir: String, user_dict: String },
    /// `mecab.load_with_userdic(dict_dir, user_dict)`, answered by [`UserDictReply::Loaded`].
    Load { dict_dir: String, user_dict: String },
    /// Unlock the resources, answered by [`UserDictReply::Done`].
    Unlock { result: Result<(), ErrorRepr> },
    /// Remove the second file, answered by [`UserDictReply::Done`].
    RemoveDict { result: Result<(), ErrorRepr> },
    /// Remove the first file, answered by [`UserDictReply::Done`].
    RemoveCsv { result: Result<(), ErrorRepr> },
    /// No call is left.
    Finished { result: Result<(), ErrorRepr> },
}

/// What came back from the call that a [`UserDictUpdate`] asked for.
#[derive(Debug)]
pub enum UserDictReply {
    /// The call was made; what it returns does not matter.
    Done,
    /// Whether the file was created or written.
    Io(Result<(), std::io::Error>),
    /// The path of a temporary file.
    Path(String),
    /// Whether the dictionary was loaded.
    Loaded(bool),
}

/// What a reply makes of the whole update, if it settles that.
pub open spec fn verdict(reply: UserDictReply) -> Option<Result<(), ErrorRepr>> {
    match reply {
        UserDictReply::Io(Err(error)) => Some(
            Err(ErrorRepr::UseUserDict(UseUserDictError::Io(error))),
        ),
        UserDictReply::Loaded(true) => Some(Ok(())),
        UserDictReply::Loaded(false) => Some(
            Err(
                ErrorRepr::UseUserDict(
                    UseUserDictError::Message("辞書のコンパイルに失敗しました"),
                ),
            ),
        ),
        _ => None,
    }
}

impl UserDictUpdate {
    /// The run has just begun, for an analyser whose system dictionary is in `dict_dir`.
    pub open spec fn begins(self, dict_dir: Seq<char>, words: Seq<char>) -> bool {
        self matches UserDictUpdate::CreateCsv { dict_dir: d, words: w } && d@ == dict_dir && w@
            == words
    }

    /// Where the call that the run asks for stands in the order of an update's calls.
    pub open spec fn position(self) -> int {
        match self {
            UserDictUpdate::CreateCsv { .. } => 0,
            UserDictUpdate::WriteCsv { .. } => 1,
            UserDictUpdate::CreateDict { .. } => 2,
            UserDictUpdate::DictPath { .. } => 3,
            UserDictUpdate::CsvPath { .. } => 4,
            UserDictUpdate::Compile { .. } => 5,
            UserDictUpdate::Lock { .. } => 6,
            UserDictUpdate::Load { .. } => 7,
            UserDictUpdate::Unlock { .. } => 8,
            UserDictUpdate::RemoveDict { .. } => 9,
            UserDictUpdate::RemoveCsv { .. } => 10,
            UserDictUpdate::Finished { .. } => 11,
        }
    }

    /// The directory of the system dictionary, as long as it is needed.
    pub open spec fn dict_dir(self) -> Option<String> {
        match self {
            UserDictUpdate::CreateCsv { dict_dir, .. } => Some(dict_dir),
            UserDictUpdate::WriteCsv { dict_dir, .. } => Some(dict_dir),
            UserDictUpdate::CreateDict { dict_dir } => Some(dict_dir),
            UserDictUpdate::DictPath { dict_dir } => Some(dict_dir),
            UserDictUpdate::CsvPath { dict_dir, .. } => Some(dict_dir),
            UserDictUpdate::Compile { dict_dir, .. } => Some(dict_dir),
            UserDictUpdate::Lock { dict_dir, .. } => Some(dict_dir),
            UserDictUpdate::Load { dict_dir, .. } => Some(dict_dir),
            _ => None,
        }
    }

    /// The words, as long as they are still to be written.
    pub open spec fn words(self) -> Option<String> {
        match self {
            UserDictUpdate::CreateCsv { words, .. } => Some(words),
            UserDictUpdate::WriteCsv { words, .. } => Some(words),
            _ => None,
        }
    }

    /// The path of the compiled dictionary, once it is known and as long as it is needed.
    pub open spec fn user_dict(self) -> Option<String> {
        match self {
            UserDictUpdate::CsvPath { user_dict, .. } => Some(user_dict),
            UserDictUpdate::Compile { user_dict, .. } => Some(user_dict),
            UserDictUpdate::Lock { user_dict, .. } => Some(user_dict),
            UserDictUpdate::Load { user_dict, .. } => Some(user_dict),
            _ => None,
        }
    }

    /// The file of the words exists when the call is made.
    pub open spec fn has_csv(self) -> bool {
        1 <= self.position() <= 10
    }

    /// The file of the dictionary exists when the call is made.
    pub open spec fn has_dict(self) -> bool {
        3 <= self.position() <= 9
    }

    /// The resources are locked when the call is made.
    pub open spec fn has_lock(self) -> bool {
        7 <= self.position() <= 8
    }

    /// The run that gives up what is still held, the last acquired first, and then ends with
    /// `result`.
    pub open spec fn cleanup(
        has_csv: bool,
        has_dict: bool,
        has_lock: bool,
        result: Result<(), ErrorRepr>,
    ) -> Self {
        if has_lock {
            UserDictUpdate::Unlock { result }
        } else if has_dict {
            UserDictUpdate::RemoveDict { result }
        } else if has_csv {
            UserDictUpdate::RemoveCsv { result }
        } else {
            UserDictUpdate::Finished { result }
        }
    }

    /// `reply` is of the kind that the call asked for has.
    pub open spec fn answered_by(self, reply: UserDictReply) -> bool {
        match reply {
            UserDictReply::Io(_) => self is CreateCsv || self is WriteCsv || self is CreateDict,
            UserDictReply::Path(_) => self is DictPath || self is CsvPath,
            UserDictReply::Loaded(_) => self is Load,
            UserDictReply::Done => self is Compile || self is Lock || self is Unlock
                || self is RemoveDict || self is RemoveCsv,
        }
    }

    /// The run that follows `self` on the way to the loading holds what it has from `self` and
    /// from `reply`.
    pub open spec fn carries(self, reply: UserDictReply, next: Self) -> bool {
        &&& next.dict_dir() == self.dict_dir()
        &&& next.words() is Some ==> next.words() == self.words()
        &&& match next {
            UserDictUpdate::CsvPath { user_dict, .. } => reply == UserDictReply::Path(user_dict),
            UserDictUpdate::Compile { csv, .. } => reply == UserDictReply::Path(csv)
                && next.user_dict() == self.user_dict(),
            _ => next.user_dict() is Some ==> next.user_dict() == self.user_dict(),
        }
    }

    /// `next` follows `self` once `reply` was handed over. A reply that settles the update leads
    /// to the giving up of the lock and of the files, which leads to the end; any other reply to
    /// the call leads to the call that is next in order; and what is no reply to the call changes
    /// nothing.
    pub open spec fn step(self, reply: UserDictReply, next: Self) -> bool {
        if !self.answered_by(reply) {
            next == self
        } else {
            match (self, verdict(reply)) {
                (UserDictUpdate::Unlock { result }, _) => next == (UserDictUpdate::RemoveDict {
                    result,
                }),
                (UserDictUpdate::RemoveDict { result }, _) => next == (UserDictUpdate::RemoveCsv {
                    result,
                }),
                (UserDictUpdate::RemoveCsv { result }, _) => next == (UserDictUpdate::Finished {
                    result,
                }),
                (_, Some(result)) => next == Self::cleanup(
                    self.has_csv(),
                    self.has_dict(),
                    self.has_lock(),
                    result,
                ),
                (_, None) => next.position() == self.position() + 1 && self.carries(reply, next),
            }
        }
    }

    /// Takes the reply to the call that the run asks for.
    pub fn resume(self, reply: UserDictReply) -> (next: Self)
        ensures
            self.step(reply, next),
    {
        match (self, reply) {
            (UserDictUpdate::CreateCsv { dict_dir, words }, UserDictReply::Io(created)) => {
                match created {
                    Ok(()) => UserDictUpdate::WriteCsv { dict_dir, words },
                    Err(error) => UserDictUpdate::Finished { result: Self::io_failure(error) },
                }
            },
            (UserDictUpdate::WriteCsv { dict_dir, .. }, UserDictReply::Io(written)) => {
                match written {
                    Ok(()) => UserDictUpdate::CreateDict { dict_dir },
                    Err(error) => UserDictUpdate::RemoveCsv { result: Self::io_failure(error) },
                }
            },
            (UserDictUpdate::CreateDict { dict_dir }, UserDictReply::Io(created)) => {
                match created {
                    Ok(()) => UserDictUpdate::DictPath { dict_dir },
                    Err(error) => UserDictUpdate::RemoveCsv { result: Self::io_failure(error) },
                }
            },
            (UserDictUpdate::DictPath { dict_dir }, UserDictReply::Path(user_dict)) => {
                UserDictUpdate::CsvPath { dict_dir, user_dict }
            },
            (UserDictUpdate::CsvPath { dict_dir, user_dict }, UserDictReply::Path(csv)) => {
                UserDictUpdate::Compile { dict_dir, user_dict, csv }
            },
            (UserDictUpdate::Compile { dict_dir, user_dict, .. }, UserDictReply::Done) => {
                UserDictUpdate::Lock { dict_dir, user_dict }
            },
            (UserDictUpdate::Lock { dict_dir, user_dict }, UserDictReply::Done) => {
                UserDictUpdate::Load { dict_dir, user_dict }
            },
            (UserDictUpdate::Load { .. }, UserDictReply::Loaded(loaded)) => {
                let result = if loaded {
                    Ok(())
                } else {
                    Err(
                        ErrorRepr::UseUserDict(
                            UseUserDictError::Message("辞書のコンパイルに失敗しました"),
                        ),
                    )
                };
                UserDictUpdate::Unlock { result }
            },
            (UserDictUpdate::Unlock { result }, UserDictReply::Done) => {
                UserDictUpdate::RemoveDict { result }
            },
            (UserDictUpdate::RemoveDict { result }, UserDictReply::Done) => {
                UserDictUpdate::RemoveCsv { result }
            },
            (UserDictUpdate::RemoveCsv { result }, UserDictReply::Done) => {
                UserDictUpdate::Finished { result }
            },
            (run, _) => run,
        }
    }

    /// The result of an update in which a temporary file failed.
    fn io_failure(error: std::io::Error) -> (result: Result<(), ErrorRepr>)
        ensures
            result == Err::<(), ErrorRepr>(ErrorRepr::UseUserDict(UseUserDictError::Io(error))),
    {
        Err(ErrorRepr::UseUserDict(UseUserDictError::Io(error)))
    }

    /// The arguments of `mecab_dict_index`, if that is the call to be made: compile the words in
    /// the CSV, UTF-8 in and out, against the system dictionary, to the user dictionary, quietly.
    pub fn mecab_dict_index_args(&self) -> (args: Option<[&str; 11]>)
        ensures
            match *self {
                UserDictUpdate::Compile { dict_dir, user_dict, csv } => args matches Some(args)
                    && args@.map_values(|arg: &str| arg@) == seq![
                    "mecab-dict-index"@,
                    "-d"@,
                    dict_dir@,
                    "-u"@,
                    user_dict@,
                    "-f"@,
                    "utf-8"@,
                    "-t"@,
                    "utf-8"@,
                    csv@,
                    "-q"@,
                ],
                _ => args is None,
            },
    {
        match self {
            UserDictUpdate::Compile { dict_dir, user_dict, csv } => Some(
                [
                    "mecab-dict-index",
                    "-d",
                    dict_dir.as_str(),
                    "-u",
                    user_dict.as_str(),
                    "-f",
                    "utf-8",
                    "-t",
                    "utf-8",
                    csv.as_str(),
                    "-q",
                ],
            ),
            _ => None,
        }
    }
}

} // verus!
