//! The analyser, for asynchronous callers.

use crate::blocking;
use crate::error::ErrorRepr;
use crate::extraction::{Extraction, FullcontextExtractor};
use crate::user_dict::UserDictUpdate;
use vstd::prelude::*;

verus! {

/// Open JTalk as a text analyser.
///
/// Its runs are those of the [`blocking::OpenJtalk`] in it; they own what they need, so that
/// they can be driven on a thread that may block.
pub struct OpenJtalk<R>(blocking::OpenJtalk<R>);

impl<R> OpenJtalk<R> {
    /// The analyser that does the work.
    pub closed spec fn blocking(&self) -> blocking::OpenJtalk<R> {
        self.0
    }

    /// Takes what came of opening the system dictionary on a thread that may block.
    pub fn new(opened: Result<blocking::OpenJtalk<R>, ErrorRepr>) -> (result: Result<
        Self,
        ErrorRepr,
    >)
        ensures
            match opened {
                Ok(blocking) => result matches Ok(engine) && engine.blocking() == blocking,
                Err(error) => result == Err::<Self, ErrorRepr>(error),
            },
    {
        match opened {
            Ok(blocking) => Ok(OpenJtalk(blocking)),
            Err(error) => Err(error),
        }
    }

    /// Begins to take a user dictionary into use, whose words are given in MeCab's format.
    ///
    /// The words are those of this moment: where they change afterwards, the new ones are taken
    /// into use by another call.
    pub fn use_user_dict(&self, words: &str) -> (run: UserDictUpdate)
        ensures
            run.begins(self.blocking().dict_dir(), words@),
            run matches UserDictUpdate::CreateCsv { dict_dir, words: w } && dict_dir@
                == self.blocking().dict_dir() && w@ == words@,
    {
        self.0.use_user_dict(words)
    }

    /// Lends the native resources.
    pub fn native_resources(&self) -> (resources: &R)
        ensures
            *resources == self.blocking().resources(),
    {
        self.0.native_resources()
    }
}

impl<R> Clone for OpenJtalk<R> {
    /// Another handle on the same resources.
    fn clone(&self) -> (handle: Self)
        ensures
            handle == *self,
    {
        OpenJtalk(self.0.clone())
    }
}

impl<R: Send + Sync + 'static> FullcontextExtractor for OpenJtalk<R> {
    fn extract_fullcontext<E>(&self, text: &str) -> (run: Extraction<E>) {
        self.0.extract_fullcontext(text)
    }
}

} // verus!
