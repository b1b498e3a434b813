//! The analyser, for callers that may block.

use crate::error::ErrorRepr;
use crate::extraction::{Extraction, FullcontextExtractor};
use crate::user_dict::UserDictUpdate;
use std::sync::Arc;
use vstd::prelude::*;

verus! {

/// Open JTalk as a text analyser.
///
/// `R` holds the native resources and the lock around them. Clones share them.
pub struct OpenJtalk<R>(Arc<Inner<R>>);

struct Inner<R> {
    resources: R,
    dict_dir: String,
}

/// The opening of a system dictionary, as far as it has come.
///
/// A variant names the call to be made next. The reply goes to [`Opening::resume`].
pub enum Opening<R> {
    /// Initialize a MeCab, an NJD and a JPCommon, in this order, answered by
    /// [`OpeningReply::Initialized`].
    Initialize { dict_dir: String },
    /// `mecab.load(dict_dir)` on the MeCab in `resources`, answered by
    /// [`OpeningReply::Loaded`].
    Load { resources: R, dict_dir: String },
    /// No call is left.
    Finished { result: Result<OpenJtalk<R>, ErrorRepr> },
}

/// What came back from the call that an [`Opening`] asked for.
pub enum OpeningReply<R> {
    /// The resources, fit to be shared.
    Initialized(R),
    /// Whether the system dictionary was loaded.
    Loaded(bool),
}

impl<R> Opening<R> {
    /// The run has just begun.
    pub open spec fn begins(self, dict_dir: Seq<char>) -> bool {
        self matches Opening::Initialize { dict_dir: d } && d@ == dict_dir
    }

    /// `next` follows `self` once `reply` was handed over. The resources that were initialized
    /// get the dictionary; an analyser that holds both comes of it exactly if the dictionary was
    /// loaded. What is no reply to the call changes nothing.
    pub open spec fn step(self, reply: OpeningReply<R>, next: Self) -> bool {
        match (self, reply) {
            (Opening::Initialize { dict_dir }, OpeningReply::Initialized(resources)) => next
                == (Opening::Load { resources, dict_dir }),
            (Opening::Load { resources, dict_dir }, OpeningReply::Loaded(loaded)) => if loaded {
                next matches Opening::Finished { result: Ok(engine) } && engine.dict_dir()
                    == dict_dir@ && engine.resources() == resources
            } else {
                next == (Opening::<R>::Finished { result: Err(ErrorRepr::NotLoadedOpenjtalkDict) })
            },
            _ => next == self,
        }
    }

    /// Takes the reply to the call that the run asks for.
    pub fn resume(self, reply: OpeningReply<R>) -> (next: Self)
        ensures
            self.step(reply, next),
    {
        match (self, reply) {
            (Opening::Initialize { dict_dir }, OpeningReply::Initialized(resources)) => {
                Opening::Load { resources, dict_dir }
            },
            (Opening::Load { resources, dict_dir }, OpeningReply::Loaded(loaded)) => {
                if !loaded {
                    return Opening::Finished { result: Err(ErrorRepr::NotLoadedOpenjtalkDict) };
                }
                Opening::Finished {
                    result: Ok(OpenJtalk(Arc::new(Inner { resources, dict_dir }))),
                }
            },
            (run, _) => run,
        }
    }
}

impl<R> OpenJtalk<R> {
    /// The directory of the system dictionary.
    pub closed spec fn dict_dir(&self) -> Seq<char> {
        self.0.dict_dir@
    }

    /// The native resources.
    pub closed spec fn resources(&self) -> R {
        self.0.resources
    }

    /// Begins to open the system dictionary in `open_jtalk_dict_dir`.
    pub fn new(open_jtalk_dict_dir: &str) -> (run: Opening<R>)
        ensures
            run.begins(open_jtalk_dict_dir@),
            run matches Opening::Initialize { dict_dir } && dict_dir@ == open_jtalk_dict_dir@,
    {
        Opening::Initialize { dict_dir: open_jtalk_dict_dir.to_owned() }
    }

    /// Begins to take a user dictionary into use, whose words are given in MeCab's format.
    ///
    /// The words are those of this moment: where they change afterwards, the new ones are taken
    /// into use by another call.
    pub fn use_user_dict(&self, words: &str) -> (run: UserDictUpdate)
        ensures
            run.begins(self.dict_dir(), words@),
            run matches UserDictUpdate::CreateCsv { dict_dir, words: w } && dict_dir@
                == self.dict_dir() && w@ == words@,
    {
        self.0.use_user_dict(words)
    }

    /// Lends the native resources.
    pub fn native_resources(&self) -> (resources: &R)
        ensures
            *resources == self.resources(),
    {
        &self.0.resources
    }
}

impl<R> Inner<R> {
    fn use_user_dict(&self, words: &str) -> (run: UserDictUpdate)
        ensures
            run.begins(self.dict_dir@, words@),
            run matches UserDictUpdate::CreateCsv { dict_dir, words: w } && dict_dir@
                == self.dict_dir@ && w@ == words@,
    {
        UserDictUpdate::CreateCsv { dict_dir: self.dict_dir.clone(), words: words.to_owned() }
    }
}

impl<R> Clone for OpenJtalk<R> {
    /// Another handle on the same resources.
    fn clone(&self) -> (handle: Self)
        ensures
            handle == *self,
    {
        OpenJtalk(self.0.clone())
    }
}

impl<R: Send + Sync + 'static> FullcontextExtractor for OpenJtalk<R> {
    fn extract_fullcontext<E>(&self, text: &str) -> (run: Extraction<E>) {
        Extraction::Lock { text: text.to_owned() }
    }
}

} // verus!
