//! A text analyser built on Open JTalk.
//!
//! The native analyser and the file system are reached only from outside this crate. What the
//! crate holds is every decision around them, and it holds them as *runs*: a run is a value
//! whose variant names the one call to be made next, with the arguments of that call. Whoever
//! owns the native resources makes the call, hands its reply to the run, and gets the run that
//! follows, until the run is finished and holds a result.
//!
//! * [`blocking::OpenJtalk::new`] opens a system dictionary ([`blocking::Opening`]).
//! * [`blocking::OpenJtalk::use_user_dict`] compiles and loads a user dictionary
//!   ([`user_dict::UserDictUpdate`]).
//! * [`extraction::FullcontextExtractor::extract_fullcontext`] turns text into full-context
//!   labels ([`extraction::Extraction`]).
//!
//! What each reply makes of each call is stated, call by call, in [`steps`].
//! What holds of whole runs, from the first call to the last, is stated in [`laws`], and what
//! holds of runs that share the native resources in [`sharing`] and, of the dictionaries that are
//! in force, in [`dictionaries`].

pub mod blocking;
pub mod dictionaries;
pub mod error;
pub mod extraction;
pub mod laws;
pub mod sharing;
pub mod steps;
pub mod tokio;
pub mod user_dict;
