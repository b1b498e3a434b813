//! From text to full-context labels.

use crate::error::OpenjtalkFunctionError;
use vstd::prelude::*;

verus! {

/// One extraction of the full-context labels of a text, as far as it has come.
///
/// A variant names the call to be made next, most of them on the resources of the analyser. The
/// reply goes to [`Extraction::resume`].
#[derive(Debug)]
pub enum Extraction<E> {
    /// Lock the resources, answered by [`ExtractionReply::Done`].
    Lock { text: String },
    /// `jpcommon.refresh()`, answered by [`ExtractionReply::Done`].
    RefreshJpcommon { text: String },
    /// `njd.refresh()`, answered by [`ExtractionReply::Done`].
    RefreshNjd { text: String },
    /// `mecab.refresh()`, answered by [`ExtractionReply::Done`].
    RefreshMecab { text: String },
    /// `text2mecab(text)`, answered by [`ExtractionReply::Converted`].
    Text2mecab { text: String },
    /// `mecab.analysis(mecab_text)`, answered by [`ExtractionReply::Analyzed`].
    Analysis { mecab_text: String },
    /// `mecab.get_feature()`, answered by [`ExtractionReply::Feature`].
    GetFeature,
    /// `mecab.get_size()`, answered by [`ExtractionReply::Size`].
    GetSize,
    /// `njd.mecab2njd(feature, size)` on the feature found, answered by
    /// [`ExtractionReply::Done`].
    Mecab2njd { size: i32 },
    /// `njd.set_pronunciation()`, answered by [`ExtractionReply::Done`].
    SetPronunciation,
    /// `njd.set_digit()`, answered by [`ExtractionReply::Done`].
    SetDigit,
    /// `njd.set_accent_phrase()`, answered by [`ExtractionReply::Done`].
    SetAccentPhrase,
    /// `njd.set_accent_type()`, answered by [`ExtractionReply::Done`].
    SetAccentType,
    /// `njd.set_unvoiced_vowel()`, answered by [`ExtractionReply::Done`].
    SetUnvoicedVowel,
    /// `njd.set_long_vowel()`, answered by [`ExtractionReply::Done`].
    SetLongVowel,
    /// `jpcommon.njd2jpcommon(njd)`, answered by [`ExtractionReply::Done`].
    Njd2jpcommon,
    /// `jpcommon.make_label()`, answered by [`ExtractionReply::Done`].
    MakeLabel,
    /// `jpcommon.get_label_feature_to_iter()`, answered by [`ExtractionReply::Labels`].
    GetLabelFeature,
    /// Unlock the resources, answered by [`ExtractionReply::Done`].
    Unlock { result: Result<Vec<String>, OpenjtalkFunctionError<E>> },
    /// No call is left.
    Finished { result: Result<Vec<String>, OpenjtalkFunctionError<E>> },
}

/// What came back from the call that an [`Extraction`] asked for.
#[derive(Debug)]
pub enum ExtractionReply<E> {
    /// The call was made; it returns nothing that matters.
    Done,
    /// What `text2mecab` returned.
    Converted(Result<String, E>),
    /// Whether the analysis succeeded.
    Analyzed(bool),
    /// Whether there is a feature.
    Feature(bool),
    /// The size of the feature.
    Size(i32),
    /// The labels, if there are any: see [`owned_labels`].
    Labels(Option<Vec<String>>),
}

/// The error that a reply stands for, if it tells of a failure.
pub open spec fn failure<E>(reply: ExtractionReply<E>) -> Option<OpenjtalkFunctionError<E>> {
    match reply {
        ExtractionReply::Converted(Err(source)) => Some(
            OpenjtalkFunctionError { function: "text2mecab", source: Some(source) },
        ),
        ExtractionReply::Analyzed(false) => Some(
            OpenjtalkFunctionError { function: "Mecab_analysis", source: None },
        ),
        ExtractionReply::Feature(false) => Some(
            OpenjtalkFunctionError { function: "Mecab_get_feature", source: None },
        ),
        ExtractionReply::Labels(None) => Some(
            OpenjtalkFunctionError { function: "JPCommon_get_label_feature", source: None },
        ),
        _ => None,
    }
}

impl<E> Extraction<E> {
    /// The run has just begun on `text`.
    pub open spec fn begins(self, text: Seq<char>) -> bool {
        self matches Extraction::Lock { text: t } && t@ == text
    }

    /// Where the call that the run asks for stands in the order of an extraction's calls.
    pub open spec fn position(self) -> int {
        match self {
            Extraction::Lock { .. } => 0,
            Extraction::RefreshJpcommon { .. } => 1,
            Extraction::RefreshNjd { .. } => 2,
            Extraction::RefreshMecab { .. } => 3,
            Extraction::Text2mecab { .. } => 4,
            Extraction::Analysis { .. } => 5,
            Extraction::GetFeature => 6,
            Extraction::GetSize => 7,
            Extraction::Mecab2njd { .. } => 8,
            Extraction::SetPronunciation => 9,
            Extraction::SetDigit => 10,
            Extraction::SetAccentPhrase => 11,
            Extraction::SetAccentType => 12,
            Extraction::SetUnvoicedVowel => 13,
            Extraction::SetLongVowel => 14,
            Extraction::Njd2jpcommon => 15,
            Extraction::MakeLabel => 16,
            Extraction::GetLabelFeature => 17,
            Extraction::Unlock { .. } => 18,
            Extraction::Finished { .. } => 19,
        }
    }

    /// The text, as long as it is still to be converted.
    pub open spec fn text(self) -> Option<String> {
        match self {
            Extraction::Lock { text } => Some(text),
            Extraction::RefreshJpcommon { text } => Some(text),
            Extraction::RefreshNjd { text } => Some(text),
            Extraction::RefreshMecab { text } => Some(text),
            Extraction::Text2mecab { text } => Some(text),
            _ => None,
        }
    }

    /// The resources are locked when the call is made.
    pub open spec fn has_lock(self) -> bool {
        1 <= self.position() <= 18
    }

    /// `reply` is of the kind that the call asked for has.
    pub open spec fn answered_by(self, reply: ExtractionReply<E>) -> bool {
        match reply {
            ExtractionReply::Converted(_) => self is Text2mecab,
            ExtractionReply::Analyzed(_) => self is Analysis,
            ExtractionReply::Feature(_) => self is GetFeature,
            ExtractionReply::Size(_) => self is GetSize,
            ExtractionReply::Labels(_) => self is GetLabelFeature,
            ExtractionReply::Done => !(self is Text2mecab || self is Analysis || self is GetFeature
                || self is GetSize || self is GetLabelFeature || self is Finished),
        }
    }

    /// The run that follows `self`, whose call was answered without a failure, holds what it
    /// has from `self` and from `reply`.
    pub open spec fn carries(self, reply: ExtractionReply<E>, next: Self) -> bool {
        match next {
            Extraction::Analysis { mecab_text } => reply == ExtractionReply::<E>::Converted(
                Ok(mecab_text),
            ),
            Extraction::Mecab2njd { size } => reply == ExtractionReply::<E>::Size(size),
            Extraction::Unlock { result } => result matches Ok(labels) && reply
                == ExtractionReply::<E>::Labels(Some(labels)),
            _ => next.text() is Some ==> next.text() == self.text(),
        }
    }

    /// `next` follows `self` once `reply` was handed over. A failure leads to the unlocking, which
    /// leads to the end; any other reply to the call leads to the call that is next in order; and
    /// what is no reply to the call changes nothing.
    pub open spec fn step(self, reply: ExtractionReply<E>, next: Self) -> bool {
        if !self.answered_by(reply) {
            next == self
        } else {
            match (self, failure(reply)) {
                (Extraction::Unlock { result }, _) => next == (Extraction::Finished { result }),
                (_, Some(error)) => next == (Extraction::Unlock { result: Err(error) }),
                (_, None) => next.position() == self.position() + 1 && self.carries(reply, next),
            }
        }
    }

    /// Takes the reply to the call that the run asks for.
    pub fn resume(self, reply: ExtractionReply<E>) -> (next: Self)
        ensures
            self.step(reply, next),
    {
        match (self, reply) {
            (Extraction::Lock { text }, ExtractionReply::Done) => Extraction::RefreshJpcommon {
                text,
            },
            (Extraction::RefreshJpcommon { text }, ExtractionReply::Done) => Extraction::RefreshNjd {
                text,
            },
            (Extraction::RefreshNjd { text }, ExtractionReply::Done) => Extraction::RefreshMecab {
                text,
            },
            (Extraction::RefreshMecab { text }, ExtractionReply::Done) => Extraction::Text2mecab {
                text,
            },
            (Extraction::Text2mecab { .. }, ExtractionReply::Converted(converted)) => match converted {
                Ok(mecab_text) => Extraction::Analysis { mecab_text },
                Err(source) => Self::fail("text2mecab", Some(source)),
            },
            (Extraction::Analysis { .. }, ExtractionReply::Analyzed(analyzed)) => if analyzed {
                Extraction::GetFeature
            } else {
                Self::fail("Mecab_analysis", None)
            },
            (Extraction::GetFeature, ExtractionReply::Feature(found)) => if found {
                Extraction::GetSize
            } else {
                Self::fail("Mecab_get_feature", None)
            },
            (Extraction::GetSize, ExtractionReply::Size(size)) => Extraction::Mecab2njd { size },
            (Extraction::Mecab2njd { .. }, ExtractionReply::Done) => Extraction::SetPronunciation,
            (Extraction::SetPronunciation, ExtractionReply::Done) => Extraction::SetDigit,
            (Extraction::SetDigit, ExtractionReply::Done) => Extraction::SetAccentPhrase,
            (Extraction::SetAccentPhrase, ExtractionReply::Done) => Extraction::SetAccentType,
            (Extraction::SetAccentType, ExtractionReply::Done) => Extraction::SetUnvoicedVowel,
            (Extraction::SetUnvoicedVowel, ExtractionReply::Done) => Extraction::SetLongVowel,
            (Extraction::SetLongVowel, ExtractionReply::Done) => Extraction::Njd2jpcommon,
            (Extraction::Njd2jpcommon, ExtractionReply::Done) => Extraction::MakeLabel,
            (Extraction::MakeLabel, ExtractionReply::Done) => Extraction::GetLabelFeature,
            (Extraction::GetLabelFeature, ExtractionReply::Labels(labels)) => match labels {
                Some(labels) => Extraction::Unlock { result: Ok(labels) },
                None => Self::fail("JPCommon_get_label_feature", None),
            },
            (Extraction::Unlock { result }, ExtractionReply::Done) => Extraction::Finished { result },
            (run, _) => run,
        }
    }

    /// Goes to the end of the run because `function` failed.
    fn fail(function: &'static str, source: Option<E>) -> (run: Self)
        ensures
            run == (Extraction::<E>::Unlock {
                result: Err(OpenjtalkFunctionError { function, source }),
            }),
    {
        Extraction::Unlock { result: Err(OpenjtalkFunctionError { function, source }) }
    }
}

/// Something that turns text into full-context labels.
pub trait FullcontextExtractor: Clone + Send + Sync + 'static {
    /// Begins the extraction of the full-context labels of `text`.
    fn extract_fullcontext<E>(&self, text: &str) -> (run: Extraction<E>)
        ensures
            run.begins(text@),
            run matches Extraction::Lock { text: t } && t@ == text@,
    ;
}

/// The characters of each label.
pub open spec fn label_views(labels: Seq<&str>) -> Seq<Seq<char>> {
    labels.map_values(|label: &str| label@)
}

/// Copies the labels out of the analyser, each as it is and in their order.
pub fn owned_labels(labels: &[&str]) -> (owned: Vec<String>)
    ensures
        owned@.map_values(|label: String| label@) == label_views(labels@),
        owned@.len() == labels@.len(),
        forall|i: int| 0 <= i < labels@.len() ==> (#[trigger] owned@[i])@ == labels@[i]@,
{
    let mut owned: Vec<String> = Vec::new();
    for i in 0..labels.len()
        invariant
            owned@.map_values(|label: String| label@) == label_views(labels@.take(i as int)),
            owned@.len() == i,
            forall|j: int| 0 <= j < i ==> (#[trigger] owned@[j])@ == labels@[j]@,
    {
        owned.push(labels[i].to_owned());
        proof {
            assert(labels@.take(i + 1) == labels@.take(i as int).push(labels@[i as int]));
            assert(label_views(labels@.take(i + 1)) == label_views(labels@.take(i as int)).push(
                labels@[i as int]@,
            ));
        }
    }
    proof {
        assert(labels@.take(labels@.len() as int) == labels@);
    }
    owned
}

} // verus!
