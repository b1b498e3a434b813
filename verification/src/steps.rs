//! What each reply makes of each call, stated on the calls themselves.
//!
//! For every call of a run and every reply to it there is a law here that names the call that
//! follows, with its arguments, or the result. No argument that a call holds has a say in which
//! call is next; only the replies have.

use crate::blocking::{Opening, OpeningReply};
use crate::error::{ErrorRepr, OpenjtalkFunctionError, UseUserDictError};
use crate::extraction::{label_views, Extraction, ExtractionReply};
use crate::laws::{extraction_history, law_extraction_order, law_update_order, update_history};
use crate::user_dict::{UserDictReply, UserDictUpdate};
use vstd::prelude::*;

verus! {

/// Every label counts, at its own place, with all its characters.
pub proof fn law_no_label_is_lost(labels: Seq<&str>)
    ensures
        label_views(labels).len() == labels.len(),
        forall|i: int| 0 <= i < labels.len() ==> #[trigger] label_views(labels)[i] == labels[i]@,
{
}

/// The message of an error holds the whole name of the function, between backquotes, and after
/// it the same words whatever the function. So it tells any two functions apart.
pub proof fn law_message_names_the_function<E>(function: Seq<char>, other: Seq<char>)
    ensures
        ({
            let message = OpenjtalkFunctionError::<E>::message_of(function);
            &&& message.len() == function.len() + 12
            &&& message[0] == '`'
            &&& message.subrange(1, 1 + function.len() as int) == function
            &&& message.skip(1 + function.len() as int) == seq![
                '`',
                'の',
                '実',
                '行',
                'が',
                '失',
                '敗',
                'し',
                'ま',
                'し',
                'た',
            ]
        }),
        OpenjtalkFunctionError::<E>::message_of(function)
            == OpenjtalkFunctionError::<E>::message_of(other) <==> function == other,
{
    reveal_strlit("`");
    reveal_strlit("`の実行が失敗しました");
    let message = OpenjtalkFunctionError::<E>::message_of(function);
    let other_message = OpenjtalkFunctionError::<E>::message_of(other);
    assert(message.subrange(1, 1 + function.len() as int) =~= function);
    assert(other_message.subrange(1, 1 + other.len() as int) =~= other);
}

/// An extraction that has just begun asks for the lock, and holds the whole text.
pub proof fn law_extraction_begins_with_the_lock<E>(run: Extraction<E>, text: Seq<char>)
    ensures
        run.begins(text) <==> (run matches Extraction::Lock { text: t } && t@ == text),
{
}

/// Whether a reply answers a call of an extraction depends on the two kinds alone, on no text, no
/// size and no result.
pub proof fn law_extraction_is_answered_by_kind<E>(run: Extraction<E>, reply: ExtractionReply<E>)
    ensures
        run.answered_by(reply) <==> match reply {
            ExtractionReply::Converted(_) => run is Text2mecab,
            ExtractionReply::Analyzed(_) => run is Analysis,
            ExtractionReply::Feature(_) => run is GetFeature,
            ExtractionReply::Size(_) => run is GetSize,
            ExtractionReply::Labels(_) => run is GetLabelFeature,
            ExtractionReply::Done => {
                ||| run is Lock
                ||| run is RefreshJpcommon
                ||| run is RefreshNjd
                ||| run is RefreshMecab
                ||| run is Mecab2njd
                ||| run is SetPronunciation
                ||| run is SetDigit
                ||| run is SetAccentPhrase
                ||| run is SetAccentType
                ||| run is SetUnvoicedVowel
                ||| run is SetLongVowel
                ||| run is Njd2jpcommon
                ||| run is MakeLabel
                ||| run is Unlock
            },
        },
{
}

/// A reply of another kind than the call's leaves an extraction as it is, and so does any reply
/// when it is finished.
pub proof fn law_extraction_ignores_other_replies<E>(
    run: Extraction<E>,
    reply: ExtractionReply<E>,
    next: Extraction<E>,
)
    requires
        run.step(reply, next),
        match reply {
            ExtractionReply::Converted(_) => !(run is Text2mecab),
            ExtractionReply::Analyzed(_) => !(run is Analysis),
            ExtractionReply::Feature(_) => !(run is GetFeature),
            ExtractionReply::Size(_) => !(run is GetSize),
            ExtractionReply::Labels(_) => !(run is GetLabelFeature),
            ExtractionReply::Done => run is Text2mecab || run is Analysis || run is GetFeature
                || run is GetSize || run is GetLabelFeature || run is Finished,
        },
    ensures
        next == run,
{
}

/// Whatever the text, the lock is followed by the refreshes of JPCommon, NJD and MeCab, all three,
/// and they by the conversion of that same text.
pub proof fn law_text_waits_for_the_refreshes<E>(
    text: String,
    first: Extraction<E>,
    second: Extraction<E>,
    third: Extraction<E>,
    fourth: Extraction<E>,
)
    requires
        (Extraction::<E>::Lock { text }).step(ExtractionReply::Done, first),
        first.step(ExtractionReply::Done, second),
        second.step(ExtractionReply::Done, third),
        third.step(ExtractionReply::Done, fourth),
    ensures
        first == (Extraction::<E>::RefreshJpcommon { text }),
        second == (Extraction::<E>::RefreshNjd { text }),
        third == (Extraction::<E>::RefreshMecab { text }),
        fourth == (Extraction::<E>::Text2mecab { text }),
{
}

/// What the conversion gave is analysed, whole; where it failed, its reason is the result.
pub proof fn law_conversion_decides<E>(
    text: String,
    converted: Result<String, E>,
    next: Extraction<E>,
)
    requires
        (Extraction::<E>::Text2mecab { text }).step(ExtractionReply::Converted(converted), next),
    ensures
        match converted {
            Ok(mecab_text) => next == (Extraction::<E>::Analysis { mecab_text }),
            Err(reason) => next == (Extraction::<E>::Unlock {
                result: Err(
                    OpenjtalkFunctionError { function: "text2mecab", source: Some(reason) },
                ),
            }),
        },
{
}

/// Whatever was analysed, only a successful analysis leads on to the feature.
pub proof fn law_analysis_decides<E>(mecab_text: String, analyzed: bool, next: Extraction<E>)
    requires
        (Extraction::<E>::Analysis { mecab_text }).step(ExtractionReply::Analyzed(analyzed), next),
    ensures
        analyzed ==> next == Extraction::<E>::GetFeature,
        !analyzed ==> next == (Extraction::<E>::Unlock {
            result: Err(OpenjtalkFunctionError { function: "Mecab_analysis", source: None }),
        }),
{
}

/// Only a feature that is there leads on to its size.
pub proof fn law_feature_decides<E>(found: bool, next: Extraction<E>)
    requires
        Extraction::<E>::GetFeature.step(ExtractionReply::Feature(found), next),
    ensures
        found ==> next == Extraction::<E>::GetSize,
        !found ==> next == (Extraction::<E>::Unlock {
            result: Err(OpenjtalkFunctionError { function: "Mecab_get_feature", source: None }),
        }),
{
}

/// The feature is handed over with the very size that was told.
pub proof fn law_size_is_handed_over<E>(size: i32, next: Extraction<E>)
    requires
        Extraction::<E>::GetSize.step(ExtractionReply::Size(size), next),
    ensures
        next == (Extraction::<E>::Mecab2njd { size }),
{
}

/// Whatever the size, all six settings are made on what was handed over, in their order, before
/// JPCommon gets it, makes the labels and is asked for them.
pub proof fn law_all_settings_are_made<E>(size: i32, runs: Seq<Extraction<E>>)
    requires
        runs.len() == 10,
        runs[0] == (Extraction::<E>::Mecab2njd { size }),
        forall|i: int| 0 <= i < 9 ==> (#[trigger] runs[i]).step(ExtractionReply::Done, runs[i + 1]),
    ensures
        runs[1] is SetPronunciation,
        runs[2] is SetDigit,
        runs[3] is SetAccentPhrase,
        runs[4] is SetAccentType,
        runs[5] is SetUnvoicedVowel,
        runs[6] is SetLongVowel,
        runs[7] is Njd2jpcommon,
        runs[8] is MakeLabel,
        runs[9] is GetLabelFeature,
{
    assert(runs[0].step(ExtractionReply::Done, runs[1]));
    assert(runs[1].step(ExtractionReply::Done, runs[2]));
    assert(runs[2].step(ExtractionReply::Done, runs[3]));
    assert(runs[3].step(ExtractionReply::Done, runs[4]));
    assert(runs[4].step(ExtractionReply::Done, runs[5]));
    assert(runs[5].step(ExtractionReply::Done, runs[6]));
    assert(runs[6].step(ExtractionReply::Done, runs[7]));
    assert(runs[7].step(ExtractionReply::Done, runs[8]));
    assert(runs[8].step(ExtractionReply::Done, runs[9]));
}

/// The labels, where there are any, are the result as they came; where there are none, that is
/// the error.
pub proof fn law_labels_decide<E>(labels: Option<Vec<String>>, next: Extraction<E>)
    requires
        Extraction::<E>::GetLabelFeature.step(ExtractionReply::Labels(labels), next),
    ensures
        match labels {
            Some(labels) => next == (Extraction::<E>::Unlock { result: Ok(labels) }),
            None => next == (Extraction::<E>::Unlock {
                result: Err(
                    OpenjtalkFunctionError {
                        function: "JPCommon_get_label_feature",
                        source: None,
                    },
                ),
            }),
        },
{
}

/// Whatever the result, the unlocking is the last call and leaves it as it is.
pub proof fn law_unlocking_ends_an_extraction<E>(
    result: Result<Vec<String>, OpenjtalkFunctionError<E>>,
    next: Extraction<E>,
)
    requires
        (Extraction::<E>::Unlock { result }).step(ExtractionReply::Done, next),
    ensures
        next == (Extraction::<E>::Finished { result }),
{
}

/// From any text to its labels: where every call succeeds, an extraction makes these nineteen
/// calls with these arguments and ends in the labels that came.
pub proof fn law_extraction_gives_the_labels<E>(
    text: String,
    mecab_text: String,
    size: i32,
    labels: Vec<String>,
    runs: Seq<Extraction<E>>,
    replies: Seq<ExtractionReply<E>>,
)
    requires
        runs.len() == 20,
        replies.len() == 19,
        runs[0] == (Extraction::<E>::Lock { text }),
        forall|i: int| 0 <= i < 19 ==> (#[trigger] runs[i]).step(replies[i], runs[i + 1]),
        forall|i: int|
            0 <= i < 19 && i != 4 && i != 5 && i != 6 && i != 7 && i != 17 ==> (
            #[trigger] replies[i]) is Done,
        replies[4] == ExtractionReply::<E>::Converted(Ok(mecab_text)),
        replies[5] == ExtractionReply::<E>::Analyzed(true),
        replies[6] == ExtractionReply::<E>::Feature(true),
        replies[7] == ExtractionReply::<E>::Size(size),
        replies[17] == ExtractionReply::<E>::Labels(Some(labels)),
    ensures
        runs[1] == (Extraction::<E>::RefreshJpcommon { text }),
        runs[2] == (Extraction::<E>::RefreshNjd { text }),
        runs[3] == (Extraction::<E>::RefreshMecab { text }),
        runs[4] == (Extraction::<E>::Text2mecab { text }),
        runs[5] == (Extraction::<E>::Analysis { mecab_text }),
        runs[6] is GetFeature,
        runs[7] is GetSize,
        runs[8] == (Extraction::<E>::Mecab2njd { size }),
        runs[9] is SetPronunciation,
        runs[10] is SetDigit,
        runs[11] is SetAccentPhrase,
        runs[12] is SetAccentType,
        runs[13] is SetUnvoicedVowel,
        runs[14] is SetLongVowel,
        runs[15] is Njd2jpcommon,
        runs[16] is MakeLabel,
        runs[17] is GetLabelFeature,
        runs[18] == (Extraction::<E>::Unlock { result: Ok(labels) }),
        runs[19] == (Extraction::<E>::Finished { result: Ok(labels) }),
{
    assert(replies[0] is Done && replies[1] is Done && replies[2] is Done && replies[3] is Done);
    assert(runs[0].step(replies[0], runs[1]));
    assert(runs[1].step(replies[1], runs[2]));
    assert(runs[2].step(replies[2], runs[3]));
    assert(runs[3].step(replies[3], runs[4]));
    law_text_waits_for_the_refreshes(text, runs[1], runs[2], runs[3], runs[4]);
    assert(runs[4].step(replies[4], runs[5]));
    assert(runs[5].step(replies[5], runs[6]));
    assert(runs[6].step(replies[6], runs[7]));
    assert(runs[7].step(replies[7], runs[8]));
    let settings = runs.subrange(8, 18);
    assert forall|i: int| 0 <= i < 9 implies (#[trigger] settings[i]).step(
        ExtractionReply::Done,
        settings[i + 1],
    ) by {
        assert(replies[i + 8] is Done);
        assert(runs[i + 8].step(replies[i + 8], runs[i + 8 + 1]));
    }
    law_all_settings_are_made(size, settings);
    assert(settings[1] == runs[9] && settings[2] == runs[10] && settings[3] == runs[11]);
    assert(settings[4] == runs[12] && settings[5] == runs[13] && settings[6] == runs[14]);
    assert(settings[7] == runs[15] && settings[8] == runs[16] && settings[9] == runs[17]);
    assert(runs[17].step(replies[17], runs[18]));
    assert(replies[18] is Done);
    assert(runs[18].step(replies[18], runs[19]));
}

/// In every history of an extraction on `text`, the calls that take the text hold it whole, and
/// those that take something from an earlier reply hold that.
pub proof fn law_extraction_calls_hold_their_arguments<E>(
    text: Seq<char>,
    runs: Seq<Extraction<E>>,
    replies: Seq<ExtractionReply<E>>,
    i: int,
)
    requires
        extraction_history(text, runs, replies),
        0 <= i < runs.len(),
    ensures
        match runs[i] {
            Extraction::Lock { text: t } => i == 0 && t@ == text,
            Extraction::RefreshJpcommon { text: t } => i == 1 && t@ == text,
            Extraction::RefreshNjd { text: t } => i == 2 && t@ == text,
            Extraction::RefreshMecab { text: t } => i == 3 && t@ == text,
            Extraction::Text2mecab { text: t } => i == 4 && t@ == text,
            Extraction::Analysis { mecab_text } => i == 5 && replies[4]
                == ExtractionReply::<E>::Converted(Ok(mecab_text)),
            Extraction::Mecab2njd { size } => i == 8 && replies[7] == ExtractionReply::<E>::Size(
                size,
            ),
            _ => true,
        },
{
    law_extraction_order(text, runs, replies);
}

/// An update that has just begun asks for the file of the words, and holds all the words and the
/// directory, each in its place.
pub proof fn law_update_begins_with_the_csv(
    run: UserDictUpdate,
    dict_dir: Seq<char>,
    words: Seq<char>,
)
    ensures
        run.begins(dict_dir, words) <==> (run matches UserDictUpdate::CreateCsv {
            dict_dir: d,
            words: w,
        } && d@ == dict_dir && w@ == words),
{
}

/// Whether a reply answers a call of an update depends on the two kinds alone, on no path, no
/// words and no result.
pub proof fn law_update_is_answered_by_kind(run: UserDictUpdate, reply: UserDictReply)
    ensures
        run.answered_by(reply) <==> match reply {
            UserDictReply::Io(_) => run is CreateCsv || run is WriteCsv || run is CreateDict,
            UserDictReply::Path(_) => run is DictPath || run is CsvPath,
            UserDictReply::Loaded(_) => run is Load,
            UserDictReply::Done => run is Compile || run is Lock || run is Unlock
                || run is RemoveDict || run is RemoveCsv,
        },
{
}

/// A reply of another kind than the call's leaves an update as it is, and so does any reply when
/// it is finished.
pub proof fn law_update_ignores_other_replies(
    run: UserDictUpdate,
    reply: UserDictReply,
    next: UserDictUpdate,
)
    requires
        run.step(reply, next),
        match reply {
            UserDictReply::Io(_) => !(run is CreateCsv || run is WriteCsv || run is CreateDict),
            UserDictReply::Path(_) => !(run is DictPath || run is CsvPath),
            UserDictReply::Loaded(_) => !(run is Load),
            UserDictReply::Done => !(run is Compile || run is Lock || run is Unlock
                || run is RemoveDict || run is RemoveCsv),
        },
    ensures
        next == run,
{
}

/// Once their file is there, the words are written, the very words and nothing else; where it
/// could not be created, that is the result.
pub proof fn law_words_go_to_the_csv(
    dict_dir: String,
    words: String,
    created: Result<(), std::io::Error>,
    next: UserDictUpdate,
)
    requires
        (UserDictUpdate::CreateCsv { dict_dir, words }).step(UserDictReply::Io(created), next),
    ensures
        match created {
            Ok(_) => next == (UserDictUpdate::WriteCsv { dict_dir, words }),
            Err(error) => next == (UserDictUpdate::Finished {
                result: Err(ErrorRepr::UseUserDict(UseUserDictError::Io(error))),
            }),
        },
{
}

/// Once the words are written, the second file is created, for the same system dictionary; where
/// they could not be written, their file is removed and that is the result.
pub proof fn law_writing_decides(
    dict_dir: String,
    words: String,
    written: Result<(), std::io::Error>,
    next: UserDictUpdate,
)
    requires
        (UserDictUpdate::WriteCsv { dict_dir, words }).step(UserDictReply::Io(written), next),
    ensures
        match written {
            Ok(_) => next == (UserDictUpdate::CreateDict { dict_dir }),
            Err(error) => next == (UserDictUpdate::RemoveCsv {
                result: Err(ErrorRepr::UseUserDict(UseUserDictError::Io(error))),
            }),
        },
{
}

/// Once the second file is there, its path is asked for; where it could not be created, the first
/// is removed and that is the result.
pub proof fn law_second_file_decides(
    dict_dir: String,
    created: Result<(), std::io::Error>,
    next: UserDictUpdate,
)
    requires
        (UserDictUpdate::CreateDict { dict_dir }).step(UserDictReply::Io(created), next),
    ensures
        match created {
            Ok(_) => next == (UserDictUpdate::DictPath { dict_dir }),
            Err(error) => next == (UserDictUpdate::RemoveCsv {
                result: Err(ErrorRepr::UseUserDict(UseUserDictError::Io(error))),
            }),
        },
{
}

/// Whatever the paths are, the words in the first file are compiled to the second against the
/// system dictionary, and what is loaded with that dictionary is the second file.
pub proof fn law_what_was_compiled_is_loaded(
    dict_dir: String,
    user_dict: String,
    csv: String,
    first: UserDictUpdate,
    second: UserDictUpdate,
    third: UserDictUpdate,
    fourth: UserDictUpdate,
)
    requires
        (UserDictUpdate::DictPath { dict_dir }).step(UserDictReply::Path(user_dict), first),
        first.step(UserDictReply::Path(csv), second),
        second.step(UserDictReply::Done, third),
        third.step(UserDictReply::Done, fourth),
    ensures
        first == (UserDictUpdate::CsvPath { dict_dir, user_dict }),
        second == (UserDictUpdate::Compile { dict_dir, user_dict, csv }),
        third == (UserDictUpdate::Lock { dict_dir, user_dict }),
        fourth == (UserDictUpdate::Load { dict_dir, user_dict }),
{
}

/// Whatever was to be loaded, the update succeeds exactly if it was; else the result is the one
/// error that says so.
pub proof fn law_loading_decides(
    dict_dir: String,
    user_dict: String,
    loaded: bool,
    next: UserDictUpdate,
)
    requires
        (UserDictUpdate::Load { dict_dir, user_dict }).step(UserDictReply::Loaded(loaded), next),
    ensures
        next is Unlock,
        loaded ==> (next matches UserDictUpdate::Unlock { result: Ok(_) }),
        !loaded ==> next == (UserDictUpdate::Unlock {
            result: Err(
                ErrorRepr::UseUserDict(
                    UseUserDictError::Message("辞書のコンパイルに失敗しました"),
                ),
            ),
        }),
{
}

/// Whatever the result, the unlocking is followed by the removal of the second file, of the first
/// file and by the end, and none of it changes the result.
pub proof fn law_giving_up_keeps_the_result(
    result: Result<(), ErrorRepr>,
    first: UserDictUpdate,
    second: UserDictUpdate,
    third: UserDictUpdate,
)
    requires
        (UserDictUpdate::Unlock { result }).step(UserDictReply::Done, first),
        first.step(UserDictReply::Done, second),
        second.step(UserDictReply::Done, third),
    ensures
        first == (UserDictUpdate::RemoveDict { result }),
        second == (UserDictUpdate::RemoveCsv { result }),
        third == (UserDictUpdate::Finished { result }),
{
}

/// From any words to the end: where the files do not fail, an update makes these eleven calls
/// with these arguments, and succeeds exactly if the dictionary was loaded.
pub proof fn law_update_takes_the_words_into_use(
    dict_dir: String,
    words: String,
    user_dict: String,
    csv: String,
    loaded: bool,
    runs: Seq<UserDictUpdate>,
    replies: Seq<UserDictReply>,
)
    requires
        runs.len() == 12,
        replies.len() == 11,
        runs[0] == (UserDictUpdate::CreateCsv { dict_dir, words }),
        forall|i: int| 0 <= i < 11 ==> (#[trigger] runs[i]).step(replies[i], runs[i + 1]),
        replies[0] matches UserDictReply::Io(Ok(_)),
        replies[1] matches UserDictReply::Io(Ok(_)),
        replies[2] matches UserDictReply::Io(Ok(_)),
        replies[3] == UserDictReply::Path(user_dict),
        replies[4] == UserDictReply::Path(csv),
        replies[5] is Done,
        replies[6] is Done,
        replies[7] == UserDictReply::Loaded(loaded),
        replies[8] is Done,
        replies[9] is Done,
        replies[10] is Done,
    ensures
        runs[1] == (UserDictUpdate::WriteCsv { dict_dir, words }),
        runs[2] == (UserDictUpdate::CreateDict { dict_dir }),
        runs[3] == (UserDictUpdate::DictPath { dict_dir }),
        runs[4] == (UserDictUpdate::CsvPath { dict_dir, user_dict }),
        runs[5] == (UserDictUpdate::Compile { dict_dir, user_dict, csv }),
        runs[6] == (UserDictUpdate::Lock { dict_dir, user_dict }),
        runs[7] == (UserDictUpdate::Load { dict_dir, user_dict }),
        runs[8] is Unlock,
        runs[9] is RemoveDict,
        runs[10] is RemoveCsv,
        runs[11] matches UserDictUpdate::Finished { result } && (result is Ok <==> loaded),
{
    assert(runs[0].step(replies[0], runs[1]));
    law_words_go_to_the_csv(dict_dir, words, replies[0]->Io_0, runs[1]);
    assert(runs[1].step(replies[1], runs[2]));
    law_writing_decides(dict_dir, words, replies[1]->Io_0, runs[2]);
    assert(runs[2].step(replies[2], runs[3]));
    law_second_file_decides(dict_dir, replies[2]->Io_0, runs[3]);
    assert(runs[3].step(replies[3], runs[4]));
    assert(runs[4].step(replies[4], runs[5]));
    assert(runs[5].step(replies[5], runs[6]));
    assert(runs[6].step(replies[6], runs[7]));
    law_what_was_compiled_is_loaded(
        dict_dir,
        user_dict,
        csv,
        runs[4],
        runs[5],
        runs[6],
        runs[7],
    );
    assert(runs[7].step(replies[7], runs[8]));
    law_loading_decides(dict_dir, user_dict, loaded, runs[8]);
    assert(runs[8].step(replies[8], runs[9]));
    assert(runs[9].step(replies[9], runs[10]));
    assert(runs[10].step(replies[10], runs[11]));
    if let UserDictUpdate::Unlock { result } = runs[8] {
        law_giving_up_keeps_the_result(result, runs[9], runs[10], runs[11]);
    }
}

/// In every history of an update on `words`, for an analyser whose system dictionary is in
/// `dict_dir`, every call that takes the words or the directory holds them whole, each in its
/// place, and every call that takes a path holds the one that was told for that file.
pub proof fn law_update_calls_hold_their_arguments(
    dict_dir: Seq<char>,
    words: Seq<char>,
    runs: Seq<UserDictUpdate>,
    replies: Seq<UserDictReply>,
    i: int,
)
    requires
        update_history(dict_dir, words, runs, replies),
        0 <= i < runs.len(),
    ensures
        match runs[i] {
            UserDictUpdate::CreateCsv { dict_dir: d, words: w } => i == 0 && d@ == dict_dir && w@
                == words,
            UserDictUpdate::WriteCsv { dict_dir: d, words: w } => i == 1 && d@ == dict_dir && w@
                == words,
            UserDictUpdate::CreateDict { dict_dir: d } => i == 2 && d@ == dict_dir,
            UserDictUpdate::DictPath { dict_dir: d } => i == 3 && d@ == dict_dir,
            UserDictUpdate::CsvPath { dict_dir: d, user_dict } => i == 4 && d@ == dict_dir
                && replies[3] == UserDictReply::Path(user_dict),
            UserDictUpdate::Compile { dict_dir: d, user_dict, csv } => i == 5 && d@ == dict_dir
                && replies[3] == UserDictReply::Path(user_dict) && replies[4]
                == UserDictReply::Path(csv),
            UserDictUpdate::Lock { dict_dir: d, user_dict } => i == 6 && d@ == dict_dir
                && replies[3] == UserDictReply::Path(user_dict),
            UserDictUpdate::Load { dict_dir: d, user_dict } => i == 7 && d@ == dict_dir
                && replies[3] == UserDictReply::Path(user_dict),
            _ => true,
        },
{
    law_update_order(dict_dir, words, runs, replies);
}

/// An opening that has just begun asks for the resources, and holds the whole directory.
pub proof fn law_opening_begins_with_the_resources<R>(run: Opening<R>, dict_dir: Seq<char>)
    ensures
        run.begins(dict_dir) <==> (run matches Opening::Initialize { dict_dir: d } && d@
            == dict_dir),
{
}

/// Whatever the directory, the dictionary in it is loaded into the resources that were
/// initialized; and a reply to another call changes nothing.
pub proof fn law_initialized_resources_get_the_dictionary<R>(
    dict_dir: String,
    resources: R,
    loaded: bool,
    next: Opening<R>,
    other_next: Opening<R>,
)
    requires
        (Opening::Initialize { dict_dir }).step(OpeningReply::Initialized(resources), next),
        (Opening::<R>::Initialize { dict_dir }).step(OpeningReply::Loaded(loaded), other_next),
    ensures
        next == (Opening::Load { resources, dict_dir }),
        other_next == (Opening::<R>::Initialize { dict_dir }),
{
}

/// Whatever the directory and the resources, an analyser comes of an opening exactly if the
/// dictionary was loaded; it has these resources, and every update that it begins asks, in the
/// field of its first call, for this directory. A reply to another call changes nothing.
pub proof fn law_opened_directory_reaches_the_calls<R>(
    resources: R,
    dict_dir: String,
    loaded: bool,
    next: Opening<R>,
    more: R,
    other_next: Opening<R>,
    update: UserDictUpdate,
    words: Seq<char>,
)
    requires
        (Opening::Load { resources, dict_dir }).step(OpeningReply::Loaded(loaded), next),
        (Opening::Load { resources, dict_dir }).step(OpeningReply::Initialized(more), other_next),
        next matches Opening::Finished { result: Ok(engine) } ==> update.begins(
            engine.dict_dir(),
            words,
        ),
    ensures
        loaded ==> {
            &&& next matches Opening::Finished { result: Ok(engine) }
            &&& engine.resources() == resources
            &&& engine.dict_dir() == dict_dir@
            &&& update matches UserDictUpdate::CreateCsv { dict_dir: d, words: w }
            &&& d@ == dict_dir@
            &&& w@ == words
        },
        !loaded ==> next == (Opening::<R>::Finished {
            result: Err(ErrorRepr::NotLoadedOpenjtalkDict),
        }),
        other_next == (Opening::Load { resources, dict_dir }),
{
}

/// An opening that is finished stays as it is.
pub proof fn law_opening_ends<R>(run: Opening<R>, reply: OpeningReply<R>, next: Opening<R>)
    requires
        run is Finished,
        run.step(reply, next),
    ensures
        next == run,
{
}

/// An extraction holds the lock for every call but the locking itself, and an update for the
/// loading and the unlocking; an update has the file of the words from their writing to its
/// removal, and that of the dictionary from the first question for a path to its removal.
pub proof fn law_holdings_follow_the_calls<E>(extraction: Extraction<E>, update: UserDictUpdate)
    ensures
        extraction.has_lock() <==> !(extraction is Lock || extraction is Finished),
        update.has_lock() <==> update is Load || update is Unlock,
        update.has_csv() <==> !(update is CreateCsv || update is Finished),
        update.has_dict() <==> !(update is CreateCsv || update is WriteCsv || update is CreateDict
            || update is RemoveCsv || update is Finished),
{
}

} // verus!
