//! What holds of whole runs, from the first call to the last.

use crate::blocking::{Opening, OpeningReply};
use crate::error::{ErrorRepr, OpenjtalkFunctionError, UseUserDictError};
use crate::extraction::{failure, Extraction, ExtractionReply};
use crate::user_dict::{verdict, UserDictReply, UserDictUpdate};
use vstd::prelude::*;

verus! {

/// `runs` are the runs of an extraction on `text` in their order, each but the last answered by
/// the reply at its index.
pub open spec fn extraction_history<E>(
    text: Seq<char>,
    runs: Seq<Extraction<E>>,
    replies: Seq<ExtractionReply<E>>,
) -> bool {
    &&& runs.len() == replies.len() + 1
    &&& runs[0].begins(text)
    &&& forall|i: int|
        0 <= i < replies.len() ==> runs[i].answered_by(#[trigger] replies[i]) && runs[i].step(
            replies[i],
            runs[i + 1],
        )
}

/// The `k`th reply brought an extraction to `result`, by a failure or by the labels, and no reply
/// before it told of a failure.
pub open spec fn concluded<E>(
    replies: Seq<ExtractionReply<E>>,
    k: int,
    result: Result<Vec<String>, OpenjtalkFunctionError<E>>,
) -> bool {
    &&& 0 <= k < replies.len()
    &&& match result {
        Ok(labels) => k == 17 && replies[k] == ExtractionReply::<E>::Labels(Some(labels)),
        Err(error) => failure(replies[k]) == Some(error),
    }
    &&& forall|j: int| 0 <= j < k ==> failure(#[trigger] replies[j]) is None
}

/// Where an extraction stands after `n` replies.
proof fn lemma_extraction_order<E>(
    text: Seq<char>,
    runs: Seq<Extraction<E>>,
    replies: Seq<ExtractionReply<E>>,
    n: int,
)
    requires
        extraction_history(text, runs, replies),
        0 <= n <= replies.len(),
    ensures
        match runs[n] {
            Extraction::Unlock { result } => concluded(replies, n - 1, result),
            Extraction::Finished { result } => {
                &&& concluded(replies, n - 2, result)
                &&& replies[n - 1] is Done
                &&& runs[n - 1] == (Extraction::<E>::Unlock { result })
            },
            _ => {
                &&& runs[n].position() == n
                &&& n <= 4 ==> (runs[n].text() matches Some(t) && t@ == text)
                &&& runs[n] matches Extraction::Analysis { mecab_text } ==> replies[4]
                    == ExtractionReply::<E>::Converted(Ok(mecab_text))
                &&& runs[n] matches Extraction::Mecab2njd { size } ==> replies[7]
                    == ExtractionReply::<E>::Size(size)
                &&& forall|j: int| 0 <= j < n ==> failure(#[trigger] replies[j]) is None
            },
        },
    decreases n,
{
    if n > 0 {
        lemma_extraction_order(text, runs, replies, n - 1);
        assert(runs[n - 1].answered_by(replies[n - 1]));
        assert(runs[n - 1].step(replies[n - 1], runs[n - 1 + 1]));
    }
}

/// An extraction never goes back in the order of its calls.
proof fn lemma_extraction_advances<E>(
    text: Seq<char>,
    runs: Seq<Extraction<E>>,
    replies: Seq<ExtractionReply<E>>,
    i: int,
    j: int,
)
    requires
        extraction_history(text, runs, replies),
        0 <= i < j < runs.len(),
    ensures
        runs[i].position() < runs[j].position(),
    decreases j - i,
{
    assert(runs[j - 1].answered_by(replies[j - 1]));
    assert(runs[j - 1].step(replies[j - 1], runs[j - 1 + 1]));
    if i < j - 1 {
        lemma_extraction_advances(text, runs, replies, i, j - 1);
    }
}

/// An extraction makes its calls in one order, each at most once: the locking, the three
/// refreshes, the conversion of the text it began with, the analysis of what the conversion
/// gave, the look at the feature and its size, the handing over of the feature with that size,
/// the six settings, the handing over to JPCommon, the making of the labels, the look at them
/// and the unlocking. Only the unlocking may come sooner than that. So an extraction is over
/// after nineteen replies at the latest.
pub proof fn law_extraction_order<E>(
    text: Seq<char>,
    runs: Seq<Extraction<E>>,
    replies: Seq<ExtractionReply<E>>,
)
    requires
        extraction_history(text, runs, replies),
    ensures
        replies.len() <= 19,
        forall|i: int, j: int|
            0 <= i < j < runs.len() ==> (#[trigger] runs[i]).position() < (
            #[trigger] runs[j]).position(),
        forall|i: int|
            0 <= i < runs.len() && !((#[trigger] runs[i]) is Unlock || runs[i] is Finished) ==> {
                &&& runs[i].position() == i
                &&& i <= 4 ==> (runs[i].text() matches Some(t) && t@ == text)
                &&& runs[i] matches Extraction::Analysis { mecab_text } ==> replies[4]
                    == ExtractionReply::<E>::Converted(Ok(mecab_text))
                &&& runs[i] matches Extraction::Mecab2njd { size } ==> replies[7]
                    == ExtractionReply::<E>::Size(size)
            },
{
    assert forall|i: int, j: int| 0 <= i < j < runs.len() implies (#[trigger] runs[i]).position() < (
    #[trigger] runs[j]).position() by {
        lemma_extraction_advances(text, runs, replies, i, j);
    }
    assert forall|i: int|
        0 <= i < runs.len() && !((#[trigger] runs[i]) is Unlock || runs[i] is Finished) implies {
        &&& runs[i].position() == i
        &&& i <= 4 ==> (runs[i].text() matches Some(t) && t@ == text)
        &&& runs[i] matches Extraction::Analysis { mecab_text } ==> replies[4]
            == ExtractionReply::<E>::Converted(Ok(mecab_text))
        &&& runs[i] matches Extraction::Mecab2njd { size } ==> replies[7]
            == ExtractionReply::<E>::Size(size)
    } by {
        lemma_extraction_order(text, runs, replies, i);
    }
    let n = replies.len() as int;
    lemma_extraction_order(text, runs, replies, n);
    if n >= 2 {
        lemma_extraction_order(text, runs, replies, n - 2);
        assert(runs[n - 2].answered_by(replies[n - 2]));
    }
    if n >= 1 {
        lemma_extraction_order(text, runs, replies, n - 1);
        assert(runs[n - 1].answered_by(replies[n - 1]));
    }
}

/// An extraction locks the resources before anything else, and then refreshes all three before
/// it does anything with them, so nothing that an earlier extraction left there is in its way,
/// however that one ended.
pub proof fn law_extraction_refreshes_first<E>(
    text: Seq<char>,
    runs: Seq<Extraction<E>>,
    replies: Seq<ExtractionReply<E>>,
)
    requires
        extraction_history(text, runs, replies),
    ensures
        forall|i: int|
            0 <= i < runs.len() ==> {
                &&& (#[trigger] runs[i]) is Lock <==> i == 0
                &&& runs[i] is RefreshJpcommon <==> i == 1
                &&& runs[i] is RefreshNjd <==> i == 2
                &&& runs[i] is RefreshMecab <==> i == 3
            },
{
    assert forall|i: int| 0 <= i < runs.len() implies {
        &&& (#[trigger] runs[i]) is Lock <==> i == 0
        &&& runs[i] is RefreshJpcommon <==> i == 1
        &&& runs[i] is RefreshNjd <==> i == 2
        &&& runs[i] is RefreshMecab <==> i == 3
    } by {
        lemma_extraction_order(text, runs, replies, i);
        if i > 0 {
            lemma_extraction_order(text, runs, replies, i - 1);
            assert(runs[i - 1].answered_by(replies[i - 1]));
            assert(runs[i - 1].step(replies[i - 1], runs[i - 1 + 1]));
        }
        if i > 1 {
            lemma_extraction_order(text, runs, replies, i - 2);
            assert(runs[i - 2].answered_by(replies[i - 2]));
        }
    }
}

/// An extraction is finished exactly when a reply told of a failure, or the labels came, and the
/// resources were unlocked. In the first case its result is that failure; in the second it is the
/// labels, unchanged. No other reply told of a failure.
pub proof fn law_extraction_result<E>(
    text: Seq<char>,
    runs: Seq<Extraction<E>>,
    replies: Seq<ExtractionReply<E>>,
)
    requires
        extraction_history(text, runs, replies),
    ensures
        runs.last() is Finished <==> replies.len() >= 2 && (failure(replies[replies.len() - 2]) is Some
            || replies.len() == 19),
        runs.last() matches Extraction::Finished { result } ==> {
            &&& runs[replies.len() - 1] is Unlock
            &&& match result {
                Ok(labels) => replies.len() == 19 && replies[17] == ExtractionReply::<E>::Labels(
                    Some(labels),
                ),
                Err(error) => failure(replies[replies.len() - 2]) == Some(error),
            }
            &&& forall|i: int|
                0 <= i < replies.len() && i != replies.len() - 2 ==> failure(
                    #[trigger] replies[i],
                ) is None
        },
{
    let n = replies.len() as int;
    lemma_extraction_order(text, runs, replies, n);
    law_extraction_order(text, runs, replies);
    if n >= 2 {
        lemma_extraction_order(text, runs, replies, n - 2);
        lemma_extraction_order(text, runs, replies, n - 1);
        assert(runs[n - 2].answered_by(replies[n - 2]));
        assert(runs[n - 2].step(replies[n - 2], runs[n - 2 + 1]));
        assert(runs[n - 1].answered_by(replies[n - 1]));
        assert(runs[n - 1].step(replies[n - 1], runs[n - 1 + 1]));
    }
}

/// Which function an extraction's error names tells at which call it failed, and only the failure
/// of the conversion has a reason.
pub proof fn law_extraction_error<E>(
    text: Seq<char>,
    runs: Seq<Extraction<E>>,
    replies: Seq<ExtractionReply<E>>,
    error: OpenjtalkFunctionError<E>,
)
    requires
        extraction_history(text, runs, replies),
        runs.last() == (Extraction::Finished { result: Err(error) }),
    ensures
        match replies[replies.len() - 2] {
            ExtractionReply::Converted(Err(source)) => replies.len() == 6 && error.function
                == "text2mecab" && error.source == Some(source),
            ExtractionReply::Analyzed(false) => replies.len() == 7 && error.function
                == "Mecab_analysis" && error.source is None,
            ExtractionReply::Feature(false) => replies.len() == 8 && error.function
                == "Mecab_get_feature" && error.source is None,
            ExtractionReply::Labels(None) => replies.len() == 19 && error.function
                == "JPCommon_get_label_feature" && error.source is None,
            _ => false,
        },
{
    let n = replies.len() as int;
    law_extraction_result(text, runs, replies);
    lemma_extraction_order(text, runs, replies, n - 2);
    assert(runs[n - 2].answered_by(replies[n - 2]));
}

/// Two extractions of the same text that get the same replies make the same calls and come to
/// the same result.
pub proof fn law_extraction_repeats<E>(
    text: Seq<char>,
    first: Seq<Extraction<E>>,
    second: Seq<Extraction<E>>,
    replies: Seq<ExtractionReply<E>>,
)
    requires
        extraction_history(text, first, replies),
        extraction_history(text, second, replies),
    ensures
        first.len() == second.len(),
        forall|i: int| 0 <= i < first.len() ==> same_call(#[trigger] first[i], second[i]),
{
    assert forall|i: int| 0 <= i < first.len() implies same_call(
        #[trigger] first[i],
        second[i],
    ) by {
        lemma_extraction_repeats(text, first, second, replies, i);
    }
}

/// Two runs ask for the same call, and, where they are finished, hold the same result.
pub open spec fn same_call<E>(run: Extraction<E>, other: Extraction<E>) -> bool {
    match (run.text(), other.text()) {
        (Some(text), Some(other_text)) => text@ == other_text@ && run.position()
            == other.position(),
        _ => run == other,
    }
}

/// Two extractions of the same text ask for the same call after the same `n` replies.
proof fn lemma_extraction_repeats<E>(
    text: Seq<char>,
    first: Seq<Extraction<E>>,
    second: Seq<Extraction<E>>,
    replies: Seq<ExtractionReply<E>>,
    n: int,
)
    requires
        extraction_history(text, first, replies),
        extraction_history(text, second, replies),
        0 <= n <= replies.len(),
    ensures
        same_call(first[n], second[n]),
    decreases n,
{
    if n > 0 {
        lemma_extraction_repeats(text, first, second, replies, n - 1);
        assert(first[n - 1].answered_by(replies[n - 1]));
        assert(first[n - 1].step(replies[n - 1], first[n - 1 + 1]));
        assert(second[n - 1].answered_by(replies[n - 1]));
        assert(second[n - 1].step(replies[n - 1], second[n - 1 + 1]));
    }
}

/// The books on the lock are kept by every step of an extraction: the resources are locked from
/// the locking to the unlocking, so for every other call, and not when the run is finished.
pub proof fn law_extraction_keeps_books<E>(
    run: Extraction<E>,
    reply: ExtractionReply<E>,
    next: Extraction<E>,
)
    requires
        run.answered_by(reply),
        run.step(reply, next),
    ensures
        next.has_lock() <==> (run is Lock || run.has_lock() && !(run is Unlock)),
        run is Lock || run.has_lock(),
        run is Lock ==> !run.has_lock(),
        next is Finished ==> !next.has_lock(),
{
}

/// The run that follows an extraction's run is settled by the reply; and a finished run is
/// followed by itself alone.
pub proof fn law_extraction_step_is_settled<E>(
    run: Extraction<E>,
    reply: ExtractionReply<E>,
    next: Extraction<E>,
    other: Extraction<E>,
)
    requires
        run.step(reply, next),
        run.step(reply, other),
    ensures
        next == other,
        run is Finished ==> next == run,
{
}

/// `runs` are the runs of an update in their order, each but the last answered by the reply at
/// its index. The analyser's system dictionary is in `dict_dir`, and the update began on `words`.
pub open spec fn update_history(
    dict_dir: Seq<char>,
    words: Seq<char>,
    runs: Seq<UserDictUpdate>,
    replies: Seq<UserDictReply>,
) -> bool {
    &&& runs.len() == replies.len() + 1
    &&& runs[0].begins(dict_dir, words)
    &&& forall|i: int|
        0 <= i < replies.len() ==> runs[i].answered_by(#[trigger] replies[i]) && runs[i].step(
            replies[i],
            runs[i + 1],
        )
}

/// The `k`th reply is the one that settled an update to `result`.
pub open spec fn settled(
    replies: Seq<UserDictReply>,
    k: int,
    result: Result<(), ErrorRepr>,
) -> bool {
    &&& 0 <= k < replies.len()
    &&& verdict(replies[k]) == Some(result)
    &&& forall|j: int| 0 <= j < replies.len() && j != k ==> verdict(#[trigger] replies[j]) is None
}

/// Where an update stands after `n` replies.
proof fn lemma_update_order(
    dict_dir: Seq<char>,
    words: Seq<char>,
    runs: Seq<UserDictUpdate>,
    replies: Seq<UserDictReply>,
    n: int,
)
    requires
        update_history(dict_dir, words, runs, replies),
        0 <= n <= replies.len(),
    ensures
        match runs[n] {
            UserDictUpdate::Unlock { result } => n == 8 && settled(replies.take(n), 7, result),
            UserDictUpdate::RemoveDict { result } => n == 9 && settled(replies.take(n), 7, result),
            UserDictUpdate::RemoveCsv { result } => {
                ||| n == 2 && settled(replies.take(n), 1, result)
                ||| n == 3 && settled(replies.take(n), 2, result)
                ||| n == 10 && settled(replies.take(n), 7, result)
            },
            UserDictUpdate::Finished { result } => {
                ||| n == 1 && settled(replies.take(n), 0, result)
                ||| n == 3 && settled(replies.take(n), 1, result)
                ||| n == 4 && settled(replies.take(n), 2, result)
                ||| n == 11 && settled(replies.take(n), 7, result)
            },
            _ => {
                &&& n == runs[n].position()
                &&& runs[n].dict_dir() matches Some(d) && d@ == dict_dir
                &&& n <= 1 ==> (runs[n].words() matches Some(w) && w@ == words)
                &&& n >= 4 ==> (runs[n].user_dict() matches Some(u) && replies[3]
                    == UserDictReply::Path(u))
                &&& runs[n] matches UserDictUpdate::Compile { csv, .. } ==> replies[4]
                    == UserDictReply::Path(csv)
                &&& forall|j: int| 0 <= j < n ==> verdict(#[trigger] replies[j]) is None
            },
        },
    decreases n,
{
    if n > 0 {
        lemma_update_order(dict_dir, words, runs, replies, n - 1);
        assert(runs[n - 1].answered_by(replies[n - 1]));
        assert(runs[n - 1].step(replies[n - 1], runs[n - 1 + 1]));
        let before = replies.take(n - 1);
        let now = replies.take(n);
        assert(now =~= before.push(replies[n - 1]));
        assert forall|k: int, result: Result<(), ErrorRepr>|
            settled(before, k, result) && verdict(replies[n - 1]) is None implies settled(
            now,
            k,
            result,
        ) by {
            assert(now[k] == before[k]);
            assert forall|j: int| 0 <= j < now.len() && j != k implies verdict(
                #[trigger] now[j],
            ) is None by {
                if j < n - 1 {
                    assert(now[j] == before[j]);
                }
            }
        }
        if verdict(replies[n - 1]) is Some {
            assert forall|j: int| 0 <= j < n - 1 implies verdict(#[trigger] now[j]) is None by {
                assert(now[j] == replies[j]);
            }
            assert(settled(now, n - 1, verdict(replies[n - 1])->0));
        }
    }
}

/// An update makes its calls in one order, each at most once. What it writes are the words it
/// began on; what it compiles against and loads with is the analyser's system dictionary; and
/// the dictionary it loads is the one it had compiled, from the file it wrote. So it is over
/// after eleven replies at the latest.
pub proof fn law_update_order(
    dict_dir: Seq<char>,
    words: Seq<char>,
    runs: Seq<UserDictUpdate>,
    replies: Seq<UserDictReply>,
)
    requires
        update_history(dict_dir, words, runs, replies),
    ensures
        replies.len() <= 11,
        forall|i: int, j: int|
            0 <= i < j < runs.len() ==> (#[trigger] runs[i]).position() < (
            #[trigger] runs[j]).position(),
        forall|i: int| 0 <= i < runs.len() ==> i <= (#[trigger] runs[i]).position(),
        forall|i: int|
            0 <= i < runs.len() && (#[trigger] runs[i]).position() <= 7 ==> {
                &&& runs[i].position() == i
                &&& runs[i].dict_dir() matches Some(d) && d@ == dict_dir
                &&& runs[i].words() matches Some(w) ==> w@ == words
                &&& runs[i].user_dict() matches Some(u) ==> replies[3] == UserDictReply::Path(u)
                &&& runs[i] matches UserDictUpdate::Compile { csv, .. } ==> replies[4]
                    == UserDictReply::Path(csv)
            },
{
    assert forall|i: int, j: int| 0 <= i < j < runs.len() implies (#[trigger] runs[i]).position() < (
    #[trigger] runs[j]).position() by {
        lemma_update_advances(dict_dir, words, runs, replies, i, j);
    }
    assert forall|i: int| 0 <= i < runs.len() implies {
        &&& i <= (#[trigger] runs[i]).position()
        &&& runs[i].position() <= 7 ==> {
            &&& runs[i].position() == i
            &&& runs[i].dict_dir() matches Some(d) && d@ == dict_dir
            &&& runs[i].words() matches Some(w) ==> w@ == words
            &&& runs[i].user_dict() matches Some(u) ==> replies[3] == UserDictReply::Path(u)
            &&& runs[i] matches UserDictUpdate::Compile { csv, .. } ==> replies[4]
                == UserDictReply::Path(csv)
        }
    } by {
        lemma_update_order(dict_dir, words, runs, replies, i);
    }
    lemma_update_order(dict_dir, words, runs, replies, replies.len() as int);
}

/// An update never goes back in the order of its calls.
proof fn lemma_update_advances(
    dict_dir: Seq<char>,
    words: Seq<char>,
    runs: Seq<UserDictUpdate>,
    replies: Seq<UserDictReply>,
    i: int,
    j: int,
)
    requires
        update_history(dict_dir, words, runs, replies),
        0 <= i < j < runs.len(),
    ensures
        runs[i].position() < runs[j].position(),
    decreases j - i,
{
    assert(runs[j - 1].answered_by(replies[j - 1]));
    assert(runs[j - 1].step(replies[j - 1], runs[j - 1 + 1]));
    if i < j - 1 {
        lemma_update_advances(dict_dir, words, runs, replies, i, j - 1);
    }
}

/// An update is finished exactly when a file failed, or the loading was answered, and all that it
/// held was given up. It succeeded exactly if the dictionary was loaded; what the compiler returned
/// has no say in it. Where a file failed, the result is that failure.
pub proof fn law_update_result(
    dict_dir: Seq<char>,
    words: Seq<char>,
    runs: Seq<UserDictUpdate>,
    replies: Seq<UserDictReply>,
)
    requires
        update_history(dict_dir, words, runs, replies),
    ensures
        runs.last() is Finished <==> {
            ||| replies.len() == 1 && verdict(replies[0]) is Some
            ||| replies.len() == 3 && verdict(replies[1]) is Some
            ||| replies.len() == 4 && verdict(replies[2]) is Some
            ||| replies.len() == 11
        },
        runs.last() matches UserDictUpdate::Finished { result } ==> match result {
            Ok(()) => replies.len() == 11 && replies[7] == UserDictReply::Loaded(true),
            Err(ErrorRepr::UseUserDict(UseUserDictError::Message(message))) => replies.len() == 11
                && replies[7] == UserDictReply::Loaded(false) && message
                == "辞書のコンパイルに失敗しました",
            Err(ErrorRepr::UseUserDict(UseUserDictError::Io(error))) => {
                ||| replies.len() == 1 && replies[0] == UserDictReply::Io(Err(error))
                ||| replies.len() == 3 && replies[1] == UserDictReply::Io(Err(error))
                ||| replies.len() == 4 && replies[2] == UserDictReply::Io(Err(error))
            },
            Err(ErrorRepr::NotLoadedOpenjtalkDict) => false,
        },
{
    let n = replies.len() as int;
    lemma_update_order(dict_dir, words, runs, replies, n);
    assert(replies.take(n) == replies);
    if n > 7 {
        lemma_update_order(dict_dir, words, runs, replies, 7);
        assert(runs[7].answered_by(replies[7]));
    }
    if n > 2 {
        lemma_update_order(dict_dir, words, runs, replies, 2);
        assert(runs[2].answered_by(replies[2]));
    }
    if n > 1 {
        lemma_update_order(dict_dir, words, runs, replies, 1);
        assert(runs[1].answered_by(replies[1]));
    }
    if n > 0 {
        assert(runs[0].answered_by(replies[0]));
    }
}

/// A finished update has removed each temporary file that it created, and no other: the one of
/// the dictionary after the loading was answered, and the one of the words last of all.
pub proof fn law_update_leaves_no_file(
    dict_dir: Seq<char>,
    words: Seq<char>,
    runs: Seq<UserDictUpdate>,
    replies: Seq<UserDictReply>,
)
    requires
        update_history(dict_dir, words, runs, replies),
        runs.last() is Finished,
    ensures
        (replies[0] matches UserDictReply::Io(Ok(_))) <==> runs[replies.len() - 1] is RemoveCsv,
        forall|i: int| 0 <= i < runs.len() && (#[trigger] runs[i]) is RemoveCsv ==> i == replies.len()
            - 1,
        (exists|i: int|
            0 <= i < replies.len() && runs[i] is CreateDict && (
            #[trigger] replies[i] matches UserDictReply::Io(Ok(_)))) <==> (exists|i: int|
            0 <= i < runs.len() && (#[trigger] runs[i]) is RemoveDict),
        forall|i: int|
            0 <= i < runs.len() && (#[trigger] runs[i]) is RemoveDict ==> i == 9 && runs[7] is Load
                && runs.len() == 12,
{
    let n = replies.len() as int;
    lemma_update_order(dict_dir, words, runs, replies, n);
    assert(replies.take(n) == replies);
    assert(runs[0].answered_by(replies[0]));
    lemma_update_order(dict_dir, words, runs, replies, n - 1);
    assert(runs[n - 1].answered_by(replies[n - 1]));
    assert(runs[n - 1].step(replies[n - 1], runs[n - 1 + 1]));
    assert forall|i: int| 0 <= i < runs.len() && (#[trigger] runs[i]) is RemoveCsv implies i == n
        - 1 by {
        lemma_update_order(dict_dir, words, runs, replies, i);
        assert(runs[i].answered_by(replies[i]));
        assert(runs[i].step(replies[i], runs[i + 1]));
        if i + 1 < n {
            assert(runs[i + 1].answered_by(replies[i + 1]));
        }
    }
    assert forall|i: int| 0 <= i < runs.len() && (#[trigger] runs[i]) is RemoveDict implies i == 9
        && runs[7] is Load && n == 11 by {
        lemma_update_order(dict_dir, words, runs, replies, i);
        lemma_update_order(dict_dir, words, runs, replies, 7);
        assert(runs[7].answered_by(replies[7]));
        assert(runs[7].step(replies[7], runs[8]));
    }
    if n == 11 {
        lemma_update_order(dict_dir, words, runs, replies, 2);
        lemma_update_order(dict_dir, words, runs, replies, 9);
        assert(runs[2].answered_by(replies[2]));
        assert(runs[2].step(replies[2], runs[3]));
        assert(verdict(replies[2]) is None);
        assert(runs[2] is CreateDict && (replies[2] matches UserDictReply::Io(Ok(_))));
        assert(runs[9] is RemoveDict);
    } else {
        assert forall|i: int| 0 <= i < n && runs[i] is CreateDict implies !(
        #[trigger] replies[i] matches UserDictReply::Io(Ok(_))) by {
            lemma_update_order(dict_dir, words, runs, replies, i);
        }
    }
}

/// The books on the temporary files and the lock are kept by every step of an update: a file is
/// there once its creation succeeded, and until its removal, and the resources are locked from
/// the locking to the unlocking. Both files are there for the compilation and the loading; the
/// resources are locked for the loading, and not while MeCab compiles. When the run is finished,
/// nothing is held.
pub proof fn law_update_keeps_books(run: UserDictUpdate, reply: UserDictReply, next: UserDictUpdate)
    requires
        run.answered_by(reply),
        run.step(reply, next),
    ensures
        next.has_csv() <==> (if run is CreateCsv {
            reply matches UserDictReply::Io(Ok(_))
        } else {
            run.has_csv() && !(run is RemoveCsv)
        }),
        next.has_dict() <==> (if run is CreateDict {
            reply matches UserDictReply::Io(Ok(_))
        } else {
            run.has_dict() && !(run is RemoveDict)
        }),
        next.has_lock() <==> (run is Lock || run.has_lock() && !(run is Unlock)),
        run is Compile || run is Load ==> run.has_csv() && run.has_dict(),
        run is Load ==> run.has_lock(),
        run is Compile ==> !run.has_lock(),
        next is Finished ==> !next.has_csv() && !next.has_dict() && !next.has_lock(),
{
}

/// Two runs of updates ask for the same call, with the same arguments, and hold the same result
/// where it is settled.
pub open spec fn same_update_call(run: UserDictUpdate, other: UserDictUpdate) -> bool {
    &&& run.position() == other.position()
    &&& same_text(run.dict_dir(), other.dict_dir())
    &&& same_text(run.words(), other.words())
    &&& same_text(run.user_dict(), other.user_dict())
    &&& match (run, other) {
        (
            UserDictUpdate::Compile { csv, .. },
            UserDictUpdate::Compile { csv: other_csv, .. },
        ) => csv@ == other_csv@,
        _ => run.position() >= 8 ==> run == other,
    }
}

/// Both are there with the same characters, or neither is there.
pub open spec fn same_text(text: Option<String>, other: Option<String>) -> bool {
    match (text, other) {
        (Some(text), Some(other)) => text@ == other@,
        _ => text is None && other is None,
    }
}

/// Two updates on the same words, for analysers with the same system dictionary, that get the
/// same replies make the same calls and come to the same result.
pub proof fn law_update_repeats(
    dict_dir: Seq<char>,
    words: Seq<char>,
    first: Seq<UserDictUpdate>,
    second: Seq<UserDictUpdate>,
    replies: Seq<UserDictReply>,
)
    requires
        update_history(dict_dir, words, first, replies),
        update_history(dict_dir, words, second, replies),
    ensures
        first.len() == second.len(),
        forall|i: int| 0 <= i < first.len() ==> same_update_call(#[trigger] first[i], second[i]),
        first.last() is Finished ==> first.last() == second.last(),
{
    assert forall|i: int| 0 <= i < first.len() implies same_update_call(
        #[trigger] first[i],
        second[i],
    ) by {
        lemma_update_repeats(dict_dir, words, first, second, replies, i);
    }
}

/// Two updates that began alike ask for the same call after the same `n` replies.
proof fn lemma_update_repeats(
    dict_dir: Seq<char>,
    words: Seq<char>,
    first: Seq<UserDictUpdate>,
    second: Seq<UserDictUpdate>,
    replies: Seq<UserDictReply>,
    n: int,
)
    requires
        update_history(dict_dir, words, first, replies),
        update_history(dict_dir, words, second, replies),
        0 <= n <= replies.len(),
    ensures
        same_update_call(first[n], second[n]),
    decreases n,
{
    if n > 0 {
        lemma_update_repeats(dict_dir, words, first, second, replies, n - 1);
        assert(first[n - 1].answered_by(replies[n - 1]));
        assert(first[n - 1].step(replies[n - 1], first[n - 1 + 1]));
        assert(second[n - 1].answered_by(replies[n - 1]));
        assert(second[n - 1].step(replies[n - 1], second[n - 1 + 1]));
    }
}

/// The run that follows an update's run is settled by the reply; and a finished run is followed
/// by itself alone.
pub proof fn law_update_step_is_settled(
    run: UserDictUpdate,
    reply: UserDictReply,
    next: UserDictUpdate,
    other: UserDictUpdate,
)
    requires
        run.step(reply, next),
        run.step(reply, other),
    ensures
        next == other,
        run is Finished ==> next == run,
{
}

/// An opening is over after two replies. It comes to an analyser exactly if the system
/// dictionary was loaded, and the analyser then holds the resources that were initialized and
/// the directory that the opening began on.
pub proof fn law_opening_result<R>(
    dict_dir: Seq<char>,
    resources: R,
    loaded: bool,
    first: Opening<R>,
    second: Opening<R>,
    third: Opening<R>,
)
    requires
        first.begins(dict_dir),
        first.step(OpeningReply::Initialized(resources), second),
        second.step(OpeningReply::Loaded(loaded), third),
    ensures
        second matches Opening::Load { resources: r, dict_dir: d } && r == resources && d@ == dict_dir,
        third is Finished,
        match third->result {
            Ok(engine) => loaded && engine.dict_dir() == dict_dir && engine.resources() == resources,
            Err(error) => !loaded && error == ErrorRepr::NotLoadedOpenjtalkDict,
        },
{
}

/// Every user dictionary that an analyser takes into use is compiled and loaded with the system
/// dictionary that the analyser was opened on.
pub proof fn law_opened_dictionary_stays<R>(
    opening: Opening<R>,
    opened: Opening<R>,
    words: Seq<char>,
    runs: Seq<UserDictUpdate>,
    replies: Seq<UserDictReply>,
)
    requires
        opening is Load,
        opening.step(OpeningReply::Loaded(true), opened),
        opened matches Opening::Finished { result: Ok(engine) } ==> update_history(
            engine.dict_dir(),
            words,
            runs,
            replies,
        ),
    ensures
        forall|i: int|
            0 <= i < runs.len() && (#[trigger] runs[i]).position() <= 7 ==> (
            runs[i].dict_dir() matches Some(d) && d@ == opening->Load_dict_dir@),
{
    law_update_order(opened->result->Ok_0.dict_dir(), words, runs, replies);
}

} // verus!
