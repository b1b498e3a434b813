//! What holds of the dictionaries in force while runs share the resources of an analyser.
//!
//! Which dictionaries are in force is read off the condition of the resources by a function
//! `dictionaries`, of which nothing is known.

use crate::error::{ErrorRepr, OpenjtalkFunctionError};
use crate::extraction::{Extraction, ExtractionReply};
use crate::laws::{law_update_order, law_update_result, same_text, update_history};
use crate::sharing::{
    extraction_alone, law_shared_extraction_depends_on_text_and_dictionaries, lemma_exclusive,
    shared_history, Native, Scene, Task, TaskReply,
};
use crate::user_dict::{UserDictReply, UserDictUpdate};
use vstd::prelude::*;

verus! {

impl<E> Task<E> {
    /// The call is the loading of a user dictionary.
    pub open spec fn is_loading(self) -> bool {
        self matches Task::Updating { run, .. } && run is Load
    }

    /// The run is an update that has just begun on `words`, for an analyser whose system
    /// dictionary is in `dict_dir`.
    pub open spec fn begins_update(self, dict_dir: Seq<char>, words: Seq<char>) -> bool {
        self matches Task::Updating { words: w, run } && w == words && run.begins(dict_dir, words)
    }
}

impl<S, E> Native<S, E> {
    /// What a successful loading puts in force is settled by the directory of the system
    /// dictionary and the words of the user dictionary, whatever was in force before.
    pub open spec fn replaces<D>(self, dictionaries: spec_fn(S) -> D) -> bool {
        forall|
            before: S,
            words: Seq<char>,
            call: UserDictUpdate,
            after: S,
            other_before: S,
            other: UserDictUpdate,
            other_after: S,
        |
            #[trigger] self.loads(before, words, call, UserDictReply::Loaded(true), after)
                && #[trigger] self.loads(
                other_before,
                words,
                other,
                UserDictReply::Loaded(true),
                other_after,
            ) && call is Load && other is Load && same_text(call.dict_dir(), other.dict_dir())
                ==> dictionaries(after) == dictionaries(other_after)
    }
}

/// From the scene `t` to the scene `u`, no user dictionary is loaded.
pub open spec fn no_loading<S, E>(
    scenes: Seq<Scene<S, E>>,
    who: Seq<int>,
    t: int,
    u: int,
) -> bool {
    forall|i: int| t <= i < u ==> !scenes[i].tasks[#[trigger] who[i]].is_loading()
}

/// At the turn `t`, the run at `k` loads its user dictionary, and succeeds.
pub open spec fn loads_at<S, E>(
    scenes: Seq<Scene<S, E>>,
    who: Seq<int>,
    replies: Seq<TaskReply<E>>,
    k: int,
    t: int,
) -> bool {
    &&& 0 <= t < replies.len()
    &&& who[t] == k
    &&& scenes[t].tasks[k].is_loading()
    &&& replies[t] == TaskReply::<E>::Updating(UserDictReply::Loaded(true))
}

/// An update that has the resources to itself: they start in the condition `start` and are in
/// those of `conditions` from call to call.
pub open spec fn update_alone<S, E>(
    native: Native<S, E>,
    dict_dir: Seq<char>,
    words: Seq<char>,
    start: S,
    runs: Seq<UserDictUpdate>,
    replies: Seq<UserDictReply>,
    conditions: Seq<S>,
) -> bool {
    &&& update_history(dict_dir, words, runs, replies)
    &&& conditions.len() == runs.len()
    &&& conditions[0] == start
    &&& forall|i: int|
        0 <= i < replies.len() ==> native.effect(
            conditions[i],
            Task::Updating { words, run: runs[i] },
            TaskReply::Updating(#[trigger] replies[i]),
            conditions[i + 1],
        )
}

/// On resources that keep their dictionaries while text is analysed, the dictionaries in force
/// stay until a user dictionary is loaded, however the turns of extractions and updates fall.
pub proof fn law_dictionaries_stay<S, D, E>(
    native: Native<S, E>,
    dictionaries: spec_fn(S) -> D,
    scenes: Seq<Scene<S, E>>,
    who: Seq<int>,
    replies: Seq<TaskReply<E>>,
    t: int,
    u: int,
)
    requires
        native.keeps(dictionaries),
        shared_history(native, scenes, who, replies),
        0 <= t <= u < scenes.len(),
        no_loading(scenes, who, t, u),
    ensures
        dictionaries(scenes[u].condition) == dictionaries(scenes[t].condition),
    decreases u - t,
{
    if t < u {
        law_dictionaries_stay(native, dictionaries, scenes, who, replies, t, u - 1);
        assert(!scenes[u - 1].tasks[who[u - 1]].is_loading());
        assert(scenes[u - 1].turn(native, who[u - 1], replies[u - 1], scenes[u - 1 + 1]));
    }
}

/// After `t` turns, the run of an update that began on `words` still has them, and the directory
/// it began with.
proof fn lemma_update_holds<S, E>(
    native: Native<S, E>,
    scenes: Seq<Scene<S, E>>,
    who: Seq<int>,
    replies: Seq<TaskReply<E>>,
    k: int,
    dict_dir: Seq<char>,
    words: Seq<char>,
    t: int,
)
    requires
        shared_history(native, scenes, who, replies),
        0 <= k < scenes[0].tasks.len(),
        scenes[0].tasks[k].begins_update(dict_dir, words),
        0 <= t < scenes.len(),
    ensures
        scenes[t].tasks[k] matches Task::Updating { words: w, run } && w == words && (
        run.dict_dir() matches Some(d) ==> d@ == dict_dir),
    decreases t,
{
    if t > 0 {
        lemma_update_holds(native, scenes, who, replies, k, dict_dir, words, t - 1);
        lemma_exclusive(native, scenes, who, replies, t - 1);
        assert(scenes[t - 1].turn(native, who[t - 1], replies[t - 1], scenes[t - 1 + 1]));
        if who[t - 1] != k {
            assert(scenes[t].tasks[k] == scenes[t - 1].tasks[k]);
        }
    }
}

/// An update that has succeeded, in the scene `v`, has loaded its user dictionary at a turn before.
pub proof fn law_successful_update_has_loaded<S, E>(
    native: Native<S, E>,
    scenes: Seq<Scene<S, E>>,
    who: Seq<int>,
    replies: Seq<TaskReply<E>>,
    k: int,
    dict_dir: Seq<char>,
    words: Seq<char>,
    v: int,
)
    requires
        shared_history(native, scenes, who, replies),
        0 <= k < scenes[0].tasks.len(),
        scenes[0].tasks[k].begins_update(dict_dir, words),
        0 <= v < scenes.len(),
        scenes[v].tasks[k] matches Task::Updating {
            run: UserDictUpdate::Finished { result: Ok(_) },
            ..
        },
    ensures
        exists|t: int| 0 <= t < v && #[trigger] loads_at(scenes, who, replies, k, t),
{
    let t = lemma_has_loaded(native, scenes, who, replies, k, dict_dir, words, v);
    assert(loads_at(scenes, who, replies, k, t));
}

/// The result of an update, once it is settled.
spec fn settled_result(run: UserDictUpdate) -> Option<Result<(), ErrorRepr>> {
    match run {
        UserDictUpdate::Unlock { result } => Some(result),
        UserDictUpdate::RemoveDict { result } => Some(result),
        UserDictUpdate::RemoveCsv { result } => Some(result),
        UserDictUpdate::Finished { result } => Some(result),
        _ => None,
    }
}

/// An update whose result is settled to success has loaded its user dictionary.
proof fn lemma_has_loaded<S, E>(
    native: Native<S, E>,
    scenes: Seq<Scene<S, E>>,
    who: Seq<int>,
    replies: Seq<TaskReply<E>>,
    k: int,
    dict_dir: Seq<char>,
    words: Seq<char>,
    v: int,
) -> (t: int)
    requires
        shared_history(native, scenes, who, replies),
        0 <= k < scenes[0].tasks.len(),
        scenes[0].tasks[k].begins_update(dict_dir, words),
        0 <= v < scenes.len(),
        settled_result(scenes[v].tasks[k]->run) matches Some(Ok(_)),
    ensures
        0 <= t < v,
        loads_at(scenes, who, replies, k, t),
    decreases v,
{
    lemma_update_holds(native, scenes, who, replies, k, dict_dir, words, v);
    let before = scenes[v - 1];
    lemma_update_holds(native, scenes, who, replies, k, dict_dir, words, v - 1);
    lemma_exclusive(native, scenes, who, replies, v - 1);
    assert(before.turn(native, who[v - 1], replies[v - 1], scenes[v - 1 + 1]));
    if who[v - 1] == k && before.tasks[k].is_loading() {
        v - 1
    } else {
        if who[v - 1] != k {
            assert(scenes[v].tasks[k] == before.tasks[k]);
        }
        lemma_has_loaded(native, scenes, who, replies, k, dict_dir, words, v - 1)
    }
}

/// A later user dictionary replaces an earlier one: however the turns of extractions and updates
/// fall, and whatever was loaded before, the dictionaries in force from a successful loading of
/// `words` to the next loading are those that a successful update on `words` leaves alone. This
/// holds on resources that keep their dictionaries while text is analysed and replace them when
/// they load.
pub proof fn law_later_user_dictionary_replaces<S, D, E>(
    native: Native<S, E>,
    dictionaries: spec_fn(S) -> D,
    scenes: Seq<Scene<S, E>>,
    who: Seq<int>,
    replies: Seq<TaskReply<E>>,
    k: int,
    dict_dir: Seq<char>,
    words: Seq<char>,
    t: int,
    u: int,
    start: S,
    alone: Seq<UserDictUpdate>,
    alone_replies: Seq<UserDictReply>,
    conditions: Seq<S>,
)
    requires
        native.keeps(dictionaries),
        native.replaces(dictionaries),
        shared_history(native, scenes, who, replies),
        0 <= k < scenes[0].tasks.len(),
        scenes[0].tasks[k].begins_update(dict_dir, words),
        loads_at(scenes, who, replies, k, t),
        t < u < scenes.len(),
        no_loading(scenes, who, t + 1, u),
        update_alone(native, dict_dir, words, start, alone, alone_replies, conditions),
        alone.last() matches UserDictUpdate::Finished { result: Ok(_) },
    ensures
        dictionaries(scenes[u].condition) == dictionaries(conditions.last()),
{
    law_dictionaries_stay(native, dictionaries, scenes, who, replies, t + 1, u);
    lemma_update_holds(native, scenes, who, replies, k, dict_dir, words, t);
    assert(scenes[t].turn(native, who[t], replies[t], scenes[t + 1]));
    lemma_loaded_alone(native, dict_dir, words, start, alone, alone_replies, conditions);
}

/// A successful update that has the resources to itself leaves them as its loading did.
proof fn lemma_loaded_alone<S, E>(
    native: Native<S, E>,
    dict_dir: Seq<char>,
    words: Seq<char>,
    start: S,
    runs: Seq<UserDictUpdate>,
    replies: Seq<UserDictReply>,
    conditions: Seq<S>,
)
    requires
        update_alone(native, dict_dir, words, start, runs, replies, conditions),
        runs.last() matches UserDictUpdate::Finished { result: Ok(_) },
    ensures
        replies.len() == 11,
        native.loads(
            conditions[7],
            words,
            runs[7],
            UserDictReply::Loaded(true),
            conditions.last(),
        ),
        runs[7] matches UserDictUpdate::Load { dict_dir: d, .. } && d@ == dict_dir,
{
    law_update_result(dict_dir, words, runs, replies);
    law_update_order(dict_dir, words, runs, replies);
    assert(runs[7].answered_by(replies[7]));
    assert(native.effect(
        conditions[7],
        Task::Updating { words, run: runs[7] },
        TaskReply::Updating(replies[7]),
        conditions[8],
    ));
    assert forall|i: int| 8 <= i <= 10 implies conditions[i + 1] == #[trigger] conditions[i] by {
        assert(runs[7].position() < runs[i].position());
        assert(native.effect(
            conditions[i],
            Task::Updating { words, run: runs[i] },
            TaskReply::Updating(replies[i]),
            conditions[i + 1],
        ));
    }
    assert(conditions[9] == conditions[8] && conditions[10] == conditions[9] && conditions[11]
        == conditions[10]);
}

/// Taking the words that are in force into use again changes nothing of what is in force.
pub proof fn law_same_words_again_change_nothing<S, D, E>(
    native: Native<S, E>,
    dictionaries: spec_fn(S) -> D,
    scenes: Seq<Scene<S, E>>,
    who: Seq<int>,
    replies: Seq<TaskReply<E>>,
    j: int,
    k: int,
    dict_dir: Seq<char>,
    words: Seq<char>,
    t: int,
    u: int,
)
    requires
        native.keeps(dictionaries),
        native.replaces(dictionaries),
        shared_history(native, scenes, who, replies),
        0 <= j < scenes[0].tasks.len(),
        0 <= k < scenes[0].tasks.len(),
        scenes[0].tasks[j].begins_update(dict_dir, words),
        scenes[0].tasks[k].begins_update(dict_dir, words),
        loads_at(scenes, who, replies, j, t),
        loads_at(scenes, who, replies, k, u),
        t < u,
        no_loading(scenes, who, t + 1, u),
    ensures
        dictionaries(scenes[u + 1].condition) == dictionaries(scenes[u].condition),
{
    law_dictionaries_stay(native, dictionaries, scenes, who, replies, t + 1, u);
    lemma_update_holds(native, scenes, who, replies, j, dict_dir, words, t);
    lemma_update_holds(native, scenes, who, replies, k, dict_dir, words, u);
    assert(scenes[t].turn(native, who[t], replies[t], scenes[t + 1]));
    assert(scenes[u].turn(native, who[u], replies[u], scenes[u + 1]));
}

/// The words of the last successful loading are the ones that text is analysed with, until the
/// next loading: an extraction that locks the resources in between, at the turn `a`, gets the
/// result that its text gets on fresh resources on which an update on these words alone has put
/// its dictionaries in force. Words that were changed since the update was begun, and not taken
/// into use by another one, have no part in it.
pub proof fn law_words_stay_in_force<S, D, E>(
    native: Native<S, E>,
    dictionaries: spec_fn(S) -> D,
    scenes: Seq<Scene<S, E>>,
    who: Seq<int>,
    replies: Seq<TaskReply<E>>,
    j: int,
    dict_dir: Seq<char>,
    words: Seq<char>,
    t: int,
    start: S,
    alone: Seq<UserDictUpdate>,
    alone_replies: Seq<UserDictReply>,
    conditions: Seq<S>,
    k: int,
    text: Seq<char>,
    a: int,
    b: int,
    result: Result<Vec<String>, OpenjtalkFunctionError<E>>,
    fresh: S,
    fresh_runs: Seq<Extraction<E>>,
    fresh_replies: Seq<ExtractionReply<E>>,
    fresh_conditions: Seq<S>,
)
    requires
        native.is_settled(),
        native.keeps(dictionaries),
        native.forgets(dictionaries),
        native.replaces(dictionaries),
        shared_history(native, scenes, who, replies),
        0 <= j < scenes[0].tasks.len(),
        scenes[0].tasks[j].begins_update(dict_dir, words),
        loads_at(scenes, who, replies, j, t),
        t < a < b < scenes.len(),
        no_loading(scenes, who, t + 1, a),
        update_alone(native, dict_dir, words, start, alone, alone_replies, conditions),
        alone.last() matches UserDictUpdate::Finished { result: Ok(_) },
        0 <= k < scenes[0].tasks.len(),
        scenes[0].tasks[k] matches Task::Extracting(run) && run.begins(text),
        who[a] == k,
        scenes[a].tasks[k].locks(),
        scenes[b].tasks[k] == Task::Extracting(Extraction::Finished { result }),
        dictionaries(fresh) == dictionaries(conditions.last()),
        extraction_alone(native, text, fresh, fresh_runs, fresh_replies, fresh_conditions),
        fresh_runs.last() is Finished,
    ensures
        fresh_runs.last() == (Extraction::Finished { result }),
{
    law_later_user_dictionary_replaces(
        native,
        dictionaries,
        scenes,
        who,
        replies,
        j,
        dict_dir,
        words,
        t,
        a,
        start,
        alone,
        alone_replies,
        conditions,
    );
    law_shared_extraction_depends_on_text_and_dictionaries(
        native,
        dictionaries,
        scenes,
        who,
        replies,
        k,
        text,
        a,
        b,
        result,
        fresh,
        fresh_runs,
        fresh_replies,
        fresh_conditions,
    );
}

} // verus!
