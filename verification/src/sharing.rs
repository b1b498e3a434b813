//! What holds of runs that share the resources of one analyser and its clones.
//!
//! The resources are seen from outside: they are in some condition, of a type `S` that nothing is
//! known of, and a call made on them gets a reply and leaves them in another condition.

use crate::error::OpenjtalkFunctionError;
use crate::extraction::{Extraction, ExtractionReply};
use crate::laws::{
    extraction_history, law_extraction_order, law_extraction_refreshes_first,
    law_extraction_result, same_call,
};
use crate::user_dict::{UserDictReply, UserDictUpdate};
use vstd::prelude::*;

verus! {

/// How the resources may answer: a call in a condition, with a reply that it may get and the
/// condition that it then leaves. To the loading of a user dictionary belong the words that the
/// dictionary was compiled from.
#[verifier::reject_recursive_types(S)]
#[verifier::reject_recursive_types(E)]
pub struct Native<S, E> {
    pub extracting: spec_fn(S, Extraction<E>, ExtractionReply<E>, S) -> bool,
    pub loading: spec_fn(S, Seq<char>, UserDictUpdate, UserDictReply, S) -> bool,
}

/// A run of either kind, an update with the words that it began on.
pub enum Task<E> {
    Extracting(Extraction<E>),
    Updating { words: Seq<char>, run: UserDictUpdate },
}

/// A reply to a run of either kind.
pub enum TaskReply<E> {
    Extracting(ExtractionReply<E>),
    Updating(UserDictReply),
}

impl<E> Task<E> {
    /// The run holds the lock when its call is made.
    pub open spec fn has_lock(self) -> bool {
        match self {
            Task::Extracting(run) => run.has_lock(),
            Task::Updating { run, .. } => run.has_lock(),
        }
    }

    /// The call is the locking of the resources.
    pub open spec fn locks(self) -> bool {
        match self {
            Task::Extracting(run) => run is Lock,
            Task::Updating { run, .. } => run is Lock,
        }
    }

    /// The call is made on the resources.
    pub open spec fn uses_resources(self) -> bool {
        match self {
            Task::Extracting(run) => run.has_lock() && !(run is Unlock),
            Task::Updating { run, .. } => run is Load,
        }
    }

    /// `reply` answers the call, and `next` follows.
    pub open spec fn takes(self, reply: TaskReply<E>, next: Self) -> bool {
        match (self, reply, next) {
            (Task::Extracting(run), TaskReply::Extracting(reply), Task::Extracting(next)) => {
                run.answered_by(reply) && run.step(reply, next)
            },
            (
                Task::Updating { words, run },
                TaskReply::Updating(reply),
                Task::Updating { words: next_words, run: next },
            ) => next_words == words && run.answered_by(reply) && run.step(reply, next),
            _ => false,
        }
    }

    /// The run has just begun.
    pub open spec fn is_new(self) -> bool {
        match self {
            Task::Extracting(run) => run is Lock,
            Task::Updating { words, run } => run matches UserDictUpdate::CreateCsv { words: w, .. } && w@
                == words,
        }
    }
}

impl<S, E> Native<S, E> {
    /// An extraction's `call`, made in the condition `before`, may get `reply` and leave `after`.
    pub open spec fn answers(
        self,
        before: S,
        call: Extraction<E>,
        reply: ExtractionReply<E>,
        after: S,
    ) -> bool {
        (self.extracting)(before, call, reply, after)
    }

    /// An update's `call` to load the dictionary that was compiled from `words`, made in the
    /// condition `before`, may get `reply` and leave `after`.
    pub open spec fn loads(
        self,
        before: S,
        words: Seq<char>,
        call: UserDictUpdate,
        reply: UserDictReply,
        after: S,
    ) -> bool {
        (self.loading)(before, words, call, reply, after)
    }

    /// What the call of `task` does to the resources. One that is not made on them leaves them
    /// as they are.
    pub open spec fn effect(self, before: S, task: Task<E>, reply: TaskReply<E>, after: S) -> bool {
        if !task.uses_resources() {
            after == before
        } else {
            match (task, reply) {
                (Task::Extracting(call), TaskReply::Extracting(reply)) => self.answers(
                    before,
                    call,
                    reply,
                    after,
                ),
                (Task::Updating { words, run }, TaskReply::Updating(reply)) => self.loads(
                    before,
                    words,
                    run,
                    reply,
                    after,
                ),
                _ => false,
            }
        }
    }
}

/// Runs side by side, and the condition of the resources that they share.
pub struct Scene<S, E> {
    pub tasks: Seq<Task<E>>,
    pub condition: S,
}

impl<S, E> Scene<S, E> {
    /// No run holds the lock.
    pub open spec fn is_free(self) -> bool {
        forall|k: int| 0 <= k < self.tasks.len() ==> !(#[trigger] self.tasks[k]).has_lock()
    }

    /// No two runs hold the lock.
    pub open spec fn is_exclusive(self) -> bool {
        forall|j: int, k: int|
            0 <= j < self.tasks.len() && 0 <= k < self.tasks.len() && (
            #[trigger] self.tasks[j]).has_lock() && (#[trigger] self.tasks[k]).has_lock() ==> j == k
    }

    /// `next` follows once the call of the run at `who` was answered by `reply`. A lock is given
    /// only while it is free.
    pub open spec fn turn(
        self,
        native: Native<S, E>,
        who: int,
        reply: TaskReply<E>,
        next: Self,
    ) -> bool {
        &&& 0 <= who < self.tasks.len()
        &&& self.tasks[who].takes(reply, next.tasks[who])
        &&& next.tasks == self.tasks.update(who, next.tasks[who])
        &&& self.tasks[who].locks() ==> self.is_free()
        &&& native.effect(self.condition, self.tasks[who], reply, next.condition)
    }
}

/// `scenes` follow each other from new runs on, by turns that the runs at `who` take in any order.
pub open spec fn shared_history<S, E>(
    native: Native<S, E>,
    scenes: Seq<Scene<S, E>>,
    who: Seq<int>,
    replies: Seq<TaskReply<E>>,
) -> bool {
    &&& scenes.len() == replies.len() + 1
    &&& who.len() == replies.len()
    &&& forall|k: int| 0 <= k < scenes[0].tasks.len() ==> (#[trigger] scenes[0].tasks[k]).is_new()
    &&& forall|t: int|
        0 <= t < replies.len() ==> scenes[t].turn(
            native,
            who[t],
            #[trigger] replies[t],
            scenes[t + 1],
        )
}

/// An extraction and an update that do not both hold the lock still do not both hold it after one
/// of them went on, if that one locks only while the other does not hold it; and while the
/// extraction holds it, the update does not load.
pub proof fn law_extraction_excludes_update<E>(
    extraction: Extraction<E>,
    reply: ExtractionReply<E>,
    next: Extraction<E>,
    update: UserDictUpdate,
    update_reply: UserDictReply,
    update_next: UserDictUpdate,
)
    requires
        !(extraction.has_lock() && update.has_lock()),
        extraction.answered_by(reply),
        extraction.step(reply, next),
        update.answered_by(update_reply),
        update.step(update_reply, update_next),
    ensures
        (extraction is Lock ==> !update.has_lock()) ==> !(next.has_lock() && update.has_lock()),
        (update is Lock ==> !extraction.has_lock()) ==> !(extraction.has_lock()
            && update_next.has_lock()),
        extraction.has_lock() ==> !(update is Load),
{
}

/// Two extractions that do not both hold the lock still do not both hold it after one of them
/// went on, if that one locks only while the other does not hold it; and while the other holds
/// it, that one makes no call on the resources.
pub proof fn law_extraction_excludes_extraction<E>(
    extraction: Extraction<E>,
    reply: ExtractionReply<E>,
    next: Extraction<E>,
    other: Extraction<E>,
)
    requires
        !(extraction.has_lock() && other.has_lock()),
        extraction.answered_by(reply),
        extraction.step(reply, next),
    ensures
        (extraction is Lock ==> !other.has_lock()) ==> !(next.has_lock() && other.has_lock()),
        other.has_lock() ==> !Task::Extracting(extraction).uses_resources(),
{
}

/// Two updates that do not both hold the lock still do not both hold it after one of them went
/// on, if that one locks only while the other does not hold it; and while the other holds it,
/// that one does not load.
pub proof fn law_update_excludes_update(
    update: UserDictUpdate,
    reply: UserDictReply,
    next: UserDictUpdate,
    other: UserDictUpdate,
)
    requires
        !(update.has_lock() && other.has_lock()),
        update.answered_by(reply),
        update.step(reply, next),
    ensures
        (update is Lock ==> !other.has_lock()) ==> !(next.has_lock() && other.has_lock()),
        other.has_lock() ==> !(update is Load),
{
}

/// However the turns of any number of extractions and updates fall, no two of them ever hold the
/// lock, every call on the resources is made by the run that holds it, and no other run's turn
/// changes the condition they are in.
pub proof fn law_shared_resources_have_one_user<S, E>(
    native: Native<S, E>,
    scenes: Seq<Scene<S, E>>,
    who: Seq<int>,
    replies: Seq<TaskReply<E>>,
)
    requires
        shared_history(native, scenes, who, replies),
    ensures
        forall|t: int| 0 <= t < scenes.len() ==> (#[trigger] scenes[t]).is_exclusive(),
        forall|t: int|
            0 <= t < replies.len() && scenes[t].tasks[#[trigger] who[t]].uses_resources()
                ==> scenes[t].tasks[who[t]].has_lock(),
        forall|t: int, k: int|
            0 <= t < replies.len() && 0 <= k < scenes[t].tasks.len() && k != #[trigger] who[t] && (
            #[trigger] scenes[t].tasks[k]).has_lock() ==> {
                &&& !scenes[t].tasks[who[t]].uses_resources()
                &&& scenes[t + 1].condition == scenes[t].condition
            },
{
    assert forall|t: int| 0 <= t < scenes.len() implies (#[trigger] scenes[t]).is_exclusive() by {
        lemma_exclusive(native, scenes, who, replies, t);
    }
    assert forall|t: int, k: int|
        0 <= t < replies.len() && 0 <= k < scenes[t].tasks.len() && k != #[trigger] who[t] && (
        #[trigger] scenes[t].tasks[k]).has_lock() implies {
        &&& !scenes[t].tasks[who[t]].uses_resources()
        &&& scenes[t + 1].condition == scenes[t].condition
    } by {
        assert(scenes[t].turn(native, who[t], replies[t], scenes[t + 1]));
        assert(scenes[t].is_exclusive());
        assert(!scenes[t].tasks[who[t]].has_lock());
    }
}

/// After `t` turns no two runs hold the lock.
pub(crate) proof fn lemma_exclusive<S, E>(
    native: Native<S, E>,
    scenes: Seq<Scene<S, E>>,
    who: Seq<int>,
    replies: Seq<TaskReply<E>>,
    t: int,
)
    requires
        shared_history(native, scenes, who, replies),
        0 <= t < scenes.len(),
    ensures
        scenes[t].is_exclusive(),
        scenes[t].tasks.len() == scenes[0].tasks.len(),
    decreases t,
{
    if t > 0 {
        lemma_exclusive(native, scenes, who, replies, t - 1);
        let before = scenes[t - 1];
        let w = who[t - 1];
        assert(before.turn(native, w, replies[t - 1], scenes[t - 1 + 1]));
        assert forall|j: int, k: int|
            0 <= j < scenes[t].tasks.len() && 0 <= k < scenes[t].tasks.len() && (
            #[trigger] scenes[t].tasks[j]).has_lock() && (
            #[trigger] scenes[t].tasks[k]).has_lock() implies j == k by {
            assert(j != w ==> scenes[t].tasks[j] == before.tasks[j]);
            assert(k != w ==> scenes[t].tasks[k] == before.tasks[k]);
            assert(before.tasks[w].has_lock() || before.tasks[w].locks() || !scenes[t].tasks[w].has_lock());
        }
    }
}

/// An extraction on `text` that has the resources to itself: they start in the condition `start`
/// and are in those of `conditions` from call to call.
pub open spec fn extraction_alone<S, E>(
    native: Native<S, E>,
    text: Seq<char>,
    start: S,
    runs: Seq<Extraction<E>>,
    replies: Seq<ExtractionReply<E>>,
    conditions: Seq<S>,
) -> bool {
    &&& extraction_history(text, runs, replies)
    &&& conditions.len() == runs.len()
    &&& conditions[0] == start
    &&& forall|i: int|
        0 <= i < replies.len() ==> native.effect(
            conditions[i],
            Task::Extracting(runs[i]),
            TaskReply::Extracting(#[trigger] replies[i]),
            conditions[i + 1],
        )
}

/// However the turns of any number of extractions and updates fall, an extraction gets the result
/// that it may get alone, with the resources in the condition in which it locked them. So an
/// update's loading counts for it wholly or not at all, and nothing of another text gets in.
pub proof fn law_shared_extraction_is_as_if_alone<S, E>(
    native: Native<S, E>,
    scenes: Seq<Scene<S, E>>,
    who: Seq<int>,
    replies: Seq<TaskReply<E>>,
    k: int,
    text: Seq<char>,
    t: int,
    result: Result<Vec<String>, OpenjtalkFunctionError<E>>,
)
    requires
        shared_history(native, scenes, who, replies),
        0 <= k < scenes[0].tasks.len(),
        scenes[0].tasks[k] matches Task::Extracting(run) && run.begins(text),
        0 <= t < scenes.len(),
        scenes[t].tasks[k] == Task::Extracting(Extraction::Finished { result }),
    ensures
        exists|
            a: int,
            runs: Seq<Extraction<E>>,
            alone_replies: Seq<ExtractionReply<E>>,
            conditions: Seq<S>,
        |
            {
                &&& 0 <= a < t
                &&& who[a] == k && scenes[a].tasks[k].locks()
                &&& #[trigger] extraction_alone(
                    native,
                    text,
                    scenes[a].condition,
                    runs,
                    alone_replies,
                    conditions,
                )
                &&& runs.last() == (Extraction::Finished { result })
            },
{
    let (a, runs, alone_replies, conditions) = lemma_alone(
        native,
        scenes,
        who,
        replies,
        k,
        text,
        t,
    );
    assert(extraction_alone(
        native,
        text,
        scenes[a].condition,
        runs,
        alone_replies,
        conditions,
    ));
}

/// An extraction that has locked the resources has come, after `t` turns of all, where it may
/// have come alone.
proof fn lemma_alone<S, E>(
    native: Native<S, E>,
    scenes: Seq<Scene<S, E>>,
    who: Seq<int>,
    replies: Seq<TaskReply<E>>,
    k: int,
    text: Seq<char>,
    t: int,
) -> (alone: (int, Seq<Extraction<E>>, Seq<ExtractionReply<E>>, Seq<S>))
    requires
        shared_history(native, scenes, who, replies),
        0 <= k < scenes[0].tasks.len(),
        scenes[0].tasks[k] matches Task::Extracting(run) && run.begins(text),
        0 <= t < scenes.len(),
    ensures
        scenes[t].tasks.len() == scenes[0].tasks.len(),
        scenes[t].tasks[k] matches Task::Extracting(run) && if run is Lock {
            run.begins(text)
        } else {
            &&& 0 <= alone.0 < t
            &&& who[alone.0] == k && scenes[alone.0].tasks[k].locks()
            &&& extraction_alone(
                native,
                text,
                scenes[alone.0].condition,
                alone.1,
                alone.2,
                alone.3,
            )
            &&& alone.1.last() == run
            &&& run.has_lock() ==> alone.3.last() == scenes[t].condition
        },
    decreases t,
{
    if t == 0 {
        (0, Seq::empty(), Seq::empty(), Seq::empty())
    } else {
        let (a, runs, alone_replies, conditions) = lemma_alone(
            native,
            scenes,
            who,
            replies,
            k,
            text,
            t - 1,
        );
        let before = scenes[t - 1];
        let after = scenes[t];
        assert(before.turn(native, who[t - 1], replies[t - 1], scenes[t - 1 + 1]));
        lemma_exclusive(native, scenes, who, replies, t - 1);
        if who[t - 1] != k {
            assert(after.tasks[k] == before.tasks[k]);
            assert(before.tasks[k].has_lock() ==> !before.tasks[who[t - 1]].has_lock());
            (a, runs, alone_replies, conditions)
        } else {
            let run = before.tasks[k]->Extracting_0;
            let reply = replies[t - 1]->Extracting_0;
            let next = after.tasks[k]->Extracting_0;
            if run is Lock {
                let now = (
                    t - 1,
                    seq![run, next],
                    seq![reply],
                    seq![before.condition, after.condition],
                );
                assert(extraction_alone(native, text, before.condition, now.1, now.2, now.3));
                now
            } else {
                let now = (
                    a,
                    runs.push(next),
                    alone_replies.push(reply),
                    conditions.push(after.condition),
                );
                assert forall|i: int| 0 <= i < now.2.len() implies now.1[i].answered_by(
                    #[trigger] now.2[i],
                ) && now.1[i].step(now.2[i], now.1[i + 1]) && native.effect(
                    now.3[i],
                    Task::Extracting(now.1[i]),
                    TaskReply::Extracting(now.2[i]),
                    now.3[i + 1],
                ) by {
                    if i < alone_replies.len() {
                        assert(now.2[i] == alone_replies[i]);
                    } else {
                        assert(run.has_lock());
                    }
                }
                assert(extraction_alone(
                    native,
                    text,
                    scenes[a].condition,
                    now.1,
                    now.2,
                    now.3,
                ));
                now
            }
        }
    }
}

impl<S, E> Native<S, E> {
    /// The reply to a call, and the condition after it, are settled by the call and the condition
    /// before it.
    pub open spec fn is_settled(self) -> bool {
        forall|
            before: S,
            call: Extraction<E>,
            reply: ExtractionReply<E>,
            after: S,
            other: Extraction<E>,
            other_reply: ExtractionReply<E>,
            other_after: S,
        |
            #[trigger] self.answers(before, call, reply, after) && #[trigger] self.answers(
                before,
                other,
                other_reply,
                other_after,
            ) && same_call(call, other) ==> reply == other_reply && after == other_after
    }

    /// No call of an extraction changes the dictionaries that are loaded.
    pub open spec fn keeps<D>(self, dictionaries: spec_fn(S) -> D) -> bool {
        forall|before: S, call: Extraction<E>, reply: ExtractionReply<E>, after: S| #[trigger]
            self.answers(before, call, reply, after) ==> dictionaries(after) == dictionaries(before)
    }

    /// The three refreshes lead through `conditions`.
    pub open spec fn refreshes(
        self,
        conditions: Seq<S>,
        calls: Seq<Extraction<E>>,
        replies: Seq<ExtractionReply<E>>,
    ) -> bool {
        &&& calls[0] is RefreshJpcommon && self.answers(
            conditions[0],
            calls[0],
            replies[0],
            conditions[1],
        )
        &&& calls[1] is RefreshNjd && self.answers(
            conditions[1],
            calls[1],
            replies[1],
            conditions[2],
        )
        &&& calls[2] is RefreshMecab && self.answers(
            conditions[2],
            calls[2],
            replies[2],
            conditions[3],
        )
    }

    /// The three refreshes leave nothing but the dictionaries that are loaded.
    pub open spec fn forgets<D>(self, dictionaries: spec_fn(S) -> D) -> bool {
        forall|
            conditions: Seq<S>,
            calls: Seq<Extraction<E>>,
            replies: Seq<ExtractionReply<E>>,
            others: Seq<S>,
            other_calls: Seq<Extraction<E>>,
            other_replies: Seq<ExtractionReply<E>>,
        |
            #[trigger] self.refreshes(conditions, calls, replies) && #[trigger] self.refreshes(
                others,
                other_calls,
                other_replies,
            ) && dictionaries(conditions[0]) == dictionaries(others[0]) ==> conditions[3]
                == others[3]
    }
}

/// On resources whose answers are settled, that keep their dictionaries while text is analysed
/// and that keep nothing else over the three refreshes, the result of an extraction depends on
/// its text and the dictionaries alone: after any calls of earlier extractions, in `past`, it is
/// the one that fresh resources with the same dictionaries give.
pub proof fn law_extraction_forgets_the_past<S, D, E>(
    native: Native<S, E>,
    dictionaries: spec_fn(S) -> D,
    past: Seq<S>,
    past_calls: Seq<Extraction<E>>,
    past_replies: Seq<ExtractionReply<E>>,
    fresh: S,
    text: Seq<char>,
    runs: Seq<Extraction<E>>,
    replies: Seq<ExtractionReply<E>>,
    conditions: Seq<S>,
    fresh_runs: Seq<Extraction<E>>,
    fresh_replies: Seq<ExtractionReply<E>>,
    fresh_conditions: Seq<S>,
)
    requires
        native.is_settled(),
        native.keeps(dictionaries),
        native.forgets(dictionaries),
        past.len() == past_calls.len() + 1,
        past_replies.len() == past_calls.len(),
        forall|i: int|
            0 <= i < past_calls.len() ==> native.answers(
                past[i],
                #[trigger] past_calls[i],
                past_replies[i],
                past[i + 1],
            ),
        dictionaries(past[0]) == dictionaries(fresh),
        extraction_alone(native, text, past.last(), runs, replies, conditions),
        extraction_alone(native, text, fresh, fresh_runs, fresh_replies, fresh_conditions),
        runs.last() is Finished,
        fresh_runs.last() is Finished,
    ensures
        runs.last() == fresh_runs.last(),
{
    lemma_past_keeps(native, dictionaries, past, past_calls, past_replies, past_calls.len() as int);
    lemma_refreshed(native, text, past.last(), runs, replies, conditions);
    lemma_refreshed(native, text, fresh, fresh_runs, fresh_replies, fresh_conditions);
    assert(native.refreshes(conditions.skip(1), runs.skip(1), replies.skip(1)));
    assert(native.refreshes(fresh_conditions.skip(1), fresh_runs.skip(1), fresh_replies.skip(1)));
    assert(conditions[4] == conditions.skip(1)[3]);
    assert(fresh_conditions[4] == fresh_conditions.skip(1)[3]);
    let n = if replies.len() < fresh_replies.len() {
        replies.len() as int
    } else {
        fresh_replies.len() as int
    };
    lemma_in_step(
        native,
        text,
        past.last(),
        runs,
        replies,
        conditions,
        fresh,
        fresh_runs,
        fresh_replies,
        fresh_conditions,
        n,
    );
    if n < replies.len() {
        assert(runs[n].answered_by(replies[n]));
    }
    if n < fresh_replies.len() {
        assert(fresh_runs[n].answered_by(fresh_replies[n]));
    }
}

/// The dictionaries are the same after `n` calls of earlier extractions.
proof fn lemma_past_keeps<S, D, E>(
    native: Native<S, E>,
    dictionaries: spec_fn(S) -> D,
    past: Seq<S>,
    calls: Seq<Extraction<E>>,
    replies: Seq<ExtractionReply<E>>,
    n: int,
)
    requires
        native.keeps(dictionaries),
        past.len() == calls.len() + 1,
        forall|i: int|
            0 <= i < calls.len() ==> native.answers(
                past[i],
                #[trigger] calls[i],
                replies[i],
                past[i + 1],
            ),
        0 <= n <= calls.len(),
    ensures
        dictionaries(past[n]) == dictionaries(past[0]),
    decreases n,
{
    if n > 0 {
        lemma_past_keeps(native, dictionaries, past, calls, replies, n - 1);
        assert(native.answers(past[n - 1], calls[n - 1], replies[n - 1], past[n - 1 + 1]));
    }
}

/// A finished extraction has made the three refreshes and then asked for the conversion.
proof fn lemma_refreshed<S, E>(
    native: Native<S, E>,
    text: Seq<char>,
    start: S,
    runs: Seq<Extraction<E>>,
    replies: Seq<ExtractionReply<E>>,
    conditions: Seq<S>,
)
    requires
        extraction_alone(native, text, start, runs, replies, conditions),
        runs.last() is Finished,
    ensures
        replies.len() > 4,
        native.refreshes(conditions.skip(1), runs.skip(1), replies.skip(1)),
        conditions[1] == start,
        runs[4] matches Extraction::Text2mecab { text: t } && t@ == text,
{
    law_extraction_order(text, runs, replies);
    law_extraction_refreshes_first(text, runs, replies);
    law_extraction_result(text, runs, replies);
    assert(runs[replies.len() - 1] is Unlock);
    assert(runs[0] is Lock);
    assert forall|i: int| 0 <= i <= 3 implies runs[i].answered_by(#[trigger] replies[i])
        && runs[i].step(replies[i], runs[i + 1]) && native.effect(
        conditions[i],
        Task::Extracting(runs[i]),
        TaskReply::Extracting(replies[i]),
        conditions[i + 1],
    ) by {}
    assert(replies[0] is Done && replies[1] is Done && replies[2] is Done && replies[3] is Done);
}

/// Two finished extractions of the same text whose resources agreed after the refreshes still
/// agree after `n` replies.
proof fn lemma_in_step<S, E>(
    native: Native<S, E>,
    text: Seq<char>,
    start: S,
    runs: Seq<Extraction<E>>,
    replies: Seq<ExtractionReply<E>>,
    conditions: Seq<S>,
    other_start: S,
    others: Seq<Extraction<E>>,
    other_replies: Seq<ExtractionReply<E>>,
    other_conditions: Seq<S>,
    n: int,
)
    requires
        native.is_settled(),
        extraction_alone(native, text, start, runs, replies, conditions),
        extraction_alone(native, text, other_start, others, other_replies, other_conditions),
        4 <= n <= replies.len(),
        n <= other_replies.len(),
        same_call(runs[4], others[4]),
        conditions[4] == other_conditions[4],
    ensures
        same_call(runs[n], others[n]),
        conditions[n] == other_conditions[n],
    decreases n,
{
    if n > 4 {
        lemma_in_step(
            native,
            text,
            start,
            runs,
            replies,
            conditions,
            other_start,
            others,
            other_replies,
            other_conditions,
            n - 1,
        );
        let reply = replies[n - 1];
        let other_reply = other_replies[n - 1];
        assert(runs[n - 1].answered_by(reply));
        assert(runs[n - 1].step(reply, runs[n - 1 + 1]));
        assert(others[n - 1].answered_by(other_reply));
        assert(others[n - 1].step(other_reply, others[n - 1 + 1]));
        assert(native.effect(
            conditions[n - 1],
            Task::Extracting(runs[n - 1]),
            TaskReply::Extracting(replies[n - 1]),
            conditions[n - 1 + 1],
        ));
        assert(native.effect(
            other_conditions[n - 1],
            Task::Extracting(others[n - 1]),
            TaskReply::Extracting(other_replies[n - 1]),
            other_conditions[n - 1 + 1],
        ));
        assert(reply == other_reply);
    }
}

/// The position in its own order that the run at `k` has reached never falls.
proof fn lemma_never_back<S, E>(
    native: Native<S, E>,
    scenes: Seq<Scene<S, E>>,
    who: Seq<int>,
    replies: Seq<TaskReply<E>>,
    k: int,
    t: int,
    u: int,
)
    requires
        shared_history(native, scenes, who, replies),
        0 <= t <= u < scenes.len(),
        0 <= k < scenes[0].tasks.len(),
        scenes[t].tasks[k] is Extracting,
    ensures
        scenes[u].tasks[k] is Extracting,
        scenes[t].tasks[k]->Extracting_0.position() <= scenes[u].tasks[k]->Extracting_0.position(),
    decreases u - t,
{
    if t < u {
        lemma_never_back(native, scenes, who, replies, k, t, u - 1);
        lemma_exclusive(native, scenes, who, replies, u - 1);
        assert(scenes[u - 1].turn(native, who[u - 1], replies[u - 1], scenes[u - 1 + 1]));
        if who[u - 1] != k {
            assert(scenes[u].tasks[k] == scenes[u - 1].tasks[k]);
        }
    }
}

/// However the turns of any number of extractions and updates fall, on resources of the kind that
/// [`law_extraction_forgets_the_past`] speaks of, an extraction gets the result that its text gets
/// on fresh resources with the dictionaries that were loaded when it locked them, at the turn `a`:
/// those from before an update's loading, or those from after it.
pub proof fn law_shared_extraction_depends_on_text_and_dictionaries<S, D, E>(
    native: Native<S, E>,
    dictionaries: spec_fn(S) -> D,
    scenes: Seq<Scene<S, E>>,
    who: Seq<int>,
    replies: Seq<TaskReply<E>>,
    k: int,
    text: Seq<char>,
    a: int,
    t: int,
    result: Result<Vec<String>, OpenjtalkFunctionError<E>>,
    fresh: S,
    fresh_runs: Seq<Extraction<E>>,
    fresh_replies: Seq<ExtractionReply<E>>,
    fresh_conditions: Seq<S>,
)
    requires
        native.is_settled(),
        native.keeps(dictionaries),
        native.forgets(dictionaries),
        shared_history(native, scenes, who, replies),
        0 <= k < scenes[0].tasks.len(),
        scenes[0].tasks[k] matches Task::Extracting(run) && run.begins(text),
        0 <= a < t < scenes.len(),
        who[a] == k,
        scenes[a].tasks[k].locks(),
        scenes[t].tasks[k] == Task::Extracting(Extraction::Finished { result }),
        dictionaries(fresh) == dictionaries(scenes[a].condition),
        extraction_alone(native, text, fresh, fresh_runs, fresh_replies, fresh_conditions),
        fresh_runs.last() is Finished,
    ensures
        fresh_runs.last() == (Extraction::Finished { result }),
{
    let (b, runs, alone_replies, conditions) = lemma_alone(
        native,
        scenes,
        who,
        replies,
        k,
        text,
        t,
    );
    lemma_never_back(native, scenes, who, replies, k, 0, a);
    lemma_never_back(native, scenes, who, replies, k, 0, b);
    assert(scenes[a].turn(native, k, replies[a], scenes[a + 1]));
    assert(scenes[b].turn(native, k, replies[b], scenes[b + 1]));
    if a < b {
        lemma_never_back(native, scenes, who, replies, k, a + 1, b);
    }
    if b < a {
        lemma_never_back(native, scenes, who, replies, k, b + 1, a);
    }
    assert(a == b);
    law_extraction_forgets_the_past(
        native,
        dictionaries,
        seq![scenes[a].condition],
        Seq::empty(),
        Seq::empty(),
        fresh,
        text,
        runs,
        alone_replies,
        conditions,
        fresh_runs,
        fresh_replies,
        fresh_conditions,
    );
}

} // verus!
