//! Whole runs of the pipeline, and what holds of every one of them.

use crate::cache::{file_name_of, is_safe_key};
use crate::pipeline::{
    fail, fetch, moved_to, start_view, step_view, ActionView, ClientErrorModel, EventModel,
    FailureModel, PipelineView, StateView, RETRY_DELAY_SECS,
};
use crate::projector::summary_of;
use crate::record::{EntryModel, ResponseModel};
use vstd::prelude::*;

verus! {

/// The pipeline after a run of events, with the actions it asked for, one
/// for each event.
pub open spec fn run_view(p: PipelineView, events: Seq<EventModel>) -> (PipelineView, Seq<ActionView>)
    decreases events.len(),
{
    if events.len() == 0 {
        (p, Seq::empty())
    } else {
        let before = run_view(p, events.drop_last());
        let last = step_view(before.0, events.last());
        (last.0, before.1.push(last.1))
    }
}

/// How many of the actions are sleeps.
pub open spec fn sleep_count(actions: Seq<ActionView>) -> nat
    decreases actions.len(),
{
    if actions.len() == 0 {
        0
    } else if actions.last() is Sleep {
        sleep_count(actions.drop_last()) + 1
    } else {
        sleep_count(actions.drop_last())
    }
}

/// What a registry that answers with each of `errors` in turn makes the
/// world report: each failure, then the end of the sleep that follows it.
pub open spec fn throttled(errors: Seq<ClientErrorModel>) -> Seq<EventModel>
    decreases errors.len(),
{
    if errors.len() == 0 {
        Seq::empty()
    } else {
        throttled(errors.drop_last()).push(EventModel::FetchFailed(errors.last())).push(EventModel::Slept)
    }
}

/// Nothing happens without an event.
pub proof fn lemma_run_none(p: PipelineView)
    ensures
        run_view(p, Seq::empty()) == (p, Seq::<ActionView>::empty()),
{
}

/// One more event is one more step.
pub proof fn lemma_run_push(p: PipelineView, events: Seq<EventModel>, event: EventModel)
    ensures
        run_view(p, events.push(event)).0 == step_view(run_view(p, events).0, event).0,
        run_view(p, events.push(event)).1 == run_view(p, events).1.push(
            step_view(run_view(p, events).0, event).1,
        ),
{
    assert(events.push(event).drop_last() == events);
    assert(events.push(event).last() == event);
}

/// One more action is one more sleep if it is a sleep.
pub proof fn lemma_sleeps_push(actions: Seq<ActionView>, action: ActionView)
    ensures
        sleep_count(actions.push(action)) == sleep_count(actions) + if action is Sleep {
            1nat
        } else {
            0nat
        },
{
    assert(actions.push(action).drop_last() == actions);
    assert(actions.push(action).last() == action);
}

/// A run of events can be taken in two parts.
pub proof fn lemma_run_in_parts(p: PipelineView, first: Seq<EventModel>, second: Seq<EventModel>)
    ensures
        run_view(p, first + second).0 == run_view(run_view(p, first).0, second).0,
        run_view(p, first + second).1 == run_view(p, first).1 + run_view(
            run_view(p, first).0,
            second,
        ).1,
    decreases second.len(),
{
    let mid = run_view(p, first);
    if second.len() == 0 {
        assert(first + second == first);
        assert(mid.1 + Seq::<ActionView>::empty() == mid.1);
    } else {
        let shorter = second.drop_last();
        lemma_run_in_parts(p, first, shorter);
        assert((first + second).drop_last() == first + shorter);
        assert((first + second).last() == second.last());
        let rest = run_view(mid.0, shorter);
        let last = step_view(rest.0, second.last());
        assert((mid.1 + rest.1).push(last.1) == mid.1 + rest.1.push(last.1));
    }
}

/// The sleeps in two runs of actions add up.
pub proof fn lemma_sleeps_add(first: Seq<ActionView>, second: Seq<ActionView>)
    ensures
        sleep_count(first + second) == sleep_count(first) + sleep_count(second),
    decreases second.len(),
{
    if second.len() == 0 {
        assert(first + second == first);
    } else {
        lemma_sleeps_add(first, second.drop_last());
        assert((first + second).drop_last() == first + second.drop_last());
        assert((first + second).last() == second.last());
    }
}

/// No event changes the key of a request, or whether it bypasses the cache.
pub proof fn lemma_step_keeps_request(p: PipelineView, event: EventModel)
    ensures
        step_view(p, event).0.key == p.key,
        step_view(p, event).0.bypass == p.bypass,
{
}

/// A rate limit never ends a request: a client error that is handed back
/// to the caller is never one.
pub proof fn lemma_rate_limit_is_never_answered(p: PipelineView, event: EventModel)
    ensures
        step_view(p, event).1 matches ActionView::Finish(Err(FailureModel::Client(error)))
            ==> !error.is_rate_limited(),
{
}

/// The pipeline sleeps only after a rate limit, and always for the same
/// time.
pub proof fn lemma_sleep_is_fixed(p: PipelineView, event: EventModel)
    ensures
        step_view(p, event).1 matches ActionView::Sleep { seconds } ==> {
            &&& seconds == RETRY_DELAY_SECS
            &&& p.state is Fetching
            &&& event matches EventModel::FetchFailed(error) && error.is_rate_limited()
        },
{
}

/// Only a fetch leads to a write, and what is written is what was fetched,
/// under the time of the fetch and the file name of the key.
pub proof fn lemma_only_fetches_are_stored(p: PipelineView, event: EventModel)
    ensures
        step_view(p, event).1 matches ActionView::WriteCache { file_name, entry } ==> {
            &&& p.state is Fetching
            &&& is_safe_key(p.key)
            &&& file_name == file_name_of(p.key)
            &&& event == (EventModel::Fetched {
                response: entry.response,
                fetched_at: entry.fetched_at,
            })
        },
{
}

/// A request that has been answered stays answered: whatever comes after
/// is refused.
pub proof fn lemma_finished_is_final(p: PipelineView, event: EventModel)
    requires
        p.state is Finished,
    ensures
        step_view(p, event) == fail(p, FailureModel::Unexpected),
        step_view(p, event).0 == p,
{
}

/// A request whose key was accepted at its start is never refused for its
/// key later.
pub proof fn lemma_accepted_key_stays_accepted(
    key: Seq<char>,
    bypass: bool,
    events: Seq<EventModel>,
)
    requires
        is_safe_key(key),
    ensures
        run_view(start_view(key, bypass).0, events).0.key == key,
        forall|i: int|
            0 <= i < run_view(start_view(key, bypass).0, events).1.len() ==> (
            #[trigger] run_view(start_view(key, bypass).0, events).1[i]) != ActionView::Finish(
                Err(FailureModel::UnsafeKey),
            ),
    decreases events.len(),
{
    if events.len() > 0 {
        lemma_accepted_key_stays_accepted(key, bypass, events.drop_last());
    }
}

/// A cache hit is answered with the time at which the entry was fetched, and
/// the registry is not asked.
pub proof fn lemma_hit_keeps_fetch_time(p: PipelineView, entry: EntryModel)
    requires
        p.state is CheckingCache,
    ensures
        step_view(p, EventModel::CacheFound(entry)) == (
            moved_to(p, StateView::Finished),
            ActionView::Finish(Ok(summary_of(entry.response, entry.fetched_at))),
        ),
        summary_of(entry.response, entry.fetched_at).fetched_at == entry.fetched_at,
{
}

/// A cache that cannot be read is taken as a cache without an entry: the
/// registry is asked, and the request goes on.
pub proof fn lemma_unreadable_cache_is_a_miss(p: PipelineView, message: Seq<char>)
    requires
        p.state is CheckingCache,
    ensures
        step_view(p, EventModel::CacheUnreadable(message)) == step_view(p, EventModel::CacheAbsent),
        step_view(p, EventModel::CacheAbsent) == fetch(p),
{
}

/// A request that finds nothing in the cache fetches, stores what it
/// fetched and answers; a second request for the same key then finds the
/// stored entry, and answers with the same summary, the time of the fetch
/// included, without going to the registry.
pub proof fn lemma_second_query_repeats_first(
    key: Seq<char>,
    response: ResponseModel,
    fetched_at: Seq<char>,
)
    requires
        is_safe_key(key),
    ensures
        ({
            let begun = start_view(key, false);
            let fetched = EventModel::Fetched { response, fetched_at };
            let first = run_view(begun.0, seq![EventModel::CacheAbsent, fetched, EventModel::Written]);
            let stored = EntryModel { response, fetched_at };
            let second = run_view(begun.0, seq![EventModel::CacheFound(stored)]);
            let summary = summary_of(response, fetched_at);
            &&& begun.1 == ActionView::ReadCache { file_name: file_name_of(key) }
            &&& first.1 == seq![
                ActionView::Fetch { key },
                ActionView::WriteCache { file_name: file_name_of(key), entry: stored },
                ActionView::Finish(Ok(summary)),
            ]
            &&& second.1 == seq![ActionView::Finish(Ok(summary))]
            &&& first.0.state is Finished
            &&& second.0.state is Finished
        }),
{
    let begun = start_view(key, false);
    let fetched = EventModel::Fetched { response, fetched_at };
    let stored = EntryModel { response, fetched_at };
    let none = Seq::<EventModel>::empty();
    lemma_run_none(begun.0);
    lemma_run_push(begun.0, none, EventModel::CacheAbsent);
    lemma_run_push(begun.0, none.push(EventModel::CacheAbsent), fetched);
    lemma_run_push(begun.0, none.push(EventModel::CacheAbsent).push(fetched), EventModel::Written);
    assert(seq![EventModel::CacheAbsent, fetched, EventModel::Written] == none.push(
        EventModel::CacheAbsent,
    ).push(fetched).push(EventModel::Written));
    let first = run_view(begun.0, seq![EventModel::CacheAbsent, fetched, EventModel::Written]);
    assert(first.1 =~= seq![
        ActionView::Fetch { key },
        ActionView::WriteCache { file_name: file_name_of(key), entry: stored },
        ActionView::Finish(Ok(summary_of(response, fetched_at))),
    ]);
    lemma_run_push(begun.0, none, EventModel::CacheFound(stored));
    assert(seq![EventModel::CacheFound(stored)] == none.push(EventModel::CacheFound(stored)));
    let second = run_view(begun.0, seq![EventModel::CacheFound(stored)]);
    assert(second.1 =~= seq![ActionView::Finish(Ok(summary_of(response, fetched_at)))]);
}

/// A request that bypasses the cache never reads it: it goes to the registry
/// at once, stores the response under the time of this fetch, and answers
/// with that time.
pub proof fn lemma_bypass_fetches_afresh(
    key: Seq<char>,
    response: ResponseModel,
    fetched_at: Seq<char>,
)
    requires
        is_safe_key(key),
    ensures
        ({
            let begun = start_view(key, true);
            let fetched = EventModel::Fetched { response, fetched_at };
            let run = run_view(begun.0, seq![fetched, EventModel::Written]);
            &&& begun.1 == ActionView::Fetch { key }
            &&& run.1 == seq![
                ActionView::WriteCache {
                    file_name: file_name_of(key),
                    entry: EntryModel { response, fetched_at },
                },
                ActionView::Finish(Ok(summary_of(response, fetched_at))),
            ]
            &&& summary_of(response, fetched_at).fetched_at == fetched_at
            &&& run.0.state is Finished
        }),
{
    let begun = start_view(key, true);
    let fetched = EventModel::Fetched { response, fetched_at };
    let none = Seq::<EventModel>::empty();
    lemma_run_none(begun.0);
    lemma_run_push(begun.0, none, fetched);
    lemma_run_push(begun.0, none.push(fetched), EventModel::Written);
    assert(seq![fetched, EventModel::Written] == none.push(fetched).push(EventModel::Written));
    let run = run_view(begun.0, seq![fetched, EventModel::Written]);
    assert(run.1 =~= seq![
        ActionView::WriteCache {
            file_name: file_name_of(key),
            entry: EntryModel { response, fetched_at },
        },
        ActionView::Finish(Ok(summary_of(response, fetched_at))),
    ]);
}

/// However often the registry says that it gets too many requests, the
/// pipeline sleeps the fixed time once for each such answer and then asks
/// again: after the run it is waiting for the registry as before, and it
/// has slept exactly as often as it was told to slow down.
pub proof fn lemma_rate_limits_are_waited_out(p: PipelineView, errors: Seq<ClientErrorModel>)
    requires
        p.state is Fetching,
        forall|i: int| 0 <= i < errors.len() ==> (#[trigger] errors[i]).is_rate_limited(),
    ensures
        run_view(p, throttled(errors)).0 == p,
        run_view(p, throttled(errors)).1.len() == 2 * errors.len(),
        sleep_count(run_view(p, throttled(errors)).1) == errors.len(),
        forall|i: int|
            0 <= i < errors.len() ==> {
                &&& (#[trigger] run_view(p, throttled(errors)).1[2 * i]) == ActionView::Sleep {
                    seconds: RETRY_DELAY_SECS,
                }
                &&& run_view(p, throttled(errors)).1[2 * i + 1] == ActionView::Fetch {
                    key: p.key,
                }
            },
    decreases errors.len(),
{
    if errors.len() == 0 {
        lemma_run_none(p);
    } else {
        let shorter = errors.drop_last();
        lemma_rate_limits_are_waited_out(p, shorter);
        let before = throttled(shorter);
        let failed = before.push(EventModel::FetchFailed(errors.last()));
        lemma_run_push(p, before, EventModel::FetchFailed(errors.last()));
        lemma_run_push(p, failed, EventModel::Slept);
        let r0 = run_view(p, before);
        let r1 = run_view(p, failed);
        let r2 = run_view(p, throttled(errors));
        let sleep = ActionView::Sleep { seconds: RETRY_DELAY_SECS };
        let again = ActionView::Fetch { key: p.key };
        assert(r1.0 == moved_to(p, StateView::Sleeping));
        assert(r1.1 == r0.1.push(sleep));
        assert(r2.1 == r1.1.push(again));
        lemma_sleeps_push(r0.1, sleep);
        lemma_sleeps_push(r1.1, again);
        assert forall|i: int| 0 <= i < errors.len() implies {
            &&& (#[trigger] r2.1[2 * i]) == sleep
            &&& r2.1[2 * i + 1] == again
        } by {
            if i < shorter.len() {
                assert(r2.1[2 * i] == r0.1[2 * i]);
                assert(r2.1[2 * i + 1] == r0.1[2 * i + 1]);
            }
        }
    }
}

/// A registry that is too busy any number of times and then answers: the
/// pipeline sleeps once for each refusal, stores the response, and answers
/// with its summary.
pub proof fn lemma_retry_until_fetched(
    p: PipelineView,
    errors: Seq<ClientErrorModel>,
    response: ResponseModel,
    fetched_at: Seq<char>,
)
    requires
        p.state is Fetching,
        is_safe_key(p.key),
        forall|i: int| 0 <= i < errors.len() ==> (#[trigger] errors[i]).is_rate_limited(),
    ensures
        ({
            let fetched = EventModel::Fetched { response, fetched_at };
            let run = run_view(p, throttled(errors) + seq![fetched, EventModel::Written]);
            &&& run.0 == moved_to(p, StateView::Finished)
            &&& run.1.len() == 2 * errors.len() + 2
            &&& sleep_count(run.1) == errors.len()
            &&& run.1[2 * errors.len() as int] == ActionView::WriteCache {
                file_name: file_name_of(p.key),
                entry: EntryModel { response, fetched_at },
            }
            &&& run.1[2 * errors.len() as int + 1] == ActionView::Finish(
                Ok(summary_of(response, fetched_at)),
            )
        }),
{
    let fetched = EventModel::Fetched { response, fetched_at };
    let tail = seq![fetched, EventModel::Written];
    let none = Seq::<EventModel>::empty();
    lemma_rate_limits_are_waited_out(p, errors);
    lemma_run_in_parts(p, throttled(errors), tail);
    lemma_run_none(p);
    lemma_run_push(p, none, fetched);
    lemma_run_push(p, none.push(fetched), EventModel::Written);
    assert(tail == none.push(fetched).push(EventModel::Written));
    let waited = run_view(p, throttled(errors));
    let stored = run_view(p, tail);
    let write = ActionView::WriteCache {
        file_name: file_name_of(p.key),
        entry: EntryModel { response, fetched_at },
    };
    let finish = ActionView::Finish(Ok(summary_of(response, fetched_at)));
    let no_action = Seq::<ActionView>::empty();
    assert(stored.1 == no_action.push(write).push(finish));
    lemma_sleeps_push(no_action, write);
    lemma_sleeps_push(no_action.push(write), finish);
    lemma_sleeps_add(waited.1, stored.1);
}

/// Any other error of the registry client ends the request at once, with
/// that error and without a sleep.
pub proof fn lemma_other_errors_end_the_request(p: PipelineView, error: ClientErrorModel)
    requires
        p.state is Fetching,
        !error.is_rate_limited(),
    ensures
        run_view(p, seq![EventModel::FetchFailed(error)]) == (
            moved_to(p, StateView::Finished),
            seq![ActionView::Finish(Err(FailureModel::Client(error)))],
        ),
        sleep_count(run_view(p, seq![EventModel::FetchFailed(error)]).1) == 0,
{
    let none = Seq::<EventModel>::empty();
    let end = ActionView::Finish(Err(FailureModel::Client(error)));
    lemma_run_none(p);
    lemma_run_push(p, none, EventModel::FetchFailed(error));
    assert(seq![EventModel::FetchFailed(error)] == none.push(EventModel::FetchFailed(error)));
    assert(Seq::<ActionView>::empty().push(end) == seq![end]);
    lemma_sleeps_push(Seq::<ActionView>::empty(), end);
}

} // verus!
