//! What holds of every state and every log: the laws of replay, of slug
//! uniqueness and of redirect counting, each with its proof.

use crate::domain::EventView;
use crate::state::{redirects_in, redirects_only, replay, replay_from, Inconsistency, State};
use vstd::prelude::*;

verus! {

/// One fold keeps a well-formed state well-formed, keeps every link it
/// found, and adds one to the counter of `slug` exactly when the event is a
/// redirect of `slug`.
pub proof fn step_keeps_state(state: State, event: EventView, slug: Seq<char>)
    requires
        state.wf(),
        state.step(event) is Ok,
    ensures
        state.step(event)->Ok_0.wf(),
        state.links.contains_key(slug) ==> state.step(event)->Ok_0.links.contains_key(slug)
            && state.step(event)->Ok_0.links[slug] == state.links[slug],
        state.step(event)->Ok_0.redirects_of(slug) == state.redirects_of(slug) + (if event
            == EventView::LinkRedirected(slug) {
            1nat
        } else {
            0nat
        }),
{
}

/// A replay that succeeds ends in a well-formed state that still holds every
/// link it started with, and the counter of `slug` has grown by the number
/// of redirects that the events record for `slug`.
pub proof fn replay_keeps_state(start: State, events: Seq<EventView>, slug: Seq<char>)
    requires
        start.wf(),
        replay_from(start, events) is Ok,
    ensures
        replay_from(start, events)->Ok_0.wf(),
        start.links.contains_key(slug) ==> replay_from(start, events)->Ok_0.links.contains_key(slug)
            && replay_from(start, events)->Ok_0.links[slug] == start.links[slug],
        replay_from(start, events)->Ok_0.redirects_of(slug) == start.redirects_of(slug)
            + redirects_in(events, slug),
    decreases events.len(),
{
    if events.len() > 0 {
        replay_keeps_state(start, events.drop_last(), slug);
    }
}

/// Replay is a function of the events alone: equal logs replay to equal
/// outcomes, however often and wherever they are replayed.
pub proof fn replay_is_deterministic(first: Seq<EventView>, second: Seq<EventView>)
    requires
        first =~= second,
    ensures
        replay(first) == replay(second),
{
}

/// Replaying a log and then folding one more event gives what replaying the
/// log with that event appended gives.
pub proof fn replay_then_fold(start: State, events: Seq<EventView>, event: EventView)
    ensures
        replay_from(start, events.push(event)) == match replay_from(start, events) {
            Ok(state) => state.step(event),
            Err(fault) => Err(fault),
        },
{
    assert(events.push(event).drop_last() =~= events);
}

/// Replaying two logs one after the other gives what replaying their
/// concatenation gives, and a fault in the first is the fault of the whole.
pub proof fn replay_in_two_parts(start: State, first: Seq<EventView>, second: Seq<EventView>)
    ensures
        replay_from(start, first + second) == match replay_from(start, first) {
            Ok(state) => replay_from(state, second),
            Err(fault) => Err(fault),
        },
    decreases second.len(),
{
    if second.len() > 0 {
        assert((first + second).drop_last() =~= first + second.drop_last());
        replay_in_two_parts(start, first, second.drop_last());
    }
}

/// In a log that replays, no two `LinkCreated` events carry the same slug.
pub proof fn created_slugs_are_unique(events: Seq<EventView>, first: int, second: int)
    requires
        replay(events) is Ok,
        0 <= first < second < events.len(),
        events[first] is LinkCreated,
        events[second] is LinkCreated,
    ensures
        events[first]->LinkCreated_0.slug != events[second]->LinkCreated_0.slug,
{
    let upto_first = events.take(first);
    let between = events.subrange(first + 1, second);
    let rest = events.skip(second + 1);
    let upto_second = upto_first.push(events[first]) + between;
    assert(events =~= upto_second.push(events[second]) + rest);
    replay_in_two_parts(State::empty(), upto_second.push(events[second]), rest);
    replay_then_fold(State::empty(), upto_second, events[second]);
    replay_in_two_parts(State::empty(), upto_first.push(events[first]), between);
    replay_then_fold(State::empty(), upto_first, events[first]);
    let before_first = replay(upto_first)->Ok_0;
    replay_keeps_state(State::empty(), upto_first, events[first]->LinkCreated_0.slug);
    let after_first = before_first.step(events[first])->Ok_0;
    replay_keeps_state(after_first, between, events[first]->LinkCreated_0.slug);
}

/// In a log that replays, a link that was created is in the link table of
/// the final state, under its slug and as it was created.
pub proof fn created_links_stay(events: Seq<EventView>, at: int)
    requires
        replay(events) is Ok,
        0 <= at < events.len(),
        events[at] is LinkCreated,
    ensures
        replay(events)->Ok_0.links.contains_key(events[at]->LinkCreated_0.slug),
        replay(events)->Ok_0.links[events[at]->LinkCreated_0.slug] == events[at]->LinkCreated_0,
{
    let before = events.take(at);
    let rest = events.skip(at + 1);
    assert(events =~= before.push(events[at]) + rest);
    replay_in_two_parts(State::empty(), before.push(events[at]), rest);
    replay_then_fold(State::empty(), before, events[at]);
    replay_keeps_state(State::empty(), before, events[at]->LinkCreated_0.slug);
    let created = replay(before)->Ok_0.step(events[at])->Ok_0;
    replay_keeps_state(created, rest, events[at]->LinkCreated_0.slug);
}

/// Every link in the table of a replayed log was put there by a
/// `LinkCreated` event of that log.
pub proof fn links_come_from_the_log(events: Seq<EventView>, slug: Seq<char>)
    requires
        replay(events) is Ok,
        replay(events)->Ok_0.links.contains_key(slug),
    ensures
        exists|at: int|
            0 <= at < events.len() && #[trigger] events[at] == EventView::LinkCreated(
                replay(events)->Ok_0.links[slug],
            ),
    decreases events.len(),
{
    let link = replay(events)->Ok_0.links[slug];
    if events.len() > 0 && events.last() != EventView::LinkCreated(link) {
        links_come_from_the_log(events.drop_last(), slug);
    }
}

/// From a well-formed state that knows `slug`, `count` redirects of `slug`
/// and no other event replay without fault, add exactly `count` to the
/// counter of `slug`, and change nothing else.
pub proof fn repeated_redirects_add_up(start: State, slug: Seq<char>, count: nat)
    requires
        start.wf(),
        start.links.contains_key(slug),
    ensures
        replay_from(start, redirects_only(slug, count)) == Ok::<State, Inconsistency>(
            start.with_redirects(slug, start.stats[slug].redirects + count),
        ),
    decreases count,
{
    let end = start.with_redirects(slug, start.stats[slug].redirects + count);
    if count == 0 {
        assert(end =~= start);
    } else {
        let fewer = (count - 1) as nat;
        assert(redirects_only(slug, count).drop_last() =~= redirects_only(slug, fewer));
        repeated_redirects_add_up(start, slug, fewer);
        let before = start.with_redirects(slug, start.stats[slug].redirects + fewer);
        assert(before.step(EventView::LinkRedirected(slug))->Ok_0 =~= end);
    }
}

/// A log records no more redirects of a slug than it has events.
pub proof fn redirects_in_bounded(events: Seq<EventView>, slug: Seq<char>)
    ensures
        redirects_in(events, slug) <= events.len(),
    decreases events.len(),
{
    if events.len() > 0 {
        redirects_in_bounded(events.drop_last(), slug);
    }
}

/// After a replay from the empty state every counter is the number of
/// redirects that the log records for its slug, so none exceeds the length
/// of the log.
pub proof fn counters_count_redirects(events: Seq<EventView>)
    requires
        replay(events) is Ok,
    ensures
        forall|slug: Seq<char>| #[trigger]
            replay(events)->Ok_0.stats.contains_key(slug) ==> replay(events)->Ok_0.redirects_of(
                slug,
            ) == redirects_in(events, slug),
        replay(events)->Ok_0.counts_within(events.len()),
{
    let end = replay(events)->Ok_0;
    assert forall|slug: Seq<char>| #[trigger] end.stats.contains_key(slug) implies {
        &&& end.redirects_of(slug) == redirects_in(events, slug)
        &&& end.stats[slug].redirects <= events.len()
    } by {
        replay_keeps_state(State::empty(), events, slug);
        redirects_in_bounded(events, slug);
    }
}

} // verus!
