//! The mathematical model: projected state, the fold of one event, and replay.

use crate::domain::{EventView, LinkView, StatsView};
use vstd::prelude::*;

verus! {

/// Why an event cannot be folded into a state.
#[derive(Debug, Clone, Copy, PartialEq, Eq)]
pub enum Inconsistency {
    /// A `LinkCreated` event names a slug that the link table already holds.
    DuplicateSlug,
    /// A `LinkRedirected` event names a slug that no earlier event created.
    UnknownSlug,
}

/// Projected state: the link table and the stats table, both keyed by slug.
#[verifier::ext_equal]
pub ghost struct State {
    pub links: Map<Seq<char>, LinkView>,
    pub stats: Map<Seq<char>, StatsView>,
}

impl State {
    /// The state before any event.
    pub open spec fn empty() -> State {
        State { links: Map::empty(), stats: Map::empty() }
    }

    /// Both tables have the same slugs, every link is filed under its own
    /// slug, and every stats entry carries the link it counts for.
    pub open spec fn wf(self) -> bool {
        &&& self.links.dom() =~= self.stats.dom()
        &&& forall|slug: Seq<char>| #[trigger]
            self.links.contains_key(slug) ==> self.links[slug].slug == slug
        &&& forall|slug: Seq<char>| #[trigger]
            self.stats.contains_key(slug) ==> self.stats[slug].link == self.links[slug]
    }

    /// The redirect count of `slug`, zero where the slug is unknown.
    pub open spec fn redirects_of(self, slug: Seq<char>) -> nat {
        if self.stats.contains_key(slug) {
            self.stats[slug].redirects
        } else {
            0
        }
    }

    /// No counter exceeds `bound`.
    pub open spec fn counts_within(self, bound: nat) -> bool {
        forall|slug: Seq<char>| #[trigger]
            self.stats.contains_key(slug) ==> self.stats[slug].redirects <= bound
    }

    /// This state with the counter of `slug` set to `redirects`.
    pub open spec fn with_redirects(self, slug: Seq<char>, redirects: nat) -> State {
        State {
            links: self.links,
            stats: self.stats.insert(slug, StatsView { link: self.stats[slug].link, redirects }),
        }
    }

    /// What is wrong with folding `event` into this state, if anything.
    pub open spec fn fault(self, event: EventView) -> Option<Inconsistency> {
        match event {
            EventView::LinkCreated(link) => if self.links.contains_key(link.slug) {
                Some(Inconsistency::DuplicateSlug)
            } else {
                None
            },
            EventView::LinkRedirected(slug) => if self.stats.contains_key(slug) {
                None
            } else {
                Some(Inconsistency::UnknownSlug)
            },
        }
    }

    /// The state after `event`, for an event without fault.
    pub open spec fn apply(self, event: EventView) -> State {
        match event {
            EventView::LinkCreated(link) => State {
                links: self.links.insert(link.slug, link),
                stats: self.stats.insert(link.slug, StatsView { link, redirects: 0 }),
            },
            EventView::LinkRedirected(slug) => self.with_redirects(
                slug,
                self.stats[slug].redirects + 1,
            ),
        }
    }

    /// The fold of one event: the next state, or the reason there is none.
    pub open spec fn step(self, event: EventView) -> Result<State, Inconsistency> {
        match self.fault(event) {
            Some(fault) => Err(fault),
            None => Ok(self.apply(event)),
        }
    }
}

/// Whatever holds projected state: the ground that commands and queries
/// share.
pub trait Projected {
    /// The invariant of the holder; every operation needs and keeps it.
    spec fn wf(&self) -> bool;

    /// The projected state as it stands.
    spec fn state(&self) -> State;
}

/// Folds `events` in order, starting from `start`, and stops at the first
/// event that cannot be folded.
pub open spec fn replay_from(start: State, events: Seq<EventView>) -> Result<State, Inconsistency>
    decreases events.len(),
{
    if events.len() == 0 {
        Ok(start)
    } else {
        match replay_from(start, events.drop_last()) {
            Ok(state) => state.step(events.last()),
            Err(fault) => Err(fault),
        }
    }
}

/// The state that a log stands for: its fold from the empty state.
pub open spec fn replay(events: Seq<EventView>) -> Result<State, Inconsistency> {
    replay_from(State::empty(), events)
}

/// The log of `count` redirects of `slug` and nothing else.
pub open spec fn redirects_only(slug: Seq<char>, count: nat) -> Seq<EventView> {
    Seq::new(count, |i: int| EventView::LinkRedirected(slug))
}

/// How many events of `events` record a redirect of `slug`.
pub open spec fn redirects_in(events: Seq<EventView>, slug: Seq<char>) -> nat
    decreases events.len(),
{
    if events.len() == 0 {
        0
    } else {
        let earlier = redirects_in(events.drop_last(), slug);
        if events.last() == EventView::LinkRedirected(slug) {
            earlier + 1
        } else {
            earlier
        }
    }
}

} // verus!
