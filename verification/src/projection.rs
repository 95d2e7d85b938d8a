//! The read side: the link table and the stats table, kept by folding events.

use crate::domain::{views_of, Event, EventView, ShortLink, Slug, Stats};
use crate::laws::{replay_in_two_parts, step_keeps_state};
use crate::state::{replay, Inconsistency, State};
use vstd::hash_map::StringHashMap;
use vstd::prelude::*;

verus! {

/// Projected state in memory. It changes only by [`Projection::fold`], so it
/// can be thrown away and rebuilt from the log at any time.
pub struct Projection {
    links: StringHashMap<ShortLink>,
    stats: StringHashMap<Stats>,
}

impl View for Projection {
    type V = State;

    closed spec fn view(&self) -> State {
        State {
            links: self.links@.map_values(|link: ShortLink| link@),
            stats: self.stats@.map_values(|stats: Stats| stats@),
        }
    }
}

impl Projection {
    /// The tables agree with each other.
    pub open spec fn wf(&self) -> bool {
        self@.wf()
    }

    /// The counter that `event` would move, if any, is below `u64::MAX`.
    pub open spec fn has_room(&self, event: &Event) -> bool {
        event@ matches EventView::LinkRedirected(slug) ==> self@.redirects_of(slug)
            < u64::MAX
    }

    /// The projection of the empty log.
    pub fn new() -> (projection: Projection)
        ensures
            projection@ == State::empty(),
            projection.wf(),
    {
        Projection { links: StringHashMap::new(), stats: StringHashMap::new() }
    }

    /// Whether `slug` names a link.
    pub fn contains(&self, slug: &Slug) -> (found: bool)
        ensures
            found == self@.links.contains_key(slug@),
    {
        self.links.contains_key(slug.0.as_str())
    }

    /// The link that `slug` names.
    pub fn link(&self, slug: &Slug) -> (found: Option<&ShortLink>)
        ensures
            match found {
                Some(link) => self@.links.contains_key(slug@) && link@ == self@.links[slug@],
                None => !self@.links.contains_key(slug@),
            },
    {
        self.links.get(slug.0.as_str())
    }

    /// The statistics kept for `slug`.
    pub fn stats(&self, slug: &Slug) -> (found: Option<&Stats>)
        ensures
            match found {
                Some(stats) => self@.stats.contains_key(slug@) && stats@ == self@.stats[slug@],
                None => !self@.stats.contains_key(slug@),
            },
    {
        self.stats.get(slug.0.as_str())
    }

    /// Folds one event into the tables. An event that does not fit the state
    /// is refused, and the tables stay as they were.
    pub fn fold(&mut self, event: &Event) -> (outcome: Result<(), Inconsistency>)
        requires
            old(self).wf(),
            old(self).has_room(event),
        ensures
            final(self).wf(),
            match old(self)@.step(event@) {
                Ok(next) => outcome is Ok && final(self)@ == next,
                Err(fault) => outcome == Err::<(), Inconsistency>(fault) && final(self)@ == old(
                    self,
                )@,
            },
    {
        proof {
            if old(self)@.step(event@) is Ok {
                step_keeps_state(old(self)@, event@, Seq::empty());
            }
        }
        match event {
            Event::LinkCreated(link) => {
                if self.links.contains_key(link.slug.0.as_str()) {
                    return Err(Inconsistency::DuplicateSlug);
                }
                self.links.insert(link.slug.0.clone(), link.clone());
                self.stats.insert(link.slug.0.clone(), Stats { link: link.clone(), redirects: 0 });
                assert(self@ =~= old(self)@.apply(event@));
                Ok(())
            },
            Event::LinkRedirected(slug) => {
                match self.stats.get(slug.0.as_str()) {
                    None => Err(Inconsistency::UnknownSlug),
                    Some(stats) => {
                        let link = stats.link.clone();
                        let redirects: u64 = stats.redirects + 1;
                        self.stats.insert(slug.0.clone(), Stats { link, redirects });
                        Ok(())
                    },
                }
            },
        }
    }

    /// Rebuilds projected state from a log, folding its events in order from
    /// the empty state. Fails with the fault of the first event that does not
    /// fit.
    pub fn replay(events: &Vec<Event>) -> (outcome: Result<Projection, Inconsistency>)
        ensures
            match replay(views_of(events@)) {
                Ok(state) => outcome matches Ok(projection) && projection@ == state
                    && projection.wf(),
                Err(fault) => outcome matches Err(found) && found == fault,
            },
    {
        let ghost log = views_of(events@);
        let mut projection = Projection::new();
        let mut done: usize = 0;
        while done < events.len()
            invariant
                done <= events.len(),
                log == views_of(events@),
                projection.wf(),
                replay(log.take(done as int)) == Ok::<State, Inconsistency>(projection@),
                projection@.counts_within(done as nat),
            decreases events.len() - done,
        {
            assert(log.take(done + 1).drop_last() =~= log.take(done as int));
            match projection.fold(&events[done]) {
                Ok(()) => {
                    assert(projection@.counts_within((done + 1) as nat));
                },
                Err(fault) => {
                    proof {
                        assert(log =~= log.take(done + 1) + log.skip(done + 1));
                        replay_in_two_parts(
                            State::empty(),
                            log.take(done + 1),
                            log.skip(done + 1),
                        );
                    }
                    return Err(fault);
                },
            }
            done += 1;
        }
        assert(log.take(done as int) =~= log);
        Ok(projection)
    }
}

} // verus!
