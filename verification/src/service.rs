//! The service: an event log together with the state projected from it.

use crate::allocator::{allocate, is_generated, some_generated_slug_taken};
use crate::commands::CommandHandler;
use crate::domain::{Event, EventView, ShortLink, ShortenerError, Slug, Stats, Url};
use crate::event_log::EventLog;
use crate::projection::Projection;
use crate::queries::QueryHandler;
use crate::laws::{
    counters_count_redirects, created_slugs_are_unique, replay_keeps_state, replay_then_fold,
};
use crate::state::{redirects_in, replay, Inconsistency, Projected, State};
use vstd::prelude::*;

verus! {

/// A URL shortener built on event sourcing, with commands and queries kept
/// apart. It owns the log and the projection; the projection is at all times
/// the replay of the log.
pub struct UrlShortenerService {
    projection: Projection,
    event_store: EventLog,
}

impl Projected for UrlShortenerService {
    /// The log replays without fault, and to the projected state.
    open spec fn wf(&self) -> bool {
        replay(self.log()) == Ok::<State, Inconsistency>(self.state())
    }

    closed spec fn state(&self) -> State {
        self.projection@
    }
}

impl UrlShortenerService {
    /// The events recorded so far, oldest first.
    pub closed spec fn log(&self) -> Seq<EventView> {
        self.event_store@
    }

    /// Creates a service with an empty log.
    pub fn new() -> (service: Self)
        ensures
            service.wf(),
            service.log() == Seq::<EventView>::empty(),
            service.state() == State::empty(),
    {
        UrlShortenerService { projection: Projection::new(), event_store: EventLog::new() }
    }

    /// Creates a service from a log, rebuilding the projected state by
    /// replay. Fails with the fault of the first event that does not fit.
    pub fn restore(log: EventLog) -> (outcome: Result<Self, Inconsistency>)
        ensures
            match replay(log@) {
                Ok(state) => outcome matches Ok(service) && service.wf() && service.log() == log@
                    && service.state() == state,
                Err(fault) => outcome matches Err(found) && found == fault,
            },
    {
        match Projection::replay(log.read_all()) {
            Ok(projection) => Ok(UrlShortenerService { projection, event_store: log }),
            Err(fault) => Err(fault),
        }
    }

    /// The event log, for reading.
    pub fn event_log(&self) -> (log: &EventLog)
        ensures
            log@ == self.log(),
    {
        &self.event_store
    }

    /// The projected state, for reading.
    pub fn projection(&self) -> (projection: &Projection)
        ensures
            projection@ == self.state(),
    {
        &self.projection
    }

    /// No two links that a service has created share a slug: each creation
    /// is one `LinkCreated` event of its log, and no two of them carry one
    /// slug.
    pub proof fn slugs_are_unique(&self, first: int, second: int)
        requires
            self.wf(),
            0 <= first < second < self.log().len(),
            self.log()[first] is LinkCreated,
            self.log()[second] is LinkCreated,
        ensures
            self.log()[first]->LinkCreated_0.slug != self.log()[second]->LinkCreated_0.slug,
    {
        created_slugs_are_unique(self.log(), first, second);
    }

    /// The redirect counter that a service holds for a slug is the number of
    /// redirects of that slug in its log.
    pub proof fn counter_is_log_count(&self, slug: Seq<char>)
        requires
            self.wf(),
            self.state().stats.contains_key(slug),
        ensures
            self.state().stats[slug].redirects == redirects_in(self.log(), slug),
    {
        counters_count_redirects(self.log());
    }

    /// Appends `event` to the log and folds it into the projection.
    fn record(&mut self, event: Event)
        requires
            old(self).wf(),
            old(self).state().step(event@) is Ok,
        ensures
            final(self).wf(),
            final(self).log() == old(self).log().push(event@),
            final(self).state() == old(self).state().apply(event@),
    {
        proof {
            replay_keeps_state(State::empty(), self.log(), Seq::empty());
            counters_count_redirects(self.log());
            replay_then_fold(State::empty(), self.log(), event@);
        }
        let sequence_number: usize = self.event_store.append(event);
        let folded = self.projection.fold(&self.event_store.read_all()[sequence_number]);
    }
}

impl CommandHandler for UrlShortenerService {
    fn handle_create_short_link(&mut self, url: Url, slug: Option<Slug>) -> (outcome: Result<
        ShortLink,
        ShortenerError,
    >)
        ensures
            match outcome {
                Ok(link) => {
                    &&& final(self).log() == old(self).log().push(EventView::LinkCreated(link@))
                    &&& slug is None ==> is_generated(link@.slug)
                },
                Err(error) => {
                    &&& final(self).log() == old(self).log()
                    &&& error == ShortenerError::SlugAlreadyInUse && slug is None
                        ==> some_generated_slug_taken(old(self).state())
                },
            },
    {
        if !url.is_well_formed() {
            return Err(ShortenerError::InvalidUrl);
        }
        let slug = match allocate(slug, &self.projection) {
            Ok(slug) => slug,
            Err(error) => {
                return Err(error);
            },
        };
        let link = ShortLink { slug, url };
        self.record(Event::LinkCreated(link.clone()));
        Ok(link)
    }

    fn handle_redirect(&mut self, slug: Slug) -> (outcome: Result<ShortLink, ShortenerError>)
        ensures
            match outcome {
                Ok(_) => final(self).log() == old(self).log().push(
                    EventView::LinkRedirected(slug@),
                ),
                Err(_) => final(self).log() == old(self).log(),
            },
    {
        proof {
            replay_keeps_state(State::empty(), self.log(), slug@);
        }
        let link = match self.projection.link(&slug) {
            Some(link) => link.clone(),
            None => {
                return Err(ShortenerError::SlugNotFound);
            },
        };
        self.record(Event::LinkRedirected(slug));
        Ok(link)
    }
}

impl QueryHandler for UrlShortenerService {
    fn get_stats(&self, slug: Slug) -> (outcome: Result<Stats, ShortenerError>) {
        match self.projection.stats(&slug) {
            Some(stats) => Ok(stats.clone()),
            None => Err(ShortenerError::SlugNotFound),
        }
    }
}

} // verus!
