//! The values the service speaks in, and their mathematical views.

use vstd::prelude::*;

verus! {

/// All possible errors of the service.
#[derive(Debug, Clone, Copy, PartialEq, Eq)]
pub enum ShortenerError {
    /// The target URL handed in for shortening is malformed.
    InvalidUrl,
    /// The requested slug already names a short link.
    SlugAlreadyInUse,
    /// The slug names no short link.
    SlugNotFound,
}

/// A unique string (or alias) that stands for the shortened version of a URL.
#[derive(Debug, PartialEq, Eq, Hash)]
pub struct Slug(pub String);

/// The target URL that a short link points to.
#[derive(Debug, PartialEq)]
pub struct Url(pub String);

/// A shortened URL: the pairing of a slug and its target.
#[derive(Debug, PartialEq)]
pub struct ShortLink {
    /// The slug that names the link.
    pub slug: Slug,
    /// The URL the link points to.
    pub url: Url,
}

/// Statistics of a [`ShortLink`].
#[derive(Debug, PartialEq)]
pub struct Stats {
    /// The link these statistics belong to.
    pub link: ShortLink,
    /// How many times the link has been followed.
    pub redirects: u64,
}

/// A fact recorded in the event log.
#[derive(Debug, PartialEq)]
pub enum Event {
    /// A short link came into being.
    LinkCreated(ShortLink),
    /// The link named by the slug was followed once.
    LinkRedirected(Slug),
}

/// A short link as a pair of character sequences.
pub ghost struct LinkView {
    pub slug: Seq<char>,
    pub url: Seq<char>,
}

/// Statistics with an unbounded counter.
pub ghost struct StatsView {
    pub link: LinkView,
    pub redirects: nat,
}

/// An event over character sequences.
pub ghost enum EventView {
    LinkCreated(LinkView),
    LinkRedirected(Seq<char>),
}

impl View for Slug {
    type V = Seq<char>;

    open spec fn view(&self) -> Seq<char> {
        self.0@
    }
}

impl View for Url {
    type V = Seq<char>;

    open spec fn view(&self) -> Seq<char> {
        self.0@
    }
}

impl View for ShortLink {
    type V = LinkView;

    open spec fn view(&self) -> LinkView {
        LinkView { slug: self.slug@, url: self.url@ }
    }
}

impl View for Stats {
    type V = StatsView;

    open spec fn view(&self) -> StatsView {
        StatsView { link: self.link@, redirects: self.redirects as nat }
    }
}

impl View for Event {
    type V = EventView;

    open spec fn view(&self) -> EventView {
        match self {
            Event::LinkCreated(link) => EventView::LinkCreated(link@),
            Event::LinkRedirected(slug) => EventView::LinkRedirected(slug@),
        }
    }
}

/// The events of a log, each by its view, in order.
pub open spec fn views_of(events: Seq<Event>) -> Seq<EventView> {
    events.map_values(|event: Event| event@)
}

impl Clone for Slug {
    fn clone(&self) -> (copy: Self)
        ensures
            copy@ == self@,
    {
        Slug(self.0.clone())
    }
}

impl Clone for Url {
    fn clone(&self) -> (copy: Self)
        ensures
            copy@ == self@,
    {
        Url(self.0.clone())
    }
}

impl Clone for ShortLink {
    fn clone(&self) -> (copy: Self)
        ensures
            copy@ == self@,
    {
        ShortLink { slug: self.slug.clone(), url: self.url.clone() }
    }
}

impl Clone for Stats {
    fn clone(&self) -> (copy: Self)
        ensures
            copy@ == self@,
    {
        Stats { link: self.link.clone(), redirects: self.redirects }
    }
}

impl Clone for Event {
    fn clone(&self) -> (copy: Self)
        ensures
            copy@ == self@,
    {
        match self {
            Event::LinkCreated(link) => Event::LinkCreated(link.clone()),
            Event::LinkRedirected(slug) => Event::LinkRedirected(slug.clone()),
        }
    }
}

} // verus!
