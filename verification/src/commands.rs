//! The write side: commands, which record events.

use crate::domain::{EventView, ShortLink, ShortenerError, Slug, Url};
use crate::state::Projected;
use crate::url::is_well_formed_url;
use vstd::prelude::*;

verus! {

/// Handles the commands of the service. A command either records one event
/// and folds it into the projected state, or fails and changes nothing.
pub trait CommandHandler: Projected {
    /// Creates a new short link for `url`, under `slug` if one is given and
    /// under a generated slug otherwise, and returns the new link.
    ///
    /// Fails with `InvalidUrl` exactly when `url` is not well-formed. For a
    /// well-formed `url` and a given `slug` it fails, with
    /// `SlugAlreadyInUse`, exactly when a link already has that slug.
    /// Without a given slug it fails with `SlugAlreadyInUse` only when no
    /// free slug could be generated.
    fn handle_create_short_link(&mut self, url: Url, slug: Option<Slug>) -> (outcome: Result<
        ShortLink,
        ShortenerError,
    >)
        requires
            old(self).wf(),
        ensures
            final(self).wf(),
            match outcome {
                Ok(link) => {
                    &&& is_well_formed_url(url@)
                    &&& link@.url == url@
                    &&& slug matches Some(wanted) ==> link@.slug == wanted@
                    &&& !old(self).state().links.contains_key(link@.slug)
                    &&& final(self).state() == old(self).state().apply(
                        EventView::LinkCreated(link@),
                    )
                },
                Err(error) => {
                    &&& final(self).state() == old(self).state()
                    &&& error == if is_well_formed_url(url@) {
                        ShortenerError::SlugAlreadyInUse
                    } else {
                        ShortenerError::InvalidUrl
                    }
                    &&& is_well_formed_url(url@) ==> (slug matches Some(wanted) ==> old(
                        self,
                    ).state().links.contains_key(wanted@))
                },
            },
    ;

    /// Counts one redirect of the link that `slug` names and returns that
    /// link. Fails with `SlugNotFound` exactly when no link has the slug.
    fn handle_redirect(&mut self, slug: Slug) -> (outcome: Result<ShortLink, ShortenerError>)
        requires
            old(self).wf(),
        ensures
            final(self).wf(),
            match outcome {
                Ok(link) => {
                    &&& old(self).state().links.contains_key(slug@)
                    &&& link@ == old(self).state().links[slug@]
                    &&& final(self).state() == old(self).state().apply(
                        EventView::LinkRedirected(slug@),
                    )
                },
                Err(error) => {
                    &&& error == ShortenerError::SlugNotFound
                    &&& !old(self).state().links.contains_key(slug@)
                    &&& final(self).state() == old(self).state()
                },
            },
    ;
}

} // verus!
