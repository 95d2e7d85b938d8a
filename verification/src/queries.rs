//! The read side: queries, which only look at projected state.

use crate::domain::{ShortenerError, Slug, Stats};
use crate::state::Projected;
use vstd::prelude::*;

verus! {

/// Handles the queries of the service.
pub trait QueryHandler: Projected {
    /// Returns the statistics of the link that `slug` names, such as the
    /// number of redirects. Fails with `SlugNotFound` exactly when no link
    /// has the slug.
    fn get_stats(&self, slug: Slug) -> (outcome: Result<Stats, ShortenerError>)
        requires
            self.wf(),
        ensures
            match outcome {
                Ok(stats) => {
                    &&& self.state().stats.contains_key(slug@)
                    &&& stats@ == self.state().stats[slug@]
                },
                Err(error) => {
                    &&& error == ShortenerError::SlugNotFound
                    &&& !self.state().stats.contains_key(slug@)
                },
            },
    ;
}

} // verus!
