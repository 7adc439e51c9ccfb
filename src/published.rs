//! The set of links already published, kept by a collaborator between requests.
use vstd::prelude::*;
use std::collections::HashSet;

verus! {

/// How many links the set may hold before it starts over.
pub const MAX_PUBLISHED_LINES: usize = 1000;

/// Empties the set of published links once it holds `MAX_PUBLISHED_LINES` or more; leaves
/// it as it is otherwise.
pub fn prune_published_articles(published: &mut HashSet<String>)
    ensures
        old(published).len() >= MAX_PUBLISHED_LINES ==> final(published)@ == Set::<String>::empty(),
        old(published).len() < MAX_PUBLISHED_LINES ==> *final(published) == *old(published),
{
    if published.len() >= MAX_PUBLISHED_LINES {
        published.clear();
    }
}

} // verus!
