use vstd::prelude::*;

verus! {

/// A described remote resource: a unique numeric id, an optional resource
/// URL (absence means "not downloadable"), and an ordered list of tag
/// strings. Supplied by the search collaborator; never mutated here.
#[derive(Clone, Debug, PartialEq)]
pub struct Post {
    pub id: u64,
    pub resource_url: Option<String>,
    pub tags: Vec<String>,
}

} // verus!
