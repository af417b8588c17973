//! The media subgraph: serves a media record for any identifier.
use vstd::prelude::*;

verus! {

/// Where every media record points.
pub const MEDIA_URL: &'static str = "http://localhost:3065/test.png";

/// A media record, shared with the other subgraphs.
pub struct Media {
    pub id: String,
    pub url: String,
}

/// The root query type of the media subgraph.
pub struct Query;

impl Query {
    /// The media record with identifier `id`.
    pub fn media(&self, id: String) -> (r: Media)
        ensures
            r.id == id,
            r.url@ == MEDIA_URL@,
    {
        Media { id, url: String::from_str(MEDIA_URL) }
    }
}

} // verus!
