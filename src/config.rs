use vstd::prelude::*;

verus! {

/// Site metadata, read once at startup and immutable afterwards.
pub struct Config {
    pub rss_uri: String,
    pub base_uri: String,
    pub title: String,
    pub description: String,
}

impl Config {
    pub fn new(rss_uri: String, base_uri: String, title: String, description: String) -> (r: Self)
        ensures
            r.rss_uri == rss_uri,
            r.base_uri == base_uri,
            r.title == title,
            r.description == description,
    {
        Config { rss_uri, base_uri, title, description }
    }
}

} // verus!
