//! The search endpoints: the queries they take.

use crate::search::{refresh_args, refresh_args_spec, EpisodesOptions, SearchOptions};
use crate::text::texts;
use vstd::prelude::*;

verus! {

/// The media type that a query without one asks for.
pub fn default_type() -> (s: String)
    ensures
        s@ == "tv"@,
{
    "tv".to_string()
}

/// The query of a search.
#[derive(Clone, Debug)]
pub struct SearchQuery {
    pub q: String,
    pub media_type: String,
}

/// The query of a listing of the episodes of a series.
#[derive(Clone, Debug)]
pub struct EpisodesQuery {
    pub pid: String,
    pub media_type: String,
}

/// The body of a request to refresh the programme cache.
#[derive(Clone, Debug)]
pub struct RefreshBody {
    pub media_type: String,
}

impl SearchQuery {
    /// The search that the query asks for, with the configured program, cache
    /// and proxy.
    pub fn options<'a>(
        &'a self,
        get_iplayer_path: &'a str,
        cache_dir: &'a str,
        proxy: Option<&'a str>,
    ) -> (o: SearchOptions<'a>)
        ensures
            o.query@ == self.q@,
            o.media_type@ == self.media_type@,
            o.get_iplayer_path == get_iplayer_path,
            o.cache_dir == cache_dir,
            o.proxy == proxy,
    {
        SearchOptions {
            query: self.q.as_str(),
            media_type: self.media_type.as_str(),
            get_iplayer_path,
            cache_dir,
            proxy,
        }
    }
}

impl EpisodesQuery {
    /// The listing that the query asks for.
    pub fn options<'a>(
        &'a self,
        get_iplayer_path: &'a str,
        cache_dir: &'a str,
        proxy: Option<&'a str>,
    ) -> (o: EpisodesOptions<'a>)
        ensures
            o.pid@ == self.pid@,
            o.media_type@ == self.media_type@,
            o.get_iplayer_path == get_iplayer_path,
            o.cache_dir == cache_dir,
            o.proxy == proxy,
    {
        EpisodesOptions {
            pid: self.pid.as_str(),
            media_type: self.media_type.as_str(),
            get_iplayer_path,
            cache_dir,
            proxy,
        }
    }
}

impl RefreshBody {
    /// The arguments of the refresh that the body asks for.
    pub fn args(&self, cache_dir: &str) -> (args: Vec<String>)
        ensures
            texts(args@) == refresh_args_spec(self.media_type@, cache_dir@),
    {
        refresh_args(self.media_type.as_str(), cache_dir)
    }
}

} // verus!
