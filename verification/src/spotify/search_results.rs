//! The results of a search query, one list per kind, and the interleaved
//! top-results view the search screen shows.
use crate::spotify::NameAndId;
use crate::strings::{escape_spaces, space_escaped};
use vstd::prelude::*;
use vstd::string::StringExecFns;

verus! {

/// A result name followed by a dash and its kind label.
pub open spec fn kind_labeled(name: Seq<char>, label: Seq<char>) -> Seq<char> {
    name + seq![' ', '-', ' '] + label
}

/// The entry step `i` contributes: in rotation artists, albums, songs and
/// playlists, each taken at index `i` of its own list when that list is
/// long enough, its name labeled with its kind.
pub open spec fn top_results_entry(
    artists: Seq<(Seq<char>, Seq<char>)>,
    albums: Seq<(Seq<char>, Seq<char>)>,
    songs: Seq<(Seq<char>, Seq<char>)>,
    playlists: Seq<(Seq<char>, Seq<char>)>,
    i: int,
) -> Seq<(Seq<char>, Seq<char>)> {
    if i % 4 == 0 {
        if i < artists.len() {
            seq![(kind_labeled(artists[i].0, "Artist"@), artists[i].1)]
        } else {
            Seq::<(Seq<char>, Seq<char>)>::empty()
        }
    } else if i % 4 == 1 {
        if i < albums.len() {
            seq![(kind_labeled(albums[i].0, "Album"@), albums[i].1)]
        } else {
            Seq::<(Seq<char>, Seq<char>)>::empty()
        }
    } else if i % 4 == 2 {
        if i < songs.len() {
            seq![(kind_labeled(songs[i].0, "Song"@), songs[i].1)]
        } else {
            Seq::<(Seq<char>, Seq<char>)>::empty()
        }
    } else {
        if i < playlists.len() {
            seq![(kind_labeled(playlists[i].0, "Playlist"@), playlists[i].1)]
        } else {
            Seq::<(Seq<char>, Seq<char>)>::empty()
        }
    }
}

pub open spec fn top_results_upto(
    artists: Seq<(Seq<char>, Seq<char>)>,
    albums: Seq<(Seq<char>, Seq<char>)>,
    songs: Seq<(Seq<char>, Seq<char>)>,
    playlists: Seq<(Seq<char>, Seq<char>)>,
    k: int,
) -> Seq<(Seq<char>, Seq<char>)>
    decreases k,
{
    if k <= 0 {
        Seq::<(Seq<char>, Seq<char>)>::empty()
    } else {
        top_results_upto(artists, albums, songs, playlists, k - 1) + top_results_entry(
            artists,
            albums,
            songs,
            playlists,
            k - 1,
        )
    }
}

/// The interleaved top-results view: the first forty-one rotation steps.
pub open spec fn top_results_of(
    artists: Seq<(Seq<char>, Seq<char>)>,
    albums: Seq<(Seq<char>, Seq<char>)>,
    songs: Seq<(Seq<char>, Seq<char>)>,
    playlists: Seq<(Seq<char>, Seq<char>)>,
) -> Seq<(Seq<char>, Seq<char>)> {
    top_results_upto(artists, albums, songs, playlists, 41)
}

#[derive(Clone, Debug)]
pub struct SearchResults {
    /// The stored query, kept percent-escaped; set through `set_query`.
    pub query: String,
    pub artists: Vec<NameAndId>,
    pub albums: Vec<NameAndId>,
    pub songs: Vec<NameAndId>,
    pub playlists: Vec<NameAndId>,
}

impl Default for SearchResults {
    fn default() -> (r: SearchResults)
        ensures
            r.query_view().len() == 0,
            r.artists@.len() == 0,
            r.albums@.len() == 0,
            r.songs@.len() == 0,
            r.playlists@.len() == 0,
    {
        SearchResults {
            query: String::new(),
            artists: Vec::<NameAndId>::new(),
            albums: Vec::<NameAndId>::new(),
            songs: Vec::<NameAndId>::new(),
            playlists: Vec::<NameAndId>::new(),
        }
    }
}

impl SearchResults {
    /// The stored query, already percent-escaped.
    pub open spec fn query_view(self) -> Seq<char> {
        self.query@
    }

    pub fn get_query(&self) -> (r: &String)
        ensures
            r@ == self.query_view(),
    {
        &self.query
    }

    /// Stores the query with every space percent-escaped, ready to stand in
    /// a request path.
    pub fn set_query(&mut self, query: String)
        ensures
            final(self).query_view() == space_escaped(query@),
            final(self).artists == old(self).artists,
            final(self).albums == old(self).albums,
            final(self).songs == old(self).songs,
            final(self).playlists == old(self).playlists,
    {
        self.query = escape_spaces(query.as_str());
    }

    /// The interleaved top-results view: artists, albums, songs and
    /// playlists in rotation, each name labeled with its kind.
    pub fn get_top_results(&self) -> (r: Vec<NameAndId>)
        ensures
            r.deep_view() == top_results_of(
                self.artists.deep_view(),
                self.albums.deep_view(),
                self.songs.deep_view(),
                self.playlists.deep_view(),
            ),
    {
        let ghost ar = self.artists.deep_view();
        let ghost al = self.albums.deep_view();
        let ghost so = self.songs.deep_view();
        let ghost pl = self.playlists.deep_view();
        let mut top_results = Vec::<NameAndId>::new();
        let mut i: usize = 0;
        while i <= 40
            invariant
                ar == self.artists.deep_view(),
                al == self.albums.deep_view(),
                so == self.songs.deep_view(),
                pl == self.playlists.deep_view(),
                i <= 41,
                top_results.deep_view() == top_results_upto(ar, al, so, pl, i as int),
            decreases 41 - i,
        {
            let rem = i % 4;
            if rem == 0 {
                if i < self.artists.len() {
                    let name_and_id = &self.artists[i];
                    let labeled = label_with(&name_and_id.0, "Artist");
                    top_results.push((labeled, name_and_id.1.clone()));
                }
            } else if rem == 1 {
                if i < self.albums.len() {
                    let name_and_id = &self.albums[i];
                    let labeled = label_with(&name_and_id.0, "Album");
                    top_results.push((labeled, name_and_id.1.clone()));
                }
            } else if rem == 2 {
                if i < self.songs.len() {
                    let name_and_id = &self.songs[i];
                    let labeled = label_with(&name_and_id.0, "Song");
                    top_results.push((labeled, name_and_id.1.clone()));
                }
            } else {
                if i < self.playlists.len() {
                    let name_and_id = &self.playlists[i];
                    let labeled = label_with(&name_and_id.0, "Playlist");
                    top_results.push((labeled, name_and_id.1.clone()));
                }
            }
            proof {
                assert(top_results.deep_view() =~= top_results_upto(ar, al, so, pl, i + 1));
            }
            i = i + 1;
        }
        top_results
    }

    /// The request path for this query against the search endpoint.
    pub fn search_path(&self) -> (r: String)
        ensures
            r@ == "search?type=artist,album,track,playlist&limit=50&q="@ + self.query_view(),
    {
        let mut path = "search?type=artist,album,track,playlist&limit=50&q=".to_owned();
        path.append(self.query.as_str());
        path
    }

    /// A fresh snapshot read out of a search response: one name-and-id list
    /// per result kind, entries with an empty name or id left out; the
    /// query field is left empty for `refresh_from` to keep. It succeeds
    /// exactly when the body parses as JSON.
    pub fn from_search_response(body: &str) -> (r: Result<SearchResults, crate::error::AppError>)
        ensures
            r is Ok <==> crate::json::json_parse_ok(body@),
    {
        let json = match crate::json::parse_body(body) {
            Result::Ok(v) => v,
            Result::Err(e) => {
                return Err(e);
            },
        };
        let artists = crate::json::get_names_and_ids(crate::json::get_value(&json, "artists"));
        let albums = crate::json::get_names_and_ids(crate::json::get_value(&json, "albums"));
        let songs = crate::json::get_names_and_ids(crate::json::get_value(&json, "tracks"));
        let playlists = crate::json::get_names_and_ids(crate::json::get_value(&json, "playlists"));
        Ok(SearchResults { query: String::new(), artists, albums, songs, playlists })
    }

    /// The value after a refresh: the four result lists taken from the
    /// fetched snapshot, the stored query kept.
    pub open spec fn spec_refreshed(self, fresh: SearchResults) -> SearchResults {
        SearchResults { query: self.query, ..fresh }
    }

    /// Overwrites the result lists from a freshly fetched snapshot, keeping
    /// the query they were fetched for.
    pub fn refresh_from(&mut self, fresh: SearchResults)
        ensures
            *final(self) == old(self).spec_refreshed(fresh),
    {
        let query = self.query.clone();
        *self = fresh;
        self.query = query;
    }
}

fn label_with(name: &String, label: &str) -> (r: String)
    ensures
        r@ == kind_labeled(name@, label@),
{
    let mut s = name.clone();
    crate::strings::push_char(&mut s, ' ');
    crate::strings::push_char(&mut s, '-');
    crate::strings::push_char(&mut s, ' ');
    s.append(label);
    proof {
        assert(s@ =~= kind_labeled(name@, label@));
    }
    s
}

} // verus!
