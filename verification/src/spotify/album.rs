//! An album: its identity key, the attributes fetched for display, and its
//! track list as name-and-id pairs.
use crate::error::AppError;
use crate::json::{
    get_array_or_default,
    get_string_field_or_default,
    get_string_or_default,
    get_u64_field_or_default,
    get_value,
    parse_body,
    string_field_or_empty,
    u64_field_or_zero,
};
use crate::spotify::NameAndId;
use crate::strings::{comma_join, join_with_commas};
use vstd::string::StrSliceExecFns;
use vstd::string::StringExecFns;
use vstd::prelude::*;

verus! {

#[derive(Clone, Debug)]
pub struct Album {
    pub id: String,
    pub name: String,
    pub artist_names: Vec<String>,
    pub year: String,
    pub songs: Vec<NameAndId>,
    pub total_songs: u64,
}

/// The year of a release date: its first four characters, or the whole
/// date when it is shorter than a year.
pub fn year_of_release_date(date: String) -> (r: String)
    ensures
        date@.len() >= 4 ==> r@ == date@.subrange(0, 4),
        date@.len() < 4 ==> r@ == date@,
{
    let n = date.as_str().unicode_len();
    if n >= 4 {
        date.as_str().substring_char(0, 4).to_owned()
    } else {
        date
    }
}

impl Default for Album {
    fn default() -> (r: Album)
        ensures
            r.id@.len() == 0,
            r.is_empty_spec(),
    {
        Album::new(String::new())
    }
}

impl Album {
    /// An album known only by its identity key, its attributes still
    /// unfetched.
    pub fn new(id: String) -> (r: Album)
        ensures
            r.id == id,
            r.name@.len() == 0,
            r.artist_names@.len() == 0,
            r.year@.len() == 0,
            r.songs@.len() == 0,
            r.total_songs == 0,
    {
        Album {
            id,
            name: String::new(),
            artist_names: Vec::<String>::new(),
            year: String::new(),
            songs: Vec::<NameAndId>::new(),
            total_songs: 0,
        }
    }

    /// Whether the entity still awaits its first successful refresh.
    pub open spec fn is_empty_spec(self) -> bool {
        ||| self.id@.len() == 0
        ||| self.artist_names@.len() == 0
        ||| self.year@.len() == 0
        ||| self.songs@.len() == 0
        ||| self.total_songs == 0
    }

    pub fn is_empty(&self) -> (r: bool)
        ensures
            r == self.is_empty_spec(),
    {
        self.id.as_str().is_empty() || self.artist_names.len() == 0
            || self.year.as_str().is_empty() || self.songs.len() == 0 || self.total_songs == 0
    }

    /// The first artist name, or the empty string when none was fetched.
    pub fn get_first_artist(&self) -> (r: String)
        ensures
            self.artist_names@.len() > 0 ==> r@ == self.artist_names@[0]@,
            self.artist_names@.len() == 0 ==> r@.len() == 0,
    {
        if self.artist_names.len() > 0 {
            self.artist_names[0].clone()
        } else {
            String::new()
        }
    }

    /// All artist names joined, a comma and a space between neighbours.
    pub fn get_artists_string(&self) -> (r: String)
        ensures
            r@ == comma_join(self.artist_names.deep_view()),
    {
        join_with_commas(&self.artist_names)
    }

    /// The request path for one album's data.
    pub fn album_path(id: &String) -> (r: String)
        ensures
            r@ == "albums/"@ + id@,
    {
        let mut path = "albums/".to_owned();
        path.append(id.as_str());
        path
    }

    /// A fresh snapshot read out of an album response, its identity key
    /// left empty for `refresh_from` to keep the requested one; it succeeds
    /// exactly when the body parses as JSON. The year is the release date's
    /// first four characters, or the whole date when it is shorter.
    pub fn from_album_response(body: &str) -> (r: Result<Album, AppError>)
        ensures
            r is Ok <==> crate::json::json_parse_ok(body@),
            r matches Ok(album) ==> ({
                let date = string_field_or_empty(body@, "release_date"@);
                &&& album.name@ == string_field_or_empty(body@, "name"@)
                &&& album.year@ == (if date.len() >= 4 {
                    date.subrange(0, 4)
                } else {
                    date
                })
                &&& album.total_songs == u64_field_or_zero(body@, "total_tracks"@)
            }),
    {
        let json = match parse_body(body) {
            Result::Ok(v) => v,
            Result::Err(e) => {
                return Err(e);
            },
        };
        let name = get_string_field_or_default(body, "name");
        let mut artist_names = Vec::<String>::new();
        let year = year_of_release_date(get_string_field_or_default(body, "release_date"));
        let mut songs = Vec::<NameAndId>::new();
        let total_songs = get_u64_field_or_default(body, "total_tracks");
        let artists_array = get_array_or_default(&json, "artists");
        let n = artists_array.len();
        let mut i: usize = 0;
        while i < n
            invariant
                n == artists_array@.len(),
                i <= n,
            decreases n - i,
        {
            artist_names.push(get_string_or_default(&artists_array[i], "name"));
            i = i + 1;
        }
        match get_value(&json, "tracks") {
            Option::Some(tracks) => {
                let songs_array = get_array_or_default(tracks, "items");
                let m = songs_array.len();
                let mut j: usize = 0;
                while j < m
                    invariant
                        m == songs_array@.len(),
                        j <= m,
                    decreases m - j,
                {
                    let song_name = get_string_or_default(&songs_array[j], "name");
                    let song_id = get_string_or_default(&songs_array[j], "id");
                    songs.push((song_name, song_id));
                    j = j + 1;
                }
            },
            Option::None => {},
        }
        Ok(Album { id: String::new(), name, artist_names, year, songs, total_songs })
    }

    /// The value after a refresh: every attribute taken from the fetched
    /// snapshot, only the identity key kept.
    pub open spec fn spec_refreshed(self, fresh: Album) -> Album {
        Album { id: self.id, ..fresh }
    }

    /// Overwrites the attributes from a freshly fetched snapshot, keeping
    /// the identity key the refresh was made for.
    pub fn refresh_from(&mut self, fresh: Album)
        ensures
            *final(self) == old(self).spec_refreshed(fresh),
    {
        let id = self.id.clone();
        *self = fresh;
        self.id = id;
    }
}

} // verus!
