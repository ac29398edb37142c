//! A single track: its identity key and the attributes fetched for display.
use crate::error::AppError;
use crate::json::{
    get_array_or_default,
    get_string_field_or_default,
    get_string_or_default,
    get_u64_field_or_default,
    get_value,
    parse_body,
    string_field_or_empty,
    u64_field_or_zero,
};
use crate::strings::{clock_str_of, comma_join, join_with_commas, milliseconds_to_clock_string};
use vstd::string::StrSliceExecFns;
use vstd::string::StringExecFns;
use vstd::prelude::*;

verus! {

#[derive(Clone, Debug)]
pub struct Song {
    pub id: String,
    pub name: String,
    pub artist_names: Vec<String>,
    pub album_name: String,
    pub album_year: String,
    pub song_length: u64,
    pub disk_number: u64,
    pub track_number: u64,
}

/// The album year shown for a track: a release date longer than a bare
/// year is cut to its first four characters, a short one is kept whole.
pub fn year_of_full_release_date(date: String) -> (r: String)
    ensures
        date@.len() > 5 ==> r@ == date@.subrange(0, 4),
        date@.len() <= 5 ==> r@ == date@,
{
    let n = date.as_str().unicode_len();
    if n > 5 {
        date.as_str().substring_char(0, 4).to_owned()
    } else {
        date
    }
}

impl Default for Song {
    fn default() -> (r: Song)
        ensures
            r.id@.len() == 0,
            r.is_empty_spec(),
    {
        Song::new(String::new())
    }
}

impl Song {
    /// A song known only by its identity key, its attributes still unfetched.
    pub fn new(id: String) -> (r: Song)
        ensures
            r.id == id,
            r.name@.len() == 0,
            r.artist_names@.len() == 0,
            r.album_name@.len() == 0,
            r.album_year@.len() == 0,
            r.song_length == 0,
            r.disk_number == 0,
            r.track_number == 0,
    {
        Song {
            id,
            name: String::new(),
            artist_names: Vec::<String>::new(),
            album_name: String::new(),
            album_year: String::new(),
            song_length: 0,
            disk_number: 0,
            track_number: 0,
        }
    }

    /// Whether the entity still awaits its first successful refresh.
    pub open spec fn is_empty_spec(self) -> bool {
        ||| self.id@.len() == 0
        ||| self.artist_names@.len() == 0
        ||| self.album_name@.len() == 0
        ||| self.song_length == 0
        ||| self.track_number == 0
    }

    pub fn is_empty(&self) -> (r: bool)
        ensures
            r == self.is_empty_spec(),
    {
        self.id.as_str().is_empty() || self.artist_names.len() == 0
            || self.album_name.as_str().is_empty() || self.song_length == 0
            || self.track_number == 0
    }

    /// All artist names joined, a comma and a space between neighbours.
    pub fn get_artists_string(&self) -> (r: String)
        ensures
            r@ == comma_join(self.artist_names.deep_view()),
    {
        join_with_commas(&self.artist_names)
    }

    /// The track length rendered as minutes and seconds.
    pub fn get_song_length_string(&self) -> (r: String)
        ensures
            r@ == clock_str_of(self.song_length as nat),
    {
        milliseconds_to_clock_string(self.song_length)
    }

    /// The request path for one track's data.
    pub fn track_path(id: &String) -> (r: String)
        ensures
            r@ == "tracks/"@ + id@,
    {
        let mut path = "tracks/".to_owned();
        path.append(id.as_str());
        path
    }

    /// The playback URI of one track.
    pub fn track_uri(id: &String) -> (r: String)
        ensures
            r@ == "spotify:track:"@ + id@,
    {
        let mut uri = "spotify:track:".to_owned();
        uri.append(id.as_str());
        uri
    }

    /// A fresh snapshot read out of a track response, its identity key left
    /// empty for `refresh_from` to keep the requested one; it succeeds
    /// exactly when the body parses as JSON. The album year is the release
    /// date's first four characters when the date is long enough to carry
    /// more than a year.
    pub fn from_track_response(body: &str) -> (r: Result<Song, AppError>)
        ensures
            r is Ok <==> crate::json::json_parse_ok(body@),
            r matches Ok(song) ==> ({
                &&& song.name@ == string_field_or_empty(body@, "name"@)
                &&& song.song_length == u64_field_or_zero(body@, "duration_ms"@)
                &&& song.disk_number == u64_field_or_zero(body@, "disc_number"@)
                &&& song.track_number == u64_field_or_zero(body@, "track_number"@)
            }),
    {
        let json = match parse_body(body) {
            Result::Ok(v) => v,
            Result::Err(e) => {
                return Err(e);
            },
        };
        let name = get_string_field_or_default(body, "name");
        let mut artist_names = Vec::<String>::new();
        let mut album_name = String::new();
        let mut album_year = String::new();
        let song_length = get_u64_field_or_default(body, "duration_ms");
        let disk_number = get_u64_field_or_default(body, "disc_number");
        let track_number = get_u64_field_or_default(body, "track_number");
        let artists_array = get_array_or_default(&json, "artists");
        let n = artists_array.len();
        let mut i: usize = 0;
        while i < n
            invariant
                n == artists_array@.len(),
                i <= n,
            decreases n - i,
        {
            artist_names.push(get_string_or_default(&artists_array[i], "name"));
            i = i + 1;
        }
        match get_value(&json, "album") {
            Option::Some(album) => {
                album_name = get_string_or_default(album, "name");
                album_year = year_of_full_release_date(get_string_or_default(album, "release_date"));
            },
            Option::None => {},
        }
        Ok(
            Song {
                id: String::new(),
                name,
                artist_names,
                album_name,
                album_year,
                song_length,
                disk_number,
                track_number,
            },
        )
    }

    /// The value after a refresh: every attribute taken from the fetched
    /// snapshot, only the identity key kept.
    pub open spec fn spec_refreshed(self, fresh: Song) -> Song {
        Song { id: self.id, ..fresh }
    }

    /// Overwrites the attributes from a freshly fetched snapshot, keeping
    /// the identity key the refresh was made for.
    pub fn refresh_from(&mut self, fresh: Song)
        ensures
            *final(self) == old(self).spec_refreshed(fresh),
    {
        let id = self.id.clone();
        *self = fresh;
        self.id = id;
    }
}

} // verus!
