//! The player state currently on the speakers: identity keys of the playing
//! song, its album and artists, the progress and the shuffle flag.
use crate::error::AppError;
use crate::json::{
    bool_field_or_false,
    get_array_or_default,
    get_bool_field_or_default,
    get_string_or_default,
    get_u64_field_or_default,
    get_value,
    parse_body,
    u64_field_or_zero,
};
use crate::strings::{clock_str_of, milliseconds_to_clock_string};
use vstd::prelude::*;

verus! {

#[derive(Clone, Debug)]
pub struct NowPlaying {
    pub song_id: String,
    pub album_id: String,
    pub artist_ids: Vec<String>,
    pub progress: u64,
    pub shuffle: bool,
}

impl Default for NowPlaying {
    fn default() -> (r: NowPlaying)
        ensures
            r.is_empty_spec(),
            r.song_id@.len() == 0,
            r.album_id@.len() == 0,
            r.artist_ids@.len() == 0,
            r.progress == 0,
            !r.shuffle,
    {
        NowPlaying {
            song_id: String::new(),
            album_id: String::new(),
            artist_ids: Vec::<String>::new(),
            progress: 0,
            shuffle: false,
        }
    }
}

impl NowPlaying {
    /// Whether the entity still awaits its first successful refresh.
    pub open spec fn is_empty_spec(self) -> bool {
        ||| self.song_id@.len() == 0
        ||| self.album_id@.len() == 0
        ||| self.artist_ids@.len() == 0
        ||| self.progress == 0
    }

    pub fn is_empty(&self) -> (r: bool)
        ensures
            r == self.is_empty_spec(),
    {
        self.song_id.as_str().is_empty() || self.album_id.as_str().is_empty()
            || self.artist_ids.len() == 0 || self.progress == 0
    }

    /// The progress rendered as minutes and seconds.
    pub fn get_progress_string(&self) -> (r: String)
        ensures
            r@ == clock_str_of(self.progress as nat),
    {
        milliseconds_to_clock_string(self.progress)
    }

    pub fn get_shuffle_string(&self) -> (r: String)
        ensures
            self.shuffle ==> r@ == "Shuffle: On"@,
            !self.shuffle ==> r@ == "Shuffle: Off"@,
    {
        if self.shuffle {
            "Shuffle: On".to_owned()
        } else {
            "Shuffle: Off".to_owned()
        }
    }

    /// The value after a refresh: every field taken from the fetched
    /// snapshot, nothing of the old value kept.
    pub open spec fn spec_refreshed(self, fresh: NowPlaying) -> NowPlaying {
        fresh
    }

    /// Overwrites every field from a freshly fetched snapshot.
    pub fn refresh_from(&mut self, fresh: NowPlaying)
        ensures
            *final(self) == old(self).spec_refreshed(fresh),
    {
        *self = fresh;
    }
}

impl NowPlaying {
    /// A fresh snapshot read out of the player-state response: a 204 means
    /// no device is available; any other status succeeds exactly when the
    /// body parses as JSON, read leniently with empty defaults.
    pub fn from_player_response(status: u16, body: &str) -> (r: Result<NowPlaying, AppError>)
        ensures
            status == 204 ==> (r matches Err(e) && e.message_view() == "No device available"@),
            status != 204 ==> (r is Ok <==> crate::json::json_parse_ok(body@)),
            r matches Ok(np) ==> np.progress == u64_field_or_zero(body@, "progress_ms"@)
                && np.shuffle == bool_field_or_false(body@, "shuffle_state"@),
    {
        if status == 204 {
            return Err(AppError::new("No device available"));
        }
        let json = match parse_body(body) {
            Result::Ok(v) => v,
            Result::Err(e) => {
                return Err(e);
            },
        };
        let mut song_id = String::new();
        let mut album_id = String::new();
        let mut artist_ids = Vec::<String>::new();
        let progress = get_u64_field_or_default(body, "progress_ms");
        let shuffle = get_bool_field_or_default(body, "shuffle_state");
        match get_value(&json, "item") {
            Option::Some(item) => {
                song_id = get_string_or_default(item, "id");
                match get_value(item, "album") {
                    Option::Some(album_value) => {
                        album_id = get_string_or_default(album_value, "id");
                    },
                    Option::None => {},
                }
                let artists = get_array_or_default(item, "artists");
                let n = artists.len();
                let mut i: usize = 0;
                while i < n
                    invariant
                        n == artists@.len(),
                        i <= n,
                    decreases n - i,
                {
                    artist_ids.push(get_string_or_default(&artists[i], "id"));
                    i = i + 1;
                }
            },
            Option::None => {},
        }
        Ok(NowPlaying { song_id, album_id, artist_ids, progress, shuffle })
    }
}

/// Refreshing is idempotent: a second refresh from the same fetched data
/// leaves the entity exactly as the first one left it — no spurious
/// mutation when nothing actually changed.
pub proof fn lemma_refresh_idempotent(start: NowPlaying, fresh: NowPlaying)
    ensures
        start.spec_refreshed(fresh).spec_refreshed(fresh) == start.spec_refreshed(fresh),
{
}

} // verus!
