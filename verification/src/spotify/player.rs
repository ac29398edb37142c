//! Playback decisions: which endpoint a player action must call and with
//! what values. The calls themselves belong to the surrounding program.
use vstd::prelude::*;
use vstd::string::StringExecFns;

verus! {

pub struct SpotifyPlayer;

/// The context URI of an album: the album id under the album URI prefix.
pub open spec fn album_uri_of(album_id: Seq<char>) -> Seq<char> {
    "spotify:album:"@ + album_id
}

impl SpotifyPlayer {
    pub fn new() -> (r: SpotifyPlayer) {
        SpotifyPlayer {  }
    }

    /// The play request for one track of an album: the album's context URI
    /// and the zero-based position of the one-based track number.
    pub fn play_song_on_album_request(&self, track_number: u64, album_id: &String) -> (r: (
        String,
        u64,
    ))
        requires
            track_number >= 1,
        ensures
            r.0@ == album_uri_of(album_id@),
            r.1 == track_number - 1,
    {
        let mut uri = "spotify:album:".to_owned();
        uri.append(album_id.as_str());
        (uri, track_number - 1)
    }

    /// The endpoint a pause-play toggle must call, given whether playback is
    /// currently running: pause when playing, play when paused.
    pub fn pause_play_path(&self, is_playing: bool) -> (r: &'static str)
        ensures
            is_playing ==> r@ == "me/player/pause"@,
            !is_playing ==> r@ == "me/player/play"@,
    {
        if is_playing {
            "me/player/pause"
        } else {
            "me/player/play"
        }
    }

    /// The endpoint a shuffle toggle must call, given the current shuffle
    /// state: it requests the opposite state.
    pub fn shuffle_toggle_path(&self, current_shuffle_state: bool) -> (r: String)
        ensures
            current_shuffle_state ==> r@ == "me/player/shuffle?state=false"@,
            !current_shuffle_state ==> r@ == "me/player/shuffle?state=true"@,
    {
        let mut path = "me/player/shuffle?state=".to_owned();
        if current_shuffle_state {
            path.append("false");
            proof {
                assert("me/player/shuffle?state="@ + "false"@ =~= "me/player/shuffle?state=false"@)
                    by {
                    reveal_strlit("me/player/shuffle?state=");
                    reveal_strlit("false");
                    reveal_strlit("me/player/shuffle?state=false");
                }
            }
        } else {
            path.append("true");
            proof {
                assert("me/player/shuffle?state="@ + "true"@ =~= "me/player/shuffle?state=true"@)
                    by {
                    reveal_strlit("me/player/shuffle?state=");
                    reveal_strlit("true");
                    reveal_strlit("me/player/shuffle?state=true");
                }
            }
        }
        path
    }

    /// Whether playback is running, read out of the player-state response:
    /// a 204 means no device is active; a 200 carries the flag, a missing
    /// or non-boolean flag and any other status count as not playing; a 200
    /// body that is not JSON is an error.
    pub fn parse_is_playing(&self, status: u16, body: &str) -> (r: Result<
        bool,
        crate::error::AppError,
    >)
        ensures
            status == 204 ==> (r matches Err(e) && e.message_view()
                == "No Spotify device active."@),
            status == 200 && !crate::json::json_parse_ok(body@) ==> (r matches Err(e)
                && e.message_view() == "Failed to read the response as JSON."@),
            status == 200 && crate::json::json_parse_ok(body@) ==> (r matches Ok(b) && b == (
            crate::json::json_bool_field_of(body@, "is_playing"@) == Some(true))),
            status != 204 && status != 200 ==> (r matches Ok(b) && !b),
    {
        if status == 204 {
            return Err(crate::error::AppError::new("No Spotify device active."));
        }
        if status == 200 {
            match crate::json::parse_body(body) {
                Result::Ok(_) => {},
                Result::Err(e) => {
                    return Err(e);
                },
            }
            let flag = crate::json::json_bool_field(body, "is_playing");
            return Ok(match flag {
                Option::Some(true) => true,
                _ => false,
            });
        }
        Ok(false)
    }

    /// The current shuffle state, read out of the player-state response:
    /// only a 200 carrying the flag yields one, a toggle does nothing
    /// otherwise; a 200 body that is not JSON is an error.
    pub fn parse_shuffle_state(&self, status: u16, body: &str) -> (r: Result<
        Option<bool>,
        crate::error::AppError,
    >)
        ensures
            status != 200 ==> (r matches Ok(o) && o is None),
            status == 200 && !crate::json::json_parse_ok(body@) ==> (r matches Err(e)
                && e.message_view() == "Failed to read the response as JSON."@),
            status == 200 && crate::json::json_parse_ok(body@) ==> (r matches Ok(o) && o
                == crate::json::json_bool_field_of(body@, "shuffle_state"@)),
    {
        if status != 200 {
            return Ok(None);
        }
        match crate::json::parse_body(body) {
            Result::Ok(_) => {},
            Result::Err(e) => {
                return Err(e);
            },
        }
        Ok(crate::json::json_bool_field(body, "shuffle_state"))
    }

    pub fn next_song_path(&self) -> (r: &'static str)
        ensures
            r@ == "me/player/next"@,
    {
        "me/player/next"
    }

    pub fn previous_song_path(&self) -> (r: &'static str)
        ensures
            r@ == "me/player/previous"@,
    {
        "me/player/previous"
    }
}

} // verus!
