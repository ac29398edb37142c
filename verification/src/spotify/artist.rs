//! An artist: identity key, fetched attributes, and the song and album
//! collections shown on the artist tabs.
use crate::error::AppError;
use crate::json::{
    collect_names_and_ids,
    get_array_or_default,
    get_number_or_default,
    get_value,
    parse_body,
    string_of_value,
};
use crate::spotify::NameAndId;
use crate::strings::{capitalize_words, capitalized_words, push_char};
use num_format::ToFormattedString;
use vstd::prelude::*;
use vstd::string::StrSliceExecFns;
use vstd::string::StringExecFns;

verus! {

/// Digits grouped in threes from the right, a comma between groups.
pub open spec fn comma_grouped(digits: Seq<char>) -> Seq<char>
    decreases digits.len(),
{
    if digits.len() <= 3 {
        digits
    } else {
        comma_grouped(digits.subrange(0, digits.len() - 3)) + seq![','] + digits.subrange(
            digits.len() - 3,
            digits.len() as int,
        )
    }
}

/// Relies on num_format's `ToFormattedString::to_formatted_string` with the
/// English locale: the decimal digits grouped in threes from the right,
/// commas between the groups.
#[verifier::external_body]
fn format_with_commas(n: u64) -> (r: String)
    ensures
        r@ == comma_grouped(crate::strings::dec_str_of(n as nat)),
{
    n.to_formatted_string(&num_format::Locale::en)
}

/// The inner HTML of the first element a CSS selector matches in a
/// document, or nothing when the selector is invalid or matches nothing; it
/// depends on the document and the selector alone.
pub uninterp spec fn selected_inner_html(html: Seq<char>, selector: Seq<char>) -> Option<Seq<char>>;

/// Relies on scraper's `Html::parse_document`, `Selector::parse`,
/// `Html::select` and `ElementRef::inner_html`: finds the first element the
/// selector matches, a function of the document and selector alone.
#[verifier::external_body]
fn select_first_inner_html(html: &str, selector: &str) -> (r: Option<String>)
    ensures
        match (r, selected_inner_html(html@, selector@)) {
            (Option::Some(s), Option::Some(v)) => s@ == v,
            (Option::None, Option::None) => true,
            _ => false,
        },
{
    let document = scraper::Html::parse_document(html);
    let parsed = match scraper::Selector::parse(selector) {
        Result::Ok(s) => s,
        Result::Err(_) => {
            return None;
        },
    };
    document.select(&parsed).next().map(|element| element.inner_html())
}

/// The characters from index `i` up to the next space.
pub open spec fn until_space_from(s: Seq<char>, i: int) -> Seq<char>
    decreases s.len() - i,
{
    if i < 0 || i >= s.len() || s[i] == ' ' {
        Seq::<char>::empty()
    } else {
        seq![s[i]] + until_space_from(s, i + 1)
    }
}

/// The first space-separated word of a string.
pub open spec fn first_word(s: Seq<char>) -> Seq<char> {
    until_space_from(s, 0)
}

fn first_word_of(s: &str) -> (r: String)
    ensures
        r@ == first_word(s@),
{
    let n = s.unicode_len();
    let mut out = String::new();
    let mut i: usize = 0;
    while i < n
        invariant
            n == s@.len(),
            i <= n,
            out@ + until_space_from(s@, i as int) == first_word(s@),
            forall|j: int| 0 <= j < i ==> s@[j] != ' ',
        decreases n - i,
    {
        let c = s.get_char(i);
        if c == ' ' {
            proof {
                assert(out@ =~= first_word(s@));
            }
            return out;
        }
        push_char(&mut out, c);
        proof {
            assert(out@ + until_space_from(s@, i + 1) =~= first_word(s@));
        }
        i = i + 1;
    }
    proof {
        assert(out@ =~= first_word(s@));
    }
    out
}

/// What the listeners label of the artist's public page carries: the first
/// word of the first matching element's inner HTML, or nothing's characters
/// when the label is absent.
pub open spec fn listeners_label_of(html: Seq<char>) -> Seq<char> {
    match selected_inner_html(
        html,
        "#main [data-testid=\"monthly-listeners-label\"]"@,
    ) {
        Option::Some(v) => first_word(v),
        Option::None => Seq::<char>::empty(),
    }
}

/// The monthly-listeners figure scraped from the artist's public page: the
/// count is the first word of the listeners label.
pub fn monthly_listeners_from_html(html: &str) -> (r: String)
    ensures
        r@ == listeners_label_of(html@),
{
    let selected = select_first_inner_html(
        html,
        "#main [data-testid=\"monthly-listeners-label\"]",
    );
    match selected {
        Option::Some(inner) => first_word_of(inner.as_str()),
        Option::None => String::new(),
    }
}

#[derive(Clone, Debug)]
pub struct Artist {
    pub id: String,
    pub name: String,
    pub top_songs: Vec<NameAndId>,
    pub albums: Vec<NameAndId>,
    pub singles: Vec<NameAndId>,
    pub genres: Vec<String>,
    pub followers: String,
    pub monthly_listeners: String,
}

impl Default for Artist {
    fn default() -> (r: Artist)
        ensures
            r.id@.len() == 0,
            r.is_empty_spec(),
    {
        Artist::new(String::new())
    }
}

impl Artist {
    /// An artist known only by its identity key, its attributes still
    /// unfetched.
    pub fn new(id: String) -> (r: Artist)
        ensures
            r.id == id,
            r.name@.len() == 0,
            r.top_songs@.len() == 0,
            r.albums@.len() == 0,
            r.singles@.len() == 0,
            r.genres@.len() == 0,
            r.followers@.len() == 0,
            r.monthly_listeners@.len() == 0,
    {
        Artist {
            id,
            name: String::new(),
            top_songs: Vec::<NameAndId>::new(),
            albums: Vec::<NameAndId>::new(),
            singles: Vec::<NameAndId>::new(),
            genres: Vec::<String>::new(),
            followers: String::new(),
            monthly_listeners: String::new(),
        }
    }

    /// Whether the entity still awaits its first successful refresh.
    pub open spec fn is_empty_spec(self) -> bool {
        self.name@.len() == 0
    }

    pub fn is_empty(&self) -> (r: bool)
        ensures
            r == self.is_empty_spec(),
    {
        self.name.as_str().is_empty()
    }

    /// A genre label with the first character of every word uppercased.
    pub fn capitalize_genre(genre: String) -> (r: String)
        ensures
            r@ == capitalized_words(genre@),
    {
        capitalize_words(genre.as_str())
    }

    /// The request path for the artist's own data.
    pub fn artist_path(id: &String) -> (r: String)
        ensures
            r@ == "artists/"@ + id@,
    {
        let mut path = "artists/".to_owned();
        path.append(id.as_str());
        path
    }

    /// The request path for the artist's most played tracks.
    pub fn top_tracks_path(id: &String) -> (r: String)
        ensures
            r@ == "artists/"@ + id@ + "/top-tracks"@,
    {
        let mut path = "artists/".to_owned();
        path.append(id.as_str());
        path.append("/top-tracks");
        path
    }

    /// The request path for the artist's albums.
    pub fn albums_path(id: &String) -> (r: String)
        ensures
            r@ == "artists/"@ + id@ + "/albums?limit=50&include_groups=album"@,
    {
        let mut path = "artists/".to_owned();
        path.append(id.as_str());
        path.append("/albums?limit=50&include_groups=album");
        path
    }

    /// The request path for the artist's singles.
    pub fn singles_path(id: &String) -> (r: String)
        ensures
            r@ == "artists/"@ + id@ + "/albums?limit=50&include_groups=single"@,
    {
        let mut path = "artists/".to_owned();
        path.append(id.as_str());
        path.append("/albums?limit=50&include_groups=single");
        path
    }

    /// The public page of the artist, scraped for the monthly listeners.
    pub fn public_page_url(id: &String) -> (r: String)
        ensures
            r@ == "https://open.spotify.com/artist/"@ + id@,
    {
        let mut url = "https://open.spotify.com/artist/".to_owned();
        url.append(id.as_str());
        url
    }

    /// A fresh snapshot read out of the artist's four data responses and
    /// its public page, the identity key left empty for `refresh_from` to
    /// keep: the genres with every word capitalized, the follower count
    /// comma-grouped, and the monthly listeners scraped from the page.
    pub fn from_responses(
        artist_body: &str,
        top_tracks_body: &str,
        albums_body: &str,
        singles_body: &str,
        public_page_html: &str,
    ) -> (r: Result<Artist, AppError>)
        ensures
            r is Ok <==> crate::json::json_parse_ok(artist_body@) && crate::json::json_parse_ok(
                top_tracks_body@,
            ) && crate::json::json_parse_ok(albums_body@) && crate::json::json_parse_ok(
                singles_body@,
            ),
            r matches Ok(a) ==> a.id@.len() == 0 && a.name@ == crate::json::string_field_or_empty(
                artist_body@,
                "name"@,
            ) && a.monthly_listeners@ == listeners_label_of(public_page_html@),
    {
        let artist_json = match parse_body(artist_body) {
            Result::Ok(v) => v,
            Result::Err(e) => {
                return Err(e);
            },
        };
        let name = crate::json::get_string_field_or_default(artist_body, "name");
        let genre_values = get_array_or_default(&artist_json, "genres");
        let mut genres = Vec::<String>::new();
        let gn = genre_values.len();
        let mut gi: usize = 0;
        while gi < gn
            invariant
                gn == genre_values@.len(),
                gi <= gn,
            decreases gn - gi,
        {
            match string_of_value(&genre_values[gi]) {
                Option::Some(genre) => {
                    genres.push(Artist::capitalize_genre(genre));
                },
                Option::None => {},
            }
            gi = gi + 1;
        }
        let mut followers = String::new();
        match get_value(&artist_json, "followers") {
            Option::Some(value) => {
                followers = format_with_commas(get_number_or_default(value, "total"));
            },
            Option::None => {},
        }
        let monthly_listeners = monthly_listeners_from_html(public_page_html);
        let top_json = match parse_body(top_tracks_body) {
            Result::Ok(v) => v,
            Result::Err(e) => {
                return Err(e);
            },
        };
        let top_values = get_array_or_default(&top_json, "tracks");
        let top_songs = collect_names_and_ids(&top_values);
        let albums_json = match parse_body(albums_body) {
            Result::Ok(v) => v,
            Result::Err(e) => {
                return Err(e);
            },
        };
        let album_values = get_array_or_default(&albums_json, "items");
        let albums = collect_names_and_ids(&album_values);
        let singles_json = match parse_body(singles_body) {
            Result::Ok(v) => v,
            Result::Err(e) => {
                return Err(e);
            },
        };
        let single_values = get_array_or_default(&singles_json, "items");
        let singles = collect_names_and_ids(&single_values);
        Ok(
            Artist {
                id: String::new(),
                name,
                top_songs,
                albums,
                singles,
                genres,
                followers,
                monthly_listeners,
            },
        )
    }

    /// The value after a refresh: every attribute taken from the fetched
    /// snapshot, only the identity key kept.
    pub open spec fn spec_refreshed(self, fresh: Artist) -> Artist {
        Artist { id: self.id, ..fresh }
    }

    /// Overwrites the attributes from a freshly fetched snapshot, keeping
    /// the identity key the refresh was made for.
    pub fn refresh_from(&mut self, fresh: Artist)
        ensures
            *final(self) == old(self).spec_refreshed(fresh),
    {
        let id = self.id.clone();
        *self = fresh;
        self.id = id;
    }
}

} // verus!
