//! The client that holds the account's configuration and tokens, builds the
//! authorization link, and prepares the token-exchange requests. The HTTP
//! calls themselves belong to the surrounding program.
use crate::config::Config;
use crate::error::AppError;
use crate::strings::push_char;
use base64::Engine;
use vstd::prelude::*;
use vstd::string::StringExecFns;

verus! {

/// The standard base64 encoding of a byte sequence; it depends on the bytes
/// alone.
pub uninterp spec fn base64_of(bytes: Seq<u8>) -> Seq<char>;

/// Relies on base64's general-purpose standard engine: encodes with the
/// standard alphabet, a function of the bytes alone.
#[verifier::external_body]
fn base64_encode(bytes: &[u8]) -> (r: String)
    ensures
        r@ == base64_of(bytes@),
{
    base64::engine::general_purpose::STANDARD.encode(bytes)
}

#[verifier::external_type_specification]
#[verifier::external_body]
pub struct ExUrl(reqwest::Url);

/// Whether the url crate accepts a string as an absolute URL; it depends on
/// the string alone.
pub uninterp spec fn url_parse_ok(s: Seq<char>) -> bool;

/// A base URL serialized with four query pairs appended, each percent-
/// encoded; nothing when the base does not parse. It depends on the base
/// and the pairs alone.
pub uninterp spec fn url_with_query_of(
    base: Seq<char>,
    key1: Seq<char>,
    value1: Seq<char>,
    key2: Seq<char>,
    value2: Seq<char>,
    key3: Seq<char>,
    value3: Seq<char>,
    key4: Seq<char>,
    value4: Seq<char>,
) -> Option<Seq<char>>;

/// Relies on `Url::parse`, `Url::query_pairs_mut` with
/// `Serializer::append_pair`, and `Url::as_str`, as reqwest re-exports
/// them: parses the base, appends the four pairs form-encoded, and
/// serializes the result — a function of the base and the pairs alone,
/// failing exactly when the base does not parse.
#[verifier::external_body]
fn compose_url_with_query(
    base: &str,
    key1: &str,
    value1: &str,
    key2: &str,
    value2: &str,
    key3: &str,
    value3: &str,
    key4: &str,
    value4: &str,
) -> (r: Option<String>)
    ensures
        r is Some <==> url_parse_ok(base@),
        match (r, url_with_query_of(
            base@,
            key1@,
            value1@,
            key2@,
            value2@,
            key3@,
            value3@,
            key4@,
            value4@,
        )) {
            (Option::Some(s), Option::Some(v)) => s@ == v,
            (Option::None, Option::None) => true,
            _ => false,
        },
{
    let mut url = reqwest::Url::parse(base).ok()?;
    url.query_pairs_mut()
        .append_pair(key1, value1)
        .append_pair(key2, value2)
        .append_pair(key3, value3)
        .append_pair(key4, value4);
    Some(url.as_str().to_owned())
}

/// The Basic authorization header for a client id and secret: the base64
/// encoding of the two joined by a colon.
pub open spec fn basic_auth_of(client_id: Seq<char>, client_secret: Seq<char>) -> Seq<char> {
    "Basic "@ + base64_of(vstd::utf8::encode_utf8(client_id + ":"@ + client_secret))
}

fn basic_auth_header(client_id: &String, client_secret: &String) -> (r: String)
    ensures
        r@ == basic_auth_of(client_id@, client_secret@),
{
    let mut joined = client_id.clone();
    push_char(&mut joined, ':');
    joined.append(client_secret.as_str());
    proof {
        reveal_strlit(":");
        assert(joined@ =~= client_id@ + ":"@ + client_secret@);
    }
    let encoded = base64_encode(joined.as_str().as_bytes());
    let mut r = "Basic ".to_owned();
    r.append(encoded.as_str());
    proof {
        assert(r@ =~= basic_auth_of(client_id@, client_secret@));
    }
    r
}

/// Decides whether a failed request should be retried after refreshing the
/// bearer token: only a 401 response, and only once.
pub fn should_refresh_and_retry(status: u16, already_retried: bool) -> (r: bool)
    ensures
        r == (status == 401 && !already_retried),
{
    status == 401 && !already_retried
}

/// The end of the one-shot retry rule: a call that still answers 401 after
/// the token refresh is not read as data, it surfaces as an error; any
/// other response passes through unchanged.
pub fn surface_final_status(status: u16, body: String) -> (r: Result<(u16, String), AppError>)
    ensures
        status == 401 ==> (r matches Err(e) && e.message_view()
            == "Still unauthorized after refreshing the access token."@),
        status != 401 ==> (r matches Ok(p) && p.0 == status && p.1 == body),
{
    if status == 401 {
        Err(AppError::new("Still unauthorized after refreshing the access token."))
    } else {
        Ok((status, body))
    }
}

#[derive(Debug)]
pub struct Credentials {
    pub access_token: String,
    pub refresh_token: String,
}

impl Clone for Credentials {
    fn clone(&self) -> (r: Credentials)
        ensures
            r == *self,
    {
        Credentials {
            access_token: self.access_token.clone(),
            refresh_token: self.refresh_token.clone(),
        }
    }
}

/// A copy of optional credentials, equal to the original.
pub fn clone_opt_credentials(v: &Option<Credentials>) -> (r: Option<Credentials>)
    ensures
        r == *v,
{
    match v {
        Option::Some(c) => Some(c.clone()),
        Option::None => None,
    }
}

/// A prepared request against the token endpoint: the authorization header
/// and the form body, as plain pairs.
#[derive(Clone, Debug)]
pub struct TokenRequest {
    pub auth_header: String,
    pub body: Vec<(String, String)>,
}

#[derive(Clone, Debug)]
pub struct SpotifyClient {
    pub config: Config,
    pub credentials: Option<Credentials>,
    pub code: Option<String>,
    pub auth_url: String,
}

impl SpotifyClient {
    /// Builds a client from a configuration and whatever credentials were
    /// already persisted. Fails, with a message naming the first missing
    /// field, when the client id, redirect URI or scope is absent.
    pub fn new(config: Config, stored_credentials: Option<Credentials>) -> (r: Result<
        SpotifyClient,
        AppError,
    >)
        ensures
            config.client_id is None ==> (r matches Err(e) && e.message_view()
                == "Failed to create Spotify Client: \nNo Client ID provided."@),
            config.client_id is Some && config.redirect_uri is None ==> (r matches Err(e)
                && e.message_view()
                == "Failed to create Spotify Client: \nNo Redirect URI provided."@),
            config.client_id is Some && config.redirect_uri is Some && config.scope is None ==> (r
                matches Err(e) && e.message_view()
                == "Failed to create Spotify Client: \nNo Scope Provided."@),
            config.is_complete_spec() && url_parse_ok(
                "https://accounts.spotify.com/authorize"@,
            ) ==> r is Ok,
            config.is_complete_spec() && !url_parse_ok(
                "https://accounts.spotify.com/authorize"@,
            ) ==> (r matches Err(e) && e.message_view()
                == "Failed to create Spotify Client: \n"@),
            r matches Ok(c) ==> c.config == config && c.credentials == stored_credentials
                && c.code is None,
            r matches Ok(c) ==> (url_with_query_of(
                "https://accounts.spotify.com/authorize"@,
                "response_type"@,
                "code"@,
                "client_id"@,
                config.client_id->Some_0@,
                "redirect_uri"@,
                config.redirect_uri->Some_0@,
                "scope"@,
                config.scope->Some_0@,
            ) matches Some(serialized) && c.auth_url@ == serialized),
    {
        let client_id: &String;
        match &config.client_id {
            Option::Some(id) => {
                client_id = id;
            },
            Option::None => {
                return Err(
                    AppError::new("Failed to create Spotify Client: \nNo Client ID provided."),
                );
            },
        }
        let redirect_uri: &String;
        match &config.redirect_uri {
            Option::Some(uri) => {
                redirect_uri = uri;
            },
            Option::None => {
                return Err(
                    AppError::new("Failed to create Spotify Client: \nNo Redirect URI provided."),
                );
            },
        }
        let scope: &String;
        match &config.scope {
            Option::Some(sc) => {
                scope = sc;
            },
            Option::None => {
                return Err(
                    AppError::new("Failed to create Spotify Client: \nNo Scope Provided."),
                );
            },
        }
        let composed = compose_url_with_query(
            "https://accounts.spotify.com/authorize",
            "response_type",
            "code",
            "client_id",
            client_id.as_str(),
            "redirect_uri",
            redirect_uri.as_str(),
            "scope",
            scope.as_str(),
        );
        let auth_url = match composed {
            Option::Some(serialized) => serialized,
            Option::None => {
                return Err(AppError::new("Failed to create Spotify Client: \n"));
            },
        };
        Ok(SpotifyClient { config, credentials: stored_credentials, code: None, auth_url })
    }

    /// The bearer header for an API call, owed exactly when credentials are
    /// set.
    pub fn get_auth_header(&self) -> (r: Result<String, AppError>)
        ensures
            match self.credentials {
                Option::Some(c) => r matches Ok(h) && h@ == "Bearer "@ + c.access_token@,
                Option::None => r matches Err(e) && e.message_view() == "No credentials set"@,
            },
    {
        match &self.credentials {
            Option::Some(credentials) => {
                let mut h = "Bearer ".to_owned();
                h.append(credentials.access_token.as_str());
                Ok(h)
            },
            Option::None => Err(AppError::new("No credentials set")),
        }
    }

    /// The authorization-code exchange request, buildable exactly when the
    /// client id, secret and redirect URI are all configured.
    pub fn auth_code_request(&self, code: &String) -> (r: Option<TokenRequest>)
        ensures
            (r is Some <==> self.config.client_id is Some && self.config.client_secret is Some
                && self.config.redirect_uri is Some),
            r matches Some(req) ==> {
                &&& req.auth_header@ == basic_auth_of(
                    self.config.client_id->Some_0@,
                    self.config.client_secret->Some_0@,
                )
                &&& req.body.deep_view() =~= seq![
                    ("code"@, code@),
                    ("grant_type"@, "authorization_code"@),
                    ("redirect_uri"@, self.config.redirect_uri->Some_0@),
                ]
            },
    {
        match (&self.config.client_id, &self.config.client_secret, &self.config.redirect_uri) {
            (Option::Some(client_id), Option::Some(client_secret), Option::Some(redirect_uri)) => {
                let auth_header = basic_auth_header(client_id, client_secret);
                let mut body = Vec::<(String, String)>::new();
                body.push(("code".to_owned(), code.clone()));
                body.push(("grant_type".to_owned(), "authorization_code".to_owned()));
                body.push(("redirect_uri".to_owned(), redirect_uri.clone()));
                Some(TokenRequest { auth_header, body })
            },
            _ => None,
        }
    }

    /// The refresh-token exchange request, buildable exactly when
    /// credentials and the client id and secret are all present.
    pub fn refresh_token_request(&self) -> (r: Option<TokenRequest>)
        ensures
            (r is Some <==> self.credentials is Some && self.config.client_id is Some
                && self.config.client_secret is Some),
            r matches Some(req) ==> {
                &&& req.auth_header@ == basic_auth_of(
                    self.config.client_id->Some_0@,
                    self.config.client_secret->Some_0@,
                )
                &&& req.body.deep_view() =~= seq![
                    ("grant_type"@, "refresh_token"@),
                    ("refresh_token"@, self.credentials->Some_0.refresh_token@),
                    ("client_id"@, self.config.client_id->Some_0@),
                ]
            },
    {
        match (&self.credentials, &self.config.client_id, &self.config.client_secret) {
            (Option::Some(credentials), Option::Some(client_id), Option::Some(client_secret)) => {
                let auth_header = basic_auth_header(client_id, client_secret);
                let mut body = Vec::<(String, String)>::new();
                body.push(("grant_type".to_owned(), "refresh_token".to_owned()));
                body.push(("refresh_token".to_owned(), credentials.refresh_token.clone()));
                body.push(("client_id".to_owned(), client_id.clone()));
                Some(TokenRequest { auth_header, body })
            },
            _ => None,
        }
    }

    /// The access and refresh tokens a token-endpoint response carries,
    /// each absent when the response lacks it or it is not a string; it
    /// succeeds exactly when the body parses as JSON.
    pub fn tokens_from_response(body: &str) -> (r: Result<
        (Option<String>, Option<String>),
        AppError,
    >)
        ensures
            r is Ok <==> crate::json::json_parse_ok(body@),
            r matches Ok(tokens) ==> ({
                &&& match (tokens.0, crate::json::json_string_field_of(
                    body@,
                    "access_token"@,
                )) {
                    (Option::Some(t), Option::Some(v)) => t@ == v,
                    (Option::None, Option::None) => true,
                    _ => false,
                }
                &&& match (tokens.1, crate::json::json_string_field_of(
                    body@,
                    "refresh_token"@,
                )) {
                    (Option::Some(t), Option::Some(v)) => t@ == v,
                    (Option::None, Option::None) => true,
                    _ => false,
                }
            }),
    {
        match crate::json::parse_body(body) {
            Result::Ok(_) => {},
            Result::Err(e) => {
                return Err(e);
            },
        }
        let access_token = crate::json::json_string_field(body, "access_token");
        let refresh_token = crate::json::json_string_field(body, "refresh_token");
        Ok((access_token, refresh_token))
    }

    /// Records the authorization code and, when the exchange yielded both
    /// tokens, adopts them as the credentials. The returned credentials, if
    /// any, are what the caller must persist.
    pub fn apply_code_exchange(
        &mut self,
        code: String,
        access_token: Option<String>,
        refresh_token: Option<String>,
    ) -> (saved: Option<Credentials>)
        ensures
            final(self).code matches Some(c) && c == code,
            final(self).config == old(self).config,
            final(self).auth_url == old(self).auth_url,
            match (access_token, refresh_token) {
                (Option::Some(access), Option::Some(refresh)) => {
                    &&& final(self).credentials matches Some(cr) && cr.access_token == access
                        && cr.refresh_token == refresh
                    &&& saved == final(self).credentials
                },
                _ => {
                    &&& final(self).credentials == old(self).credentials
                    &&& saved is None
                },
            },
    {
        self.code = Some(code);
        match (access_token, refresh_token) {
            (Option::Some(access), Option::Some(refresh)) => {
                let credentials = Credentials { access_token: access, refresh_token: refresh };
                self.credentials = Some(credentials.clone());
                Some(credentials)
            },
            _ => None,
        }
    }

    /// Adopts a refreshed access token, keeping the refresh token; without
    /// credentials there is nothing to refresh. A missing token in the
    /// response keeps the old access token. The returned credentials, if
    /// any, are what the caller must persist.
    pub fn apply_token_refresh(&mut self, access_token: Option<String>) -> (saved: Option<
        Credentials,
    >)
        ensures
            final(self).code == old(self).code,
            final(self).config == old(self).config,
            final(self).auth_url == old(self).auth_url,
            match old(self).credentials {
                Option::Some(cr) => {
                    &&& final(self).credentials matches Some(ncr) && ncr.refresh_token
                        == cr.refresh_token && ncr.access_token == (match access_token {
                        Option::Some(a) => a,
                        Option::None => cr.access_token,
                    })
                    &&& saved == final(self).credentials
                },
                Option::None => {
                    &&& final(self).credentials is None
                    &&& saved is None
                },
            },
    {
        match &self.credentials {
            Option::Some(credentials) => {
                let access = match access_token {
                    Option::Some(a) => a,
                    Option::None => credentials.access_token.clone(),
                };
                let new_credentials = Credentials {
                    access_token: access,
                    refresh_token: credentials.refresh_token.clone(),
                };
                self.credentials = Some(new_credentials.clone());
                Some(new_credentials)
            },
            Option::None => None,
        }
    }
}

} // verus!
