//! The client of the sandbox service: where requests go and what every
//! request carries.
//!
//! Sending a request and receiving its reply is left to the caller. The
//! client says where a request goes, `payload` says what a creation carries,
//! and `reply` reads the status and the body that came back.

use reqwest::header::{HeaderMap, HeaderValue};
use reqwest::Url;
use vstd::prelude::*;
use vstd::string::*;
use vstd::utf8::encode_utf8;
use crate::config::Config;
use crate::error::{ClientError, ConfigurationFault, Failure};
use crate::transport::{
    append_query_pair, header_bytes, header_char, header_fields, header_text, header_value,
    insert_header, join_url, pair_fits, parse_url, root_fits, url_is_base, url_joined,
    url_parsed, url_path, url_text, url_with_pair, url_with_root, utf8_len,
};

pub use crate::payload::NewSandboxPayload;

verus! {

/// What the service answers for a sandbox: the identifier it gave it.
#[derive(Debug, PartialEq, Eq)]
pub struct SandboxRecord {
    pub id: String,
}

/// The headers that every request carries, for the admin token `token`:
/// JSON is accepted, JSON is sent, and the token authorizes as a bearer.
pub open spec fn default_fields(token: Seq<char>) -> Map<Seq<char>, Seq<Seq<u8>>> {
    Map::<Seq<char>, Seq<Seq<u8>>>::empty().insert(
        "accept"@,
        seq![encode_utf8("application/json"@)],
    ).insert("content-type"@, seq![encode_utf8("application/json"@)]).insert(
        "authorization"@,
        seq![encode_utf8("Bearer "@ + token)],
    )
}

/// The URL that an endpoint is read as. The endpoint itself is taken where
/// it is a URL against which paths can be resolved, and else the endpoint
/// with `http://` before it.
pub open spec fn endpoint_url(endpoint: Seq<char>) -> Option<Url> {
    match url_parsed(endpoint) {
        Some(url) if url_is_base(url_text(url)) => Some(url),
        _ => url_parsed("http://"@ + endpoint),
    }
}

/// The base URL of a client for an endpoint: the URL that the endpoint is
/// read as, with the path `/` where it has none. A URL without a path that
/// is too long to take one gives no base URL.
pub open spec fn base_url_of(endpoint: Seq<char>) -> Result<Url, ConfigurationFault> {
    match endpoint_url(endpoint) {
        None => Err(ConfigurationFault::InvalidEndpoint),
        Some(url) => if url_path(url).len() > 0 {
            Ok(url)
        } else if !root_fits(url_text(url)) {
            Err(ConfigurationFault::UrlTooLong)
        } else {
            Ok(url_with_root(url))
        },
    }
}

/// Why no client can be made from a token and an endpoint, if that is so:
/// the token is looked at first, then the endpoint.
pub open spec fn construction_fault(token: Seq<char>, endpoint: Seq<char>) -> Option<
    ConfigurationFault,
> {
    if !header_text(token) {
        Some(ConfigurationFault::InvalidToken)
    } else {
        match base_url_of(endpoint) {
            Ok(_) => None,
            Err(fault) => Some(fault),
        }
    }
}

/// The URL of the collection of sandboxes under the base URL `base`.
pub open spec fn sandboxes_url_of(base: Url) -> Result<Url, ConfigurationFault> {
    match url_joined(base, "/api/v0/sandboxes"@) {
        Some(url) => Ok(url),
        None => Err(ConfigurationFault::InvalidEndpoint),
    }
}

/// The URL that lists at most one sandbox tagged `tag`: the collection's
/// URL with the query pairs `tags` and `limit`. A URL that is too long to
/// take one of the pairs gives none.
pub open spec fn exists_url_of(base: Url, tag: Seq<char>) -> Result<Url, ConfigurationFault> {
    match sandboxes_url_of(base) {
        Err(fault) => Err(fault),
        Ok(collection) => {
            let tagged = url_with_pair(collection, "tags"@, tag);
            if !pair_fits(url_text(collection), "tags"@, tag) || !pair_fits(
                url_text(tagged),
                "limit"@,
                "1"@,
            ) {
                Err(ConfigurationFault::UrlTooLong)
            } else {
                Ok(url_with_pair(tagged, "limit"@, "1"@))
            }
        },
    }
}

/// Number of bytes that a text takes.
fn byte_len(text: &str) -> (n: usize)
    ensures
        n == utf8_len(text@),
{
    text.as_bytes().len()
}

/// Whether a URL can take the single slash as its path.
fn root_fits_in(url: &Url) -> (r: bool)
    ensures
        r == root_fits(url_text(*url)),
{
    let url_len: u128 = byte_len(url.as_str()) as u128;
    url_len + 3 <= 0xffff_ffff
}

/// Whether a URL can take one more query pair of this name and value.
fn pair_fits_in(url: &Url, name: &str, value: &str) -> (r: bool)
    ensures
        r == pair_fits(url_text(*url), name@, value@),
{
    let url_len: u128 = byte_len(url.as_str()) as u128;
    let name_len: u128 = byte_len(name) as u128;
    let value_len: u128 = byte_len(value) as u128;
    url_len + 3 * (name_len + value_len) + 2 <= 0xffff_ffff
}

/// The header value that names JSON as a media type.
fn json_media_type() -> (r: HeaderValue)
    ensures
        header_bytes(r) == encode_utf8("application/json"@),
{
    proof {
        reveal_strlit("application/json");
    }
    match header_value("application/json") {
        Some(value) => value,
        None => unreached(),
    }
}

/// Where requests go and what every request carries.
pub struct TsbxClient {
    base_url: Url,
    headers: HeaderMap,
}

impl TsbxClient {
    /// The base URL.
    pub closed spec fn base(&self) -> Url {
        self.base_url
    }

    /// The headers that every request carries.
    pub closed spec fn fields(&self) -> Map<Seq<char>, Seq<Seq<u8>>> {
        header_fields(self.headers)
    }

    /// A client for the service at `config.tsbx_host_url`, authorized by
    /// `config.tsbx_admin_token`. It fails where the token cannot stand in a
    /// header, and else where the endpoint gives no base URL. The base URL
    /// of a client has a path.
    pub fn new(config: &Config) -> (r: Result<TsbxClient, ClientError>)
        ensures
            match r {
                Ok(client) => {
                    &&& construction_fault(config.tsbx_admin_token@, config.tsbx_host_url@) is None
                    &&& base_url_of(config.tsbx_host_url@) == Ok::<_, ConfigurationFault>(
                        client.base(),
                    )
                    &&& url_path(client.base()).len() > 0
                    &&& client.fields() == default_fields(config.tsbx_admin_token@)
                },
                Err(e) => e@ matches Failure::Configuration(fault) && construction_fault(
                    config.tsbx_admin_token@,
                    config.tsbx_host_url@,
                ) == Some(fault),
            },
    {
        let headers = match Self::default_headers(config.tsbx_admin_token.as_str()) {
            Ok(headers) => headers,
            Err(e) => { return Err(e); },
        };
        let endpoint = config.tsbx_host_url.as_str();
        let direct = match parse_url(endpoint) {
            Some(url) => if url.cannot_be_a_base() {
                None
            } else {
                Some(url)
            },
            None => None,
        };
        let chosen = match direct {
            Some(url) => Some(url),
            None => parse_url("http://".to_owned().concat(endpoint).as_str()),
        };
        let mut base_url = match chosen {
            Some(url) => url,
            None => {
                return Err(ClientError::Configuration(ConfigurationFault::InvalidEndpoint));
            },
        };
        if base_url.path().is_empty() {
            if !root_fits_in(&base_url) {
                return Err(ClientError::Configuration(ConfigurationFault::UrlTooLong));
            }
            base_url.set_path("/");
        }
        Ok(TsbxClient { base_url, headers })
    }

    /// The headers that every request carries, for the admin token `token`.
    /// It fails exactly where the token cannot stand in a header.
    pub fn default_headers(token: &str) -> (r: Result<HeaderMap, ClientError>)
        ensures
            match r {
                Ok(headers) => header_text(token@) && header_fields(headers) == default_fields(
                    token@,
                ),
                Err(e) => !header_text(token@) && e@ == Failure::Configuration(
                    ConfigurationFault::InvalidToken,
                ),
            },
    {
        proof {
            reveal_strlit("Bearer ");
        }
        let bearer = "Bearer ".to_owned().concat(token);
        assert(header_text(bearer@) <==> header_text(token@)) by {
            if header_text(bearer@) {
                assert forall|i: int| 0 <= i < token@.len() implies header_char(
                    #[trigger] token@[i],
                ) by {
                    assert(bearer@[i + 7] == token@[i]);
                }
            }
        }
        let authorization = match header_value(bearer.as_str()) {
            Some(value) => value,
            None => {
                return Err(ClientError::Configuration(ConfigurationFault::InvalidToken));
            },
        };
        proof {
            reveal_strlit("accept");
            reveal_strlit("content-type");
            reveal_strlit("authorization");
        }
        let mut headers = HeaderMap::new();
        insert_header(&mut headers, "accept", json_media_type());
        insert_header(&mut headers, "content-type", json_media_type());
        insert_header(&mut headers, "authorization", authorization);
        Ok(headers)
    }

    /// The base URL.
    pub fn base_url(&self) -> (r: &Url)
        ensures
            *r == self.base(),
    {
        &self.base_url
    }

    /// The headers that every request carries.
    pub fn headers(&self) -> (r: &HeaderMap)
        ensures
            header_fields(*r) == self.fields(),
    {
        &self.headers
    }

    /// The URL of the collection of sandboxes: the path `/api/v0/sandboxes`
    /// resolved against the base URL.
    pub fn sandboxes_url(&self) -> (r: Result<Url, ClientError>)
        ensures
            match r {
                Ok(url) => sandboxes_url_of(self.base()) == Ok::<_, ConfigurationFault>(url),
                Err(e) => e@ matches Failure::Configuration(fault) && sandboxes_url_of(self.base())
                    == Err::<Url, _>(fault),
            },
    {
        match join_url(&self.base_url, "/api/v0/sandboxes") {
            Some(url) => Ok(url),
            None => Err(ClientError::Configuration(ConfigurationFault::InvalidEndpoint)),
        }
    }

    /// The URL to ask whether a sandbox tagged `tag` exists: the collection
    /// filtered by the tag, with no more than one sandbox listed.
    pub fn exists_url(&self, tag: &str) -> (r: Result<Url, ClientError>)
        ensures
            match r {
                Ok(url) => exists_url_of(self.base(), tag@) == Ok::<_, ConfigurationFault>(url),
                Err(e) => e@ matches Failure::Configuration(fault) && exists_url_of(
                    self.base(),
                    tag@,
                ) == Err::<Url, _>(fault),
            },
    {
        let mut url = match self.sandboxes_url() {
            Ok(url) => url,
            Err(e) => { return Err(e); },
        };
        if !pair_fits_in(&url, "tags", tag) {
            return Err(ClientError::Configuration(ConfigurationFault::UrlTooLong));
        }
        append_query_pair(&mut url, "tags", tag);
        if !pair_fits_in(&url, "limit", "1") {
            return Err(ClientError::Configuration(ConfigurationFault::UrlTooLong));
        }
        append_query_pair(&mut url, "limit", "1");
        Ok(url)
    }
}

} // verus!
