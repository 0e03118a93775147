use askrepo_service::config::Config;
use askrepo_service::error::{ClientError, ConfigurationFault};
use askrepo_service::reply::is_success;
use askrepo_service::tsbx::TsbxClient;
use reqwest::Url;
use std::time::Duration;

fn config(host: &str, token: &str) -> Config {
    Config {
        twitter_bearer_token: "bearer".to_string(),
        twitter_user_id: "1".to_string(),
        twitter_api_base: "https://api.x.com".to_string(),
        poll_interval: Duration::from_secs(90),
        tsbx_host_url: host.to_string(),
        tsbx_admin_token: token.to_string(),
        initial_since_id: None,
        twitter_api_key: Some("key".to_string()),
        twitter_api_secret: Some("secret".to_string()),
        twitter_access_token: Some("access".to_string()),
        twitter_access_token_secret: Some("access-secret".to_string()),
    }
}

fn client(host: &str) -> TsbxClient {
    TsbxClient::new(&config(host, "admin")).ok().unwrap()
}

fn failure(host: &str, token: &str) -> ClientError {
    TsbxClient::new(&config(host, token)).err().unwrap()
}

#[test]
fn endpoint_without_scheme_gets_http() {
    let client = client("localhost:9000");
    let base = client.base_url();
    assert_eq!(base.scheme(), "http");
    assert_eq!(base.host_str(), Some("localhost"));
    assert_eq!(base.port(), Some(9000));
    assert_eq!(base.path(), "/");
    assert_eq!(base.as_str(), "http://localhost:9000/");
}

#[test]
fn endpoint_that_is_no_url_is_a_configuration_error() {
    assert_eq!(
        failure("not a url at all \u{0}", "admin"),
        ClientError::Configuration(ConfigurationFault::InvalidEndpoint)
    );
    assert_eq!(failure("", "admin"), ClientError::Configuration(ConfigurationFault::InvalidEndpoint));
}

#[test]
fn endpoint_with_scheme_is_taken_as_it_is() {
    assert_eq!(client("http://localhost:9000").base_url().as_str(), "http://localhost:9000/");
    assert_eq!(client("https://tsbx.example.test").base_url().as_str(), "https://tsbx.example.test/");
    assert_eq!(
        client("https://tsbx.example.test/prefix/").base_url().as_str(),
        "https://tsbx.example.test/prefix/"
    );
}

#[test]
fn bare_host_gets_http() {
    let client = client("tsbx.internal");
    assert_eq!(client.base_url().as_str(), "http://tsbx.internal/");
}

#[test]
fn empty_path_becomes_the_root() {
    assert_eq!(client("foo://host").base_url().as_str(), "foo://host/");
    assert_eq!(client("foo://host?x=1").base_url().as_str(), "foo://host/?x=1");
}

#[test]
fn token_that_cannot_stand_in_a_header_is_a_configuration_error() {
    for token in ["line\nbreak", "carriage\rreturn", "nul\u{0}", "delete\u{7f}"] {
        assert_eq!(
            failure("localhost:9000", token),
            ClientError::Configuration(ConfigurationFault::InvalidToken),
            "{:?}",
            token
        );
        assert_eq!(
            TsbxClient::default_headers(token).err().unwrap(),
            ClientError::Configuration(ConfigurationFault::InvalidToken)
        );
    }
}

#[test]
fn token_is_looked_at_before_the_endpoint() {
    assert_eq!(
        failure("not a url at all \u{0}", "line\nbreak"),
        ClientError::Configuration(ConfigurationFault::InvalidToken)
    );
}

#[test]
fn default_headers_are_the_three_fixed_ones() {
    let headers = TsbxClient::default_headers("s3cr3t").ok().unwrap();
    assert_eq!(headers.len(), 3);
    assert_eq!(headers.keys_len(), 3);
    assert_eq!(headers.get("accept").unwrap().as_bytes(), b"application/json");
    assert_eq!(headers.get("content-type").unwrap().as_bytes(), b"application/json");
    assert_eq!(headers.get("authorization").unwrap().as_bytes(), b"Bearer s3cr3t");
    assert_eq!(headers.get(reqwest::header::ACCEPT).unwrap(), "application/json");
    assert_eq!(headers.get(reqwest::header::CONTENT_TYPE).unwrap(), "application/json");
    assert_eq!(headers.get(reqwest::header::AUTHORIZATION).unwrap(), "Bearer s3cr3t");
}

#[test]
fn client_carries_the_default_headers() {
    let client = TsbxClient::new(&config("localhost:9000", "tok\ten")).ok().unwrap();
    assert_eq!(client.headers().len(), 3);
    assert_eq!(client.headers().get("authorization").unwrap().as_bytes(), b"Bearer tok\ten");
}

#[test]
fn token_may_hold_spaces_tabs_and_characters_beyond_ascii() {
    let headers = TsbxClient::default_headers("a b\tc\u{e9}").ok().unwrap();
    assert_eq!(
        headers.get("authorization").unwrap().as_bytes(),
        "Bearer a b\tc\u{e9}".as_bytes()
    );
    let headers = TsbxClient::default_headers("").ok().unwrap();
    assert_eq!(headers.get("authorization").unwrap().as_bytes(), b"Bearer ");
}

#[test]
fn sandboxes_url_is_the_collection_under_the_base() {
    let url = client("localhost:9000").sandboxes_url().ok().unwrap();
    assert_eq!(url.as_str(), "http://localhost:9000/api/v0/sandboxes");
    let url = client("https://tsbx.example.test/prefix/").sandboxes_url().ok().unwrap();
    assert_eq!(url.as_str(), "https://tsbx.example.test/api/v0/sandboxes");
}

#[test]
fn sandboxes_url_is_the_same_each_time() {
    let client = client("localhost:9000");
    assert_eq!(client.sandboxes_url().ok().unwrap(), client.sandboxes_url().ok().unwrap());
    assert_eq!(client.base_url().as_str(), "http://localhost:9000/");
}

#[test]
fn exists_url_filters_by_tag_and_asks_for_one() {
    let url = client("localhost:9000").exists_url("mention-12345").ok().unwrap();
    assert_eq!(url.as_str(), "http://localhost:9000/api/v0/sandboxes?tags=mention-12345&limit=1");
    let pairs: Vec<(String, String)> =
        url.query_pairs().map(|(k, v)| (k.into_owned(), v.into_owned())).collect();
    assert_eq!(
        pairs,
        vec![
            ("tags".to_string(), "mention-12345".to_string()),
            ("limit".to_string(), "1".to_string())
        ]
    );
}

#[test]
fn exists_url_encodes_the_tag() {
    let url = client("localhost:9000").exists_url("a b&c=d/\u{e9}").ok().unwrap();
    assert_eq!(
        url.as_str(),
        "http://localhost:9000/api/v0/sandboxes?tags=a+b%26c%3Dd%2F%C3%A9&limit=1"
    );
    let url = client("localhost:9000").exists_url("").ok().unwrap();
    assert_eq!(url.as_str(), "http://localhost:9000/api/v0/sandboxes?tags=&limit=1");
}

#[test]
fn tag_that_would_take_the_url_beyond_32_bits_is_refused() {
    let collection = "http://localhost:9000/api/v0/sandboxes".len();
    let room = u32::MAX as usize - collection - 3 * "tags".len() - 2;
    let tag = "a".repeat(room / 3 + 1);
    assert_eq!(
        client("localhost:9000").exists_url(&tag).err().unwrap(),
        ClientError::Configuration(ConfigurationFault::UrlTooLong)
    );
}

#[test]
fn long_tag_within_32_bits_is_taken() {
    let tag = "a".repeat(0x0100_0000);
    let url = client("localhost:9000").exists_url(&tag).ok().unwrap();
    assert_eq!(
        url.as_str().len(),
        "http://localhost:9000/api/v0/sandboxes?tags=&limit=1".len() + tag.len()
    );
    assert!(url.as_str().ends_with("aaaa&limit=1"));
}

#[test]
fn a_url_is_a_base_exactly_when_a_slash_follows_its_scheme() {
    for text in [
        "http://localhost:9000/",
        "https://user:pw@host/a:b?c:d#e",
        "foo://host",
        "foo:/a",
        "foo:/.//a",
        "unix:/run/foo.socket",
        "file:///tmp/x",
        "localhost:9000",
        "mailto:a@b",
        "data:text/plain,/x",
        "foo:",
        "a+b.c-d:x/y",
    ] {
        let url = Url::parse(text).unwrap();
        let written = url.as_str();
        let colon = written.find(':').unwrap();
        let slash_follows = written[colon + 1..].starts_with('/');
        assert_eq!(!url.cannot_be_a_base(), slash_follows, "{}", text);
    }
}

#[test]
fn success_is_any_status_from_200_to_299() {
    assert!(!is_success(0));
    assert!(!is_success(199));
    assert!(is_success(200));
    assert!(is_success(201));
    assert!(is_success(204));
    assert!(is_success(299));
    assert!(!is_success(300));
    assert!(!is_success(404));
    assert!(!is_success(500));
    assert!(!is_success(u16::MAX));
}

#[test]
fn token_is_refused_exactly_for_control_characters_other_than_tab() {
    let mut code: u32 = 0;
    while code <= 0x2ff {
        let c = char::from_u32(code).unwrap();
        let allowed = c == '\t' || (c >= ' ' && c != '\u{7f}');
        let token = format!("to{}ken", c);
        assert_eq!(TsbxClient::default_headers(&token).is_ok(), allowed, "U+{:04X}", code);
        code += 1;
    }
    for c in ['\u{2028}', '\u{fffd}', '\u{10ffff}'] {
        assert!(TsbxClient::default_headers(&c.to_string()).is_ok());
    }
}

#[test]
fn query_pair_takes_at_most_three_bytes_for_each_of_the_tag() {
    let client = client("localhost:9000");
    let collection = client.sandboxes_url().ok().unwrap().as_str().len();
    for tag in ["", "plain", "a b", "&&&&", "\u{e9}\u{e9}", "\u{10ffff}\u{1f600}", "%%%"] {
        let url = client.exists_url(tag).ok().unwrap();
        let pair = "?tags=".len() + 3 * tag.len();
        assert!(url.as_str().len() <= collection + pair + "&limit=1".len(), "{:?}", tag);
    }
}
