use headlines::address::compose_url;
use headlines::{
    map_response_error, Article, Country, Endpoint, FetchRequest, HeadlinesConfig, NewsAPI,
    NewsAPIResponse, NewsApiError, Reply,
};

fn article(title: &str, url: &str, description: Option<&str>) -> Article {
    Article {
        title: title.to_string(),
        url: url.to_string(),
        description: description.map(|text| text.to_string()),
    }
}

fn envelope(status: &str, code: Option<&str>, articles: Vec<Article>) -> NewsAPIResponse {
    NewsAPIResponse {
        articles,
        status: status.to_string(),
        code: code.map(|text| text.to_string()),
    }
}

#[test]
fn default_config_is_dark_without_key() {
    let config = HeadlinesConfig::default();
    assert!(config.dark_mode);
    assert_eq!(config.api_key, "");
}

#[test]
fn config_snapshot_copies_both_fields() {
    let config = HeadlinesConfig { dark_mode: false, api_key: "abc123".to_string() };
    let copy = config.snapshot();
    assert!(!copy.dark_mode);
    assert_eq!(copy.api_key, "abc123");
}

#[test]
fn endpoint_and_country_texts() {
    assert_eq!(Endpoint::TopHeadlines.to_string(), "top-headlines");
    assert_eq!(Country::Us.to_string(), "us");
}

#[test]
fn prepared_url_is_top_headlines_of_us() {
    let api = NewsAPI::new("abc123");
    assert_eq!(
        api.prepare_url(),
        Ok("https://newsapi.org/v2/top-headlines?country=us".to_string())
    );
}

#[test]
fn builder_setters_chain_and_keep_the_key() {
    let mut api = NewsAPI::new("abc123");
    api.endpoint(Endpoint::TopHeadlines).country(Country::Us);
    assert_eq!(api.api_key(), "abc123");
    assert_eq!(
        api.prepare_url(),
        Ok("https://newsapi.org/v2/top-headlines?country=us".to_string())
    );
}

#[test]
fn request_carries_the_raw_key() {
    let api = NewsAPI::new("  raw key/with?odd&chars ");
    assert_eq!(
        api.request(),
        Ok(FetchRequest {
            url: "https://newsapi.org/v2/top-headlines?country=us".to_string(),
            authorization: "  raw key/with?odd&chars ".to_string(),
        })
    );
}

#[test]
fn compose_appends_segment_and_sets_query() {
    assert_eq!(
        compose_url("https://example.com/api", "comments", "page=2"),
        Some("https://example.com/api/comments?page=2".to_string())
    );
}

#[test]
fn compose_escapes_segment_and_query() {
    assert_eq!(
        compose_url("https://example.com/api", "2/100%.png", "q=a b"),
        Some("https://example.com/api/2%2F100%25.png?q=a%20b".to_string())
    );
}

#[test]
fn compose_after_trailing_slash_leaves_an_empty_segment() {
    assert_eq!(
        compose_url("https://example.com/api/", "comments", "page=2"),
        Some("https://example.com/api//comments?page=2".to_string())
    );
}

#[test]
fn compose_replaces_an_existing_query_and_keeps_the_fragment() {
    assert_eq!(
        compose_url("https://example.com/api?old=1#top", "comments", "page=2"),
        Some("https://example.com/api/comments?page=2#top".to_string())
    );
}

#[test]
fn compose_normalises_the_base() {
    assert_eq!(
        compose_url("HTTPS://Example.COM", "a", "b"),
        Some("https://example.com/a?b".to_string())
    );
}

#[test]
fn compose_refuses_a_base_that_does_not_parse() {
    assert_eq!(compose_url("not a url", "comments", "page=2"), None);
    assert_eq!(compose_url("", "comments", "page=2"), None);
}

#[test]
fn compose_refuses_a_base_without_hierarchical_path() {
    assert_eq!(compose_url("mailto:me@example.com", "comments", "page=2"), None);
}

#[test]
fn ok_envelope_is_returned_as_it_came() {
    let articles = vec![
        article("A", "https://a.example", Some("first")),
        article("B", "https://b.example", None),
        article("C", "https://c.example", Some("")),
    ];
    let outcome = NewsAPI::receive(Reply::Envelope(envelope("ok", None, articles.clone())));
    let response = outcome.expect("an ok envelope is a success");
    assert_eq!(response.articles(), &articles);
    assert_eq!(response.articles()[0].title(), "A");
    assert_eq!(response.articles()[0].url(), "https://a.example");
    assert_eq!(response.articles()[0].desc(), Some(&"first".to_string()));
    assert_eq!(response.articles()[1].desc(), None);
    assert_eq!(response.articles()[2].desc(), Some(&String::new()));
}

#[test]
fn ok_envelope_without_articles_is_a_success() {
    let outcome = NewsAPI::receive(Reply::Envelope(envelope("ok", None, Vec::new())));
    assert_eq!(outcome, Ok(envelope("ok", None, Vec::new())));
}

#[test]
fn ok_envelope_keeps_a_stray_code() {
    let reply = Reply::Envelope(envelope("ok", Some("apiKeyDisabled"), Vec::new()));
    assert_eq!(
        NewsAPI::receive(reply),
        Ok(envelope("ok", Some("apiKeyDisabled"), Vec::new()))
    );
}

#[test]
fn disabled_key_is_reported_as_such() {
    let reply = Reply::Envelope(envelope("error", Some("apiKeyDisabled"), Vec::new()));
    assert_eq!(
        NewsAPI::receive(reply),
        Err(NewsApiError::BadRequest("Your API key has been disabled"))
    );
}

#[test]
fn other_codes_are_unknown_errors() {
    for code in [Some("rateLimited"), Some("apikeydisabled"), Some(""), None] {
        let reply = Reply::Envelope(envelope("error", code, Vec::new()));
        assert_eq!(NewsAPI::receive(reply), Err(NewsApiError::BadRequest("Unknown Error")));
    }
}

#[test]
fn status_must_be_exactly_ok() {
    for status in ["OK", "Ok", "ok ", "", "error"] {
        let reply = Reply::Envelope(envelope(status, None, vec![article("A", "u", None)]));
        assert_eq!(NewsAPI::receive(reply), Err(NewsApiError::BadRequest("Unknown Error")));
    }
}

#[test]
fn replies_without_envelope_become_their_errors() {
    assert_eq!(NewsAPI::receive(Reply::Unreachable), Err(NewsApiError::RequestFailed));
    assert_eq!(NewsAPI::receive(Reply::Unreadable), Err(NewsApiError::FailedResponseToString));
    assert_eq!(NewsAPI::receive(Reply::Malformed), Err(NewsApiError::ArticleParseFailed));
}

#[test]
fn map_response_error_by_code() {
    assert_eq!(
        map_response_error(Some("apiKeyDisabled".to_string())),
        NewsApiError::BadRequest("Your API key has been disabled")
    );
    assert_eq!(
        map_response_error(Some("apiKeyInvalid".to_string())),
        NewsApiError::BadRequest("Unknown Error")
    );
    assert_eq!(map_response_error(None), NewsApiError::BadRequest("Unknown Error"));
}

#[test]
fn error_messages() {
    assert_eq!(NewsApiError::RequestFailed.message(), "Failed fetching articles");
    assert_eq!(
        NewsApiError::FailedResponseToString.message(),
        "Failed converting response to string"
    );
    assert_eq!(NewsApiError::ArticleParseFailed.message(), "Article Parsing Failed ... Ah Shit");
    assert_eq!(NewsApiError::UrlParsing.message(), "URL parsing failed");
    assert_eq!(
        NewsApiError::BadRequest("Your API key has been disabled").message(),
        "Request failed: Your API key has been disabled"
    );
    assert_eq!(
        NewsApiError::BadRequest("Unknown Error").message(),
        "Request failed: Unknown Error"
    );
}
