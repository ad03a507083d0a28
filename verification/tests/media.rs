use vif::embedding::EmbeddingError;
use vif::media::{
    hit_link, media_key, MediaUrl, search_key, strip_url_parameters, EmbedOutcome, IndexAction, IndexError,
    Indexer, IndexPhase, SearchAction, SearchError, SearchPhase, Searcher, UrlError, UUID_NAMESPACE,
};

const EXAMPLE_ORG: u128 = 0x54a35416_963c_5dd6_a1e2_5ab7bb5bafc7;

#[test]
fn search_key_is_the_v5_uuid_of_the_text() {
    assert_eq!(UUID_NAMESPACE, uuid::Uuid::NAMESPACE_URL.as_u128());
    assert_eq!(search_key("example.org"), EXAMPLE_ORG);
    assert_ne!(search_key("example.org"), search_key("example.com"));
}

#[test]
fn urls_lose_their_query() {
    let u = MediaUrl::parse("https://example.org/cat.gif?size=large#top").unwrap();
    assert_eq!(u.href(), "https://example.org/cat.gif?size=large#top");
    assert_eq!(strip_url_parameters(&u), "https://example.org/cat.gif#top");
    let v = MediaUrl::parse("https://example.org/cat.gif?size=small#top").unwrap();
    assert_eq!(media_key(&u), media_key(&v));
    let w = MediaUrl::parse("https://example.org/dog.gif").unwrap();
    assert_ne!(media_key(&u), media_key(&w));
    assert_eq!(media_key(&w), search_key("https://example.org/dog.gif"));
}

#[test]
fn index_rejects_bad_links() {
    match Indexer::start("not a url", 1, 1) {
        Err(IndexError::Url(e)) => {
            assert_eq!(e, UrlError::RelativeUrlWithoutBase);
            assert_eq!(e.description(), url::ParseError::RelativeUrlWithoutBase.to_string());
        }
        _ => panic!("expected a URL error"),
    }
}

#[test]
fn indexing_known_media_adds_the_user() {
    let (mut ix, first) = Indexer::start("https://example.org/a.gif?x=1", 7, 1).unwrap();
    let key = search_key("https://example.org/a.gif");
    assert!(matches!(first, IndexAction::FetchMedia(k) if k == key));
    match ix.on_media(Ok(Some(vec![3, 7]))) {
        IndexAction::SetUsers(k, users) => {
            assert_eq!(k, key);
            assert_eq!(users, vec![3, 7, 7]);
        }
        other => panic!("unexpected {other:?}"),
    }
    assert!(matches!(ix.on_stored(Ok(())), IndexAction::Finish(k) if k == key));
}

#[test]
fn indexing_new_media_embeds_then_inserts() {
    let (mut ix, _) = Indexer::start("https://example.org/a.gif?x=1", 7, 2).unwrap();
    assert!(matches!(ix.on_media(Ok(None)), IndexAction::Embed(0)));
    assert!(matches!(ix.on_embedded(EmbedOutcome::Embedded), IndexAction::Embed(1)));
    match ix.on_embedded(EmbedOutcome::Embedded) {
        IndexAction::InsertMedia { key, link, user } => {
            assert_eq!(key, search_key("https://example.org/a.gif"));
            assert_eq!(link, "https://example.org/a.gif?x=1");
            assert_eq!(user, 7);
        }
        other => panic!("unexpected {other:?}"),
    }
    assert!(matches!(ix.on_stored(Ok(())), IndexAction::Finish(_)));
}

#[test]
fn indexing_without_embedders_inserts_at_once() {
    let (mut ix, _) = Indexer::start("https://example.org/b.png", 1, 0).unwrap();
    assert!(matches!(ix.on_media(Ok(None)), IndexAction::InsertMedia { .. }));
}

#[test]
fn indexing_stops_at_the_first_failure() {
    let (mut ix, _) = Indexer::start("https://example.org/a.gif", 7, 3).unwrap();
    ix.on_media(Ok(None));
    assert!(matches!(ix.on_embedded(EmbedOutcome::TimedOut), IndexAction::Fail(IndexError::Timeout)));
    let (mut ix, _) = Indexer::start("https://example.org/a.gif", 7, 3).unwrap();
    ix.on_media(Ok(None));
    assert!(matches!(
        ix.on_embedded(EmbedOutcome::Failed(EmbeddingError::Ratelimit(4))),
        IndexAction::Fail(IndexError::Embedding(EmbeddingError::Ratelimit(4)))
    ));
}

#[test]
fn searching_a_new_query() {
    let (mut s, first) = Searcher::start("cats".to_string(), EXAMPLE_ORG, 5, 1);
    assert!(matches!(first, SearchAction::FetchQuery(k) if k == search_key("cats")));
    assert!(matches!(s.on_query(Ok(false)), SearchAction::Embed(0)));
    match s.on_embedded(EmbedOutcome::Embedded) {
        SearchAction::InsertQuery { key, text } => {
            assert_eq!(key, search_key("cats"));
            assert_eq!(text, "cats");
        }
        other => panic!("unexpected {other:?}"),
    }
    match s.on_stored(Ok(())) {
        SearchAction::Search { user_filter, limit } => {
            assert_eq!(user_filter, "54a35416-963c-5dd6-a1e2-5ab7bb5bafc7");
            assert_eq!(limit, 5);
        }
        other => panic!("unexpected {other:?}"),
    }
}

#[test]
fn searching_a_known_query_skips_embedding() {
    let (mut s, _) = Searcher::start("cats".to_string(), 1, 100, 1);
    assert!(matches!(s.on_query(Ok(true)), SearchAction::Search { limit: 100, .. }));
    let (mut s, _) = Searcher::start("cats".to_string(), 1, 100, 1);
    s.on_query(Ok(false));
    assert!(matches!(s.on_embedded(EmbedOutcome::TimedOut), SearchAction::Fail(SearchError::Timeout)));
}

#[test]
fn hit_links() {
    assert_eq!(hit_link(Some("https://x/y.gif".to_string())), "https://x/y.gif");
    assert_eq!(hit_link(None), "");
}

#[test]
fn url_errors_keep_their_kind() {
    for (link, kind) in [
        ("http://", UrlError::EmptyHost),
        ("http://example.org:99999/", UrlError::InvalidPort),
        ("http://[::1/", UrlError::InvalidIpv6Address),
        ("/relative/path", UrlError::RelativeUrlWithoutBase),
    ] {
        match MediaUrl::parse(link) {
            Err(IndexError::Url(e)) => assert_eq!(e, kind, "{link}"),
            _ => panic!("expected an error for {link}"),
        }
        let original = url::Url::parse(link).unwrap_err();
        assert_eq!(kind.description(), original.to_string());
    }
}

#[test]
fn phases_can_be_read() {
    let (mut ix, _) = Indexer::start("https://example.org/a.gif", 7, 2).unwrap();
    assert_eq!(ix.phase(), IndexPhase::Fetching);
    assert_eq!(ix.embedders(), 2);
    ix.on_media(Ok(None));
    assert_eq!(ix.phase(), IndexPhase::Embedding(0));
    let (mut s, _) = Searcher::start("cats".to_string(), 1, 3, 0);
    assert_eq!(s.phase(), SearchPhase::Fetching);
    assert!(matches!(s.on_query(Ok(false)), SearchAction::InsertQuery { .. }));
    assert_eq!(s.phase(), SearchPhase::Inserting);
    assert_eq!(s.embedders(), 0);
}
