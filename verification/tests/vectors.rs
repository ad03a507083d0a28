use vif::vectors::{
    link_entry, media_collection, media_payload, media_record, queries_collection,
    query_record, users_from_payload, users_payload, InitAction, InitPhase, Initializer, LinkScan, PointOffset,
};

const A: u128 = 0x54a35416_963c_5dd6_a1e2_5ab7bb5bafc7;
const A_TEXT: &str = "54a35416-963c-5dd6-a1e2-5ab7bb5bafc7";
const B: u128 = 0x0123_4567_89ab_cdef_0123_4567_89ab_cdef;
const B_TEXT: &str = "01234567-89ab-cdef-0123-456789abcdef";

#[test]
fn collection_names() {
    assert_eq!(media_collection(), "media");
    assert_eq!(queries_collection(), "queries");
}

#[test]
fn users_are_stored_as_text_and_read_back() {
    let texts = users_payload(&vec![A, B, A]);
    assert_eq!(texts, vec![A_TEXT, B_TEXT, A_TEXT]);
    let entries: Vec<Option<String>> = texts.into_iter().map(Some).collect();
    assert_eq!(users_from_payload(&entries), Some(vec![A, B, A]));
    assert_eq!(users_from_payload(&vec![Some(A_TEXT.to_string()), None]), None);
    assert_eq!(users_from_payload(&vec![Some("x".to_string())]), None);
    assert_eq!(users_from_payload(&vec![]), Some(vec![]));
}

#[test]
fn new_media_payload() {
    let p = media_payload("https://x/y.gif".to_string(), B);
    assert_eq!(p.link, "https://x/y.gif");
    assert_eq!(p.users, vec![B_TEXT]);
}

#[test]
fn reading_stored_records() {
    let r = media_record(true, Some("\"https://x\"".to_string()), Some(vec![Some(A_TEXT.to_string())])).unwrap();
    assert_eq!(r.link, "\"https://x\"");
    assert_eq!(r.users, vec![A]);
    assert!(media_record(false, Some("l".to_string()), Some(vec![])).is_none());
    assert!(media_record(true, None, Some(vec![])).is_none());
    assert!(media_record(true, Some("l".to_string()), None).is_none());
    assert!(media_record(true, Some("l".to_string()), Some(vec![None])).is_none());
    assert_eq!(query_record(true, Some("cats".to_string())), Some("cats".to_string()));
    assert_eq!(query_record(false, Some("cats".to_string())), None);
    assert_eq!(query_record(true, None), None);
}

#[test]
fn link_entries() {
    assert_eq!(link_entry(Some(A_TEXT.to_string()), Some("l".to_string())), Some((A, "l".to_string())));
    assert_eq!(link_entry(None, Some("l".to_string())), None);
    assert_eq!(link_entry(Some(A_TEXT.to_string()), None), None);
    assert_eq!(link_entry(Some("7".to_string()), Some("l".to_string())), None);
}

#[test]
fn scanning_links_page_by_page() {
    let (mut scan, first) = LinkScan::start(A);
    assert_eq!(first.user_filter, A_TEXT);
    assert_eq!(first.limit, 100);
    assert!(first.offset.is_none());
    let page1 = vec![
        (Some(A_TEXT.to_string()), Some("one".to_string())),
        (None, Some("skipped".to_string())),
        (Some(B_TEXT.to_string()), Some("two".to_string())),
    ];
    let next = scan.on_page(page1, Some(PointOffset::Uuid(B_TEXT.to_string()))).unwrap();
    assert_eq!(next.limit, 100);
    assert!(matches!(next.offset, Some(PointOffset::Uuid(ref s)) if s == B_TEXT));
    let page2 = vec![(Some(A_TEXT.to_string()), Some("three".to_string()))];
    assert!(scan.on_page(page2, None).is_none());
    let links = scan.into_links();
    assert_eq!(links.len(), 2);
    assert_eq!(links[&A], "three");
    assert_eq!(links[&B], "two");
}

#[test]
fn an_empty_page_ends_the_scan() {
    let (mut scan, _) = LinkScan::start(A);
    assert!(scan.on_page(vec![], Some(PointOffset::Num(3))).is_none());
    assert!(scan.into_links().is_empty());
}

#[test]
fn uuid_text_forms_that_read() {
    let upper = "54A35416-963C-5DD6-A1E2-5AB7BB5BAFC7";
    for s in [A_TEXT, upper, "54a35416963c5dd6a1e25ab7bb5bafc7", "{54a35416-963c-5dd6-a1e2-5ab7bb5bafc7}",
              "urn:uuid:54a35416-963c-5dd6-a1e2-5ab7bb5bafc7", "URN:UUID:54a35416-963c-5dd6-a1e2-5ab7bb5bafc7"] {
        assert_eq!(users_from_payload(&vec![Some(s.to_string())]), Some(vec![A]), "{s}");
        assert_eq!(uuid::Uuid::parse_str(s).unwrap().as_u128(), A);
    }
    for s in ["54a35416-963c-5dd6-a1e2-5ab7bb5bafc", "54a35416_963c_5dd6_a1e2_5ab7bb5bafc7", "g4a35416963c5dd6a1e25ab7bb5bafc7",
              "(54a35416-963c-5dd6-a1e2-5ab7bb5bafc7)", "urn:uuix:54a35416-963c-5dd6-a1e2-5ab7bb5bafc7", ""] {
        assert_eq!(users_from_payload(&vec![Some(s.to_string())]), None, "{s}");
        assert!(uuid::Uuid::parse_str(s).is_err());
    }
}

#[test]
fn collections_are_created_only_when_absent() {
    let (mut init, first) = Initializer::start();
    assert!(matches!(first, InitAction::CheckExists(ref n) if n == "media"));
    assert!(matches!(init.on_exists(Ok(false)), InitAction::Create(ref n) if n == "media"));
    assert_eq!(init.phase(), InitPhase::CreatingMedia);
    assert!(matches!(init.on_created(Ok(())), InitAction::CheckExists(ref n) if n == "queries"));
    assert!(matches!(init.on_exists(Ok(true)), InitAction::Done));
    assert_eq!(init.phase(), InitPhase::Finished);

    let (mut init, _) = Initializer::start();
    assert!(matches!(init.on_exists(Ok(true)), InitAction::CheckExists(ref n) if n == "queries"));
    assert!(matches!(init.on_exists(Ok(false)), InitAction::Create(ref n) if n == "queries"));
    assert!(matches!(init.on_created(Ok(())), InitAction::Done));
}
