use base64::Engine;
use vif::config::EmbeddersGeminiConfig;
use vif::embedding::{
    api_error, check_download_status, is_success, reply_verdict, retry_after_secs, status_text, Distance,
    EmbeddingError, GeminiEmbedder, ReplyVerdict, VectorParams,
};

fn embedder() -> GeminiEmbedder {
    GeminiEmbedder::new(EmbeddersGeminiConfig { api_key: "KEY".to_string() })
}

#[test]
fn gemini_name_params_endpoint() {
    let e = embedder();
    assert_eq!(e.name(), "gemini-embedding-2");
    assert_eq!(e.params(), VectorParams { size: 3072, distance: Distance::Cosine });
    assert_eq!(
        e.endpoint(),
        "https://generativelanguage.googleapis.com/v1beta/models/gemini-embedding-2:embedContent?key=KEY"
    );
}

#[test]
fn text_body_is_the_json_request() {
    let body = GeminiEmbedder::text_request_body("a \"cat\"\n");
    assert_eq!(
        body,
        r#"{"content":{"parts":[{"text":"a \"cat\"\n"}]},"model":"models/gemini-embedding-2","outputDimensionality":3072,"taskType":"RETRIEVAL_DOCUMENT"}"#
    );
    let value: serde_json::Value = serde_json::from_str(&body).unwrap();
    assert_eq!(value["content"]["parts"][0]["text"], "a \"cat\"\n");
    assert_eq!(value["outputDimensionality"], 3072);
}

#[test]
fn media_body_carries_type_and_base64() {
    let png: Vec<u8> = vec![0x89, 0x50, 0x4E, 0x47, 0x0D, 0x0A, 0x1A, 0x0A, 0, 0];
    let body = GeminiEmbedder::media_request_body(&png).unwrap();
    assert_eq!(
        body,
        r#"{"content":{"parts":[{"inlineData":{"data":"iVBORw0KGgoAAA==","mimeType":"image/png"}}]},"model":"models/gemini-embedding-2","outputDimensionality":3072,"taskType":"RETRIEVAL_DOCUMENT"}"#
    );
}

#[test]
fn json_escapes_as_serde_json_does() {
    for text in ["plain", "quote \" and \\ slash /", "\u{8}\t\n\u{c}\r", "\u{1}\u{1f}\u{7f}", "é漢字🙂"] {
        let body = GeminiEmbedder::text_request_body(text);
        let expected = format!(
            r#"{{"content":{{"parts":[{{"text":{}}}]}},"model":"models/gemini-embedding-2","outputDimensionality":3072,"taskType":"RETRIEVAL_DOCUMENT"}}"#,
            serde_json::to_string(text).unwrap()
        );
        assert_eq!(body, expected);
    }
    assert_eq!(
        GeminiEmbedder::text_request_body("\u{1}"),
        r#"{"content":{"parts":[{"text":"\u0001"}]},"model":"models/gemini-embedding-2","outputDimensionality":3072,"taskType":"RETRIEVAL_DOCUMENT"}"#
    );
}

#[test]
fn media_data_decodes_back() {
    let gif: Vec<u8> = b"GIF89a\x01\x00\x01\x00\x80\x00\x00".to_vec();
    let body = GeminiEmbedder::media_request_body(&gif).unwrap();
    let value: serde_json::Value = serde_json::from_str(&body).unwrap();
    let data = value["content"]["parts"][0]["inlineData"]["data"].as_str().unwrap();
    assert_eq!(base64::engine::general_purpose::STANDARD.decode(data).unwrap(), gif);
    assert_eq!(value["content"]["parts"][0]["inlineData"]["mimeType"], "image/gif");
}

#[test]
fn media_of_unknown_type_is_refused() {
    match GeminiEmbedder::media_request_body(b"hello") {
        Err(EmbeddingError::DownloadMedia(m)) => assert_eq!(m, "Could not determine mime-type"),
        other => panic!("unexpected {other:?}"),
    }
}

#[test]
fn statuses() {
    assert!(is_success(200));
    assert!(is_success(299));
    assert!(!is_success(199));
    assert!(!is_success(300));
    assert_eq!(status_text(404), "404 Not Found");
    assert_eq!(status_text(429), "429 Too Many Requests");
    assert_eq!(status_text(599), "599 <unknown status code>");
    assert!(check_download_status(204).is_ok());
    match check_download_status(404) {
        Err(EmbeddingError::DownloadMedia(m)) => {
            assert_eq!(m, "Failed to download media. HTTP Status: 404 Not Found")
        }
        other => panic!("unexpected {other:?}"),
    }
}

#[test]
fn rate_limit_delay() {
    assert_eq!(retry_after_secs(Some("30")), 30);
    assert_eq!(retry_after_secs(Some("+5")), 5);
    assert_eq!(retry_after_secs(Some("Wed, 21 Oct 2015 07:28:00 GMT")), 10);
    assert_eq!(retry_after_secs(None), 10);
}

#[test]
fn reply_verdicts() {
    assert_eq!(reply_verdict(429, Some("7")), ReplyVerdict::RateLimited(7));
    assert_eq!(reply_verdict(429, None), ReplyVerdict::RateLimited(10));
    assert_eq!(reply_verdict(500, Some("7")), ReplyVerdict::Rejected);
    assert_eq!(reply_verdict(404, None), ReplyVerdict::Rejected);
    assert_eq!(reply_verdict(200, Some("7")), ReplyVerdict::Accepted);
}

#[test]
fn api_error_message() {
    match api_error("quota") {
        EmbeddingError::Api(m) => assert_eq!(m, "Gemini API Error: quota"),
        other => panic!("unexpected {other:?}"),
    }
}
