use vif::config::{EmbeddersConfig, EmbeddersGeminiConfig};
use vif::embedding::EmbeddingError;
use vif::listener::{
    handle_accept_error, is_connection_error, AcceptErrorAction, AcceptLoop, AcceptOutcome, AcceptStep,
    IoErrorKind,
};
use vif::media::{IndexError, SearchError};
use vif::routes::index::index_error_reply;
use vif::routes::search::search_error_reply;
use vif::routes::{failure_message, retry_after_header, retry_later_message, ErrorReply};
use vif::startup::{select_embedders, StartupError};

#[test]
fn connection_errors() {
    assert!(is_connection_error(IoErrorKind::ConnectionRefused));
    assert!(is_connection_error(IoErrorKind::ConnectionAborted));
    assert!(is_connection_error(IoErrorKind::ConnectionReset));
    assert!(!is_connection_error(IoErrorKind::Other));
    assert_eq!(handle_accept_error(IoErrorKind::ConnectionReset), AcceptErrorAction::Ignore);
    assert_eq!(handle_accept_error(IoErrorKind::Other), AcceptErrorAction::LogAndPause(1));
}

#[test]
fn every_listener_keeps_accepting() {
    let mut l = AcceptLoop::new(2);
    assert_eq!(l.listeners(), 2);
    assert_eq!(l.on_completion(Some((1, AcceptOutcome::Accepted))), AcceptStep::Deliver(1));
    assert_eq!(
        l.on_completion(Some((0, AcceptOutcome::Failed(IoErrorKind::Other)))),
        AcceptStep::Retry(0, AcceptErrorAction::LogAndPause(1))
    );
    assert_eq!(
        l.on_completion(Some((0, AcceptOutcome::Failed(IoErrorKind::ConnectionAborted)))),
        AcceptStep::Retry(0, AcceptErrorAction::Ignore)
    );
    let mut none = AcceptLoop::new(0);
    assert_eq!(none.on_completion(None), AcceptStep::Wait);
}

#[test]
fn error_replies() {
    assert_eq!(
        search_error_reply(&SearchError::Embedding(EmbeddingError::Ratelimit(12))),
        ErrorReply::RetryLater(12)
    );
    assert_eq!(search_error_reply(&SearchError::Timeout), ErrorReply::Failure);
    assert_eq!(search_error_reply(&SearchError::Ratelimit(3)), ErrorReply::Failure);
    assert_eq!(
        index_error_reply(&IndexError::Embedding(EmbeddingError::Ratelimit(9))),
        ErrorReply::RetryLater(9)
    );
    assert_eq!(
        index_error_reply(&IndexError::Embedding(EmbeddingError::Api("x".to_string()))),
        ErrorReply::Failure
    );
    assert_eq!(retry_later_message(), "Please try again later!");
    assert_eq!(retry_after_header(12), "12");
    assert_eq!(failure_message("Timeout"), "An error occured: Timeout");
}

#[test]
fn startup_needs_an_embedder() {
    assert_eq!(select_embedders(EmbeddersConfig { gemini: None }).err(), Some(StartupError::NoEmbedders));
    let es = select_embedders(EmbeddersConfig {
        gemini: Some(EmbeddersGeminiConfig { api_key: "k".to_string() }),
    })
    .unwrap();
    assert_eq!(es.len(), 1);
    assert_eq!(es[0].name(), "gemini-embedding-2");
    assert_eq!(StartupError::NoEmbedders.message(), "No embedders configured");
}

#[test]
fn errors_convert_into_route_errors() {
    match SearchError::from(EmbeddingError::Api("x".to_string())) {
        SearchError::Embedding(EmbeddingError::Api(m)) => assert_eq!(m, "x"),
        other => panic!("unexpected {other:?}"),
    }
    match IndexError::from(EmbeddingError::Ratelimit(3)) {
        IndexError::Embedding(EmbeddingError::Ratelimit(3)) => {}
        other => panic!("unexpected {other:?}"),
    }
}
