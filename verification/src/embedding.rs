//! The Gemini embedding provider: what is sent to it and how its replies
//! are judged. The HTTP exchange itself is carried out by the caller.
use vstd::prelude::*;

use crate::config::EmbeddersGeminiConfig;
use crate::encoding::{
    base64_decode, base64_encode, base64_standard, json_escaped, json_string, json_string_literal, json_unescaped,
    lemma_base64_literal, lemma_base64_round_trip, lemma_json_round_trip,
};
use crate::text::{decimal, parse_u64_spec, parse_u64, u64_to_decimal};

verus! {

/// The HTTP client's error, carried as it is.
#[verifier::external_type_specification]
#[verifier::external_body]
pub struct ExReqwestError(reqwest::Error);

/// Why an embedding could not be obtained.
#[derive(Debug)]
pub enum EmbeddingError {
    /// The HTTP exchange failed.
    Reqwest(reqwest::Error),
    /// The provider answered with an error.
    Api(String),
    /// The media to embed could not be fetched or recognised.
    DownloadMedia(String),
    /// The provider asks to retry after this many seconds.
    Ratelimit(u64),
}

/// How vectors are compared in a vector collection.
#[derive(Clone, Copy, Debug, PartialEq, Eq, Structural)]
pub enum Distance {
    Cosine,
    Euclid,
    Dot,
    Manhattan,
}

/// The shape of the vectors an embedder produces.
#[derive(Clone, Copy, Debug, PartialEq, Eq, Structural)]
pub struct VectorParams {
    pub size: u64,
    pub distance: Distance,
}

/// The MIME type that `infer` recognises from the leading bytes of a file.
pub uninterp spec fn inferred_mime_type(bytes: Seq<u8>) -> Option<Seq<char>>;

/// The canonical reason phrase of an HTTP status code, where it has one.
pub uninterp spec fn status_reason(code: u16) -> Option<Seq<char>>;

/// `infer::get` followed by `Type::mime_type`: the MIME type recognised from
/// the magic bytes, if any matcher of the crate accepts them.
#[verifier::external_body]
fn infer_mime_type(bytes: &[u8]) -> (mime: Option<String>)
    ensures
        match mime {
            Some(m) => inferred_mime_type(bytes@) == Some(m@),
            None => inferred_mime_type(bytes@).is_none(),
        },
{
    infer::get(bytes).map(|kind| kind.mime_type().to_string())
}

/// `StatusCode::canonical_reason` of `reqwest`'s (the `http` crate's) status
/// code with this number; `StatusCode::from_u16` takes 100 to 999.
#[verifier::external_body]
fn canonical_reason(code: u16) -> (reason: Option<String>)
    requires
        100 <= code <= 999,
    ensures
        match reason {
            Some(r) => status_reason(code) == Some(r@),
            None => status_reason(code).is_none(),
        },
{
    match reqwest::StatusCode::from_u16(code) {
        Ok(status) => status.canonical_reason().map(|r| r.to_string()),
        Err(_) => None,
    }
}

/// An HTTP status in 200..=299.
pub open spec fn spec_is_success(status: u16) -> bool {
    200 <= status <= 299
}

pub fn is_success(status: u16) -> (ok: bool)
    ensures
        ok == spec_is_success(status),
{
    200 <= status && status <= 299
}

/// How an HTTP status code is written out: its number, a space, and its
/// reason phrase or `<unknown status code>`.
pub open spec fn status_text_spec(status: u16) -> Seq<char> {
    decimal(status as nat) + " "@ + match status_reason(status) {
        Some(r) => r,
        None => "<unknown status code>"@,
    }
}

pub fn status_text(status: u16) -> (text: String)
    requires
        100 <= status <= 999,
    ensures
        text@ == status_text_spec(status),
{
    let mut text = u64_to_decimal(status as u64);
    text.append(" ");
    match canonical_reason(status) {
        Some(r) => text.append(r.as_str()),
        None => text.append("<unknown status code>"),
    }
    text
}

/// The model name of the Gemini embedder.
pub open spec fn gemini_model_name() -> Seq<char> {
    "gemini-embedding-2"@
}

/// The number of dimensions of Gemini embeddings.
pub open spec fn gemini_dimensions() -> u64 {
    3072
}

/// The endpoint that embeds content, without the API key.
pub open spec fn gemini_endpoint_prefix() -> Seq<char> {
    "https://generativelanguage.googleapis.com/v1beta/models/gemini-embedding-2:embedContent?key="@
}

/// The request fields that follow the content, in the order `serde_json`
/// writes the keys of an object (sorted).
pub open spec fn request_tail() -> Seq<char> {
    "]},\"model\":\"models/gemini-embedding-2\",\"outputDimensionality\":3072,\"taskType\":\"RETRIEVAL_DOCUMENT\"}"@
}

/// The JSON body that asks for the embedding of a text: the text stands,
/// escaped, in the `text` field, and reads back as the text (see
/// `lemma_json_round_trip`).
pub open spec fn text_request_body_spec(text: Seq<char>) -> Seq<char> {
    "{\"content\":{\"parts\":[{\"text\":"@ + json_string_literal(text) + "}"@ + request_tail()
}

/// The JSON body that asks for the embedding of inline media: the base64
/// text of its bytes stands in the `data` field as it is (base64 needs no
/// escaping in JSON), and decodes back to the bytes (see
/// `lemma_base64_round_trip`).
pub open spec fn media_request_body_spec(mime: Seq<char>, media: Seq<u8>) -> Seq<char> {
    "{\"content\":{\"parts\":[{\"inlineData\":{\"data\":"@ + seq!['"'] + base64_standard(media) + seq!['"']
        + ",\"mimeType\":"@ + json_string_literal(mime) + "}}"@ + request_tail()
}

/// The text request carries the whole text: between the fixed start of the
/// body and its fixed end stands one JSON string literal, and what it holds
/// reads back as the text, every character of it.
pub proof fn lemma_text_body_carries_text(text: Seq<char>)
    ensures
        exists|inner: Seq<char>|
            text_request_body_spec(text) == "{\"content\":{\"parts\":[{\"text\":"@ + seq!['"'] + inner + seq!['"']
                + "}"@ + request_tail() && #[trigger] json_unescaped(inner) == text,
{
    let inner = json_escaped(text);
    lemma_json_round_trip(text);
    assert(text_request_body_spec(text) =~= "{\"content\":{\"parts\":[{\"text\":"@ + seq!['"'] + inner
        + seq!['"'] + "}"@ + request_tail());
    assert(json_unescaped(inner) == text);
}

/// The media request carries the whole media: its `data` field decodes back
/// to every byte of the media, and its `mimeType` field reads back as the
/// recognised type.
pub proof fn lemma_media_body_carries_media(mime: Seq<char>, media: Seq<u8>)
    ensures
        exists|data: Seq<char>, kind: Seq<char>|
            media_request_body_spec(mime, media) == "{\"content\":{\"parts\":[{\"inlineData\":{\"data\":"@
                + seq!['"'] + data + seq!['"'] + ",\"mimeType\":"@ + seq!['"'] + kind + seq!['"'] + "}}"@
                + request_tail() && #[trigger] base64_decode(data) == media && #[trigger] json_unescaped(kind) == mime,
{
    let data = base64_standard(media);
    let kind = json_escaped(mime);
    lemma_base64_round_trip(media);
    lemma_json_round_trip(mime);
    assert(media_request_body_spec(mime, media) =~= "{\"content\":{\"parts\":[{\"inlineData\":{\"data\":"@
        + seq!['"'] + data + seq!['"'] + ",\"mimeType\":"@ + seq!['"'] + kind + seq!['"'] + "}}"@
        + request_tail());
    assert(base64_decode(data) == media && json_unescaped(kind) == mime);
}

/// The message of the error for a failed media download.
pub open spec fn download_failure_message(status: u16) -> Seq<char> {
    "Failed to download media. HTTP Status: "@ + status_text_spec(status)
}

/// The message of the error for media of no recognised type.
pub open spec fn unknown_mime_message() -> Seq<char> {
    "Could not determine mime-type"@
}

/// The message of the error for a reply that is neither a success nor a
/// rate limit.
pub open spec fn api_error_message(error_text: Seq<char>) -> Seq<char> {
    "Gemini API Error: "@ + error_text
}

/// The number of seconds to wait when the provider asks to wait without a
/// usable `Retry-After` header.
pub open spec fn default_retry_after() -> u64 {
    10
}

/// The delay a rate-limited reply asks for: the `Retry-After` header as a
/// number of seconds, else the default.
pub open spec fn retry_after_spec(header: Option<Seq<char>>) -> u64 {
    match header {
        Some(h) => match parse_u64_spec(h) {
            Some(n) => n,
            None => default_retry_after(),
        },
        None => default_retry_after(),
    }
}

/// What a reply of the embedding provider means, before its body is read.
#[derive(Clone, Copy, Debug, PartialEq, Eq, Structural)]
pub enum ReplyVerdict {
    /// Status 429: retry after this many seconds.
    RateLimited(u64),
    /// Any other status outside 200..=299: the body holds an error text.
    Rejected,
    /// A success: the body holds the embedding.
    Accepted,
}

/// The verdict on a reply with this status and `Retry-After` header text.
pub open spec fn reply_verdict_spec(status: u16, retry_after: Option<Seq<char>>) -> ReplyVerdict {
    if status == 429 {
        ReplyVerdict::RateLimited(retry_after_spec(retry_after))
    } else if !spec_is_success(status) {
        ReplyVerdict::Rejected
    } else {
        ReplyVerdict::Accepted
    }
}

pub open spec fn opt_str_view(s: Option<&str>) -> Option<Seq<char>> {
    match s {
        Some(s) => Some(s@),
        None => None,
    }
}

/// The number of seconds to wait, from the `Retry-After` header's text.
pub fn retry_after_secs(header: Option<&str>) -> (secs: u64)
    ensures
        secs == retry_after_spec(opt_str_view(header)),
{
    match header {
        Some(h) => match parse_u64(h) {
            Some(n) => n,
            None => 10,
        },
        None => 10,
    }
}

/// Judges a reply of the provider by its status and `Retry-After` header.
pub fn reply_verdict(status: u16, retry_after: Option<&str>) -> (verdict: ReplyVerdict)
    ensures
        verdict == reply_verdict_spec(status, opt_str_view(retry_after)),
{
    if status == 429 {
        ReplyVerdict::RateLimited(retry_after_secs(retry_after))
    } else if !is_success(status) {
        ReplyVerdict::Rejected
    } else {
        ReplyVerdict::Accepted
    }
}

/// The error for a rejected reply whose body reads `error_text`.
pub fn api_error(error_text: &str) -> (e: EmbeddingError)
    ensures
        e matches EmbeddingError::Api(m) && m@ == api_error_message(error_text@),
{
    let mut m = String::from_str("Gemini API Error: ");
    m.append(error_text);
    EmbeddingError::Api(m)
}

/// Checks the status of the download of the media to embed.
pub fn check_download_status(status: u16) -> (r: Result<(), EmbeddingError>)
    requires
        100 <= status <= 999,
    ensures
        spec_is_success(status) <==> r is Ok,
        !spec_is_success(status) ==> (r matches Err(EmbeddingError::DownloadMedia(m))
            && m@ == download_failure_message(status)),
{
    if is_success(status) {
        Ok(())
    } else {
        let mut m = String::from_str("Failed to download media. HTTP Status: ");
        let t = status_text(status);
        m.append(t.as_str());
        Err(EmbeddingError::DownloadMedia(m))
    }
}

/// The embedding provider backed by Google's Gemini API.
pub struct GeminiEmbedder {
    config: EmbeddersGeminiConfig,
}

impl GeminiEmbedder {
    /// The API key the embedder sends.
    pub closed spec fn api_key(&self) -> Seq<char> {
        self.config.api_key@
    }

    pub fn new(config: EmbeddersGeminiConfig) -> (e: Self)
        ensures
            e.api_key() == config.api_key@,
    {
        GeminiEmbedder { config }
    }

    /// The name under which its vectors are stored.
    pub fn name(&self) -> (name: String)
        ensures
            name@ == gemini_model_name(),
    {
        String::from_str("gemini-embedding-2")
    }

    /// The shape of its vectors.
    pub fn params(&self) -> (params: VectorParams)
        ensures
            params == (VectorParams { size: gemini_dimensions(), distance: Distance::Cosine }),
    {
        VectorParams { size: 3072, distance: Distance::Cosine }
    }

    /// The URL that requests are posted to, the API key included.
    pub fn endpoint(&self) -> (url: String)
        ensures
            url@ == gemini_endpoint_prefix() + self.api_key(),
    {
        let mut url = String::from_str(
            "https://generativelanguage.googleapis.com/v1beta/models/gemini-embedding-2:embedContent?key=",
        );
        url.append(self.config.api_key.as_str());
        url
    }

    /// The body of the request that embeds a text.
    pub fn text_request_body(text: &str) -> (body: String)
        ensures
            body@ == text_request_body_spec(text@),
    {
        let mut body = String::from_str("{\"content\":{\"parts\":[{\"text\":");
        let lit = json_string(text);
        body.append(lit.as_str());
        body.append("}");
        body.append(
            "]},\"model\":\"models/gemini-embedding-2\",\"outputDimensionality\":3072,\"taskType\":\"RETRIEVAL_DOCUMENT\"}",
        );
        body
    }

    /// The body of the request that embeds downloaded media: the media type
    /// is recognised from its bytes and the bytes are sent base64-encoded.
    pub fn media_request_body(media: &[u8]) -> (r: Result<String, EmbeddingError>)
        requires
            media@.len() <= usize::MAX / 2,
        ensures
            match inferred_mime_type(media@) {
                Some(mime) => r matches Ok(body)
                    && body@ == media_request_body_spec(mime, media@),
                None => r matches Err(EmbeddingError::DownloadMedia(m))
                    && m@ == unknown_mime_message(),
            },
    {
        let mime = match infer_mime_type(media) {
            Some(m) => m,
            None => {
                return Err(EmbeddingError::DownloadMedia(String::from_str("Could not determine mime-type")));
            },
        };
        let data = base64_encode(media);
        proof {
            lemma_base64_literal(media@);
        }
        let mut body = String::from_str("{\"content\":{\"parts\":[{\"inlineData\":{\"data\":");
        let data_lit = json_string(data.as_str());
        body.append(data_lit.as_str());
        body.append(",\"mimeType\":");
        let mime_lit = json_string(mime.as_str());
        body.append(mime_lit.as_str());
        body.append("}}");
        body.append(
            "]},\"model\":\"models/gemini-embedding-2\",\"outputDimensionality\":3072,\"taskType\":\"RETRIEVAL_DOCUMENT\"}",
        );
        Ok(body)
    }
}

} // verus!
