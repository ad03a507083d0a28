//! Searching and indexing media: the keys under which queries and media are
//! stored, and the order of the steps that search for or index media. Each
//! step that needs the database or an embedder is handed to the caller as an
//! action; what came of it is handed back as an event.
use vstd::prelude::*;

use qdrant_client::QdrantError;
use tokio::time::error::Elapsed;
use url::ParseError;
use vstd::utf8::{encode_utf8, encode_utf8_decode_utf8};

use crate::embedding::EmbeddingError;
use crate::ids::{hyphenated, lemma_hyphenated_parses, uuid_parse_spec, uuid_to_string, uuid_v5, uuid_v5_spec};

verus! {

/// The vector database client's error, carried as it is.
#[verifier::external_type_specification]
#[verifier::external_body]
pub struct ExQdrantError(QdrantError);

/// The error of a time limit that ran out.
#[verifier::external_type_specification]
#[verifier::external_body]
pub struct ExElapsed(Elapsed);

/// The namespace of the name-based keys of queries and media (the URL
/// namespace of RFC 4122).
pub const UUID_NAMESPACE: u128 = 0x6ba7b811_9dad_11d1_80b4_00c04fd430c8u128;

/// Why a search failed.
#[derive(Debug)]
pub enum SearchError {
    Qdrant(QdrantError),
    Embedding(EmbeddingError),
    Timeout,
    Ratelimit(u64),
}

/// Why indexing failed.
#[derive(Debug)]
pub enum IndexError {
    Qdrant(QdrantError),
    Url(UrlError),
    Embedding(EmbeddingError),
    Timeout,
}

impl From<QdrantError> for SearchError {
    fn from(e: QdrantError) -> (r: Self) {
        SearchError::Qdrant(e)
    }
}

impl vstd::std_specs::convert::FromSpecImpl<QdrantError> for SearchError {
    open spec fn obeys_from_spec() -> bool {
        true
    }

    open spec fn from_spec(v: QdrantError) -> Self {
        SearchError::Qdrant(v)
    }
}

impl From<EmbeddingError> for SearchError {
    fn from(e: EmbeddingError) -> (r: Self) {
        SearchError::Embedding(e)
    }
}

impl vstd::std_specs::convert::FromSpecImpl<EmbeddingError> for SearchError {
    open spec fn obeys_from_spec() -> bool {
        true
    }

    open spec fn from_spec(v: EmbeddingError) -> Self {
        SearchError::Embedding(v)
    }
}

impl From<Elapsed> for SearchError {
    fn from(e: Elapsed) -> (r: Self) {
        SearchError::Timeout
    }
}

impl vstd::std_specs::convert::FromSpecImpl<Elapsed> for SearchError {
    open spec fn obeys_from_spec() -> bool {
        true
    }

    open spec fn from_spec(v: Elapsed) -> Self {
        SearchError::Timeout
    }
}

impl From<QdrantError> for IndexError {
    fn from(e: QdrantError) -> (r: Self) {
        IndexError::Qdrant(e)
    }
}

impl vstd::std_specs::convert::FromSpecImpl<QdrantError> for IndexError {
    open spec fn obeys_from_spec() -> bool {
        true
    }

    open spec fn from_spec(v: QdrantError) -> Self {
        IndexError::Qdrant(v)
    }
}

impl From<EmbeddingError> for IndexError {
    fn from(e: EmbeddingError) -> (r: Self) {
        IndexError::Embedding(e)
    }
}

impl vstd::std_specs::convert::FromSpecImpl<EmbeddingError> for IndexError {
    open spec fn obeys_from_spec() -> bool {
        true
    }

    open spec fn from_spec(v: EmbeddingError) -> Self {
        IndexError::Embedding(v)
    }
}

impl From<Elapsed> for IndexError {
    fn from(e: Elapsed) -> (r: Self) {
        IndexError::Timeout
    }
}

impl vstd::std_specs::convert::FromSpecImpl<Elapsed> for IndexError {
    open spec fn obeys_from_spec() -> bool {
        true
    }

    open spec fn from_spec(v: Elapsed) -> Self {
        IndexError::Timeout
    }
}

/// A parsed media link: how it is written out, and how it is written out
/// once its query is removed.
pub struct MediaUrl {
    href: String,
    without_query: String,
}

impl View for MediaUrl {
    type V = (Seq<char>, Seq<char>);

    closed spec fn view(&self) -> (Seq<char>, Seq<char>) {
        (self.href@, self.without_query@)
    }
}

/// Why a link does not parse as a URL: the kinds of `url::ParseError`.
/// `Other` stands for kinds a later `url` may add (the crate's enum is
/// non-exhaustive); the version this crate is built with has none.
#[derive(Clone, Copy, Debug, PartialEq, Eq, Structural)]
pub enum UrlError {
    EmptyHost,
    IdnaError,
    InvalidPort,
    InvalidIpv4Address,
    InvalidIpv6Address,
    InvalidDomainCharacter,
    RelativeUrlWithoutBase,
    RelativeUrlWithCannotBeABaseBase,
    SetHostOnCannotBeABaseUrl,
    Overflow,
    Other,
}

impl UrlError {
    /// The message `url` gives for this kind of error.
    pub fn description(&self) -> (m: String)
        ensures
            m@ == url_error_description(*self),
    {
        match self {
            UrlError::EmptyHost => String::from_str("empty host"),
            UrlError::IdnaError => String::from_str("invalid international domain name"),
            UrlError::InvalidPort => String::from_str("invalid port number"),
            UrlError::InvalidIpv4Address => String::from_str("invalid IPv4 address"),
            UrlError::InvalidIpv6Address => String::from_str("invalid IPv6 address"),
            UrlError::InvalidDomainCharacter => String::from_str("invalid domain character"),
            UrlError::RelativeUrlWithoutBase => String::from_str("relative URL without a base"),
            UrlError::RelativeUrlWithCannotBeABaseBase => String::from_str("relative URL with a cannot-be-a-base base"),
            UrlError::SetHostOnCannotBeABaseUrl => String::from_str("a cannot-be-a-base URL doesn’t have a host to set"),
            UrlError::Overflow => String::from_str("URLs more than 4 GB are not supported"),
            UrlError::Other => String::from_str("invalid URL"),
        }
    }
}

/// The message of each kind of URL error.
pub open spec fn url_error_description(e: UrlError) -> Seq<char> {
    match e {
        UrlError::EmptyHost => "empty host"@,
        UrlError::IdnaError => "invalid international domain name"@,
        UrlError::InvalidPort => "invalid port number"@,
        UrlError::InvalidIpv4Address => "invalid IPv4 address"@,
        UrlError::InvalidIpv6Address => "invalid IPv6 address"@,
        UrlError::InvalidDomainCharacter => "invalid domain character"@,
        UrlError::RelativeUrlWithoutBase => "relative URL without a base"@,
        UrlError::RelativeUrlWithCannotBeABaseBase => "relative URL with a cannot-be-a-base base"@,
        UrlError::SetHostOnCannotBeABaseUrl => "a cannot-be-a-base URL doesn’t have a host to set"@,
        UrlError::Overflow => "URLs more than 4 GB are not supported"@,
        UrlError::Other => "invalid URL"@,
    }
}

/// What `url` makes of a link: the serialization of the parsed URL and the
/// serialization after its query is removed, or the kind of parse error.
pub uninterp spec fn url_parse_spec(input: Seq<char>) -> Result<(Seq<char>, Seq<char>), UrlError>;

/// `Url::parse`, then the parsed URL written out twice: as it is
/// (`to_string`), and after its query is removed (`set_query(None)`, then
/// `to_string`), which is how a media link loses its parameters. The parse
/// error comes back as its kind.
#[verifier::external_body]
fn parse_url(input: &str) -> (r: Result<MediaUrl, UrlError>)
    ensures
        match r {
            Ok(u) => url_parse_spec(input@) == Ok::<(Seq<char>, Seq<char>), UrlError>(u@),
            Err(e) => url_parse_spec(input@) == Err::<(Seq<char>, Seq<char>), UrlError>(e),
        },
{
    match url::Url::parse(input) {
        Ok(url) => {
            let mut stripped = url.clone();
            stripped.set_query(None);
            Ok(MediaUrl { href: url.to_string(), without_query: stripped.to_string() })
        },
        Err(e) => Err(match e {
            ParseError::EmptyHost => UrlError::EmptyHost, ParseError::IdnaError => UrlError::IdnaError,
            ParseError::InvalidPort => UrlError::InvalidPort, ParseError::Overflow => UrlError::Overflow,
            ParseError::InvalidIpv4Address => UrlError::InvalidIpv4Address, ParseError::InvalidIpv6Address => UrlError::InvalidIpv6Address,
            ParseError::InvalidDomainCharacter => UrlError::InvalidDomainCharacter, ParseError::RelativeUrlWithoutBase => UrlError::RelativeUrlWithoutBase,
            ParseError::RelativeUrlWithCannotBeABaseBase => UrlError::RelativeUrlWithCannotBeABaseBase,
            ParseError::SetHostOnCannotBeABaseUrl => UrlError::SetHostOnCannotBeABaseUrl, _ => UrlError::Other,
        }),
    }
}

impl MediaUrl {
    /// Parses a media link as a URL.
    pub fn parse(input: &str) -> (r: Result<MediaUrl, IndexError>)
        ensures
            match r {
                Ok(u) => url_parse_spec(input@) == Ok::<(Seq<char>, Seq<char>), UrlError>(u@),
                Err(e) => url_parse_spec(input@) matches Err(k) && e == IndexError::Url(k),
            },
    {
        match parse_url(input) {
            Ok(u) => Ok(u),
            Err(e) => Err(IndexError::Url(e)),
        }
    }

    /// The link as the parsed URL writes it out.
    pub fn href(&self) -> (s: String)
        ensures
            s@ == self@.0,
    {
        self.href.clone()
    }
}

/// The link without its query parameters.
pub fn strip_url_parameters(url: &MediaUrl) -> (s: String)
    ensures
        s@ == url@.1,
{
    url.without_query.clone()
}

/// The key of a search query: the name-based UUID of its UTF-8 text.
pub open spec fn search_key_spec(text: Seq<char>) -> u128 {
    uuid_v5_spec(UUID_NAMESPACE, encode_utf8(text))
}

/// The key of a media link: the name-based UUID of the link with its query
/// removed.
pub open spec fn media_key_spec(stripped: Seq<char>) -> u128 {
    uuid_v5_spec(UUID_NAMESPACE, encode_utf8(stripped))
}

/// A query is keyed by the name-based UUID of the UTF-8 bytes of the whole
/// text; texts that differ anywhere are hashed from different names.
pub proof fn lemma_search_key_whole_text(a: Seq<char>, b: Seq<char>)
    ensures
        search_key_spec(a) == uuid_v5_spec(UUID_NAMESPACE, encode_utf8(a)),
        a != b ==> encode_utf8(a) != encode_utf8(b),
{
    encode_utf8_decode_utf8(a);
    encode_utf8_decode_utf8(b);
}

/// A media link is keyed by the name-based UUID of the exact UTF-8 bytes of
/// its query-less URL; query-less URLs written differently in any way (the
/// letter case of the path included) are hashed from different names.
pub proof fn lemma_media_key_exact_url(a: Seq<char>, b: Seq<char>)
    ensures
        media_key_spec(a) == uuid_v5_spec(UUID_NAMESPACE, encode_utf8(a)),
        a != b ==> encode_utf8(a) != encode_utf8(b),
{
    encode_utf8_decode_utf8(a);
    encode_utf8_decode_utf8(b);
}

pub fn search_key(text: &str) -> (key: u128)
    ensures
        key == search_key_spec(text@),
{
    uuid_v5(UUID_NAMESPACE, text.as_bytes())
}

pub fn media_key(url: &MediaUrl) -> (key: u128)
    ensures
        key == media_key_spec(url@.1),
{
    let stripped = strip_url_parameters(url);
    uuid_v5(UUID_NAMESPACE, stripped.as_str().as_bytes())
}

/// The key of a media link depends on the link only through its URL with
/// the query removed: links whose query-less URLs are written alike share a
/// key, whatever their queries.
pub proof fn lemma_media_key_ignores_query(a: Seq<char>, b: Seq<char>)
    requires
        url_parse_spec(a) matches Ok((_, sa)) && url_parse_spec(b) matches Ok((_, sb)) && sa == sb,
    ensures
        media_key_spec(url_parse_spec(a)->Ok_0.1) == media_key_spec(url_parse_spec(b)->Ok_0.1),
{
}

/// What came of one call of an embedder under the time limit.
#[derive(Debug)]
pub enum EmbedOutcome {
    Embedded,
    Failed(EmbeddingError),
    TimedOut,
}

/// Where the indexing of a media link stands.
#[derive(Clone, Copy, Debug, PartialEq, Eq, Structural)]
pub enum IndexPhase {
    /// Waiting for the stored record of the link, if there is one.
    Fetching,
    /// Waiting for the new list of users to be stored.
    StoringUsers,
    /// Waiting for the embedder with this index.
    Embedding(usize),
    /// Waiting for the new record to be stored.
    Inserting,
    /// Nothing more to do.
    Finished,
}

/// What the indexing of a media link asks for next.
#[derive(Debug)]
pub enum IndexAction {
    /// Fetch the stored record with this key, vectors and payload included.
    FetchMedia(u128),
    /// Store these users on the record with this key.
    SetUsers(u128, Vec<u128>),
    /// Embed the media with the embedder of this index, under the time limit.
    Embed(usize),
    /// Store a new record under `key` for `link`, with `user` as its only user
    /// and the vectors embedded so far.
    InsertMedia { key: u128, link: String, user: u128 },
    /// Done: the record under this key holds the vectors to answer with
    /// (those fetched, or those embedded).
    Finish(u128),
    /// Indexing failed with this error.
    Fail(IndexError),
}

/// The indexing of one media link on behalf of one user.
pub struct Indexer {
    key: u128,
    link: String,
    user: u128,
    embedders: usize,
    phase: IndexPhase,
}

/// What an indexing holds: key, link, user, number of embedders, phase.
pub struct IndexerView {
    pub key: u128,
    pub link: Seq<char>,
    pub user: u128,
    pub embedders: nat,
    pub phase: IndexPhase,
}

impl View for Indexer {
    type V = IndexerView;

    closed spec fn view(&self) -> IndexerView {
        IndexerView {
            key: self.key,
            link: self.link@,
            user: self.user,
            embedders: self.embedders as nat,
            phase: self.phase,
        }
    }
}

/// The step after the embedder of index `i` succeeded: the next embedder,
/// or storing the new record once every embedder has answered.
pub open spec fn phase_after_embedder(i: nat, embedders: nat) -> IndexPhase {
    if i + 1 < embedders {
        IndexPhase::Embedding((i + 1) as usize)
    } else {
        IndexPhase::Inserting
    }
}

impl Indexer {
    /// Where the indexing stands.
    pub fn phase(&self) -> (p: IndexPhase)
        ensures
            p == self@.phase,
    {
        self.phase
    }

    /// The number of embedders the media is embedded with.
    pub fn embedders(&self) -> (n: usize)
        ensures
            n == self@.embedders,
    {
        self.embedders
    }

    /// Starts indexing `media` for `user` with `embedders` embedders: the link
    /// must parse as a URL; its record is looked up by its key.
    pub fn start(media: &str, user: u128, embedders: usize) -> (r: Result<(Indexer, IndexAction), IndexError>)
        ensures
            match url_parse_spec(media@) {
                Ok((href, stripped)) => {
                    &&& r matches Ok((ix, action))
                    &&& ix@ == (IndexerView {
                        key: media_key_spec(stripped),
                        link: href,
                        user,
                        embedders: embedders as nat,
                        phase: IndexPhase::Fetching,
                    })
                    &&& action matches IndexAction::FetchMedia(k)
                    &&& k == media_key_spec(stripped)
                },
                Err(k) => r matches Err(e) && e == IndexError::Url(k),
            },
    {
        let url = MediaUrl::parse(media)?;
        let key = media_key(&url);
        let link = url.href();
        Ok((Indexer { key, link, user, embedders, phase: IndexPhase::Fetching }, IndexAction::FetchMedia(key)))
    }

    /// The stored record was looked up. A stored record gains the user at the
    /// end of its users (already there or not) and keeps its vectors; a link
    /// not stored yet is embedded by each embedder in turn.
    pub fn on_media(&mut self, fetched: Result<Option<Vec<u128>>, QdrantError>) -> (action: IndexAction)
        requires
            old(self)@.phase == IndexPhase::Fetching,
        ensures
            final(self)@.key == old(self)@.key,
            final(self)@.link == old(self)@.link,
            final(self)@.user == old(self)@.user,
            final(self)@.embedders == old(self)@.embedders,
            match fetched {
                Err(e) => final(self)@.phase == IndexPhase::Finished
                    && action == IndexAction::Fail(IndexError::Qdrant(e)),
                Ok(Some(users)) => {
                    &&& final(self)@.phase == IndexPhase::StoringUsers
                    &&& action matches IndexAction::SetUsers(k, u)
                    &&& k == old(self)@.key
                    &&& u@ == users@.push(old(self)@.user)
                },
                Ok(None) => if old(self)@.embedders > 0 {
                    final(self)@.phase == IndexPhase::Embedding(0) && action == IndexAction::Embed(0)
                } else {
                    &&& final(self)@.phase == IndexPhase::Inserting
                    &&& action matches IndexAction::InsertMedia { key, link, user }
                    &&& key == old(self)@.key
                    &&& link@ == old(self)@.link
                    &&& user == old(self)@.user
                },
            },
    {
        match fetched {
            Err(e) => {
                self.phase = IndexPhase::Finished;
                IndexAction::Fail(IndexError::Qdrant(e))
            },
            Ok(Some(users)) => {
                let mut users = users;
                users.push(self.user);
                self.phase = IndexPhase::StoringUsers;
                IndexAction::SetUsers(self.key, users)
            },
            Ok(None) => {
                if self.embedders > 0 {
                    self.phase = IndexPhase::Embedding(0);
                    IndexAction::Embed(0)
                } else {
                    self.phase = IndexPhase::Inserting;
                    IndexAction::InsertMedia { key: self.key, link: self.link.clone(), user: self.user }
                }
            },
        }
    }

    /// The embedder asked last answered. A failure or a timeout ends the
    /// indexing with that error; a success moves on to the next embedder, and
    /// after the last one to storing the new record.
    pub fn on_embedded(&mut self, outcome: EmbedOutcome) -> (action: IndexAction)
        requires
            old(self)@.phase is Embedding,
            (old(self)@.phase->0 as nat) < old(self)@.embedders,
        ensures
            final(self)@.key == old(self)@.key,
            final(self)@.link == old(self)@.link,
            final(self)@.user == old(self)@.user,
            final(self)@.embedders == old(self)@.embedders,
            match outcome {
                EmbedOutcome::Failed(e) => final(self)@.phase == IndexPhase::Finished
                    && action == IndexAction::Fail(IndexError::Embedding(e)),
                EmbedOutcome::TimedOut => final(self)@.phase == IndexPhase::Finished
                    && action == IndexAction::Fail(IndexError::Timeout),
                EmbedOutcome::Embedded => {
                    let next = phase_after_embedder(old(self)@.phase->0 as nat, old(self)@.embedders);
                    &&& final(self)@.phase == next
                    &&& match next {
                        IndexPhase::Embedding(j) => action == IndexAction::Embed(j),
                        _ => action matches IndexAction::InsertMedia { key, link, user }
                            && key == old(self)@.key && link@ == old(self)@.link
                            && user == old(self)@.user,
                    }
                },
            },
    {
        let i = match self.phase {
            IndexPhase::Embedding(i) => i,
            _ => 0,
        };
        match outcome {
            EmbedOutcome::Failed(e) => {
                self.phase = IndexPhase::Finished;
                IndexAction::Fail(IndexError::Embedding(e))
            },
            EmbedOutcome::TimedOut => {
                self.phase = IndexPhase::Finished;
                IndexAction::Fail(IndexError::Timeout)
            },
            EmbedOutcome::Embedded => {
                if i + 1 < self.embedders {
                    self.phase = IndexPhase::Embedding(i + 1);
                    IndexAction::Embed(i + 1)
                } else {
                    self.phase = IndexPhase::Inserting;
                    IndexAction::InsertMedia { key: self.key, link: self.link.clone(), user: self.user }
                }
            },
        }
    }

    /// A record was stored: the indexing is done, with the record's key.
    pub fn on_stored(&mut self, stored: Result<(), QdrantError>) -> (action: IndexAction)
        requires
            old(self)@.phase == IndexPhase::StoringUsers || old(self)@.phase == IndexPhase::Inserting,
        ensures
            final(self)@.key == old(self)@.key,
            final(self)@.link == old(self)@.link,
            final(self)@.user == old(self)@.user,
            final(self)@.embedders == old(self)@.embedders,
            final(self)@.phase == IndexPhase::Finished,
            match stored {
                Ok(()) => action == IndexAction::Finish(old(self)@.key),
                Err(e) => action == IndexAction::Fail(IndexError::Qdrant(e)),
            },
    {
        self.phase = IndexPhase::Finished;
        match stored {
            Ok(()) => IndexAction::Finish(self.key),
            Err(e) => IndexAction::Fail(IndexError::Qdrant(e)),
        }
    }
}

/// Where a search stands.
#[derive(Clone, Copy, Debug, PartialEq, Eq, Structural)]
pub enum SearchPhase {
    /// Waiting for the stored vectors of the query, if there are any.
    Fetching,
    /// Waiting for the embedder with this index.
    Embedding(usize),
    /// Waiting for the query and its vectors to be stored.
    Inserting,
    /// The media of the user are searched with the query's vectors.
    Searching,
    /// The search failed.
    Failed,
}

/// What a search asks for next.
#[derive(Debug)]
pub enum SearchAction {
    /// Fetch the stored query with this key.
    FetchQuery(u128),
    /// Embed the text with the embedder of this index, under the time limit.
    Embed(usize),
    /// Store the query under `key` with its `text` and the vectors embedded.
    InsertQuery { key: u128, text: String },
    /// Search the media whose users include `user_filter`, with each vector,
    /// for at most `limit` hits per vector.
    Search { user_filter: String, limit: u64 },
    /// The search failed with this error.
    Fail(SearchError),
}

/// One search of a text on behalf of one user.
pub struct Searcher {
    key: u128,
    text: String,
    user: u128,
    limit: u64,
    embedders: usize,
    phase: SearchPhase,
}

/// What a search holds: key, text, user, limit, number of embedders, phase.
pub struct SearcherView {
    pub key: u128,
    pub text: Seq<char>,
    pub user: u128,
    pub limit: u64,
    pub embedders: nat,
    pub phase: SearchPhase,
}

impl View for Searcher {
    type V = SearcherView;

    closed spec fn view(&self) -> SearcherView {
        SearcherView {
            key: self.key,
            text: self.text@,
            user: self.user,
            limit: self.limit,
            embedders: self.embedders as nat,
            phase: self.phase,
        }
    }
}

/// The same search, in another phase.
pub open spec fn same_search(a: SearcherView, b: SearcherView) -> bool {
    &&& a.key == b.key
    &&& a.text == b.text
    &&& a.user == b.user
    &&& a.limit == b.limit
    &&& a.embedders == b.embedders
}

/// The action that searches the media of the user of `s`.
pub open spec fn is_search_action(action: SearchAction, s: SearcherView) -> bool {
    &&& action matches SearchAction::Search { user_filter, limit }
    &&& user_filter@ == hyphenated(s.user)
    &&& uuid_parse_spec(user_filter@) == Some(s.user)
    &&& limit == s.limit
}

/// The action that stores the query of `s`.
pub open spec fn is_insert_query_action(action: SearchAction, s: SearcherView) -> bool {
    &&& action matches SearchAction::InsertQuery { key, text }
    &&& key == s.key
    &&& text@ == s.text
}

impl Searcher {
    /// Where the search stands.
    pub fn phase(&self) -> (p: SearchPhase)
        ensures
            p == self@.phase,
    {
        self.phase
    }

    /// The number of embedders the text is embedded with.
    pub fn embedders(&self) -> (n: usize)
        ensures
            n == self@.embedders,
    {
        self.embedders
    }

    /// Starts searching `text` for `user`, at most `limit` hits per vector,
    /// with `embedders` embedders: the query is looked up by its key.
    pub fn start(text: String, user: u128, limit: u64, embedders: usize) -> (r: (Searcher, SearchAction))
        ensures
            r.0@ == (SearcherView {
                key: search_key_spec(text@),
                text: text@,
                user,
                limit,
                embedders: embedders as nat,
                phase: SearchPhase::Fetching,
            }),
            r.1 == SearchAction::FetchQuery(search_key_spec(text@)),
    {
        let key = search_key(text.as_str());
        (Searcher { key, text, user, limit, embedders, phase: SearchPhase::Fetching }, SearchAction::FetchQuery(key))
    }

    fn search_action(&self) -> (action: SearchAction)
        ensures
            is_search_action(action, self@),
    {
        proof {
            lemma_hyphenated_parses(self.user);
        }
        SearchAction::Search { user_filter: uuid_to_string(self.user), limit: self.limit }
    }

    /// The stored query was looked up. Stored vectors are searched with at
    /// once; otherwise the text is embedded by each embedder in turn.
    pub fn on_query(&mut self, fetched: Result<bool, QdrantError>) -> (action: SearchAction)
        requires
            old(self)@.phase == SearchPhase::Fetching,
        ensures
            same_search(final(self)@, old(self)@),
            match fetched {
                Err(e) => final(self)@.phase == SearchPhase::Failed
                    && action == SearchAction::Fail(SearchError::Qdrant(e)),
                Ok(true) => final(self)@.phase == SearchPhase::Searching
                    && is_search_action(action, old(self)@),
                Ok(false) => if old(self)@.embedders > 0 {
                    final(self)@.phase == SearchPhase::Embedding(0) && action == SearchAction::Embed(0)
                } else {
                    final(self)@.phase == SearchPhase::Inserting && is_insert_query_action(action, old(self)@)
                },
            },
    {
        match fetched {
            Err(e) => {
                self.phase = SearchPhase::Failed;
                SearchAction::Fail(SearchError::Qdrant(e))
            },
            Ok(true) => {
                self.phase = SearchPhase::Searching;
                self.search_action()
            },
            Ok(false) => {
                if self.embedders > 0 {
                    self.phase = SearchPhase::Embedding(0);
                    SearchAction::Embed(0)
                } else {
                    self.phase = SearchPhase::Inserting;
                    SearchAction::InsertQuery { key: self.key, text: self.text.clone() }
                }
            },
        }
    }

    /// The embedder asked last answered. A failure or a timeout ends the
    /// search with that error; a success moves on to the next embedder, and
    /// after the last one to storing the query.
    pub fn on_embedded(&mut self, outcome: EmbedOutcome) -> (action: SearchAction)
        requires
            old(self)@.phase is Embedding,
            (old(self)@.phase->0 as nat) < old(self)@.embedders,
        ensures
            same_search(final(self)@, old(self)@),
            match outcome {
                EmbedOutcome::Failed(e) => final(self)@.phase == SearchPhase::Failed
                    && action == SearchAction::Fail(SearchError::Embedding(e)),
                EmbedOutcome::TimedOut => final(self)@.phase == SearchPhase::Failed
                    && action == SearchAction::Fail(SearchError::Timeout),
                EmbedOutcome::Embedded => {
                    let i = old(self)@.phase->0 as nat;
                    if i + 1 < old(self)@.embedders {
                        final(self)@.phase == SearchPhase::Embedding((i + 1) as usize)
                            && action == SearchAction::Embed((i + 1) as usize)
                    } else {
                        final(self)@.phase == SearchPhase::Inserting
                            && is_insert_query_action(action, old(self)@)
                    }
                },
            },
    {
        let i = match self.phase {
            SearchPhase::Embedding(i) => i,
            _ => 0,
        };
        match outcome {
            EmbedOutcome::Failed(e) => {
                self.phase = SearchPhase::Failed;
                SearchAction::Fail(SearchError::Embedding(e))
            },
            EmbedOutcome::TimedOut => {
                self.phase = SearchPhase::Failed;
                SearchAction::Fail(SearchError::Timeout)
            },
            EmbedOutcome::Embedded => {
                if i + 1 < self.embedders {
                    self.phase = SearchPhase::Embedding(i + 1);
                    SearchAction::Embed(i + 1)
                } else {
                    self.phase = SearchPhase::Inserting;
                    SearchAction::InsertQuery { key: self.key, text: self.text.clone() }
                }
            },
        }
    }

    /// The query was stored: its vectors are searched with.
    pub fn on_stored(&mut self, stored: Result<(), QdrantError>) -> (action: SearchAction)
        requires
            old(self)@.phase == SearchPhase::Inserting,
        ensures
            same_search(final(self)@, old(self)@),
            match stored {
                Ok(()) => final(self)@.phase == SearchPhase::Searching && is_search_action(action, old(self)@),
                Err(e) => final(self)@.phase == SearchPhase::Failed
                    && action == SearchAction::Fail(SearchError::Qdrant(e)),
            },
    {
        match stored {
            Ok(()) => {
                self.phase = SearchPhase::Searching;
                self.search_action()
            },
            Err(e) => {
                self.phase = SearchPhase::Failed;
                SearchAction::Fail(SearchError::Qdrant(e))
            },
        }
    }
}

/// The link of a hit: the `link` field of its payload when that is a
/// string, else the empty string.
pub fn hit_link(link: Option<String>) -> (s: String)
    ensures
        s@ == match link {
            Some(l) => l@,
            None => Seq::<char>::empty(),
        },
{
    match link {
        Some(l) => l,
        None => String::new(),
    }
}

} // verus!
