//! The records of the vector database: what is stored for media and
//! queries, how stored records are read back, and how the links of a user
//! are gathered page by page.
use vstd::prelude::*;

use std::collections::HashMap;

use qdrant_client::QdrantError;

use crate::ids::{hyphenated, lemma_hyphenated_parses, uuid_parse, uuid_parse_spec, uuid_to_string};

verus! {

broadcast use vstd::std_specs::hash::group_hash_axioms;

/// The collection of media records.
pub open spec fn media_collection_spec() -> Seq<char> {
    "media"@
}

/// The collection of query records.
pub open spec fn queries_collection_spec() -> Seq<char> {
    "queries"@
}

pub fn media_collection() -> (name: String)
    ensures
        name@ == media_collection_spec(),
{
    String::from_str("media")
}

pub fn queries_collection() -> (name: String)
    ensures
        name@ == queries_collection_spec(),
{
    String::from_str("queries")
}

/// Where the setting up of the two collections stands.
#[derive(Clone, Copy, Debug, PartialEq, Eq, Structural)]
pub enum InitPhase {
    /// Waiting to learn whether the media collection exists.
    CheckingMedia,
    /// Waiting for the media collection to be created.
    CreatingMedia,
    /// Waiting to learn whether the query collection exists.
    CheckingQueries,
    /// Waiting for the query collection to be created.
    CreatingQueries,
    /// Nothing more to do.
    Finished,
}

/// What the setting up of the collections asks for next.
#[derive(Debug)]
pub enum InitAction {
    /// Ask whether the collection with this name exists.
    CheckExists(String),
    /// Create the collection with this name, with the named vectors of all
    /// embedders.
    Create(String),
    /// Both collections exist.
    Done,
    /// Setting up failed with this error.
    Fail(QdrantError),
}

/// The action that asks whether the collection `name` exists.
pub open spec fn is_check_action(a: InitAction, name: Seq<char>) -> bool {
    a matches InitAction::CheckExists(n) && n@ == name
}

/// The action that creates the collection `name`.
pub open spec fn is_create_action(a: InitAction, name: Seq<char>) -> bool {
    a matches InitAction::Create(n) && n@ == name
}

/// The setting up of the media and query collections: each is created only
/// when it is absent, the media collection first, and the first error ends
/// the setting up.
pub struct Initializer {
    phase: InitPhase,
}

impl View for Initializer {
    type V = InitPhase;

    closed spec fn view(&self) -> InitPhase {
        self.phase
    }
}

impl Initializer {
    /// Starts by asking whether the media collection exists.
    pub fn start() -> (r: (Initializer, InitAction))
        ensures
            r.0@ == InitPhase::CheckingMedia,
            is_check_action(r.1, media_collection_spec()),
    {
        (Initializer { phase: InitPhase::CheckingMedia }, InitAction::CheckExists(media_collection()))
    }

    /// Where the setting up stands.
    pub fn phase(&self) -> (p: InitPhase)
        ensures
            p == self@,
    {
        self.phase
    }

    /// Whether the collection asked about exists came back: an absent
    /// collection is created; after the media collection the query
    /// collection is asked about, after which nothing is left.
    pub fn on_exists(&mut self, found: Result<bool, QdrantError>) -> (action: InitAction)
        requires
            old(self)@ == InitPhase::CheckingMedia || old(self)@ == InitPhase::CheckingQueries,
        ensures
            match found {
                Err(e) => final(self)@ == InitPhase::Finished && action == InitAction::Fail(e),
                Ok(false) => if old(self)@ == InitPhase::CheckingMedia {
                    final(self)@ == InitPhase::CreatingMedia && is_create_action(action, media_collection_spec())
                } else {
                    final(self)@ == InitPhase::CreatingQueries && is_create_action(action, queries_collection_spec())
                },
                Ok(true) => if old(self)@ == InitPhase::CheckingMedia {
                    final(self)@ == InitPhase::CheckingQueries && is_check_action(action, queries_collection_spec())
                } else {
                    final(self)@ == InitPhase::Finished && action == InitAction::Done
                },
            },
    {
        let media = match self.phase {
            InitPhase::CheckingMedia => true,
            _ => false,
        };
        match found {
            Err(e) => {
                self.phase = InitPhase::Finished;
                InitAction::Fail(e)
            },
            Ok(false) => {
                if media {
                    self.phase = InitPhase::CreatingMedia;
                    InitAction::Create(media_collection())
                } else {
                    self.phase = InitPhase::CreatingQueries;
                    InitAction::Create(queries_collection())
                }
            },
            Ok(true) => {
                if media {
                    self.phase = InitPhase::CheckingQueries;
                    InitAction::CheckExists(queries_collection())
                } else {
                    self.phase = InitPhase::Finished;
                    InitAction::Done
                }
            },
        }
    }

    /// The collection was created: after the media collection the query
    /// collection is asked about, after which nothing is left.
    pub fn on_created(&mut self, created: Result<(), QdrantError>) -> (action: InitAction)
        requires
            old(self)@ == InitPhase::CreatingMedia || old(self)@ == InitPhase::CreatingQueries,
        ensures
            match created {
                Err(e) => final(self)@ == InitPhase::Finished && action == InitAction::Fail(e),
                Ok(()) => if old(self)@ == InitPhase::CreatingMedia {
                    final(self)@ == InitPhase::CheckingQueries && is_check_action(action, queries_collection_spec())
                } else {
                    final(self)@ == InitPhase::Finished && action == InitAction::Done
                },
            },
    {
        let media = match self.phase {
            InitPhase::CreatingMedia => true,
            _ => false,
        };
        match created {
            Err(e) => {
                self.phase = InitPhase::Finished;
                InitAction::Fail(e)
            },
            Ok(()) => {
                if media {
                    self.phase = InitPhase::CheckingQueries;
                    InitAction::CheckExists(queries_collection())
                } else {
                    self.phase = InitPhase::Finished;
                    InitAction::Done
                }
            },
        }
    }
}

/// The text form of each user, as stored in the `users` field of a media record.
pub open spec fn users_payload_spec(users: Seq<u128>) -> Seq<Seq<char>> {
    users.map_values(|u: u128| hyphenated(u))
}

/// The `users` field of a media record, as read back: each entry must be a
/// string that reads as a UUID, else the record is unusable.
pub open spec fn users_from_payload_spec(entries: Seq<Option<Seq<char>>>) -> Option<Seq<u128>>
    decreases entries.len(),
{
    if entries.len() == 0 {
        Some(Seq::empty())
    } else {
        match users_from_payload_spec(entries.drop_last()) {
            Some(us) => match entries.last() {
                Some(s) => match uuid_parse_spec(s) {
                    Some(u) => Some(us.push(u)),
                    None => None,
                },
                None => None,
            },
            None => None,
        }
    }
}

pub open spec fn opt_string_view(s: Option<String>) -> Option<Seq<char>> {
    match s {
        Some(s) => Some(s@),
        None => None,
    }
}

pub open spec fn opt_strings_view(v: Seq<Option<String>>) -> Seq<Option<Seq<char>>> {
    v.map_values(|s: Option<String>| opt_string_view(s))
}

pub open spec fn strings_view(v: Seq<String>) -> Seq<Seq<char>> {
    v.map_values(|s: String| s@)
}

/// The text form of each user.
pub fn users_payload(users: &Vec<u128>) -> (texts: Vec<String>)
    ensures
        strings_view(texts@) == users_payload_spec(users@),
        users_from_payload_spec(strings_view(texts@).map_values(|s: Seq<char>| Some(s))) == Some(users@),
{
    let mut texts: Vec<String> = Vec::new();
    let mut i: usize = 0;
    while i < users.len()
        invariant
            i <= users@.len(),
            strings_view(texts@) == users_payload_spec(users@.take(i as int)),
        decreases users@.len() - i,
    {
        let t = uuid_to_string(users[i]);
        let ghost before = texts@;
        texts.push(t);
        proof {
            assert(users@.take(i + 1) =~= users@.take(i as int).push(users@[i as int]));
            assert(strings_view(texts@) =~= strings_view(before).push(t@));
            assert(users_payload_spec(users@.take(i + 1)) =~= users_payload_spec(users@.take(i as int)).push(
                hyphenated(users@[i as int]),
            ));
        }
        i = i + 1;
    }
    assert(users@.take(users@.len() as int) =~= users@);
    proof {
        lemma_users_round_trip(users@);
    }
    texts
}

/// The payload of a new media record.
pub struct MediaPayload {
    /// The `link` field: the link as the parsed URL writes it out.
    pub link: String,
    /// The `users` field: the text forms of its users.
    pub users: Vec<String>,
}

/// The payload of a new media record for `link`, with `user` as its only user.
pub fn media_payload(link: String, user: u128) -> (p: MediaPayload)
    ensures
        p.link@ == link@,
        strings_view(p.users@) == users_payload_spec(seq![user]),
        users_from_payload_spec(strings_view(p.users@).map_values(|s: Seq<char>| Some(s))) == Some(seq![user]),
{
    let mut users: Vec<u128> = Vec::new();
    users.push(user);
    assert(users@ =~= seq![user]);
    MediaPayload { link, users: users_payload(&users) }
}

/// Reads the users of a media record from its `users` entries (`None` for
/// an entry that is not a string).
pub fn users_from_payload(entries: &Vec<Option<String>>) -> (users: Option<Vec<u128>>)
    ensures
        match users {
            Some(us) => users_from_payload_spec(opt_strings_view(entries@)) == Some(us@),
            None => users_from_payload_spec(opt_strings_view(entries@)).is_none(),
        },
{
    let mut users: Vec<u128> = Vec::new();
    let mut i: usize = 0;
    while i < entries.len()
        invariant
            i <= entries@.len(),
            users_from_payload_spec(opt_strings_view(entries@.take(i as int))) == Some(users@),
        decreases entries@.len() - i,
    {
        proof {
            assert(opt_strings_view(entries@.take(i + 1)).drop_last() =~= opt_strings_view(entries@.take(i as int)));
            assert(opt_strings_view(entries@.take(i + 1)).last() == opt_string_view(entries@[i as int]));
        }
        match &entries[i] {
            Some(s) => match uuid_parse(s.as_str()) {
                Some(u) => {
                    users.push(u);
                },
                None => {
                    proof { lemma_users_none_extends(opt_strings_view(entries@), i as int + 1); }
                    return None;
                },
            },
            None => {
                proof { lemma_users_none_extends(opt_strings_view(entries@), i as int + 1); }
                return None;
            },
        }
        i = i + 1;
    }
    assert(entries@.take(entries@.len() as int) =~= entries@);
    Some(users)
}

/// Once a prefix of the entries is unusable, all of them are.
proof fn lemma_users_none_extends(entries: Seq<Option<Seq<char>>>, k: int)
    requires
        0 <= k <= entries.len(),
        users_from_payload_spec(entries.take(k)).is_none(),
    ensures
        users_from_payload_spec(entries).is_none(),
    decreases entries.len() - k,
{
    if k < entries.len() {
        assert(entries.take(k + 1).drop_last() =~= entries.take(k));
        lemma_users_none_extends(entries, k + 1);
    } else {
        assert(entries.take(k) =~= entries);
    }
}

/// The `users` field written for some users reads back as the same users,
/// in the same order.
pub proof fn lemma_users_round_trip(users: Seq<u128>)
    ensures
        users_from_payload_spec(users_payload_spec(users).map_values(|s: Seq<char>| Some(s))) == Some(users),
    decreases users.len(),
{
    let entries = users_payload_spec(users).map_values(|s: Seq<char>| Some(s));
    if users.len() > 0 {
        let rest = users.drop_last();
        lemma_users_round_trip(rest);
        lemma_hyphenated_parses(users[users.len() - 1]);
        assert(entries.drop_last() =~= users_payload_spec(rest).map_values(|s: Seq<char>| Some(s)));
        assert(uuid_parse_spec(hyphenated(users[users.len() - 1])) == Some(users[users.len() - 1]));
        assert(rest.push(users.last()) =~= users);
    } else {
        assert(entries =~= Seq::<Option<Seq<char>>>::empty());
    }
}

/// The payload-side part of a stored media record.
pub struct MediaRecord {
    /// The `link` field as the database client writes the value out.
    pub link: String,
    pub users: Vec<u128>,
}

/// Reads a fetched media record: it is usable only if its vectors come as
/// named vectors, its payload has a `link`, and its `users` field is a list
/// whose entries all read as UUIDs.
pub fn media_record(
    named_vectors: bool,
    link: Option<String>,
    users: Option<Vec<Option<String>>>,
) -> (record: Option<MediaRecord>)
    ensures
        match record {
            Some(r) => {
                &&& named_vectors
                &&& link matches Some(l) && r.link@ == l@
                &&& users matches Some(entries)
                    && users_from_payload_spec(opt_strings_view(entries@)) == Some(r.users@)
            },
            None => !named_vectors || link.is_none() || match users {
                Some(entries) => users_from_payload_spec(opt_strings_view(entries@)).is_none(),
                None => true,
            },
        },
{
    if !named_vectors {
        return None;
    }
    let link = match link {
        Some(l) => l,
        None => {
            return None;
        },
    };
    let entries = match users {
        Some(e) => e,
        None => {
            return None;
        },
    };
    match users_from_payload(&entries) {
        Some(us) => Some(MediaRecord { link, users: us }),
        None => None,
    }
}

/// Reads a fetched query record: it is usable only if its vectors come as
/// named vectors and its payload has a `text`.
pub fn query_record(named_vectors: bool, text: Option<String>) -> (record: Option<String>)
    ensures
        match record {
            Some(r) => {
                &&& named_vectors
                &&& text matches Some(t)
                &&& r@ == t@
            },
            None => !named_vectors || text.is_none(),
        },
{
    if !named_vectors {
        return None;
    }
    text
}

/// The identifier of a stored point: a number or a UUID in text form.
#[derive(Clone, Debug)]
pub enum PointOffset {
    Num(u64),
    Uuid(String),
}

/// A request for one page of the media records of a user.
#[derive(Debug)]
pub struct ScrollRequest {
    /// Only records whose `users` hold this text.
    pub user_filter: String,
    /// At most this many records.
    pub limit: u64,
    /// Starting from this record, or from the first.
    pub offset: Option<PointOffset>,
}

/// The number of records asked for per page.
pub open spec fn page_size() -> u64 {
    100
}

/// The link entry of one listed record: its identifier must be a UUID in
/// text form and its `link` field a string, else the record is passed over.
pub open spec fn link_entry_spec(id: Option<Seq<char>>, link: Option<Seq<char>>) -> Option<(u128, Seq<char>)> {
    match (id, link) {
        (Some(i), Some(l)) => match uuid_parse_spec(i) {
            Some(u) => Some((u, l)),
            None => None,
        },
        _ => None,
    }
}

/// The links gathered from a page of `(identifier, link)` pairs added to `m`;
/// a later entry for the same UUID replaces an earlier one.
pub open spec fn add_entries(m: Map<u128, Seq<char>>, page: Seq<(Option<String>, Option<String>)>) -> Map<u128, Seq<char>>
    decreases page.len(),
{
    if page.len() == 0 {
        m
    } else {
        let before = add_entries(m, page.drop_last());
        match link_entry_spec(opt_string_view(page.last().0), opt_string_view(page.last().1)) {
            Some((u, l)) => before.insert(u, l),
            None => before,
        }
    }
}

/// A listed record whose identifier reads as the UUID `u` and whose `link`
/// field is a string.
pub open spec fn names_uuid(entry: (Option<String>, Option<String>), u: u128) -> bool {
    &&& entry.0 is Some
    &&& entry.1 is Some
    &&& uuid_parse_spec(entry.0->0@) == Some(u)
}

/// Every usable record of a page is gathered, whatever the number of links
/// gathered already: its UUID maps to the link of the last record of the page
/// that names that UUID.
pub proof fn lemma_page_entry_gathered(m: Map<u128, Seq<char>>, page: Seq<(Option<String>, Option<String>)>, k: int, u: u128)
    requires
        0 <= k < page.len(),
        names_uuid(page[k], u),
        forall|j: int| k < j < page.len() ==> !names_uuid(#[trigger] page[j], u),
    ensures
        add_entries(m, page).contains_key(u),
        add_entries(m, page)[u] == page[k].1->0@,
    decreases page.len(),
{
    let last = page.last();
    if k == page.len() - 1 {
        assert(link_entry_spec(opt_string_view(last.0), opt_string_view(last.1)) == Some((u, page[k].1->0@)));
    } else {
        let rest = page.drop_last();
        assert forall|j: int| k < j < rest.len() implies !names_uuid(#[trigger] rest[j], u) by {
            assert(rest[j] == page[j]);
        }
        lemma_page_entry_gathered(m, rest, k, u);
        assert(!names_uuid(page[page.len() - 1], u));
    }
}

/// A UUID that no usable record of a page names keeps what it had: gathering
/// a page adds links and never removes or changes others.
pub proof fn lemma_page_keeps_others(m: Map<u128, Seq<char>>, page: Seq<(Option<String>, Option<String>)>, u: u128)
    requires
        forall|j: int| 0 <= j < page.len() ==> !names_uuid(#[trigger] page[j], u),
    ensures
        add_entries(m, page).contains_key(u) == m.contains_key(u),
        m.contains_key(u) ==> add_entries(m, page)[u] == m[u],
    decreases page.len(),
{
    if page.len() > 0 {
        let rest = page.drop_last();
        assert forall|j: int| 0 <= j < rest.len() implies !names_uuid(#[trigger] rest[j], u) by {
            assert(rest[j] == page[j]);
        }
        lemma_page_keeps_others(m, rest, u);
        assert(!names_uuid(page[page.len() - 1], u));
    }
}

/// The links a map holds, as text.
pub open spec fn links_view(m: Map<u128, String>) -> Map<u128, Seq<char>> {
    m.map_values(|s: String| s@)
}

fn clone_opt_string(s: &Option<String>) -> (c: Option<String>)
    ensures
        opt_string_view(c) == opt_string_view(*s),
{
    match s {
        Some(s) => Some(s.clone()),
        None => None,
    }
}

/// The link entry of one listed record.
pub fn link_entry(id: Option<String>, link: Option<String>) -> (entry: Option<(u128, String)>)
    ensures
        match entry {
            Some((u, l)) => link_entry_spec(opt_string_view(id), opt_string_view(link)) == Some((u, l@)),
            None => link_entry_spec(opt_string_view(id), opt_string_view(link)).is_none(),
        },
{
    match (id, link) {
        (Some(i), Some(l)) => match uuid_parse(i.as_str()) {
            Some(u) => Some((u, l)),
            None => None,
        },
        _ => None,
    }
}

/// Gathers the links of the media records of one user, page by page.
pub struct LinkScan {
    user_filter: String,
    links: HashMap<u128, String>,
    done: bool,
}

/// What a scan has gathered, and whether it is over.
pub struct LinkScanView {
    pub user_filter: Seq<char>,
    pub links: Map<u128, Seq<char>>,
    pub done: bool,
}

impl View for LinkScan {
    type V = LinkScanView;

    closed spec fn view(&self) -> LinkScanView {
        LinkScanView { user_filter: self.user_filter@, links: links_view(self.links@), done: self.done }
    }
}

impl LinkScan {
    /// Starts gathering the links of `user`: the first page is asked for.
    pub fn start(user: u128) -> (r: (LinkScan, ScrollRequest))
        ensures
            r.0@.user_filter == hyphenated(user),
            r.0@.links == Map::<u128, Seq<char>>::empty(),
            !r.0@.done,
            r.1.user_filter@ == hyphenated(user),
            r.1.limit == page_size(),
            r.1.offset.is_none(),
    {
        let f = uuid_to_string(user);
        let request = ScrollRequest { user_filter: f.clone(), limit: 100, offset: None };
        let links: HashMap<u128, String> = HashMap::new();
        assert(links_view(links@) =~= Map::<u128, Seq<char>>::empty());
        (LinkScan { user_filter: f, links, done: false }, request)
    }

    /// A page came back. An empty page ends the scan; otherwise its links
    /// are added and the next page is asked for, if the database names one.
    pub fn on_page(
        &mut self,
        page: Vec<(Option<String>, Option<String>)>,
        next: Option<PointOffset>,
    ) -> (request: Option<ScrollRequest>)
        requires
            !old(self)@.done,
        ensures
            final(self)@.user_filter == old(self)@.user_filter,
            page@.len() == 0 ==> final(self)@.links == old(self)@.links && final(self)@.done
                && request.is_none(),
            page@.len() > 0 ==> final(self)@.links == add_entries(old(self)@.links, page@),
            page@.len() > 0 && next.is_none() ==> final(self)@.done && request.is_none(),
            page@.len() > 0 && next.is_some() ==> {
                &&& !final(self)@.done
                &&& request matches Some(r)
                &&& r.user_filter@ == old(self)@.user_filter
                &&& r.limit == page_size()
                &&& r.offset == next
            },
    {
        if page.len() == 0 {
            self.done = true;
            return None;
        }
        let mut i: usize = 0;
        while i < page.len()
            invariant
                i <= page@.len(),
                links_view(self.links@) == add_entries(old(self)@.links, page@.take(i as int)),
                self.user_filter@ == old(self)@.user_filter,
                self.done == old(self)@.done,
            decreases page@.len() - i,
        {
            let id = clone_opt_string(&page[i].0);
            let link = clone_opt_string(&page[i].1);
            let ghost before = self.links@;
            proof {
                assert(page@.take(i + 1).drop_last() =~= page@.take(i as int));
                assert(page@.take(i + 1).last() == page@[i as int]);
            }
            match link_entry(id, link) {
                Some((u, l)) => {
                    let ghost lv = l@;
                    self.links.insert(u, l);
                    assert(links_view(self.links@) =~= links_view(before).insert(u, lv));
                },
                None => {},
            }
            i = i + 1;
        }
        assert(page@.take(page@.len() as int) =~= page@);
        match next {
            Some(offset) => Some(ScrollRequest { user_filter: self.user_filter.clone(), limit: 100, offset: Some(offset) }),
            None => {
                self.done = true;
                None
            },
        }
    }

    /// The links gathered.
    pub fn into_links(self) -> (links: HashMap<u128, String>)
        ensures
            links_view(links@) == self@.links,
    {
        self.links
    }
}

} // verus!
