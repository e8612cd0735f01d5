//! The cache store's verified half: the shape of a cached entry, the keys
//! and file names that entries live under, the per-kind freshness window,
//! and the decision between serving a cached listing and fetching afresh.
//! Reading and writing the files themselves is the caller's business.

use vstd::prelude::*;
use vstd::string::*;

use crate::artifact::{atype_name, AType, Artifact};
use crate::error::{Error, StoreError};
use crate::strutil::eq_str;
use crate::timeutil::{now_seconds, parse_timestamp, timestamp_of};

verus! {

/// A cached listing: its age as a timestamp string, the composite parent
/// key it was fetched under, and the payload itself.
#[derive(Debug)]
pub struct Entry<T> {
    pub age: String,
    pub parent: String,
    pub payload: T,
}

impl<T> Entry<T> {
    /// Stamps a payload with its age and parent key.
    pub fn new(age: String, parent: String, payload: T) -> (r: Self)
        ensures
            r.age == age,
            r.parent == parent,
            r.payload == payload,
    {
        Entry { age, parent, payload }
    }
}

/// How many minutes a cached listing of each kind stays serviceable.
/// Boards restructure rarely and keep the longest window; cards change the
/// most and keep the shortest.
pub open spec fn window_minutes(kind: AType) -> int {
    match kind {
        AType::Board => 60,
        AType::List => 15,
        AType::Swimlane => 20,
        AType::Checklist => 15,
        AType::Card => 5,
        AType::Empty => 0,
    }
}

/// The freshness window of one artifact kind, in minutes.
pub fn freshness_window_minutes(kind: &AType) -> (r: u32)
    ensures
        r == window_minutes(*kind),
{
    match kind {
        AType::Board => 60,
        AType::List => 15,
        AType::Swimlane => 20,
        AType::Checklist => 15,
        AType::Card => 5,
        AType::Empty => 0,
    }
}

/// A cached entry written at `age_ts` still serves a request at `now`.
pub open spec fn fresh_at(kind: AType, age_ts: int, now: int) -> bool {
    now - age_ts <= 60 * window_minutes(kind)
}

/// Whether an entry written at `age_ts` is still fresh at `now`.
pub fn is_fresh_at(kind: &AType, age_ts: i64, now: i64) -> (r: bool)
    ensures
        r == fresh_at(*kind, age_ts as int, now as int),
{
    let w = freshness_window_minutes(kind);
    (now as i128) - (age_ts as i128) <= 60 * (w as i128)
}

/// Freshness flips exactly at the window's edge: any moment within the
/// window serves the cached entry, any moment past it does not.
pub proof fn lemma_freshness_window(kind: AType, age_ts: int, eps: int)
    requires
        eps > 0,
    ensures
        fresh_at(kind, age_ts, age_ts + 60 * window_minutes(kind) - eps),
        !fresh_at(kind, age_ts, age_ts + 60 * window_minutes(kind) + eps),
{
}

/// Freshness is monotone: an entry fresh at a later moment was fresh at
/// every earlier one.
pub proof fn lemma_freshness_monotone(kind: AType, age_ts: int, now1: int, now2: int)
    requires
        now1 <= now2,
        fresh_at(kind, age_ts, now2),
    ensures
        fresh_at(kind, age_ts, now1),
{
}

/// The composite key that namespaces cache entries: the board id, the board
/// and second ancestor joined by an underscore, or empty for top-level
/// boards.
pub fn composite_key(board_id: Option<&str>, second_id: Option<&str>) -> (r: String)
    ensures
        match (board_id, second_id) {
            (Some(b), Some(l)) => r@ == b@ + "_"@ + l@,
            (Some(b), None) => r@ == b@,
            (None, _) => r@ == Seq::<char>::empty(),
        },
{
    match board_id {
        Some(b) => match second_id {
            Some(l) => {
                let mut s = b.to_owned();
                s.append("_");
                s.append(l);
                s
            },
            None => b.to_owned(),
        },
        None => String::new(),
    }
}

/// The file name a cached listing lives under: the kind's name pluralised
/// for boards, else the kind's name and the parent key joined by an
/// underscore.
pub fn store_file_name(kind: &AType, parent_key: &str) -> (r: String)
    ensures
        *kind == AType::Board ==> r@ == atype_name(*kind) + "s"@,
        *kind != AType::Board ==> r@ == atype_name(*kind) + "_"@ + parent_key@,
{
    let mut s = kind.to_string();
    match kind {
        AType::Board => {
            s.append("s");
        },
        _ => {
            s.append("_");
            s.append(parent_key);
        },
    }
    s
}

/// The key a single artifact is remembered under: kind name, underscore,
/// id.
pub fn unique_identifier(a: &Artifact) -> (r: String)
    ensures
        r@ == atype_name(a.kind) + "_"@ + a._id@,
{
    let mut s = a.kind.to_string();
    s.append("_");
    s.append(a._id.as_str());
    s
}

/// Accepts a remembered artifact only when the key it was asked under is
/// exactly its id and title run together; anything else is a silent miss.
pub fn approve_artifact(unique_identifier: &str, loaded: &Artifact) -> (r: Result<String, Error>)
    ensures
        match r {
            Ok(id) => unique_identifier@ == loaded._id@ + loaded.title@ && id == loaded._id,
            Err(e) => unique_identifier@ != loaded._id@ + loaded.title@ && e == Error::Store(
                StoreError { found: false },
            ),
        },
{
    let mut joined = loaded._id.clone();
    joined.append(loaded.title.as_str());
    if eq_str(unique_identifier, joined.as_str()) {
        Ok(loaded._id.clone())
    } else {
        Err(Error::Store(StoreError { found: false }))
    }
}

/// What to do with a cache lookup's outcome.
#[derive(Debug)]
pub enum CacheDecision {
    /// Serve the cached payload unchanged.
    UseCached(Vec<Artifact>),
    /// Fetch afresh and overwrite the entry.
    Refetch,
}

/// Decides between the cached payload and a fresh fetch, given the moment
/// `now`: a missing or unparseable entry is a miss, a stale one is
/// refetched, and only a fresh one is served — unchanged.
pub fn judge_lookup(kind: &AType, lookup: Option<Entry<Vec<Artifact>>>, now: i64) -> (r:
    CacheDecision)
    ensures
        match lookup {
            None => r is Refetch,
            Some(e) => match timestamp_of(e.age@) {
                Some(t) => if fresh_at(*kind, t, now as int) {
                    r == CacheDecision::UseCached(e.payload)
                } else {
                    r is Refetch
                },
                None => r is Refetch,
            },
        },
{
    match lookup {
        None => CacheDecision::Refetch,
        Some(e) => match parse_timestamp(e.age.as_str()) {
            Some(t) => if is_fresh_at(kind, t, now) {
                CacheDecision::UseCached(e.payload)
            } else {
                CacheDecision::Refetch
            },
            None => CacheDecision::Refetch,
        },
    }
}

/// Compares a cache entry's age against the clock. Of the clock reading
/// nothing is assumed; whatever it was, a served payload is a fresh entry's
/// payload, unchanged.
pub fn compare_age(kind: &AType, lookup: Option<Entry<Vec<Artifact>>>) -> (r: CacheDecision)
    ensures
        match lookup {
            None => r is Refetch,
            Some(e) => match timestamp_of(e.age@) {
                Some(t) => (r is UseCached ==> r == CacheDecision::UseCached(e.payload)),
                None => r is Refetch,
            },
        },
{
    let now = now_seconds();
    judge_lookup(kind, lookup, now)
}

} // verus!
