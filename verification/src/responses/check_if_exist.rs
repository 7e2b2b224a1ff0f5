//! The answer to the question whether a file is indexed.

use vstd::prelude::*;
use crate::errors::{is_success, status_is_success, DistantError};
use crate::json::{Json, JsonValue};
use crate::responses::search_result::{total_at, Shards, Total};

verus! {

/// The hits of a search by file name. Only their number is read; each hit
/// is kept as the engine sent it.
#[derive(Debug, PartialEq, Eq)]
pub struct Hits {
    /// How many documents match in all.
    pub total: Total,
    /// The best score, where the engine tells it.
    pub max_score: Option<JsonValue>,
    /// The hits of the page; `None` stands for a `null`.
    pub hits: Vec<Option<JsonValue>>,
}

/// The answer to a search by file name.
#[derive(Debug, PartialEq, Eq)]
pub struct CheckIfFileExistsResult {
    /// The time the search took, in milliseconds.
    pub took: i64,
    /// Whether the engine gave up before the search was complete.
    pub timed_out: bool,
    /// How the shards fared.
    pub shards: Shards,
    pub hits: Hits,
}

/// The model of [`Hits`].
pub struct HitsView {
    pub total: Total,
    pub max_score: Option<Json>,
    pub hits: Seq<Option<Json>>,
}

/// The model of a [`CheckIfFileExistsResult`].
pub struct CheckIfFileExistsResultView {
    pub took: i64,
    pub timed_out: bool,
    pub shards: Shards,
    pub hits: HitsView,
}

/// The model of a document that may be absent.
pub open spec fn optional_model(doc: Option<JsonValue>) -> Option<Json> {
    match doc {
        Some(d) => Some(d@),
        None => None,
    }
}

/// A document, or `None` for `null`.
pub open spec fn unless_null(doc: Json) -> Option<Json> {
    match doc {
        Json::Null => None,
        other => Some(other),
    }
}

impl View for Hits {
    type V = HitsView;

    open spec fn view(&self) -> HitsView {
        HitsView {
            total: self.total,
            max_score: optional_model(self.max_score),
            hits: Seq::new(self.hits@.len(), |i: int| optional_model(self.hits@[i])),
        }
    }
}

impl View for CheckIfFileExistsResult {
    type V = CheckIfFileExistsResultView;

    open spec fn view(&self) -> CheckIfFileExistsResultView {
        CheckIfFileExistsResultView {
            took: self.took,
            timed_out: self.timed_out,
            shards: self.shards,
            hits: self.hits@,
        }
    }
}

/// The shard counts that the member `_shards` of `doc` holds.
pub open spec fn required_shards_at(doc: Json) -> Option<Shards> {
    match doc.field("_shards"@) {
        Some(counts) => Shards::decoded(counts),
        None => None,
    }
}

/// The hits that the member `hits` of `doc` holds.
pub open spec fn counted_hits_at(doc: Json) -> Option<HitsView> {
    match doc.field("hits"@) {
        Some(hits) => Hits::decoded(hits),
        None => None,
    }
}

impl Hits {
    /// What `doc` holds as counted hits: `total` is a total and `hits` is
    /// an array, whatever its items are.
    pub open spec fn decoded(doc: Json) -> Option<HitsView> {
        match (total_at(doc), doc.field("hits"@)) {
            (Some(total), Some(Json::Array(items))) => Some(
                HitsView {
                    total,
                    max_score: doc.present("max_score"@),
                    hits: Seq::new(items.len(), |i: int| unless_null(items[i])),
                },
            ),
            _ => None,
        }
    }

    /// Reads counted hits from `doc`.
    pub fn decode(doc: &JsonValue) -> (r: Option<Hits>)
        ensures
            match Hits::decoded(doc@) {
                Some(hits) => r matches Some(h) && h@ == hits,
                None => r is None,
            },
    {
        let total = Total::decode(doc.get("total")?)?;
        let items = doc.get("hits")?.as_array()?;
        let max_score = match doc.get_present("max_score") {
            Some(score) => Some(score.clone()),
            None => None,
        };
        let mut hits: Vec<Option<JsonValue>> = Vec::new();
        let mut i: usize = 0;
        while i < items.len()
            invariant
                i <= items.len(),
                hits@.len() == i,
                forall|k: int| 0 <= k < i ==> optional_model(hits@[k]) == unless_null(items@[k]@),
            decreases items.len() - i,
        {
            let hit = if items[i].is_null() {
                None
            } else {
                Some(items[i].clone())
            };
            hits.push(hit);
            i += 1;
        }
        let r = Hits { total, max_score, hits };
        assert(r@.hits =~= Hits::decoded(doc@)->Some_0.hits);
        Some(r)
    }
}

impl CheckIfFileExistsResult {
    /// What `doc` holds as the answer to a search by file name: `took` is
    /// an integer, `timed_out` is a truth value, `_shards` holds shard
    /// counts and `hits` holds counted hits.
    pub open spec fn decoded(doc: Json) -> Option<CheckIfFileExistsResultView> {
        match (
            doc.int_at("took"@),
            doc.bool_at("timed_out"@),
            required_shards_at(doc),
            counted_hits_at(doc),
        ) {
            (Some(took), Some(timed_out), Some(shards), Some(hits)) => Some(
                CheckIfFileExistsResultView { took, timed_out, shards, hits },
            ),
            _ => None,
        }
    }

    /// Reads the answer to a search by file name from `doc`.
    pub fn decode(doc: &JsonValue) -> (r: Option<CheckIfFileExistsResult>)
        ensures
            match CheckIfFileExistsResult::decoded(doc@) {
                Some(result) => r matches Some(x) && x@ == result,
                None => r is None,
            },
    {
        let took = doc.int_at("took")?;
        let timed_out = doc.bool_at("timed_out")?;
        let shards = Shards::decode(doc.get("_shards")?)?;
        let hits = Hits::decode(doc.get("hits")?)?;
        Some(CheckIfFileExistsResult { took, timed_out, shards, hits })
    }

    /// Whether the file is indexed: at least one document matches its name.
    pub open spec fn found(self) -> bool {
        self.hits.total.value > 0
    }

    /// Whether the file is indexed.
    pub fn file_exists(&self) -> (r: bool)
        ensures
            r == self.found(),
    {
        self.hits.total.value > 0
    }
}

/// Whether an answer to a search by file name tells that the file is
/// indexed.
pub open spec fn existence(status: u16, body: Json) -> Result<bool, DistantError> {
    if !is_success(status) {
        Err(DistantError::EngineError(status))
    } else {
        match CheckIfFileExistsResult::decoded(body) {
            Some(result) => Ok(result.hits.total.value > 0),
            None => Err(DistantError::MalformedResponse),
        }
    }
}

/// Turns the engine's answer to a search by file name into the answer to
/// the question whether the file is indexed. That the search went through
/// does not make it so: the file is indexed where the total count is above
/// zero.
pub fn read_existence(status: u16, body: &JsonValue) -> (r: Result<bool, DistantError>)
    ensures
        r == existence(status, body@),
{
    if !status_is_success(status) {
        return Err(DistantError::EngineError(status));
    }
    match CheckIfFileExistsResult::decode(body) {
        Some(result) => Ok(result.file_exists()),
        None => Err(DistantError::MalformedResponse),
    }
}

} // verus!
