//! The listing of the engine's indices.

use vstd::prelude::*;
use crate::errors::{is_success, status_is_success, DistantError};
use crate::json::{items_model, Json, JsonValue};

verus! {

/// One index, as the engine lists it. Every column comes as text, and is
/// kept as text.
#[derive(Debug, PartialEq, Eq)]
pub struct IndexInfo {
    /// `green`, `yellow` or `red`.
    pub health: String,
    /// Whether the index is open.
    pub status: String,
    /// The name of the index.
    pub index: String,
    pub uuid: String,
    /// The number of primary shards.
    pub pri: String,
    /// The number of replicas.
    pub rep: String,
    /// The number of documents.
    pub docs_count: String,
    /// The number of deleted documents.
    pub docs_deleted: String,
    /// The size of the index on disk.
    pub store_size: String,
    /// The size of its primary shards on disk.
    pub pri_store_size: String,
}

/// The listing of the indices.
pub type Index = Vec<IndexInfo>;

/// The model of an [`IndexInfo`].
pub struct IndexInfoView {
    pub health: Seq<char>,
    pub status: Seq<char>,
    pub index: Seq<char>,
    pub uuid: Seq<char>,
    pub pri: Seq<char>,
    pub rep: Seq<char>,
    pub docs_count: Seq<char>,
    pub docs_deleted: Seq<char>,
    pub store_size: Seq<char>,
    pub pri_store_size: Seq<char>,
}

impl View for IndexInfo {
    type V = IndexInfoView;

    open spec fn view(&self) -> IndexInfoView {
        IndexInfoView {
            health: self.health@,
            status: self.status@,
            index: self.index@,
            uuid: self.uuid@,
            pri: self.pri@,
            rep: self.rep@,
            docs_count: self.docs_count@,
            docs_deleted: self.docs_deleted@,
            store_size: self.store_size@,
            pri_store_size: self.pri_store_size@,
        }
    }
}

/// The models of a listing, index by index.
pub open spec fn listing_model(listing: Seq<IndexInfo>) -> Seq<IndexInfoView> {
    Seq::new(listing.len(), |i: int| listing[i]@)
}

impl IndexInfo {
    /// What `doc` holds as an index: each of the ten columns `health`,
    /// `status`, `index`, `uuid`, `pri`, `rep`, `docs.count`,
    /// `docs.deleted`, `store.size` and `pri.store.size` is a string.
    pub open spec fn decoded(doc: Json) -> Option<IndexInfoView> {
        match (
            doc.text_at("health"@),
            doc.text_at("status"@),
            doc.text_at("index"@),
            doc.text_at("uuid"@),
            doc.text_at("pri"@),
            doc.text_at("rep"@),
            doc.text_at("docs.count"@),
            doc.text_at("docs.deleted"@),
            doc.text_at("store.size"@),
            doc.text_at("pri.store.size"@),
        ) {
            (
                Some(health),
                Some(status),
                Some(index),
                Some(uuid),
                Some(pri),
                Some(rep),
                Some(docs_count),
                Some(docs_deleted),
                Some(store_size),
                Some(pri_store_size),
            ) => Some(
                IndexInfoView {
                    health,
                    status,
                    index,
                    uuid,
                    pri,
                    rep,
                    docs_count,
                    docs_deleted,
                    store_size,
                    pri_store_size,
                },
            ),
            _ => None,
        }
    }

    /// Reads an index from `doc`.
    pub fn decode(doc: &JsonValue) -> (r: Option<IndexInfo>)
        ensures
            match IndexInfo::decoded(doc@) {
                Some(info) => r matches Some(x) && x@ == info,
                None => r is None,
            },
    {
        let health = doc.text_at("health")?;
        let status = doc.text_at("status")?;
        let index = doc.text_at("index")?;
        let uuid = doc.text_at("uuid")?;
        let pri = doc.text_at("pri")?;
        let rep = doc.text_at("rep")?;
        let docs_count = doc.text_at("docs.count")?;
        let docs_deleted = doc.text_at("docs.deleted")?;
        let store_size = doc.text_at("store.size")?;
        let pri_store_size = doc.text_at("pri.store.size")?;
        Some(
            IndexInfo {
                health,
                status,
                index,
                uuid,
                pri,
                rep,
                docs_count,
                docs_deleted,
                store_size,
                pri_store_size,
            },
        )
    }
}

/// What `doc` holds as a listing: an array, of which every item holds an
/// index.
pub open spec fn listing(doc: Json) -> Option<Seq<IndexInfoView>> {
    match doc {
        Json::Array(items) => if forall|i: int|
            0 <= i < items.len() ==> IndexInfo::decoded(#[trigger] items[i]) is Some {
            Some(Seq::new(items.len(), |i: int| IndexInfo::decoded(items[i])->Some_0))
        } else {
            None
        },
        _ => None,
    }
}

/// What an answer to the request for the listing amounts to.
pub open spec fn listed(status: u16, body: Json) -> Result<Seq<IndexInfoView>, DistantError> {
    if !is_success(status) {
        Err(DistantError::EngineError(status))
    } else {
        match listing(body) {
            Some(indices) => Ok(indices),
            None => Err(DistantError::MalformedResponse),
        }
    }
}

/// Turns the engine's answer to the request for the listing of its indices
/// into that listing, in the engine's order.
pub fn read_indices(status: u16, body: &JsonValue) -> (r: Result<Index, DistantError>)
    ensures
        match listed(status, body@) {
            Ok(indices) => r matches Ok(list) && listing_model(list@) == indices,
            Err(e) => r == Err::<Index, DistantError>(e),
        },
{
    if !status_is_success(status) {
        return Err(DistantError::EngineError(status));
    }
    let items = match body.as_array() {
        Some(items) => items,
        None => {
            return Err(DistantError::MalformedResponse);
        },
    };
    let ghost models = items_model(items@);
    let mut indices: Vec<IndexInfo> = Vec::new();
    let mut i: usize = 0;
    while i < items.len()
        invariant
            i <= items.len(),
            is_success(status),
            body@ == Json::Array(models),
            models == items_model(items@),
            indices@.len() == i,
            forall|k: int|
                0 <= k < i ==> IndexInfo::decoded(models[k]) == Some(#[trigger] indices@[k]@),
        decreases items.len() - i,
    {
        match IndexInfo::decode(&items[i]) {
            Some(info) => {
                indices.push(info);
            },
            None => {
                assert(IndexInfo::decoded(models[i as int]) is None);
                return Err(DistantError::MalformedResponse);
            },
        }
        i += 1;
    }
    assert forall|k: int| 0 <= k < models.len() implies IndexInfo::decoded(
        #[trigger] models[k],
    ) is Some by {
        assert(IndexInfo::decoded(models[k]) == Some(indices@[k]@));
    }
    assert(listing_model(indices@) =~= listing(body@)->Some_0);
    Ok(indices)
}

} // verus!
