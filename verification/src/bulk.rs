//! Indexing many documents in one request.
//!
//! The request holds two lines for each document, in the order of the
//! documents: the action, which names the index, the identifier and the
//! type, and then the document itself. The engine works through the lines
//! in this order and answers with one outcome for each document. A document
//! that failed is not sent again here: the outcomes are handed to the
//! caller as they came.

use vstd::prelude::*;
use crate::distant_client::{ElasticInputEntry, ElasticInputEntryView};
use crate::errors::{is_success, modelled, status_is_success, DistantError};
use crate::json::{items_model, member, members_model, Json, JsonValue};

verus! {

/// What became of a bulk request.
#[derive(Debug, PartialEq, Eq)]
pub struct BulkOutcome {
    /// Whether at least one document failed.
    pub errors: bool,
    /// The outcome of each document, as the engine sent it, in the order of
    /// the documents.
    pub items: Vec<JsonValue>,
}

/// The model of a [`BulkOutcome`].
pub struct BulkOutcomeView {
    pub errors: bool,
    pub items: Seq<Json>,
}

impl View for BulkOutcome {
    type V = BulkOutcomeView;

    open spec fn view(&self) -> BulkOutcomeView {
        BulkOutcomeView { errors: self.errors, items: items_model(self.items@) }
    }
}

impl BulkOutcome {
    /// The outcome of a request without documents: nothing failed, and
    /// nothing was processed.
    pub fn nothing() -> (outcome: BulkOutcome)
        ensures
            outcome@ == (BulkOutcomeView { errors: false, items: Seq::empty() }),
    {
        let outcome = BulkOutcome { errors: false, items: Vec::new() };
        assert(outcome@.items =~= Seq::<Json>::empty());
        outcome
    }

    /// Whether every document went through.
    pub fn is_success(&self) -> (r: bool)
        ensures
            r == !self@.errors,
    {
        !self.errors
    }

    /// The number of documents that the engine processed.
    pub fn processed(&self) -> (n: usize)
        ensures
            n == self@.items.len(),
    {
        self.items.len()
    }

    /// What `doc` holds as the outcome of a bulk request: `errors` is a
    /// truth value and `items` is an array.
    pub open spec fn decoded(doc: Json) -> Option<BulkOutcomeView> {
        match (doc.bool_at("errors"@), doc.field("items"@)) {
            (Some(errors), Some(Json::Array(items))) => Some(BulkOutcomeView { errors, items }),
            _ => None,
        }
    }

    /// Reads the outcome of a bulk request from `doc`.
    pub fn decode(doc: &JsonValue) -> (r: Option<BulkOutcome>)
        ensures
            match BulkOutcome::decoded(doc@) {
                Some(outcome) => r matches Some(x) && x@ == outcome,
                None => r is None,
            },
    {
        let errors = doc.bool_at("errors")?;
        let outcomes = doc.get("items")?.as_array()?;
        let mut items: Vec<JsonValue> = Vec::new();
        let mut i: usize = 0;
        while i < outcomes.len()
            invariant
                i <= outcomes.len(),
                items@.len() == i,
                forall|k: int| 0 <= k < i ==> items@[k]@ == outcomes@[k]@,
            decreases outcomes.len() - i,
        {
            items.push(outcomes[i].clone());
            i += 1;
        }
        assert(items_model(items@) =~= items_model(outcomes@));
        Some(BulkOutcome { errors, items })
    }
}

/// The action line of one document: it is to be indexed in `index_name`
/// under its identifier and its type.
pub open spec fn action_line(index_name: Seq<char>, entry: ElasticInputEntryView) -> Json {
    Json::Object(
        seq![
            (
                "index"@,
                Json::Object(
                    seq![
                        ("_index"@, Json::Str(index_name)),
                        ("_id"@, Json::Str(entry.unique_id)),
                        ("_type"@, Json::Str(entry.data_type)),
                    ],
                ),
            ),
        ],
    )
}

/// The lines of a bulk request: for each document its action line, and
/// behind it the document.
pub open spec fn bulk_lines(index_name: Seq<char>, entries: Seq<ElasticInputEntryView>) -> Seq<
    Json,
> {
    Seq::new(
        2 * entries.len(),
        |k: int|
            if k % 2 == 0 {
                action_line(index_name, entries[k / 2])
            } else {
                entries[k / 2].item
            },
    )
}

/// Builds the action line of one document.
fn build_action_line(index_name: &str, entry: &ElasticInputEntry) -> (line: JsonValue)
    ensures
        line@ == action_line(index_name@, entry@),
{
    let mut target: Vec<(String, JsonValue)> = Vec::new();
    target.push(member("_index", JsonValue::text(index_name)));
    target.push(member("_id", JsonValue::Str(entry.unique_id.clone())));
    target.push(member("_type", JsonValue::Str(entry.data_type.clone())));
    assert(members_model(target@) =~= seq![
        ("_index"@, Json::Str(index_name@)),
        ("_id"@, Json::Str(entry@.unique_id)),
        ("_type"@, Json::Str(entry@.data_type)),
    ]);
    let mut action: Vec<(String, JsonValue)> = Vec::new();
    action.push(member("index", JsonValue::object(target)));
    assert(members_model(action@) =~= action_line(index_name@, entry@)->Object_0);
    JsonValue::object(action)
}

/// The models of a list of documents to index, document by document.
pub open spec fn entries_model(entries: Seq<ElasticInputEntry>) -> Seq<ElasticInputEntryView> {
    Seq::new(entries.len(), |i: int| entries[i]@)
}

/// Builds the lines of the bulk request that indexes `entries` in
/// `index_name`, keeping the order of the documents.
pub fn build_bulk_lines(index_name: &str, entries: Vec<ElasticInputEntry>) -> (lines: Vec<JsonValue>)
    ensures
        items_model(lines@) == bulk_lines(index_name@, entries_model(entries@)),
{
    let ghost documents = entries_model(entries@);
    let ghost expected = bulk_lines(index_name@, documents);
    let mut lines: Vec<JsonValue> = Vec::new();
    for entry in it: entries.into_iter()
        invariant
            documents == entries_model(it.seq()),
            expected == bulk_lines(index_name@, documents),
            lines@.len() == 2 * it.index(),
            forall|k: int| 0 <= k < lines@.len() ==> (#[trigger] lines@[k])@ == expected[k],
    {
        let ghost i = it.index();
        assert(entry@ == documents[i]);
        let action = build_action_line(index_name, &entry);
        assert(action@ == expected[2 * i]);
        assert(entry.item@ == expected[2 * i + 1]);
        lines.push(action);
        lines.push(entry.item);
    }
    assert(items_model(lines@) =~= expected);
    lines
}

/// What an answer to a bulk request amounts to.
pub open spec fn bulk_outcome(status: u16, body: Json) -> Result<BulkOutcomeView, DistantError> {
    if !is_success(status) {
        Err(DistantError::EngineError(status))
    } else {
        match BulkOutcome::decoded(body) {
            Some(outcome) => Ok(outcome),
            None => Err(DistantError::MalformedResponse),
        }
    }
}

/// Turns the engine's answer to a bulk request into its outcome.
pub fn read_bulk(status: u16, body: &JsonValue) -> (r: Result<BulkOutcome, DistantError>)
    ensures
        modelled(r) == bulk_outcome(status, body@),
{
    if !status_is_success(status) {
        return Err(DistantError::EngineError(status));
    }
    match BulkOutcome::decode(body) {
        Some(outcome) => Ok(outcome),
        None => Err(DistantError::MalformedResponse),
    }
}

} // verus!
