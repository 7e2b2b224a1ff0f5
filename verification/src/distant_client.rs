//! The client, without its transport.
//!
//! A [`DistantClient`] says which request is to be made for each thing a
//! caller may ask of the engine. Making the request is the transport's
//! part; what comes back is read by the functions of
//! [`crate::responses`], [`crate::bulk`] and [`crate::scroll`].

use vstd::prelude::*;
use crate::bulk::{build_bulk_lines, bulk_lines, entries_model, BulkOutcome, BulkOutcomeView};
use crate::json::{items_model, member, members_model, Json, JsonValue};
use crate::query::{build_query, query_payload, QueryStrategy, SearchQuery};
use crate::responses::index_info::IndexInfo;
use crate::responses::search_result::text_model;
use crate::scroll::{scroll_call, scroll_payload};
use crate::text::{owned, owned_all, slice_texts, texts};

verus! {

/// A document to index.
#[derive(Debug, PartialEq, Eq)]
pub struct ElasticInputEntry {
    /// The type tag of the document.
    pub data_type: String,
    /// The document itself.
    pub item: JsonValue,
    /// The identifier under which it is indexed; the caller sees to it
    /// that no two documents share one.
    pub unique_id: String,
}

/// The model of an [`ElasticInputEntry`].
pub struct ElasticInputEntryView {
    pub data_type: Seq<char>,
    pub item: Json,
    pub unique_id: Seq<char>,
}

impl View for ElasticInputEntry {
    type V = ElasticInputEntryView;

    open spec fn view(&self) -> ElasticInputEntryView {
        ElasticInputEntryView {
            data_type: self.data_type@,
            item: self.item@,
            unique_id: self.unique_id@,
        }
    }
}

/// One request to the engine.
#[derive(Debug, PartialEq, Eq)]
pub enum EngineCall {
    /// Index the documents that `lines` holds in `index_name`.
    Bulk { index_name: String, lines: Vec<JsonValue> },
    /// Tell the health of the cluster.
    Health,
    /// Search `indices` with the query `body`, for the page of `size` hits
    /// that begins at rank `from`. With `scroll`, keep the search open for
    /// that long, so that further pages can be fetched.
    Search {
        indices: Vec<String>,
        from: Option<i64>,
        size: i64,
        scroll: Option<String>,
        body: JsonValue,
    },
    /// Remove the index `index_name`.
    RemoveIndex { index_name: String },
    /// Fetch the next page of the search that `scroll_id` stands for.
    Scroll { scroll_id: String, body: JsonValue },
    /// List the indices, as JSON.
    ListIndices,
}

/// The model of an [`EngineCall`].
pub enum EngineCallView {
    Bulk { index_name: Seq<char>, lines: Seq<Json> },
    Health,
    Search {
        indices: Seq<Seq<char>>,
        from: Option<i64>,
        size: i64,
        scroll: Option<Seq<char>>,
        body: Json,
    },
    RemoveIndex { index_name: Seq<char> },
    Scroll { scroll_id: Seq<char>, body: Json },
    ListIndices,
}

impl View for EngineCall {
    type V = EngineCallView;

    open spec fn view(&self) -> EngineCallView {
        match *self {
            EngineCall::Bulk { index_name, lines } => EngineCallView::Bulk {
                index_name: index_name@,
                lines: items_model(lines@),
            },
            EngineCall::Health => EngineCallView::Health,
            EngineCall::Search { indices, from, size, scroll, body } => EngineCallView::Search {
                indices: texts(indices@),
                from,
                size,
                scroll: text_model(scroll),
                body: body@,
            },
            EngineCall::RemoveIndex { index_name } => EngineCallView::RemoveIndex {
                index_name: index_name@,
            },
            EngineCall::Scroll { scroll_id, body } => EngineCallView::Scroll {
                scroll_id: scroll_id@,
                body: body@,
            },
            EngineCall::ListIndices => EngineCallView::ListIndices,
        }
    }
}

/// What is to be done to index a batch of documents.
#[derive(Debug, PartialEq, Eq)]
pub enum IndexPlan {
    /// The batch is empty: no request is made, and this is the outcome.
    Done(BulkOutcome),
    /// This request is to be made.
    Submit(EngineCall),
}

/// The model of an [`IndexPlan`].
pub enum IndexPlanView {
    Done(BulkOutcomeView),
    Submit(EngineCallView),
}

impl View for IndexPlan {
    type V = IndexPlanView;

    open spec fn view(&self) -> IndexPlanView {
        match *self {
            IndexPlan::Done(outcome) => IndexPlanView::Done(outcome@),
            IndexPlan::Submit(call) => IndexPlanView::Submit(call@),
        }
    }
}

/// What is to be done to index `entries` in `index_name`: nothing for an
/// empty batch, and one bulk request for any other.
pub open spec fn index_plan(index_name: Seq<char>, entries: Seq<ElasticInputEntryView>) -> IndexPlanView {
    if entries.len() == 0 {
        IndexPlanView::Done(BulkOutcomeView { errors: false, items: Seq::empty() })
    } else {
        IndexPlanView::Submit(
            EngineCallView::Bulk { index_name, lines: bulk_lines(index_name, entries) },
        )
    }
}

/// How long the engine is asked to keep a search by file name open.
pub const FILE_SEARCH_KEEP_ALIVE: &'static str = "1d";

/// The query for the documents whose file name is exactly `file_name`.
pub open spec fn filename_payload(file_name: Seq<char>) -> Json {
    Json::Object(
        seq![
            (
                "query"@,
                Json::Object(
                    seq![("term"@, Json::Object(seq![("fileName.keyword"@, Json::Str(file_name))]))],
                ),
            ),
            ("sort"@, Json::Array(Seq::empty())),
        ],
    )
}

/// The client: where the engine is, as whom it is spoken to, and by which
/// kind of query it is searched.
pub struct DistantClient {
    user_name: String,
    password: String,
    endpoint: String,
    is_connected: bool,
    strategy: QueryStrategy,
}

/// The model of a [`DistantClient`].
pub struct DistantClientView {
    pub user_name: Seq<char>,
    pub password: Seq<char>,
    pub endpoint: Seq<char>,
    pub is_connected: bool,
    pub strategy: QueryStrategy,
}

impl View for DistantClient {
    type V = DistantClientView;

    closed spec fn view(&self) -> DistantClientView {
        DistantClientView {
            user_name: self.user_name@,
            password: self.password@,
            endpoint: self.endpoint@,
            is_connected: self.is_connected,
            strategy: self.strategy,
        }
    }
}

impl DistantClient {
    /// A client without credentials and without an endpoint of its own. It
    /// searches by `multi_match`.
    pub fn new() -> (client: DistantClient)
        ensures
            client@ == (DistantClientView {
                user_name: Seq::empty(),
                password: Seq::empty(),
                endpoint: Seq::empty(),
                is_connected: false,
                strategy: QueryStrategy::MultiMatch,
            }),
    {
        DistantClient {
            user_name: String::new(),
            password: String::new(),
            endpoint: String::new(),
            is_connected: false,
            strategy: QueryStrategy::MultiMatch,
        }
    }

    /// A client that speaks to `endpoint` as `user_name`. It searches by
    /// `multi_match`.
    pub fn new_with_credentials(user_name: &str, password: &str, endpoint: &str) -> (client:
        DistantClient)
        ensures
            client@ == (DistantClientView {
                user_name: user_name@,
                password: password@,
                endpoint: endpoint@,
                is_connected: false,
                strategy: QueryStrategy::MultiMatch,
            }),
    {
        DistantClient {
            user_name: owned(user_name),
            password: owned(password),
            endpoint: owned(endpoint),
            is_connected: false,
            strategy: QueryStrategy::MultiMatch,
        }
    }

    /// The same client, searching by queries of the kind `strategy`.
    pub fn with_strategy(self, strategy: QueryStrategy) -> (client: DistantClient)
        ensures
            client@ == (DistantClientView { strategy, ..self@ }),
    {
        DistantClient { strategy, ..self }
    }

    /// The kind of query by which the client searches.
    pub fn strategy(&self) -> (r: QueryStrategy)
        ensures
            r == self@.strategy,
    {
        self.strategy
    }

    /// The name of the user.
    pub fn user_name(&self) -> (r: &String)
        ensures
            r@ == self@.user_name,
    {
        &self.user_name
    }

    /// The password of the user.
    pub fn password(&self) -> (r: &String)
        ensures
            r@ == self@.password,
    {
        &self.password
    }

    /// The address of the engine.
    pub fn endpoint(&self) -> (r: &String)
        ensures
            r@ == self@.endpoint,
    {
        &self.endpoint
    }

    /// Whether a connection has been made.
    pub fn is_connected(&self) -> (r: bool)
        ensures
            r == self@.is_connected,
    {
        self.is_connected
    }

    /// What is to be done to index `entries` in `index_name`.
    ///
    /// An empty batch is done at once, without a request, and nothing was
    /// processed. Any other batch is one bulk request, whose lines keep the
    /// order of the documents.
    pub fn index(&self, index_name: &str, entries: Vec<ElasticInputEntry>) -> (plan: IndexPlan)
        ensures
            plan@ == index_plan(index_name@, entries_model(entries@)),
    {
        if entries.len() == 0 {
            IndexPlan::Done(BulkOutcome::nothing())
        } else {
            let lines = build_bulk_lines(index_name, entries);
            IndexPlan::Submit(EngineCall::Bulk { index_name: owned(index_name), lines })
        }
    }

    /// The request for the health of the cluster.
    pub fn check_health(&self) -> (call: EngineCall)
        ensures
            call@ == EngineCallView::Health,
    {
        EngineCall::Health
    }

    /// The request that searches `index_name` for `search_query`.
    ///
    /// The page is asked for as the query names it, in the body and beside
    /// it; see [`build_query`] for the body.
    pub fn search(&self, index_name: String, search_query: SearchQuery) -> (call: EngineCall)
        ensures
            call@ == (EngineCallView::Search {
                indices: seq![index_name@],
                from: Some(search_query.offset as i64),
                size: search_query.length as i64,
                scroll: None,
                body: query_payload(search_query, self@.strategy),
            }),
    {
        let body = build_query(&search_query, self.strategy);
        let mut indices: Vec<String> = Vec::new();
        indices.push(index_name);
        assert(texts(indices@) =~= seq![index_name@]);
        EngineCall::Search {
            indices,
            from: Some(search_query.offset as i64),
            size: search_query.length as i64,
            scroll: None,
            body,
        }
    }

    /// The request that removes the index `index_name`.
    pub fn remove_index(&self, index_name: String) -> (call: EngineCall)
        ensures
            call@ == (EngineCallView::RemoveIndex { index_name: index_name@ }),
    {
        EngineCall::RemoveIndex { index_name }
    }

    /// The requests that remove every index of `indices`, one for each, in
    /// their order.
    pub fn remove_all_indices(&self, indices: &Vec<IndexInfo>) -> (calls: Vec<EngineCall>)
        ensures
            calls@.len() == indices@.len(),
            forall|i: int|
                0 <= i < indices@.len() ==> (#[trigger] calls@[i])@ == (EngineCallView::RemoveIndex {
                    index_name: indices@[i]@.index,
                }),
    {
        let mut calls: Vec<EngineCall> = Vec::new();
        let mut i: usize = 0;
        while i < indices.len()
            invariant
                i <= indices.len(),
                calls@.len() == i,
                forall|k: int|
                    0 <= k < i ==> (#[trigger] calls@[k])@ == (EngineCallView::RemoveIndex {
                        index_name: indices@[k]@.index,
                    }),
            decreases indices.len() - i,
        {
            calls.push(self.remove_index(indices[i].index.clone()));
            i += 1;
        }
        calls
    }

    /// The request for the page that follows the one that came with
    /// `scroll_id`. It asks the engine to keep the scroll open for another
    /// [`crate::scroll::SCROLL_KEEP_ALIVE`].
    pub fn scroll(&self, scroll_id: &str) -> (call: EngineCall)
        ensures
            call@ == (EngineCallView::Scroll { scroll_id: scroll_id@, body: scroll_payload() }),
    {
        scroll_call(scroll_id)
    }

    /// The request for the listing of the indices.
    pub fn list_indices(&self) -> (call: EngineCall)
        ensures
            call@ == EngineCallView::ListIndices,
    {
        EngineCall::ListIndices
    }

    /// The request that tells whether a file named `file_name` is indexed
    /// in `index`: a search by file name that asks for no hit, only for the
    /// count. [`crate::responses::check_if_exist::read_existence`] reads
    /// the answer.
    pub fn check_if_exist(&self, index: Vec<&str>, file_name: &str) -> (call: EngineCall)
        ensures
            call@ == (EngineCallView::Search {
                indices: slice_texts(index@),
                from: None,
                size: 0,
                scroll: Some(FILE_SEARCH_KEEP_ALIVE@),
                body: filename_payload(file_name@),
            }),
    {
        self.search_by_filename(index, file_name, 0)
    }

    /// The request that searches `index` for the documents whose file name
    /// is exactly `file_name`, and asks for the first `size` of them.
    pub fn search_by_filename(&self, index: Vec<&str>, file_name: &str, size: i64) -> (call:
        EngineCall)
        ensures
            call@ == (EngineCallView::Search {
                indices: slice_texts(index@),
                from: None,
                size,
                scroll: Some(FILE_SEARCH_KEEP_ALIVE@),
                body: filename_payload(file_name@),
            }),
    {
        let mut field: Vec<(String, JsonValue)> = Vec::new();
        field.push(member("fileName.keyword", JsonValue::text(file_name)));
        assert(members_model(field@) =~= seq![("fileName.keyword"@, Json::Str(file_name@))]);
        let mut term: Vec<(String, JsonValue)> = Vec::new();
        term.push(member("term", JsonValue::object(field)));
        assert(members_model(term@) =~= seq![
            ("term"@, Json::Object(seq![("fileName.keyword"@, Json::Str(file_name@))])),
        ]);
        let no_sort: Vec<JsonValue> = Vec::new();
        assert(items_model(no_sort@) =~= Seq::<Json>::empty());
        let mut members: Vec<(String, JsonValue)> = Vec::new();
        members.push(member("query", JsonValue::object(term)));
        members.push(member("sort", JsonValue::array(no_sort)));
        assert(members_model(members@) =~= filename_payload(file_name@)->Object_0);
        EngineCall::Search {
            indices: owned_all(&index),
            from: None,
            size,
            scroll: Some(owned(FILE_SEARCH_KEEP_ALIVE)),
            body: JsonValue::object(members),
        }
    }
}

} // verus!
