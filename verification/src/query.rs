//! What a caller asks for, and the query that the engine is sent for it.

use vstd::prelude::*;
use crate::highlight::{close_marker, open_marker};
use crate::json::{items_model, lookup, member, members_model, text_items, Json, JsonValue};
use crate::text::texts;

verus! {

/// The free text to look for and the fields to look in.
#[derive(Debug, PartialEq, Eq)]
pub struct SearchFilter {
    /// The text to match; none is the same as the empty text.
    pub global_filter: Option<String>,
    /// The fields that the text is matched against.
    pub global_filter_fields: Vec<String>,
}

/// The kind of query by which the text is matched. The two kinds are told
/// the same things, the text, the fields and the tolerance for misspellings,
/// and differ in how the engine reads the text: as words to match, or as a
/// query in the engine's own syntax.
#[derive(Debug, Clone, Copy, PartialEq, Eq, Structural)]
pub enum QueryStrategy {
    /// `multi_match`: the text is matched word by word.
    MultiMatch,
    /// `query_string`: the text is read in the engine's query syntax.
    QueryString,
}

/// The direction of a sort.
#[derive(Debug, Clone, Copy, PartialEq, Eq, Structural)]
pub enum SortOrder {
    /// Smallest first.
    Asc,
    /// Largest first.
    Desc,
}

/// The field by which the hits are ordered, and the direction.
#[derive(Debug, PartialEq, Eq)]
pub struct SortCondition {
    pub field: String,
    pub order: SortOrder,
}

/// A search: what to match, how to order the hits, and which of them to
/// return. `offset` is the rank of the first hit of the page and `length`
/// the length of the page; this crate sets no limit on either, the engine
/// has its own.
#[derive(Debug, PartialEq, Eq)]
pub struct SearchQuery {
    pub filter: Option<SearchFilter>,
    pub sort: Option<SortCondition>,
    pub offset: u32,
    pub length: u32,
}

impl QueryStrategy {
    /// The name by which the engine knows the kind of query.
    pub open spec fn clause(self) -> Seq<char> {
        match self {
            QueryStrategy::MultiMatch => "multi_match"@,
            QueryStrategy::QueryString => "query_string"@,
        }
    }

    /// The name by which the engine knows the kind of query.
    pub fn clause_name(&self) -> (r: &'static str)
        ensures
            r@ == self.clause(),
    {
        match self {
            QueryStrategy::MultiMatch => "multi_match",
            QueryStrategy::QueryString => "query_string",
        }
    }
}

impl SortOrder {
    /// The word by which the engine knows the direction.
    pub open spec fn word(self) -> Seq<char> {
        match self {
            SortOrder::Asc => "asc"@,
            SortOrder::Desc => "desc"@,
        }
    }

    /// The word by which the engine knows the direction.
    pub fn as_word(&self) -> (r: &'static str)
        ensures
            r@ == self.word(),
    {
        match self {
            SortOrder::Asc => "asc",
            SortOrder::Desc => "desc",
        }
    }
}

impl SearchQuery {
    /// The text to match: that of the filter, and the empty text where
    /// there is no filter or the filter has no text.
    pub open spec fn text(self) -> Seq<char> {
        match self.filter {
            Some(SearchFilter { global_filter: Some(text), .. }) => text@,
            _ => Seq::empty(),
        }
    }

    /// The fields to match against: those of the filter, and none where
    /// there is no filter.
    pub open spec fn fields(self) -> Seq<Seq<char>> {
        match self.filter {
            Some(filter) => texts(filter.global_filter_fields@),
            None => Seq::empty(),
        }
    }

    /// A query that names at least one field wherever it has a text to
    /// match. One that does not still yields a query, which matches nothing
    /// of use: callers are to test for this first.
    pub open spec fn well_formed(self) -> bool {
        self.text().len() > 0 ==> self.fields().len() > 0
    }

    /// Whether the query names at least one field wherever it has a text
    /// to match.
    pub fn is_well_formed(&self) -> (r: bool)
        ensures
            r == self.well_formed(),
    {
        match &self.filter {
            Some(filter) => match &filter.global_filter {
                Some(text) => text.as_str().is_empty() || filter.global_filter_fields.len() > 0,
                None => true,
            },
            None => true,
        }
    }
}

/// What the engine is told to match: the text, the fields to match it
/// against, and that it may choose itself how many edits away a word may
/// be.
pub open spec fn match_terms(text: Seq<char>, fields: Seq<Seq<char>>) -> Json {
    Json::Object(
        seq![
            ("query"@, Json::Str(text)),
            ("fields"@, Json::Array(text_items(fields))),
            ("fuzziness"@, Json::Str("AUTO"@)),
        ],
    )
}

/// The match clause: what to match, under the name of the kind of query.
pub open spec fn match_clause(strategy: QueryStrategy, text: Seq<char>, fields: Seq<Seq<char>>) -> Json {
    Json::Object(seq![(strategy.clause(), match_terms(text, fields))])
}

/// The sort clause: one field with its direction, or the empty clause, with
/// which the engine orders the hits as it sees fit.
pub open spec fn sort_clause(sort: Option<SortCondition>) -> Json {
    match sort {
        Some(condition) => Json::Object(
            seq![(condition.field@, Json::Object(seq![("order"@, Json::Str(condition.order.word()))]))],
        ),
        None => Json::Object(Seq::empty()),
    }
}

/// The highlight clause: every field is highlighted, whether or not the
/// query matched it, and each matched span stands between `<em>` and
/// `</em>`.
pub open spec fn highlight_clause() -> Json {
    Json::Object(
        seq![
            ("require_field_match"@, Json::Bool(false)),
            (
                "fields"@,
                Json::Object(
                    seq![
                        (
                            "*"@,
                            Json::Object(
                                seq![
                                    ("pre_tags"@, Json::Array(seq![Json::Str(open_marker())])),
                                    ("post_tags"@, Json::Array(seq![Json::Str(close_marker())])),
                                ],
                            ),
                        ),
                    ],
                ),
            ),
        ],
    )
}

/// The markers as they are written are those by which the terms of a
/// fragment are found.
pub proof fn lemma_markers_agree()
    ensures
        "<em>"@ == open_marker(),
        "</em>"@ == close_marker(),
{
    reveal_strlit("<em>");
    reveal_strlit("</em>");
    assert("<em>"@ =~= open_marker());
    assert("</em>"@ =~= close_marker());
}

/// The query that the engine is sent for `query`, with the text matched by
/// a query of the kind `strategy`.
pub open spec fn query_payload(query: SearchQuery, strategy: QueryStrategy) -> Json {
    Json::Object(
        seq![
            ("size"@, Json::Int(query.length as i64)),
            ("from"@, Json::Int(query.offset as i64)),
            ("query"@, match_clause(strategy, query.text(), query.fields())),
            ("sort"@, Json::Array(seq![sort_clause(query.sort)])),
            ("highlight"@, highlight_clause()),
        ],
    )
}

/// A JSON array with the one item `item`.
fn single(item: JsonValue) -> (v: JsonValue)
    ensures
        v@ == Json::Array(seq![item@]),
{
    let mut items: Vec<JsonValue> = Vec::new();
    items.push(item);
    assert(items_model(items@) =~= seq![item@]);
    JsonValue::array(items)
}

/// A JSON object with the one member `key`.
fn wrap(key: &str, value: JsonValue) -> (v: JsonValue)
    ensures
        v@ == Json::Object(seq![(key@, value@)]),
{
    let mut members: Vec<(String, JsonValue)> = Vec::new();
    members.push(member(key, value));
    assert(members_model(members@) =~= seq![(key@, value@)]);
    JsonValue::object(members)
}

/// Builds what the engine is told to match.
fn build_match_terms(query: &SearchQuery) -> (v: JsonValue)
    ensures
        v@ == match_terms(query.text(), query.fields()),
{
    let (text, fields) = match &query.filter {
        Some(filter) => {
            let text = match &filter.global_filter {
                Some(text) => JsonValue::Str(text.clone()),
                None => JsonValue::Str(String::new()),
            };
            (text, JsonValue::texts(&filter.global_filter_fields))
        },
        None => {
            let none: Vec<String> = Vec::new();
            assert(texts(none@) =~= Seq::<Seq<char>>::empty());
            (JsonValue::Str(String::new()), JsonValue::texts(&none))
        },
    };
    let mut members: Vec<(String, JsonValue)> = Vec::new();
    members.push(member("query", text));
    members.push(member("fields", fields));
    members.push(member("fuzziness", JsonValue::text("AUTO")));
    assert(members_model(members@) =~= match_terms(query.text(), query.fields())->Object_0);
    JsonValue::object(members)
}

/// Builds the sort clause.
fn build_sort(sort: &Option<SortCondition>) -> (v: JsonValue)
    ensures
        v@ == sort_clause(*sort),
{
    match sort {
        Some(condition) => {
            let order = wrap("order", JsonValue::text(condition.order.as_word()));
            wrap(condition.field.as_str(), order)
        },
        None => {
            let members: Vec<(String, JsonValue)> = Vec::new();
            assert(members_model(members@) =~= Seq::<(Seq<char>, Json)>::empty());
            JsonValue::object(members)
        },
    }
}

/// Builds the highlight clause.
fn build_highlight() -> (v: JsonValue)
    ensures
        v@ == highlight_clause(),
{
    let mut tags: Vec<(String, JsonValue)> = Vec::new();
    tags.push(member("pre_tags", single(JsonValue::text("<em>"))));
    tags.push(member("post_tags", single(JsonValue::text("</em>"))));
    proof {
        lemma_markers_agree();
    }
    assert(members_model(tags@) =~= seq![
        ("pre_tags"@, Json::Array(seq![Json::Str(open_marker())])),
        ("post_tags"@, Json::Array(seq![Json::Str(close_marker())])),
    ]);
    let every_field = wrap("*", JsonValue::object(tags));
    let mut members: Vec<(String, JsonValue)> = Vec::new();
    members.push(member("require_field_match", JsonValue::Bool(false)));
    members.push(member("fields", every_field));
    assert(members_model(members@) =~= highlight_clause()->Object_0);
    JsonValue::object(members)
}

/// Builds the query that the engine is sent for `query`, with the text
/// matched by a query of the kind `strategy`.
///
/// The page is asked for as it is given: `size` is the length of the page
/// and `from` the rank of its first hit, whatever their values.
pub fn build_query(query: &SearchQuery, strategy: QueryStrategy) -> (payload: JsonValue)
    ensures
        payload@ == query_payload(*query, strategy),
        payload@.int_at("size"@) == Some(query.length as i64),
        payload@.int_at("from"@) == Some(query.offset as i64),
{
    let mut members: Vec<(String, JsonValue)> = Vec::new();
    members.push(member("size", JsonValue::Int(query.length as i64)));
    members.push(member("from", JsonValue::Int(query.offset as i64)));
    members.push(member("query", wrap(strategy.clause_name(), build_match_terms(query))));
    members.push(member("sort", single(build_sort(&query.sort))));
    members.push(member("highlight", build_highlight()));
    assert(members_model(members@) =~= query_payload(*query, strategy)->Object_0);
    proof {
        lemma_pagination(*query, strategy);
    }
    JsonValue::object(members)
}

/// The query for a search asks for the page that the search names: its
/// `size` is the search's `length`, and its `from` the search's `offset`,
/// whatever the search and the kind of query.
pub proof fn lemma_pagination(query: SearchQuery, strategy: QueryStrategy)
    ensures
        query_payload(query, strategy).int_at("size"@) == Some(query.length as i64),
        query_payload(query, strategy).int_at("from"@) == Some(query.offset as i64),
{
    reveal_strlit("size");
    reveal_strlit("from");
    let members = query_payload(query, strategy)->Object_0;
    let rest = members.drop_first();
    assert("size"@ != "from"@) by {
        assert("size"@[0] == 's');
        assert("from"@[0] == 'f');
    }
    assert(lookup(rest, "from"@) == Some(rest[0].1));
    assert(lookup(members, "from"@) == lookup(rest, "from"@));
}

} // verus!
