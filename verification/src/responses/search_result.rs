//! The answer to a search or to a scroll request.
//!
//! The engine's answer is a JSON document. [`normalize`] turns it into a
//! [`DistantElasticSearchResult`], or says that a required part is absent or
//! has the wrong shape: nothing in between is ever handed out.

use vstd::prelude::*;
use vstd::string::*;
use crate::errors::{is_success, modelled, status_is_success, DistantError};
use crate::highlight::{
    em_terms, find_span_end, leftmost_spans, lemma_terms_are_leftmost_spans, marker_opens,
    span_texts, spans_from, terms_from,
};
use crate::json::{items_model, Json, JsonValue};
use crate::text::{chars_of, owned, same_text, texts};

verus! {

/// The terms that a highlight fragment marks: the text inside each pair of
/// `<em>` and `</em>`, whatever characters it holds, from left to right. A
/// fragment without a marked span has no terms.
///
/// The terms are the texts of the marked spans of the fragment as they are
/// met from left to right; see [`leftmost_spans`] for what that says of
/// every fragment, and [`crate::highlight::lemma_extraction_exact`] for
/// what it comes to where marked terms and unmarked texts take turns.
pub fn extract_em_content(input: &str) -> (terms: Vec<String>)
    ensures
        texts(terms@) == em_terms(input@),
        leftmost_spans(input@, 0, spans_from(input@, 0)),
        texts(terms@) == span_texts(input@, spans_from(input@, 0)),
{
    proof {
        lemma_terms_are_leftmost_spans(input@, 0);
    }
    let chars = chars_of(input);
    let n = chars.len();
    let mut terms: Vec<String> = Vec::new();
    let mut pos: usize = 0;
    assert(texts(terms@) =~= Seq::<Seq<char>>::empty());
    while pos < n
        invariant
            chars@ == input@,
            n == chars@.len(),
            em_terms(input@) == texts(terms@) + terms_from(input@, pos as int),
        decreases n - pos,
    {
        let ghost before = texts(terms@);
        let mut next: usize = pos + 1;
        if marker_opens(&chars, pos) {
            match find_span_end(&chars, pos + 4) {
                Some(end) => {
                    let term = owned(input.substring_char(pos + 4, end));
                    terms.push(term);
                    next = end + 5;
                    assert(texts(terms@) =~= before + seq![input@.subrange(pos + 4, end as int)]);
                },
                None => {
                    next = n;
                },
            }
        }
        pos = next;
    }
    assert(terms_from(input@, pos as int) =~= Seq::<Seq<char>>::empty());
    terms
}

/// How a total count is to be read.
#[derive(Debug, Clone, Copy, PartialEq, Eq, Structural)]
pub enum Relation {
    /// `eq`: the count is exact.
    Eq,
    /// `gte`: the count is a lower bound.
    Gte,
}

/// The number of documents that match, with its relation qualifier.
#[derive(Debug, Clone, Copy, PartialEq, Eq, Structural)]
pub struct Total {
    pub relation: Relation,
    pub value: i64,
}

/// How many shards took part in a search, and how they fared.
#[derive(Debug, Clone, Copy, PartialEq, Eq, Structural)]
pub struct Shards {
    pub failed: i64,
    pub skipped: i64,
    pub successful: i64,
    pub total: i64,
}

/// The type tag of an indexed document.
#[derive(Debug, Clone, Copy, PartialEq, Eq, Structural)]
pub enum Type {
    /// `pdf`
    Pdf,
}

/// A relevance score: a number that is not negative.
///
/// The engine writes a score as a JSON number. An integral one is kept as
/// the integer, any other as the bit pattern of the binary64 number.
#[derive(Debug, Clone, Copy, PartialEq, Eq, Structural)]
pub enum Score {
    Int(i64),
    Float(u64),
}

/// The bit pattern of positive infinity in binary64. The patterns below it
/// are those of the finite numbers that are not negative.
pub const INFINITY_BITS: u64 = 0x7FF0_0000_0000_0000;

impl Total {
    /// Whether the count is exact. A lower bound is never to be shown as the
    /// number of matches.
    pub open spec fn exact(self) -> bool {
        self.relation == Relation::Eq
    }

    /// Whether the count is exact.
    pub fn is_exact(&self) -> (r: bool)
        ensures
            r == self.exact(),
    {
        match self.relation {
            Relation::Eq => true,
            Relation::Gte => false,
        }
    }

    /// What `doc` holds as a total: an object whose `relation` is `"eq"` or
    /// `"gte"` and whose `value` is an integer.
    pub open spec fn decoded(doc: Json) -> Option<Total> {
        match (doc.text_at("relation"@), doc.int_at("value"@)) {
            (Some(relation), Some(value)) => if relation == "eq"@ {
                Some(Total { relation: Relation::Eq, value })
            } else if relation == "gte"@ {
                Some(Total { relation: Relation::Gte, value })
            } else {
                None
            },
            _ => None,
        }
    }

    /// Reads a total from `doc`.
    pub fn decode(doc: &JsonValue) -> (r: Option<Total>)
        ensures
            r == Total::decoded(doc@),
    {
        let relation = match doc.get("relation") {
            Some(v) => match v.as_text() {
                Some(name) => if same_text(name, "eq") {
                    Relation::Eq
                } else if same_text(name, "gte") {
                    Relation::Gte
                } else {
                    return None;
                },
                None => {
                    return None;
                },
            },
            None => {
                return None;
            },
        };
        match doc.int_at("value") {
            Some(value) => Some(Total { relation, value }),
            None => None,
        }
    }
}

impl Shards {
    /// What `doc` holds as shard counts: an object whose `failed`,
    /// `skipped`, `successful` and `total` are integers.
    pub open spec fn decoded(doc: Json) -> Option<Shards> {
        match (
            doc.int_at("failed"@),
            doc.int_at("skipped"@),
            doc.int_at("successful"@),
            doc.int_at("total"@),
        ) {
            (Some(failed), Some(skipped), Some(successful), Some(total)) => Some(
                Shards { failed, skipped, successful, total },
            ),
            _ => None,
        }
    }

    /// Reads shard counts from `doc`.
    pub fn decode(doc: &JsonValue) -> (r: Option<Shards>)
        ensures
            r == Shards::decoded(doc@),
    {
        let failed = doc.int_at("failed")?;
        let skipped = doc.int_at("skipped")?;
        let successful = doc.int_at("successful")?;
        let total = doc.int_at("total")?;
        Some(Shards { failed, skipped, successful, total })
    }
}

impl Type {
    /// The type tag that `name` spells.
    pub open spec fn named(name: Seq<char>) -> Option<Type> {
        if name == "pdf"@ {
            Some(Type::Pdf)
        } else {
            None
        }
    }

    /// Reads a type tag from its name.
    pub fn from_name(name: &String) -> (r: Option<Type>)
        ensures
            r == Type::named(name@),
    {
        if same_text(name, "pdf") {
            Some(Type::Pdf)
        } else {
            None
        }
    }
}

impl Score {
    /// The score is a number that is not negative: an integer from 0 up, or
    /// the bit pattern of a finite number with the sign bit clear.
    pub open spec fn non_negative(self) -> bool {
        match self {
            Score::Int(i) => i >= 0,
            Score::Float(bits) => bits < INFINITY_BITS,
        }
    }

    /// What `doc` holds as a score: an integer that is not negative, or the
    /// bit pattern of a finite binary64 number that is not negative.
    pub open spec fn decoded(doc: Json) -> Option<Score> {
        match doc {
            Json::Int(i) => if i >= 0 {
                Some(Score::Int(i))
            } else {
                None
            },
            Json::Float(bits) => if bits < INFINITY_BITS {
                Some(Score::Float(bits))
            } else {
                None
            },
            _ => None,
        }
    }

    /// Reads a score from `doc`.
    pub fn decode(doc: &JsonValue) -> (r: Option<Score>)
        ensures
            r == Score::decoded(doc@),
    {
        match doc {
            JsonValue::Int(i) => if *i >= 0 {
                Some(Score::Int(*i))
            } else {
                None
            },
            JsonValue::Float(bits) => if *bits < INFINITY_BITS {
                Some(Score::Float(*bits))
            } else {
                None
            },
            _ => None,
        }
    }
}

/// The highlight fragments of one hit, field by field. A field that the
/// engine did not highlight has none.
#[derive(Debug, PartialEq, Eq)]
pub struct Highlight {
    /// Fragments of `text`.
    pub text: Option<Vec<String>>,
    /// Fragments of `title`.
    pub title: Option<Vec<String>>,
    /// Fragments of `context`.
    pub context: Option<Vec<String>>,
    /// Fragments of `sourceName`.
    pub source_name: Option<Vec<String>>,
    /// Fragments of `filePath`.
    pub file_path: Option<Vec<String>>,
    /// Fragments of `uniqueId`.
    pub unique_id: Option<Vec<String>>,
}

/// The model of a [`Highlight`].
pub struct HighlightView {
    pub text: Option<Seq<Seq<char>>>,
    pub title: Option<Seq<Seq<char>>>,
    pub context: Option<Seq<Seq<char>>>,
    pub source_name: Option<Seq<Seq<char>>>,
    pub file_path: Option<Seq<Seq<char>>>,
    pub unique_id: Option<Seq<Seq<char>>>,
}

/// The model of a list of fragments that may be absent.
pub open spec fn fragments_model(fragments: Option<Vec<String>>) -> Option<Seq<Seq<char>>> {
    match fragments {
        Some(list) => Some(texts(list@)),
        None => None,
    }
}

impl View for Highlight {
    type V = HighlightView;

    open spec fn view(&self) -> HighlightView {
        HighlightView {
            text: fragments_model(self.text),
            title: fragments_model(self.title),
            context: fragments_model(self.context),
            source_name: fragments_model(self.source_name),
            file_path: fragments_model(self.file_path),
            unique_id: fragments_model(self.unique_id),
        }
    }
}

/// What the member `key` of `doc` holds as fragments. The outer `None`
/// tells of a wrong shape; a member that is absent or `null` holds no
/// fragments; any other must be an array of strings.
pub open spec fn fragments_at(doc: Json, key: Seq<char>) -> Option<Option<Seq<Seq<char>>>> {
    match doc.present(key) {
        None => Some(None),
        Some(list) => match list.as_texts() {
            Some(fragments) => Some(Some(fragments)),
            None => None,
        },
    }
}

/// Reads the fragments of the member `key` of `doc`.
pub fn decode_fragments(doc: &JsonValue, key: &str) -> (r: Option<Option<Vec<String>>>)
    ensures
        match fragments_at(doc@, key@) {
            Some(fragments) => r matches Some(list) && fragments_model(list) == fragments,
            None => r is None,
        },
{
    match doc.get_present(key) {
        None => Some(None),
        Some(list) => match list.as_texts() {
            Some(fragments) => Some(Some(fragments)),
            None => None,
        },
    }
}

impl Highlight {
    /// What `doc` holds as highlights: an object, of which each of the
    /// members `text`, `title`, `context`, `sourceName`, `filePath` and
    /// `uniqueId` is absent, `null` or an array of strings.
    pub open spec fn decoded(doc: Json) -> Option<HighlightView> {
        match (
            doc,
            fragments_at(doc, "text"@),
            fragments_at(doc, "title"@),
            fragments_at(doc, "context"@),
            fragments_at(doc, "sourceName"@),
            fragments_at(doc, "filePath"@),
            fragments_at(doc, "uniqueId"@),
        ) {
            (
                Json::Object(_),
                Some(text),
                Some(title),
                Some(context),
                Some(source_name),
                Some(file_path),
                Some(unique_id),
            ) => Some(HighlightView { text, title, context, source_name, file_path, unique_id }),
            _ => None,
        }
    }

    /// Reads highlights from `doc`.
    pub fn decode(doc: &JsonValue) -> (r: Option<Highlight>)
        ensures
            match Highlight::decoded(doc@) {
                Some(highlight) => r matches Some(h) && h@ == highlight,
                None => r is None,
            },
    {
        match doc {
            JsonValue::Object(_) => {},
            _ => {
                return None;
            },
        }
        let text = decode_fragments(doc, "text")?;
        let title = decode_fragments(doc, "title")?;
        let context = decode_fragments(doc, "context")?;
        let source_name = decode_fragments(doc, "sourceName")?;
        let file_path = decode_fragments(doc, "filePath")?;
        let unique_id = decode_fragments(doc, "uniqueId")?;
        Some(Highlight { text, title, context, source_name, file_path, unique_id })
    }
}

/// One matching document.
#[derive(Debug, PartialEq, Eq)]
pub struct Hit {
    /// The identifier under which the document is indexed.
    pub id: String,
    /// The index that holds it.
    pub index: String,
    /// How well it matches.
    pub score: Score,
    /// The document itself: a JSON object.
    pub source: JsonValue,
    /// Its type tag.
    pub hit_type: Type,
    /// The highlight fragments, where the engine sent any.
    pub highlight: Option<Highlight>,
}

/// The model of a [`Hit`].
pub struct HitView {
    pub id: Seq<char>,
    pub index: Seq<char>,
    pub score: Score,
    pub source: Json,
    pub hit_type: Type,
    pub highlight: Option<HighlightView>,
}

/// The model of highlights that may be absent.
pub open spec fn highlight_model(highlight: Option<Highlight>) -> Option<HighlightView> {
    match highlight {
        Some(h) => Some(h@),
        None => None,
    }
}

impl HitView {
    /// The score is not negative and the document is an object.
    pub open spec fn well_formed(self) -> bool {
        &&& self.score.non_negative()
        &&& self.source is Object
    }
}

impl View for Hit {
    type V = HitView;

    open spec fn view(&self) -> HitView {
        HitView {
            id: self.id@,
            index: self.index@,
            score: self.score,
            source: self.source@,
            hit_type: self.hit_type,
            highlight: highlight_model(self.highlight),
        }
    }
}

/// The score that the member `key` of `doc` holds.
pub open spec fn score_at(doc: Json, key: Seq<char>) -> Option<Score> {
    match doc.field(key) {
        Some(number) => Score::decoded(number),
        None => None,
    }
}

/// The document that the member `_source` of `doc` holds.
pub open spec fn source_at(doc: Json) -> Option<Json> {
    match doc.field("_source"@) {
        Some(Json::Object(members)) => Some(Json::Object(members)),
        _ => None,
    }
}

/// The type tag that the member `_type` of `doc` holds.
pub open spec fn type_at(doc: Json) -> Option<Type> {
    match doc.text_at("_type"@) {
        Some(name) => Type::named(name),
        None => None,
    }
}

/// The highlights that the member `highlight` of `doc` holds. The outer
/// `None` tells of a wrong shape; a member that is absent or `null` holds no
/// highlights.
pub open spec fn highlight_at(doc: Json) -> Option<Option<HighlightView>> {
    match doc.present("highlight"@) {
        None => Some(None),
        Some(highlight) => match Highlight::decoded(highlight) {
            Some(h) => Some(Some(h)),
            None => None,
        },
    }
}

impl Hit {
    /// What `doc` holds as a hit: `_id` and `_index` are strings, `_score`
    /// is a score, `_source` is an object, `_type` is a type tag, and
    /// `highlight`, where there is one, holds highlights.
    pub open spec fn decoded(doc: Json) -> Option<HitView> {
        match (
            doc.text_at("_id"@),
            doc.text_at("_index"@),
            score_at(doc, "_score"@),
            source_at(doc),
            type_at(doc),
            highlight_at(doc),
        ) {
            (Some(id), Some(index), Some(score), Some(source), Some(hit_type), Some(highlight)) => Some(
                HitView { id, index, score, source, hit_type, highlight },
            ),
            _ => None,
        }
    }

    /// Reads a hit from `doc`.
    pub fn decode(doc: &JsonValue) -> (r: Option<Hit>)
        ensures
            match Hit::decoded(doc@) {
                Some(hit) => r matches Some(h) && h@ == hit,
                None => r is None,
            },
    {
        let id = doc.text_at("_id")?;
        let index = doc.text_at("_index")?;
        let score = Score::decode(doc.get("_score")?)?;
        let document = doc.get("_source")?;
        let source = match document {
            JsonValue::Object(_) => document.clone(),
            _ => {
                return None;
            },
        };
        let hit_type = Type::from_name(&doc.text_at("_type")?)?;
        let highlight = match doc.get_present("highlight") {
            None => None,
            Some(h) => Some(Highlight::decode(h)?),
        };
        Some(Hit { id, index, score, source, hit_type, highlight })
    }
}

/// The hits of one page, in the engine's order, with the total count.
#[derive(Debug, PartialEq, Eq)]
pub struct Hits {
    /// The hits of this page, best first as the engine ranked them.
    pub hits: Vec<Hit>,
    /// The best score of the whole result, where the engine tells it.
    pub max_score: Option<Score>,
    /// How many documents match in all.
    pub total: Total,
}

/// The model of [`Hits`].
pub struct HitsView {
    pub hits: Seq<HitView>,
    pub max_score: Option<Score>,
    pub total: Total,
}

/// The models of a list of hits, hit by hit.
pub open spec fn hits_model(hits: Seq<Hit>) -> Seq<HitView> {
    Seq::new(hits.len(), |i: int| hits[i]@)
}

impl View for Hits {
    type V = HitsView;

    open spec fn view(&self) -> HitsView {
        HitsView { hits: hits_model(self.hits@), max_score: self.max_score, total: self.total }
    }
}

/// What a list of documents holds as hits, in the same order: every one of
/// them must hold a hit.
pub open spec fn hit_list(items: Seq<Json>) -> Option<Seq<HitView>> {
    if forall|i: int| 0 <= i < items.len() ==> Hit::decoded(#[trigger] items[i]) is Some {
        Some(Seq::new(items.len(), |i: int| Hit::decoded(items[i])->Some_0))
    } else {
        None
    }
}

/// The hits that the member `hits` of `doc` holds: it must be an array.
pub open spec fn hit_list_at(doc: Json) -> Option<Seq<HitView>> {
    match doc.field("hits"@) {
        Some(Json::Array(items)) => hit_list(items),
        _ => None,
    }
}

/// The best score that the member `max_score` of `doc` holds. The outer
/// `None` tells of a wrong shape; a member that is absent or `null` holds no
/// score.
pub open spec fn max_score_at(doc: Json) -> Option<Option<Score>> {
    match doc.present("max_score"@) {
        None => Some(None),
        Some(number) => match Score::decoded(number) {
            Some(score) => Some(Some(score)),
            None => None,
        },
    }
}

/// The total that the member `total` of `doc` holds.
pub open spec fn total_at(doc: Json) -> Option<Total> {
    match doc.field("total"@) {
        Some(total) => Total::decoded(total),
        None => None,
    }
}

/// Reads a list of hits, keeping their order.
pub fn decode_hit_list(items: &Vec<JsonValue>) -> (r: Option<Vec<Hit>>)
    ensures
        match hit_list(items_model(items@)) {
            Some(hits) => r matches Some(list) && hits_model(list@) == hits,
            None => r is None,
        },
{
    let ghost models = items_model(items@);
    let mut hits: Vec<Hit> = Vec::new();
    let mut i: usize = 0;
    while i < items.len()
        invariant
            i <= items.len(),
            models == items_model(items@),
            hits@.len() == i,
            forall|k: int| 0 <= k < i ==> Hit::decoded(models[k]) == Some(#[trigger] hits@[k]@),
        decreases items.len() - i,
    {
        match Hit::decode(&items[i]) {
            Some(hit) => {
                hits.push(hit);
            },
            None => {
                assert(Hit::decoded(models[i as int]) is None);
                return None;
            },
        }
        i += 1;
    }
    assert forall|k: int| 0 <= k < models.len() implies Hit::decoded(#[trigger] models[k]) is Some by {
        assert(Hit::decoded(models[k]) == Some(hits@[k]@));
    }
    assert(hits_model(hits@) =~= hit_list(models)->Some_0);
    Some(hits)
}

impl Hits {
    /// What `doc` holds as the hits of a page: `hits` is an array of hits,
    /// `max_score`, where there is one, is a score, and `total` is a total.
    pub open spec fn decoded(doc: Json) -> Option<HitsView> {
        match (hit_list_at(doc), max_score_at(doc), total_at(doc)) {
            (Some(hits), Some(max_score), Some(total)) => Some(HitsView { hits, max_score, total }),
            _ => None,
        }
    }

    /// Reads the hits of a page from `doc`.
    pub fn decode(doc: &JsonValue) -> (r: Option<Hits>)
        ensures
            match Hits::decoded(doc@) {
                Some(hits) => r matches Some(h) && h@ == hits,
                None => r is None,
            },
    {
        let hits = decode_hit_list(doc.get("hits")?.as_array()?)?;
        let max_score = match doc.get_present("max_score") {
            None => None,
            Some(number) => Some(Score::decode(number)?),
        };
        let total = Total::decode(doc.get("total")?)?;
        Some(Hits { hits, max_score, total })
    }
}

/// The answer to a search or to a scroll request: one page of hits.
#[derive(Debug, PartialEq, Eq)]
pub struct DistantElasticSearchResult {
    /// The token with which the next page is fetched, where the search
    /// asked for a scrollable context.
    pub scroll_id: Option<String>,
    /// How the shards fared, where the engine tells it.
    pub shards: Option<Shards>,
    /// The hits of this page and the total count.
    pub hits: Hits,
    /// Whether the engine gave up before the search was complete.
    pub timed_out: bool,
    /// The time the search took, in milliseconds.
    pub took: i64,
}

/// The model of a [`DistantElasticSearchResult`].
pub struct SearchResultView {
    pub scroll_id: Option<Seq<char>>,
    pub shards: Option<Shards>,
    pub hits: HitsView,
    pub timed_out: bool,
    pub took: i64,
}

impl SearchResultView {
    /// Every hit is well formed, and the best score, where there is one,
    /// is not negative.
    pub open spec fn well_formed(self) -> bool {
        &&& forall|i: int| 0 <= i < self.hits.hits.len() ==> (#[trigger] self.hits.hits[i]).well_formed()
        &&& self.hits.max_score matches Some(score) ==> score.non_negative()
    }
}

/// The model of a string that may be absent.
pub open spec fn text_model(text: Option<String>) -> Option<Seq<char>> {
    match text {
        Some(t) => Some(t@),
        None => None,
    }
}

impl View for DistantElasticSearchResult {
    type V = SearchResultView;

    open spec fn view(&self) -> SearchResultView {
        SearchResultView {
            scroll_id: text_model(self.scroll_id),
            shards: self.shards,
            hits: self.hits@,
            timed_out: self.timed_out,
            took: self.took,
        }
    }
}

/// The scroll token that the member `_scroll_id` of `doc` holds. The outer
/// `None` tells of a wrong shape; a member that is absent or `null` holds no
/// token.
pub open spec fn scroll_id_at(doc: Json) -> Option<Option<Seq<char>>> {
    match doc.present("_scroll_id"@) {
        None => Some(None),
        Some(Json::Str(token)) => Some(Some(token)),
        Some(_) => None,
    }
}

/// The shard counts that the member `_shards` of `doc` holds. The outer
/// `None` tells of a wrong shape; a member that is absent or `null` holds no
/// counts.
pub open spec fn shards_at(doc: Json) -> Option<Option<Shards>> {
    match doc.present("_shards"@) {
        None => Some(None),
        Some(counts) => match Shards::decoded(counts) {
            Some(shards) => Some(Some(shards)),
            None => None,
        },
    }
}

/// The hits that the member `hits` of `doc` holds.
pub open spec fn hits_at(doc: Json) -> Option<HitsView> {
    match doc.field("hits"@) {
        Some(hits) => Hits::decoded(hits),
        None => None,
    }
}

impl DistantElasticSearchResult {
    /// What `doc` holds as a page of results: `hits` holds the hits,
    /// `timed_out` is a truth value, `took` is an integer, `_scroll_id`,
    /// where there is one, is a string, and `_shards`, where there are any,
    /// holds shard counts.
    pub open spec fn decoded(doc: Json) -> Option<SearchResultView> {
        match (
            scroll_id_at(doc),
            shards_at(doc),
            hits_at(doc),
            doc.bool_at("timed_out"@),
            doc.int_at("took"@),
        ) {
            (Some(scroll_id), Some(shards), Some(hits), Some(timed_out), Some(took)) => Some(
                SearchResultView { scroll_id, shards, hits, timed_out, took },
            ),
            _ => None,
        }
    }

    /// Reads a page of results from `doc`.
    pub fn decode(doc: &JsonValue) -> (r: Option<DistantElasticSearchResult>)
        ensures
            match DistantElasticSearchResult::decoded(doc@) {
                Some(result) => r matches Some(x) && x@ == result,
                None => r is None,
            },
    {
        let scroll_id = match doc.get_present("_scroll_id") {
            None => None,
            Some(token) => Some(token.as_text()?.clone()),
        };
        let shards = match doc.get_present("_shards") {
            None => None,
            Some(counts) => Some(Shards::decode(counts)?),
        };
        let hits = Hits::decode(doc.get("hits")?)?;
        let timed_out = doc.bool_at("timed_out")?;
        let took = doc.int_at("took")?;
        Some(DistantElasticSearchResult { scroll_id, shards, hits, timed_out, took })
    }

    /// Whether this page holds no hit. Behind the last page of a scroll the
    /// engine sends such a page, and nothing else tells that the result is
    /// exhausted.
    pub fn is_empty(&self) -> (r: bool)
        ensures
            r == (self@.hits.hits.len() == 0),
    {
        self.hits.hits.len() == 0
    }
}

/// What an answer with the status `status` and the body `body` amounts to.
pub open spec fn normalized(status: u16, body: Json) -> Result<SearchResultView, DistantError> {
    if !is_success(status) {
        Err(DistantError::EngineError(status))
    } else {
        match DistantElasticSearchResult::decoded(body) {
            Some(result) => Ok(result),
            None => Err(DistantError::MalformedResponse),
        }
    }
}

/// Turns the engine's answer to a search or to a scroll request into a
/// result.
///
/// A status that is no success is told as such, whatever the body holds.
/// Behind a success the body must have the whole shape of a result: where
/// any required part is absent or wrong the answer is malformed, and no
/// part of it is handed out.
pub fn normalize(status: u16, body: &JsonValue) -> (r: Result<DistantElasticSearchResult, DistantError>)
    ensures
        modelled(r) == normalized(status, body@),
        r matches Ok(result) ==> result@.well_formed(),
{
    proof {
        lemma_decoded_well_formed(body@);
    }
    if !status_is_success(status) {
        return Err(DistantError::EngineError(status));
    }
    match DistantElasticSearchResult::decode(body) {
        Some(result) => Ok(result),
        None => Err(DistantError::MalformedResponse),
    }
}

/// Whatever is read as a result is well formed.
pub proof fn lemma_decoded_well_formed(doc: Json)
    ensures
        DistantElasticSearchResult::decoded(doc) matches Some(result) ==> result.well_formed(),
{
    match DistantElasticSearchResult::decoded(doc) {
        Some(result) => {
            let page = doc.field("hits"@)->Some_0;
            let items = page.field("hits"@)->Some_0->Array_0;
            assert forall|i: int| 0 <= i < result.hits.hits.len() implies (
            #[trigger] result.hits.hits[i]).well_formed() by {
                assert(result.hits.hits[i] == Hit::decoded(items[i])->Some_0);
            }
        },
        None => {},
    }
}

/// Normalizing is repeatable: whenever the same answer is normalized
/// twice, the two outcomes are equal, be they results or failures.
pub proof fn lemma_normalize_repeatable(
    status: u16,
    body: JsonValue,
    again: JsonValue,
    first: Result<DistantElasticSearchResult, DistantError>,
    second: Result<DistantElasticSearchResult, DistantError>,
)
    requires
        body@ == again@,
        modelled(first) == normalized(status, body@),
        modelled(second) == normalized(status, again@),
    ensures
        modelled(first) == modelled(second),
{
}

} // verus!
