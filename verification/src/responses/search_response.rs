//! The result of a search as callers get it: the hits in the engine's
//! order, each with its rank, its score, its highlight fragments and the
//! terms that the fragments mark.

use vstd::prelude::*;
use crate::highlight::em_terms;
use crate::json::{Json, JsonValue};
use crate::responses::search_result::{
    extract_em_content, fragments_model, highlight_model, hits_model, DistantElasticSearchResult,
    Highlight, HighlightView, HitView, Score, SearchResultView, Total,
};
use crate::text::{owned, texts};

verus! {

/// One highlight fragment, with the field it was taken from.
#[derive(Debug, PartialEq, Eq)]
pub struct SearchResultHighlight {
    /// The name of the field.
    pub field: String,
    /// The fragment, with its markers.
    pub text: String,
}

/// What is known of one hit besides its document.
#[derive(Debug, PartialEq, Eq)]
pub struct SearchResultMetadata {
    /// The rank of the hit on its page, from 0.
    pub index: usize,
    /// How well the document matches.
    pub score: Score,
    /// The highlight fragments of the hit, field by field.
    pub highlights: Vec<SearchResultHighlight>,
    /// The terms that the fragments mark, in the order of the fragments.
    pub highlights_extracted: Vec<String>,
}

/// One hit: the document and what is known of it.
#[derive(Debug, PartialEq, Eq)]
pub struct SearchResult {
    /// The document, as it was indexed.
    pub result: JsonValue,
    pub metadata: SearchResultMetadata,
}

/// What is known of the result as a whole.
#[derive(Debug, PartialEq, Eq)]
pub struct SearchResponseMetadata {
    /// How many documents match, and whether that number is exact or a
    /// lower bound.
    pub result_total_items: Total,
}

/// The result of a search as callers get it.
#[derive(Debug, PartialEq, Eq)]
pub struct SearchResponse {
    pub metadata: SearchResponseMetadata,
    /// The hits, in the order in which the engine sent them.
    pub results: Vec<SearchResult>,
}

/// The model of a [`SearchResultMetadata`]. A fragment is modelled by the
/// pair of its field and its text.
pub struct SearchResultMetadataView {
    pub index: nat,
    pub score: Score,
    pub highlights: Seq<(Seq<char>, Seq<char>)>,
    pub highlights_extracted: Seq<Seq<char>>,
}

/// The model of a [`SearchResult`].
pub struct SearchResultEntryView {
    pub result: Json,
    pub metadata: SearchResultMetadataView,
}

/// The model of a [`SearchResponse`].
pub struct SearchResponseView {
    pub result_total_items: Total,
    pub results: Seq<SearchResultEntryView>,
}

impl View for SearchResultHighlight {
    type V = (Seq<char>, Seq<char>);

    open spec fn view(&self) -> (Seq<char>, Seq<char>) {
        (self.field@, self.text@)
    }
}

/// The models of a list of fragments, fragment by fragment.
pub open spec fn highlights_model(highlights: Seq<SearchResultHighlight>) -> Seq<
    (Seq<char>, Seq<char>),
> {
    Seq::new(highlights.len(), |i: int| highlights[i]@)
}

impl View for SearchResultMetadata {
    type V = SearchResultMetadataView;

    open spec fn view(&self) -> SearchResultMetadataView {
        SearchResultMetadataView {
            index: self.index as nat,
            score: self.score,
            highlights: highlights_model(self.highlights@),
            highlights_extracted: texts(self.highlights_extracted@),
        }
    }
}

impl View for SearchResult {
    type V = SearchResultEntryView;

    open spec fn view(&self) -> SearchResultEntryView {
        SearchResultEntryView { result: self.result@, metadata: self.metadata@ }
    }
}

/// The models of a list of hits as callers get them, hit by hit.
pub open spec fn results_model(results: Seq<SearchResult>) -> Seq<SearchResultEntryView> {
    Seq::new(results.len(), |i: int| results[i]@)
}

impl View for SearchResponse {
    type V = SearchResponseView;

    open spec fn view(&self) -> SearchResponseView {
        SearchResponseView {
            result_total_items: self.metadata.result_total_items,
            results: results_model(self.results@),
        }
    }
}

/// The fragments of one field, each with the name of the field.
pub open spec fn field_fragments(field: Seq<char>, fragments: Option<Seq<Seq<char>>>) -> Seq<
    (Seq<char>, Seq<char>),
> {
    match fragments {
        Some(list) => Seq::new(list.len(), |i: int| (field, list[i])),
        None => Seq::empty(),
    }
}

/// The fragments of a hit, field by field: those of `text` first, then
/// those of `title`, `context`, `sourceName`, `filePath` and `uniqueId`. A
/// hit without highlights has none.
pub open spec fn hit_fragments(highlight: Option<HighlightView>) -> Seq<(Seq<char>, Seq<char>)> {
    match highlight {
        Some(h) => field_fragments("text"@, h.text) + field_fragments("title"@, h.title)
            + field_fragments("context"@, h.context) + field_fragments(
            "sourceName"@,
            h.source_name,
        ) + field_fragments("filePath"@, h.file_path) + field_fragments("uniqueId"@, h.unique_id),
        None => Seq::empty(),
    }
}

/// The terms that a list of fragments marks: those of the first fragment,
/// then those of the second, and so on.
pub open spec fn marked_terms(fragments: Seq<(Seq<char>, Seq<char>)>) -> Seq<Seq<char>>
    decreases fragments.len(),
{
    if fragments.len() == 0 {
        Seq::empty()
    } else {
        marked_terms(fragments.drop_last()) + em_terms(fragments.last().1)
    }
}

/// What callers get for the hit `hit` at rank `index`.
pub open spec fn hit_entry(index: int, hit: HitView) -> SearchResultEntryView {
    SearchResultEntryView {
        result: hit.source,
        metadata: SearchResultMetadataView {
            index: index as nat,
            score: hit.score,
            highlights: hit_fragments(hit.highlight),
            highlights_extracted: marked_terms(hit_fragments(hit.highlight)),
        },
    }
}

/// What callers get for the result `result`: the total as the engine told
/// it, and the hits in the engine's order.
pub open spec fn response_of(result: SearchResultView) -> SearchResponseView {
    SearchResponseView {
        result_total_items: result.hits.total,
        results: Seq::new(result.hits.hits.len(), |i: int| hit_entry(i, result.hits.hits[i])),
    }
}

/// Adds the fragments of one field to `highlights`.
fn push_field_fragments(
    highlights: &mut Vec<SearchResultHighlight>,
    field: &str,
    fragments: &Option<Vec<String>>,
)
    ensures
        highlights_model(final(highlights)@) == highlights_model(old(highlights)@) + field_fragments(
            field@,
            fragments_model(*fragments),
        ),
{
    let ghost before = highlights_model(highlights@);
    match fragments {
        Some(list) => {
            let mut i: usize = 0;
            while i < list.len()
                invariant
                    i <= list.len(),
                    highlights_model(highlights@) == before + field_fragments(
                        field@,
                        Some(texts(list@)),
                    ).take(i as int),
                decreases list.len() - i,
            {
                let ghost sofar = highlights_model(highlights@);
                highlights.push(SearchResultHighlight { field: owned(field), text: list[i].clone() });
                assert(highlights_model(highlights@) =~= sofar.push((field@, list@[i as int]@)));
                assert(field_fragments(field@, Some(texts(list@))).take(i + 1) =~= field_fragments(
                    field@,
                    Some(texts(list@)),
                ).take(i as int).push((field@, list@[i as int]@)));
                i += 1;
            }
            assert(field_fragments(field@, Some(texts(list@))).take(list.len() as int)
                =~= field_fragments(field@, Some(texts(list@))));
        },
        None => {
            assert(before + Seq::<(Seq<char>, Seq<char>)>::empty() =~= before);
        },
    }
}

/// The fragments of a hit, field by field.
fn collect_fragments(highlight: &Option<Highlight>) -> (highlights: Vec<SearchResultHighlight>)
    ensures
        highlights_model(highlights@) == hit_fragments(highlight_model(*highlight)),
{
    let mut highlights: Vec<SearchResultHighlight> = Vec::new();
    assert(highlights_model(highlights@) =~= Seq::<(Seq<char>, Seq<char>)>::empty());
    match highlight {
        Some(h) => {
            push_field_fragments(&mut highlights, "text", &h.text);
            push_field_fragments(&mut highlights, "title", &h.title);
            push_field_fragments(&mut highlights, "context", &h.context);
            push_field_fragments(&mut highlights, "sourceName", &h.source_name);
            push_field_fragments(&mut highlights, "filePath", &h.file_path);
            push_field_fragments(&mut highlights, "uniqueId", &h.unique_id);
            assert(highlights_model(highlights@) =~= hit_fragments(Some(h@)));
        },
        None => {},
    }
    highlights
}

/// The terms that a list of fragments marks.
fn extract_marked_terms(highlights: &Vec<SearchResultHighlight>) -> (terms: Vec<String>)
    ensures
        texts(terms@) == marked_terms(highlights_model(highlights@)),
{
    let ghost fragments = highlights_model(highlights@);
    let mut terms: Vec<String> = Vec::new();
    let mut i: usize = 0;
    assert(texts(terms@) =~= marked_terms(fragments.take(0)));
    while i < highlights.len()
        invariant
            i <= highlights.len(),
            fragments == highlights_model(highlights@),
            texts(terms@) == marked_terms(fragments.take(i as int)),
        decreases highlights.len() - i,
    {
        let ghost sofar = texts(terms@);
        let mut found = extract_em_content(highlights[i].text.as_str());
        let ghost added = texts(found@);
        terms.append(&mut found);
        assert(texts(terms@) =~= sofar + added);
        assert(fragments.take(i + 1).drop_last() =~= fragments.take(i as int));
        assert(fragments.take(i + 1).last() == fragments[i as int]);
        i += 1;
    }
    assert(fragments.take(highlights.len() as int) =~= fragments);
    terms
}

impl SearchResponse {
    /// What callers get for `result`.
    ///
    /// The hits keep the order in which the engine sent them, and each is
    /// given its rank on the page. The total keeps its relation qualifier.
    pub fn from(result: DistantElasticSearchResult) -> (response: SearchResponse)
        ensures
            response@ == response_of(result@),
    {
        let total = result.hits.total;
        let ghost hits = hits_model(result.hits.hits@);
        let mut results: Vec<SearchResult> = Vec::new();
        for hit in it: result.hits.hits.into_iter()
            invariant
                hits == hits_model(it.seq()),
                results@.len() == it.index(),
                forall|k: int| 0 <= k < it.index() ==> (#[trigger] results@[k])@ == hit_entry(k, hits[k]),
        {
            let ghost index = it.index();
            assert(hit@ == hits[index]);
            let highlights = collect_fragments(&hit.highlight);
            let highlights_extracted = extract_marked_terms(&highlights);
            let metadata = SearchResultMetadata {
                index: results.len(),
                score: hit.score,
                highlights,
                highlights_extracted,
            };
            results.push(SearchResult { result: hit.source, metadata });
        }
        let response = SearchResponse {
            metadata: SearchResponseMetadata { result_total_items: total },
            results,
        };
        assert(response@.results =~= response_of(result@).results);
        response
    }
}

} // verus!
