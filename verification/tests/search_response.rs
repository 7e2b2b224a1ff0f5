use distant_search::json::JsonValue;
use distant_search::responses::search_response::{
    SearchResponse, SearchResponseMetadata, SearchResult, SearchResultHighlight, SearchResultMetadata,
};
use distant_search::responses::search_result::{normalize, Relation, Score, Total};

fn document(value: &serde_json::Value) -> JsonValue {
    match value {
        serde_json::Value::Null => JsonValue::Null,
        serde_json::Value::Bool(b) => JsonValue::Bool(*b),
        serde_json::Value::Number(n) => match n.as_i64() {
            Some(i) => JsonValue::Int(i),
            None => JsonValue::Float(n.as_f64().unwrap().to_bits()),
        },
        serde_json::Value::String(s) => JsonValue::Str(s.clone()),
        serde_json::Value::Array(items) => JsonValue::Array(items.iter().map(document).collect()),
        serde_json::Value::Object(members) => {
            JsonValue::Object(members.iter().map(|(k, v)| (k.clone(), document(v))).collect())
        }
    }
}

fn parse(text: &str) -> JsonValue {
    document(&serde_json::from_str(text).unwrap())
}

fn page(hits: &str, total: &str) -> JsonValue {
    parse(&format!(r#"{{"took": 3, "timed_out": false, "hits": {{"total": {}, "hits": [{}]}}}}"#, total, hits))
}

fn fragment(field: &str, text: &str) -> SearchResultHighlight {
    SearchResultHighlight { field: field.to_string(), text: text.to_string() }
}

#[test]
fn hit_becomes_a_result_with_its_rank_and_its_terms() {
    let body = page(
        r#"{"_index": "i", "_type": "pdf", "_id": "a", "_score": 1.5, "_source": {"text": "hello big world"},
            "highlight": {"text": ["<em>hello</em> big <em>world</em>"]}}"#,
        r#"{"value": 1, "relation": "eq"}"#,
    );
    let response = SearchResponse::from(normalize(200, &body).unwrap());
    let expected = SearchResponse {
        metadata: SearchResponseMetadata { result_total_items: Total { relation: Relation::Eq, value: 1 } },
        results: vec![SearchResult {
            result: parse(r#"{"text": "hello big world"}"#),
            metadata: SearchResultMetadata {
                index: 0,
                score: Score::Float(1.5f64.to_bits()),
                highlights: vec![fragment("text", "<em>hello</em> big <em>world</em>")],
                highlights_extracted: vec!["hello".to_string(), "world".to_string()],
            },
        }],
    };
    assert_eq!(response, expected);
}

#[test]
fn results_keep_the_order_of_the_hits() {
    let body = page(
        r#"{"_index": "i", "_type": "pdf", "_id": "a", "_score": 1, "_source": {"n": 1}},
           {"_index": "i", "_type": "pdf", "_id": "b", "_score": 3, "_source": {"n": 2}},
           {"_index": "i", "_type": "pdf", "_id": "c", "_score": 2, "_source": {"n": 3}}"#,
        r#"{"value": 3, "relation": "eq"}"#,
    );
    let response = SearchResponse::from(normalize(200, &body).unwrap());
    let seen: Vec<(usize, Option<i64>, Score)> =
        response.results.iter().map(|r| (r.metadata.index, r.result.int_at("n"), r.metadata.score)).collect();
    assert_eq!(
        seen,
        vec![(0, Some(1), Score::Int(1)), (1, Some(2), Score::Int(3)), (2, Some(3), Score::Int(2))]
    );
}

#[test]
fn hit_without_highlights_has_no_fragments_and_no_terms() {
    let body = page(
        r#"{"_index": "i", "_type": "pdf", "_id": "a", "_score": 1, "_source": {}}"#,
        r#"{"value": 1, "relation": "eq"}"#,
    );
    let response = SearchResponse::from(normalize(200, &body).unwrap());
    assert_eq!(response.results[0].metadata.highlights, vec![]);
    assert_eq!(response.results[0].metadata.highlights_extracted, Vec::<String>::new());
}

#[test]
fn fragment_without_markers_is_kept_and_yields_no_term() {
    let body = page(
        r#"{"_index": "i", "_type": "pdf", "_id": "a", "_score": 1, "_source": {},
            "highlight": {"text": ["no marker", "<em>one</em>"]}}"#,
        r#"{"value": 1, "relation": "eq"}"#,
    );
    let response = SearchResponse::from(normalize(200, &body).unwrap());
    assert_eq!(
        response.results[0].metadata.highlights,
        vec![fragment("text", "no marker"), fragment("text", "<em>one</em>")]
    );
    assert_eq!(response.results[0].metadata.highlights_extracted, vec!["one".to_string()]);
}

#[test]
fn fragments_come_field_by_field() {
    let body = page(
        r#"{"_index": "i", "_type": "pdf", "_id": "a", "_score": 1, "_source": {},
            "highlight": {
                "uniqueId": ["<em>u</em>"],
                "filePath": ["<em>f1</em>", "<em>f2</em>"],
                "sourceName": ["<em>s</em>"],
                "context": ["<em>c</em>"],
                "title": ["<em>t</em>"],
                "text": ["<em>x1</em> and <em>x2</em>"]
            }}"#,
        r#"{"value": 1, "relation": "eq"}"#,
    );
    let response = SearchResponse::from(normalize(200, &body).unwrap());
    assert_eq!(
        response.results[0].metadata.highlights,
        vec![
            fragment("text", "<em>x1</em> and <em>x2</em>"),
            fragment("title", "<em>t</em>"),
            fragment("context", "<em>c</em>"),
            fragment("sourceName", "<em>s</em>"),
            fragment("filePath", "<em>f1</em>"),
            fragment("filePath", "<em>f2</em>"),
            fragment("uniqueId", "<em>u</em>"),
        ]
    );
    assert_eq!(
        response.results[0].metadata.highlights_extracted,
        vec!["x1", "x2", "t", "c", "s", "f1", "f2", "u"]
    );
}

#[test]
fn lower_bound_stays_a_lower_bound_for_the_caller() {
    let body = page("", r#"{"value": 10000, "relation": "gte"}"#);
    let response = SearchResponse::from(normalize(200, &body).unwrap());
    assert_eq!(response.metadata.result_total_items, Total { relation: Relation::Gte, value: 10000 });
    assert!(!response.metadata.result_total_items.is_exact());
    assert_eq!(response.results, vec![]);
}
