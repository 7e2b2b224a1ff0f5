use distant_search::distant_client::{DistantClient, EngineCall};
use distant_search::errors::DistantError;
use distant_search::json::JsonValue;
use distant_search::query::{build_query, QueryStrategy, SearchFilter, SearchQuery};
use distant_search::responses::check_if_exist::{read_existence, CheckIfFileExistsResult, Hits};
use distant_search::responses::index_info::{read_indices, IndexInfo};
use distant_search::responses::search_result::{Relation, Shards, Total};

fn document(value: &serde_json::Value) -> JsonValue {
    match value {
        serde_json::Value::Null => JsonValue::Null,
        serde_json::Value::Bool(b) => JsonValue::Bool(*b),
        serde_json::Value::Number(n) => match n.as_i64() {
            Some(i) => JsonValue::Int(i),
            None => JsonValue::Float(n.as_f64().unwrap().to_bits()),
        },
        serde_json::Value::String(s) => JsonValue::Str(s.clone()),
        serde_json::Value::Array(items) => JsonValue::Array(items.iter().map(document).collect()),
        serde_json::Value::Object(members) => {
            JsonValue::Object(members.iter().map(|(k, v)| (k.clone(), document(v))).collect())
        }
    }
}

fn parse(text: &str) -> JsonValue {
    document(&serde_json::from_str(text).unwrap())
}
fn value(doc: &JsonValue) -> serde_json::Value {
    match doc {
        JsonValue::Null => serde_json::Value::Null,
        JsonValue::Bool(b) => serde_json::Value::Bool(*b),
        JsonValue::Int(i) => serde_json::Value::from(*i),
        JsonValue::Float(bits) => serde_json::Value::from(f64::from_bits(*bits)),
        JsonValue::Str(s) => serde_json::Value::String(s.clone()),
        JsonValue::Array(items) => serde_json::Value::Array(items.iter().map(value).collect()),
        JsonValue::Object(members) => {
            let mut map = serde_json::Map::new();
            for (k, v) in members {
                map.insert(k.clone(), value(v));
            }
            serde_json::Value::Object(map)
        }
    }
}

fn expected(text: &str) -> serde_json::Value {
    serde_json::from_str(text).unwrap()
}

const LISTING: &str = r#"[
    {"health": "yellow", "status": "open", "index": "test_index", "uuid": "u-1", "pri": "1", "rep": "1",
     "docs.count": "2", "docs.deleted": "0", "store.size": "8.1kb", "pri.store.size": "8.1kb"},
    {"health": "green", "status": "open", "index": "distant_rl_history", "uuid": "u-2", "pri": "1", "rep": "0",
     "docs.count": "120", "docs.deleted": "3", "store.size": "1mb", "pri.store.size": "1mb", "extra": 1}
]"#;

fn info(health: &str, index: &str, uuid: &str, rep: &str, count: &str, deleted: &str, size: &str) -> IndexInfo {
    IndexInfo {
        health: health.to_string(),
        status: "open".to_string(),
        index: index.to_string(),
        uuid: uuid.to_string(),
        pri: "1".to_string(),
        rep: rep.to_string(),
        docs_count: count.to_string(),
        docs_deleted: deleted.to_string(),
        store_size: size.to_string(),
        pri_store_size: size.to_string(),
    }
}

#[test]
fn client_keeps_what_it_was_made_with() {
    let client = DistantClient::new();
    assert_eq!(client.user_name(), "");
    assert_eq!(client.password(), "");
    assert_eq!(client.endpoint(), "");
    assert!(!client.is_connected());
    let client = DistantClient::new_with_credentials("elastic", "changeme", "https://localhost:9200");
    assert_eq!(client.user_name(), "elastic");
    assert_eq!(client.password(), "changeme");
    assert_eq!(client.endpoint(), "https://localhost:9200");
    assert!(!client.is_connected());
}

#[test]
fn search_asks_for_the_page_beside_the_body_too() {
    let client = DistantClient::new();
    let query = SearchQuery {
        filter: Some(SearchFilter {
            global_filter: Some("appl".to_string()),
            global_filter_fields: vec!["text".to_string()],
        }),
        sort: None,
        offset: 20,
        length: 10,
    };
    match client.search("test_index".to_string(), query) {
        EngineCall::Search { indices, from, size, scroll, body } => {
            assert_eq!(indices, vec!["test_index".to_string()]);
            assert_eq!(from, Some(20));
            assert_eq!(size, 10);
            assert_eq!(scroll, None);
            assert_eq!(body.int_at("size"), Some(10));
            assert_eq!(body.int_at("from"), Some(20));
            assert_eq!(
                value(body.get("query").unwrap()),
                expected(r#"{"multi_match": {"query": "appl", "fields": ["text"], "fuzziness": "AUTO"}}"#)
            );
        }
        other => panic!("unexpected call {:?}", other),
    }
}

#[test]
fn client_searches_by_the_kind_of_query_it_was_given() {
    let query = || SearchQuery {
        filter: Some(SearchFilter {
            global_filter: Some("appl".to_string()),
            global_filter_fields: vec!["text".to_string()],
        }),
        sort: None,
        offset: 0,
        length: 10,
    };
    let client = DistantClient::new();
    assert_eq!(client.strategy(), QueryStrategy::MultiMatch);
    let client = client.with_strategy(QueryStrategy::QueryString);
    assert_eq!(client.strategy(), QueryStrategy::QueryString);
    assert_eq!(client.user_name(), "");
    match client.search("test_index".to_string(), query()) {
        EngineCall::Search { body, .. } => {
            assert_eq!(body, build_query(&query(), QueryStrategy::QueryString));
        }
        other => panic!("unexpected call {:?}", other),
    }
    let client = DistantClient::new_with_credentials("u", "p", "e").with_strategy(QueryStrategy::QueryString);
    assert_eq!(client.endpoint(), "e");
    assert_eq!(client.strategy(), QueryStrategy::QueryString);
}

#[test]
fn search_by_file_name_is_a_term_query() {
    let client = DistantClient::new();
    match client.search_by_filename(vec!["distant_rl_history", "other"], "a \"file\".pdf", 100) {
        EngineCall::Search { indices, from, size, scroll, body } => {
            assert_eq!(indices, vec!["distant_rl_history".to_string(), "other".to_string()]);
            assert_eq!(from, None);
            assert_eq!(size, 100);
            assert_eq!(scroll, Some("1d".to_string()));
            assert_eq!(
                value(&body),
                expected(r#"{"query": {"term": {"fileName.keyword": "a \"file\".pdf"}}, "sort": []}"#)
            );
        }
        other => panic!("unexpected call {:?}", other),
    }
}

#[test]
fn existence_is_asked_without_asking_for_hits() {
    let client = DistantClient::new();
    assert_eq!(
        client.check_if_exist(vec!["distant_rl_history"], "test"),
        client.search_by_filename(vec!["distant_rl_history"], "test", 0)
    );
}

#[test]
fn scroll_names_the_token_and_the_window() {
    let client = DistantClient::new();
    match client.scroll("c2NhbjsxOzEwOkZ") {
        EngineCall::Scroll { scroll_id, body } => {
            assert_eq!(scroll_id, "c2NhbjsxOzEwOkZ");
            assert_eq!(value(&body), expected(r#"{"scroll": "5m"}"#));
        }
        other => panic!("unexpected call {:?}", other),
    }
}

#[test]
fn requests_without_a_body() {
    let client = DistantClient::new();
    assert_eq!(client.check_health(), EngineCall::Health);
    assert_eq!(client.list_indices(), EngineCall::ListIndices);
    assert_eq!(
        client.remove_index("test_index".to_string()),
        EngineCall::RemoveIndex { index_name: "test_index".to_string() }
    );
}

#[test]
fn every_listed_index_is_removed_in_turn() {
    let client = DistantClient::new();
    let listing = read_indices(200, &parse(LISTING)).unwrap();
    assert_eq!(
        client.remove_all_indices(&listing),
        vec![
            EngineCall::RemoveIndex { index_name: "test_index".to_string() },
            EngineCall::RemoveIndex { index_name: "distant_rl_history".to_string() },
        ]
    );
    assert_eq!(client.remove_all_indices(&vec![]), vec![]);
}

#[test]
fn listing_is_read_in_the_order_of_the_engine() {
    assert_eq!(
        read_indices(200, &parse(LISTING)),
        Ok(vec![
            info("yellow", "test_index", "u-1", "1", "2", "0", "8.1kb"),
            info("green", "distant_rl_history", "u-2", "0", "120", "3", "1mb"),
        ])
    );
    assert_eq!(read_indices(200, &parse("[]")), Ok(vec![]));
}

#[test]
fn listing_that_is_no_success_or_has_the_wrong_shape_is_a_failure() {
    assert_eq!(read_indices(401, &parse(LISTING)), Err(DistantError::EngineError(401)));
    assert_eq!(read_indices(200, &parse("{}")), Err(DistantError::MalformedResponse));
    assert_eq!(read_indices(200, &parse(r#"[{"health": "green"}]"#)), Err(DistantError::MalformedResponse));
    let counted = LISTING.replace(r#""docs.count": "2""#, r#""docs.count": 2"#);
    assert_eq!(read_indices(200, &parse(&counted)), Err(DistantError::MalformedResponse));
    let closed = LISTING.replace(r#""docs.deleted": "3""#, r#""docs.deleted": null"#);
    assert_eq!(read_indices(200, &parse(&closed)), Err(DistantError::MalformedResponse));
}

fn counted(total: i64, relation: &str, hits: &str) -> JsonValue {
    parse(&format!(
        r#"{{"took": 4, "timed_out": false, "_shards": {{"total": 1, "successful": 1, "skipped": 0, "failed": 0}},
            "hits": {{"total": {{"value": {}, "relation": "{}"}}, "max_score": null, "hits": {}}}}}"#,
        total, relation, hits
    ))
}

#[test]
fn file_is_there_where_at_least_one_document_matches() {
    assert_eq!(read_existence(200, &counted(0, "eq", "[]")), Ok(false));
    assert_eq!(read_existence(200, &counted(1, "eq", "[]")), Ok(true));
    assert_eq!(read_existence(200, &counted(10000, "gte", "[]")), Ok(true));
    assert_eq!(read_existence(200, &counted(-1, "eq", "[]")), Ok(false));
}

#[test]
fn search_that_went_through_does_not_make_the_file_exist() {
    let body = counted(0, "eq", "[]");
    let result = CheckIfFileExistsResult::decode(&body).unwrap();
    assert!(!result.file_exists());
    assert_eq!(read_existence(200, &body), Ok(false));
}

#[test]
fn answer_to_a_search_by_file_name_is_read_as_it_stands() {
    let body = counted(2, "eq", r#"[{"_id": "a"}, null]"#);
    assert_eq!(
        CheckIfFileExistsResult::decode(&body),
        Some(CheckIfFileExistsResult {
            took: 4,
            timed_out: false,
            shards: Shards { failed: 0, skipped: 0, successful: 1, total: 1 },
            hits: Hits {
                total: Total { relation: Relation::Eq, value: 2 },
                max_score: None,
                hits: vec![Some(parse(r#"{"_id": "a"}"#)), None],
            },
        })
    );
}

#[test]
fn existence_answer_that_is_no_success_or_has_the_wrong_shape_is_a_failure() {
    assert_eq!(read_existence(404, &counted(1, "eq", "[]")), Err(DistantError::EngineError(404)));
    assert_eq!(read_existence(200, &parse("{}")), Err(DistantError::MalformedResponse));
    assert_eq!(read_existence(200, &counted(1, "about", "[]")), Err(DistantError::MalformedResponse));
    assert_eq!(read_existence(200, &counted(1, "eq", "{}")), Err(DistantError::MalformedResponse));
    let no_shards = parse(r#"{"took": 4, "timed_out": false, "hits": {"total": {"value": 1, "relation": "eq"}, "hits": []}}"#);
    assert_eq!(read_existence(200, &no_shards), Err(DistantError::MalformedResponse));
}
