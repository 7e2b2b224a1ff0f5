use distant_search::bulk::{build_bulk_lines, read_bulk, BulkOutcome};
use distant_search::distant_client::{DistantClient, ElasticInputEntry, EngineCall, IndexPlan};
use distant_search::errors::DistantError;
use distant_search::json::{member, JsonValue};

fn document(value: &serde_json::Value) -> JsonValue {
    match value {
        serde_json::Value::Null => JsonValue::Null,
        serde_json::Value::Bool(b) => JsonValue::Bool(*b),
        serde_json::Value::Number(n) => match n.as_i64() {
            Some(i) => JsonValue::Int(i),
            None => JsonValue::Float(n.as_f64().unwrap().to_bits()),
        },
        serde_json::Value::String(s) => JsonValue::Str(s.clone()),
        serde_json::Value::Array(items) => JsonValue::Array(items.iter().map(document).collect()),
        serde_json::Value::Object(members) => {
            JsonValue::Object(members.iter().map(|(k, v)| (k.clone(), document(v))).collect())
        }
    }
}

fn parse(text: &str) -> JsonValue {
    document(&serde_json::from_str(text).unwrap())
}

fn entry(id: &str, text: &str) -> ElasticInputEntry {
    ElasticInputEntry {
        data_type: "pdf".to_string(),
        item: parse(&format!(r#"{{"unique_id": "{}", "unique_id_type": "citekey", "text": "{}"}}"#, id, text)),
        unique_id: id.to_string(),
    }
}

fn action(index: &str, id: &str, kind: &str) -> JsonValue {
    JsonValue::object(vec![member(
        "index",
        JsonValue::object(vec![
            member("_index", JsonValue::text(index)),
            member("_id", JsonValue::text(id)),
            member("_type", JsonValue::text(kind)),
        ]),
    )])
}

#[test]
fn empty_batch_is_done_without_a_request() {
    let client = DistantClient::new();
    let plan = client.index("test_index", vec![]);
    assert_eq!(plan, IndexPlan::Done(BulkOutcome { errors: false, items: vec![] }));
    match plan {
        IndexPlan::Done(outcome) => {
            assert!(outcome.is_success());
            assert_eq!(outcome.processed(), 0);
        }
        IndexPlan::Submit(call) => panic!("unexpected call {:?}", call),
    }
}

#[test]
fn batch_is_one_request_of_two_lines_for_each_document() {
    let client = DistantClient::new();
    let plan = client.index("test_index", vec![entry("unique_a", "banana"), entry("uniqueb", "apple")]);
    let expected = IndexPlan::Submit(EngineCall::Bulk {
        index_name: "test_index".to_string(),
        lines: vec![
            action("test_index", "unique_a", "pdf"),
            parse(r#"{"unique_id": "unique_a", "unique_id_type": "citekey", "text": "banana"}"#),
            action("test_index", "uniqueb", "pdf"),
            parse(r#"{"unique_id": "uniqueb", "unique_id_type": "citekey", "text": "apple"}"#),
        ],
    });
    assert_eq!(plan, expected);
}

#[test]
fn lines_keep_the_order_of_the_documents() {
    let entries: Vec<ElasticInputEntry> = (0..5).map(|n| entry(&format!("id{}", n), &format!("text{}", n))).collect();
    let lines = build_bulk_lines("idx", entries);
    assert_eq!(lines.len(), 10);
    for n in 0..5 {
        assert_eq!(lines[2 * n], action("idx", &format!("id{}", n), "pdf"));
        assert_eq!(lines[2 * n + 1].text_at("text"), Some(format!("text{}", n)));
    }
    assert_eq!(build_bulk_lines("idx", vec![]), Vec::<JsonValue>::new());
}

#[test]
fn action_names_the_type_of_each_document() {
    let mut note = entry("n1", "note");
    note.data_type = "note".to_string();
    let lines = build_bulk_lines("idx", vec![note]);
    assert_eq!(lines[0], action("idx", "n1", "note"));
}

#[test]
fn outcome_holds_what_the_engine_says_of_each_document() {
    let body = parse(
        r#"{"took": 30, "errors": true, "items": [
            {"index": {"_id": "unique_a", "status": 201, "result": "created"}},
            {"index": {"_id": "uniqueb", "status": 400, "error": {"type": "mapper_parsing_exception"}}}
        ]}"#,
    );
    let outcome = read_bulk(200, &body).unwrap();
    assert!(!outcome.is_success());
    assert_eq!(outcome.processed(), 2);
    assert_eq!(
        outcome,
        BulkOutcome {
            errors: true,
            items: vec![
                parse(r#"{"index": {"_id": "unique_a", "status": 201, "result": "created"}}"#),
                parse(r#"{"index": {"_id": "uniqueb", "status": 400, "error": {"type": "mapper_parsing_exception"}}}"#),
            ],
        }
    );
    let clean = read_bulk(200, &parse(r#"{"took": 1, "errors": false, "items": []}"#)).unwrap();
    assert!(clean.is_success());
    assert_eq!(clean.processed(), 0);
}

#[test]
fn bulk_answer_that_is_no_success_or_has_no_outcomes_is_a_failure() {
    let body = parse(r#"{"took": 1, "errors": false, "items": []}"#);
    assert_eq!(read_bulk(413, &body), Err(DistantError::EngineError(413)));
    assert_eq!(read_bulk(200, &parse(r#"{"took": 1, "errors": false}"#)), Err(DistantError::MalformedResponse));
    assert_eq!(read_bulk(200, &parse(r#"{"took": 1, "items": []}"#)), Err(DistantError::MalformedResponse));
    assert_eq!(
        read_bulk(200, &parse(r#"{"took": 1, "errors": "no", "items": []}"#)),
        Err(DistantError::MalformedResponse)
    );
    assert_eq!(
        read_bulk(200, &parse(r#"{"took": 1, "errors": false, "items": {}}"#)),
        Err(DistantError::MalformedResponse)
    );
    assert_eq!(read_bulk(200, &JsonValue::Null), Err(DistantError::MalformedResponse));
}
