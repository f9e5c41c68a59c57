use shelflife::record::NamespaceRecord;
use shelflife::store::{
    decode_record, encode_record, list_records, lookup, name_filter, Document, Field, Scalar,
    StoreError, Value,
};

fn team_x() -> NamespaceRecord {
    NamespaceRecord {
        name: "team-x".to_string(),
        admins: vec!["alice".to_string(), "bob".to_string()],
        last_update: "2023-01-01T00:00:00Z".to_string(),
        cause: "Deployment".to_string(),
    }
}

fn same(a: &NamespaceRecord, b: &NamespaceRecord) -> bool {
    a.name == b.name && a.admins == b.admins && a.last_update == b.last_update && a.cause == b.cause
}

#[test]
fn inserted_record_lists_back_equal() {
    let r = team_x();
    let earlier = NamespaceRecord {
        name: "other".to_string(),
        admins: vec![],
        last_update: "N/A".to_string(),
        cause: "Deployment".to_string(),
    };
    let cursor = vec![Ok(encode_record(&earlier)), Ok(encode_record(&r))];
    let listed = list_records(&cursor);
    assert_eq!(listed.len(), 2);
    assert!(same(&listed[0], &earlier));
    assert!(same(&listed[1], &r));
}

#[test]
fn encoded_document_shape() {
    let doc = encode_record(&team_x());
    let keys: Vec<&str> = doc.fields.iter().map(|f| f.key.as_str()).collect();
    assert_eq!(keys, vec!["name", "admins", "last_update", "cause"]);
    match &doc.fields[1].value {
        Value::Array(items) => assert_eq!(items.len(), 2),
        other => panic!("unexpected {:?}", other),
    }
}

#[test]
fn missing_fields_default_to_empty() {
    let doc = Document {
        fields: vec![
            Field { key: "name".to_string(), value: Value::Text("team-y".to_string()) },
            Field { key: "cause".to_string(), value: Value::Other },
        ],
    };
    let r = decode_record(&doc);
    assert_eq!(r.name, "team-y");
    assert!(r.admins.is_empty());
    assert_eq!(r.last_update, "");
    assert_eq!(r.cause, "");
}

#[test]
fn non_text_admins_are_left_out() {
    let doc = Document {
        fields: vec![Field {
            key: "admins".to_string(),
            value: Value::Array(vec![
                Scalar::Text("alice".to_string()),
                Scalar::Other,
                Scalar::Text("bob".to_string()),
            ]),
        }],
    };
    let r = decode_record(&doc);
    assert_eq!(r.name, "");
    assert_eq!(r.admins, vec!["alice", "bob"]);
}

#[test]
fn failed_documents_are_passed_over() {
    let cursor = vec![
        Err(StoreError { message: "bad document".to_string() }),
        Ok(encode_record(&team_x())),
    ];
    let listed = list_records(&cursor);
    assert_eq!(listed.len(), 1);
    assert!(same(&listed[0], &team_x()));
}

#[test]
fn lookup_takes_first_field_of_key() {
    let doc = Document {
        fields: vec![
            Field { key: "a".to_string(), value: Value::Other },
            Field { key: "name".to_string(), value: Value::Text("first".to_string()) },
            Field { key: "name".to_string(), value: Value::Text("second".to_string()) },
        ],
    };
    match lookup(&doc, "name") {
        Some(Value::Text(s)) => assert_eq!(s, "first"),
        other => panic!("unexpected {:?}", other),
    }
    assert!(lookup(&doc, "missing").is_none());
}

#[test]
fn filter_selects_by_name() {
    let doc = name_filter("ghost-namespace");
    assert_eq!(doc.fields.len(), 1);
    assert_eq!(doc.fields[0].key, "name");
    match &doc.fields[0].value {
        Value::Text(s) => assert_eq!(s, "ghost-namespace"),
        other => panic!("unexpected {:?}", other),
    }
}

#[test]
fn deleting_a_missing_name_succeeds() {
    let r = shelflife::store::deletion_result(Ok(None));
    assert!(matches!(r, Ok(false)));
}

#[test]
fn deleting_twice_succeeds_both_times() {
    let first = shelflife::store::deletion_result(Ok(Some(encode_record(&team_x()))));
    assert!(matches!(first, Ok(true)));
    let second = shelflife::store::deletion_result(Ok(None));
    assert!(matches!(second, Ok(false)));
}

#[test]
fn store_failure_on_delete_is_reported() {
    let r = shelflife::store::deletion_result(Err(StoreError { message: "down".to_string() }));
    match r {
        Err(e) => assert_eq!(e.message, "down"),
        other => panic!("unexpected {:?}", other),
    }
}
