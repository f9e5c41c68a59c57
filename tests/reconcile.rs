use shelflife::record::NamespaceRecord;
use shelflife::store::{encode_record, list_records};
use shelflife::workflow::{
    answer_from_trimmed, collection_kind, compare, confirm, is_tracked, parse_answer, Answer,
    CollectionKind, Comparison, Confirmation, Outcome,
};

fn team_x() -> NamespaceRecord {
    NamespaceRecord {
        name: "team-x".to_string(),
        admins: vec!["alice".to_string()],
        last_update: "2023-01-01T00:00:00Z".to_string(),
        cause: "Deployment".to_string(),
    }
}

fn same(a: &NamespaceRecord, b: &NamespaceRecord) -> bool {
    a.name == b.name && a.admins == b.admins && a.last_update == b.last_update && a.cause == b.cause
}

/// Runs the workflow against an in-memory collection with a scripted reply.
fn run(store: &mut Vec<NamespaceRecord>, record: NamespaceRecord, reply: &str) -> Outcome {
    match compare(store, record) {
        Comparison::AlreadyTracked => Outcome::AlreadyTracked,
        Comparison::AwaitConfirmation(r) => match confirm(r, reply) {
            Confirmation::Insert(r) => {
                store.push(r);
                Outcome::Added
            }
            Confirmation::Finished(o) => o,
        },
    }
}

#[test]
fn confirmed_record_is_added() {
    let mut store = Vec::new();
    assert_eq!(run(&mut store, team_x(), "y\n"), Outcome::Added);
    assert_eq!(store.len(), 1);
    assert!(same(&store[0], &team_x()));
    let listed = list_records(&vec![Ok(encode_record(&store[0]))]);
    assert!(same(&listed[0], &team_x()));
}

#[test]
fn listed_name_is_already_tracked() {
    let mut store = vec![team_x()];
    assert_eq!(run(&mut store, team_x(), "y\n"), Outcome::AlreadyTracked);
    assert_eq!(store.len(), 1);
}

#[test]
fn declined_record_is_not_added() {
    let mut store = Vec::new();
    assert_eq!(run(&mut store, team_x(), "n\n"), Outcome::Declined);
    assert!(store.is_empty());
}

#[test]
fn invalid_reply_is_reported() {
    let mut store = Vec::new();
    assert_eq!(run(&mut store, team_x(), "maybe\n"), Outcome::InvalidResponse);
    assert!(store.is_empty());
}

#[test]
fn same_name_with_other_fields_is_tracked() {
    let mut other = team_x();
    other.admins = vec![];
    other.last_update = "N/A".to_string();
    assert!(is_tracked(&vec![other], &"team-x".to_string()));
    assert!(!is_tracked(&vec![team_x()], &"team-x2".to_string()));
    assert!(!is_tracked(&vec![], &"team-x".to_string()));
}

#[test]
fn replies_are_trimmed() {
    assert_eq!(parse_answer("  y \r\n"), Answer::Yes);
    assert_eq!(parse_answer("\tn\n"), Answer::No);
    assert_eq!(parse_answer("yes\n"), Answer::Invalid);
    assert_eq!(parse_answer("Y\n"), Answer::Invalid);
    assert_eq!(parse_answer(""), Answer::Invalid);
}

#[test]
fn trimmed_replies() {
    assert_eq!(answer_from_trimmed("y"), Answer::Yes);
    assert_eq!(answer_from_trimmed("n"), Answer::No);
    assert_eq!(answer_from_trimmed(" y"), Answer::Invalid);
    assert_eq!(answer_from_trimmed("maybe"), Answer::Invalid);
}

#[test]
fn collection_names() {
    assert_eq!(collection_kind("namespaces"), CollectionKind::Namespaces);
    assert_eq!(collection_kind("whitelist"), CollectionKind::Whitelist);
    assert_eq!(collection_kind("other"), CollectionKind::Unknown);
}
