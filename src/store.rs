use vstd::prelude::*;
use crate::record::{copy_strings, strings_view, NamespaceRecord, RecordView};

verus! {

/// An element of an array held in a stored document.
#[derive(Debug, Clone)]
pub enum Scalar {
    Text(String),
    Other,
}

/// A value held in a stored document: text, an array, or anything else.
#[derive(Debug, Clone)]
pub enum Value {
    Text(String),
    Array(Vec<Scalar>),
    Other,
}

/// One key of a stored document and its value.
#[derive(Debug, Clone)]
pub struct Field {
    pub key: String,
    pub value: Value,
}

/// A stored document: its fields in stored order.
#[derive(Debug, Clone)]
pub struct Document {
    pub fields: Vec<Field>,
}

/// A failure reported by the backing store.
#[derive(Debug, Clone)]
pub struct StoreError {
    pub message: String,
}

/// The value of the first field with the given key, if any.
pub open spec fn field_value(fields: Seq<Field>, key: Seq<char>) -> Option<Value>
    decreases fields.len(),
{
    if fields.len() == 0 {
        None
    } else if fields[0].key@ == key {
        Some(fields[0].value)
    } else {
        field_value(fields.subrange(1, fields.len() as int), key)
    }
}

/// The text of a field, or the empty text when it is absent or not text.
pub open spec fn text_of(doc: Document, key: Seq<char>) -> Seq<char> {
    match field_value(doc.fields@, key) {
        Some(Value::Text(s)) => s@,
        _ => Seq::empty(),
    }
}

/// The text elements of an array, in order; other elements are left out.
pub open spec fn texts_of(items: Seq<Scalar>) -> Seq<Seq<char>>
    decreases items.len(),
{
    if items.len() == 0 {
        Seq::empty()
    } else {
        texts_of(items.drop_last()) + match items.last() {
            Scalar::Text(s) => seq![s@],
            Scalar::Other => Seq::empty(),
        }
    }
}

/// The text elements of an array field, or the empty list when it is absent
/// or not an array.
pub open spec fn list_of(doc: Document, key: Seq<char>) -> Seq<Seq<char>> {
    match field_value(doc.fields@, key) {
        Some(Value::Array(items)) => texts_of(items@),
        _ => Seq::empty(),
    }
}

/// The record a stored document holds, each missing field taken as empty.
pub open spec fn decoded(doc: Document) -> RecordView {
    RecordView {
        name: text_of(doc, "name"@),
        admins: list_of(doc, "admins"@),
        last_update: text_of(doc, "last_update"@),
        cause: text_of(doc, "cause"@),
    }
}

/// The records of the documents that the store handed out, in store order;
/// a document that the store failed to hand out is passed over.
pub open spec fn listed(cursor: Seq<Result<Document, StoreError>>) -> Seq<RecordView>
    decreases cursor.len(),
{
    if cursor.len() == 0 {
        Seq::empty()
    } else {
        listed(cursor.drop_last()) + match cursor.last() {
            Ok(doc) => seq![decoded(doc)],
            Err(_) => Seq::empty(),
        }
    }
}

/// A field holding the given text under the given key.
pub open spec fn text_field(f: Field, key: Seq<char>, text: Seq<char>) -> bool {
    &&& f.key@ == key
    &&& f.value matches Value::Text(s) && s@ == text
}

/// An array of texts, element for element.
pub open spec fn texts_array(items: Seq<Scalar>, texts: Seq<Seq<char>>) -> bool {
    &&& items.len() == texts.len()
    &&& forall|i: int|
        0 <= i < items.len() ==> (#[trigger] items[i] matches Scalar::Text(s) && s@ == texts[i])
}

/// The document that stores a record: `name`, `admins`, `last_update` and
/// `cause`, in that order, all text but `admins`, an array of texts.
pub open spec fn encodes(doc: Document, r: RecordView) -> bool {
    &&& doc.fields@.len() == 4
    &&& text_field(doc.fields@[0], "name"@, r.name)
    &&& doc.fields@[1].key@ == "admins"@
    &&& doc.fields@[1].value matches Value::Array(items) && texts_array(items@, r.admins)
    &&& text_field(doc.fields@[2], "last_update"@, r.last_update)
    &&& text_field(doc.fields@[3], "cause"@, r.cause)
}

/// The value of the first field of a document with the given key.
pub fn lookup<'a>(doc: &'a Document, key: &str) -> (r: Option<&'a Value>)
    ensures
        match r {
            Some(v) => field_value(doc.fields@, key@) == Some(*v),
            None => field_value(doc.fields@, key@) is None,
        },
{
    let k = String::from_str(key);
    let n = doc.fields.len();
    let mut i: usize = 0;
    assert(doc.fields@.subrange(0, n as int) =~= doc.fields@);
    while i < n
        invariant
            n == doc.fields@.len(),
            i <= n,
            k@ == key@,
            field_value(doc.fields@.subrange(i as int, n as int), key@) == field_value(
                doc.fields@,
                key@,
            ),
        decreases n - i,
    {
        let ghost rest = doc.fields@.subrange(i as int, n as int);
        if doc.fields[i].key == k {
            assert(rest[0] == doc.fields@[i as int]);
            return Some(&doc.fields[i].value);
        }
        assert(rest.subrange(1, rest.len() as int) =~= doc.fields@.subrange(i + 1, n as int));
        i = i + 1;
    }
    assert(doc.fields@.subrange(n as int, n as int).len() == 0);
    None
}

/// The text elements of an array, in order.
fn scalar_texts(items: &Vec<Scalar>) -> (r: Vec<String>)
    ensures
        strings_view(r@) == texts_of(items@),
{
    let mut r: Vec<String> = Vec::new();
    let mut i: usize = 0;
    while i < items.len()
        invariant
            i <= items@.len(),
            strings_view(r@) == texts_of(items@.subrange(0, i as int)),
        decreases items@.len() - i,
    {
        let ghost prev = r@;
        match &items[i] {
            Scalar::Text(s) => {
                r.push(s.clone());
                assert(strings_view(r@) =~= strings_view(prev) + seq![s@]);
            },
            Scalar::Other => {},
        }
        assert(items@.subrange(0, i + 1).drop_last() =~= items@.subrange(0, i as int));
        i = i + 1;
    }
    assert(items@.subrange(0, items@.len() as int) =~= items@);
    r
}

/// The text of a field, or the empty text when it is absent or not text.
fn text_or_empty(doc: &Document, key: &str) -> (r: String)
    ensures
        r@ == text_of(*doc, key@),
{
    match lookup(doc, key) {
        Some(Value::Text(s)) => s.clone(),
        _ => String::new(),
    }
}

/// The text elements of an array field, or the empty list when it is absent
/// or not an array.
fn texts_or_empty(doc: &Document, key: &str) -> (r: Vec<String>)
    ensures
        strings_view(r@) == list_of(*doc, key@),
{
    match lookup(doc, key) {
        Some(Value::Array(items)) => scalar_texts(items),
        _ => {
            let r: Vec<String> = Vec::new();
            assert(strings_view(r@) =~= Seq::empty());
            r
        },
    }
}

/// The record a stored document holds; a missing or mistyped field is taken
/// as empty rather than failing.
pub fn decode_record(doc: &Document) -> (r: NamespaceRecord)
    ensures
        r@ == decoded(*doc),
{
    NamespaceRecord {
        name: text_or_empty(doc, "name"),
        admins: texts_or_empty(doc, "admins"),
        last_update: text_or_empty(doc, "last_update"),
        cause: text_or_empty(doc, "cause"),
    }
}

/// The views of a list of records.
pub open spec fn records_view(v: Seq<NamespaceRecord>) -> Seq<RecordView> {
    v.map_values(|r: NamespaceRecord| r@)
}

/// The records of a collection from what its full scan handed out, in store
/// order; each document is decoded on its own, and one that the store failed
/// to hand out is passed over.
pub fn list_records(cursor: &Vec<Result<Document, StoreError>>) -> (r: Vec<NamespaceRecord>)
    ensures
        records_view(r@) == listed(cursor@),
{
    let mut r: Vec<NamespaceRecord> = Vec::new();
    let mut i: usize = 0;
    while i < cursor.len()
        invariant
            i <= cursor@.len(),
            records_view(r@) == listed(cursor@.subrange(0, i as int)),
        decreases cursor@.len() - i,
    {
        let ghost prev = r@;
        match &cursor[i] {
            Ok(doc) => {
                let rec = decode_record(doc);
                r.push(rec);
                assert(records_view(r@) =~= records_view(prev) + seq![decoded(*doc)]);
            },
            Err(_) => {},
        }
        assert(cursor@.subrange(0, i + 1).drop_last() =~= cursor@.subrange(0, i as int));
        i = i + 1;
    }
    assert(cursor@.subrange(0, cursor@.len() as int) =~= cursor@);
    r
}

/// A text field.
fn make_text_field(key: &str, text: &String) -> (f: Field)
    ensures
        text_field(f, key@, text@),
{
    Field { key: String::from_str(key), value: Value::Text(text.clone()) }
}

/// The document that stores a record.
pub fn encode_record(rec: &NamespaceRecord) -> (doc: Document)
    ensures
        encodes(doc, rec@),
{
    let mut items: Vec<Scalar> = Vec::new();
    let mut i: usize = 0;
    while i < rec.admins.len()
        invariant
            i <= rec.admins@.len(),
            texts_array(items@, strings_view(rec.admins@).subrange(0, i as int)),
        decreases rec.admins@.len() - i,
    {
        items.push(Scalar::Text(rec.admins[i].clone()));
        i = i + 1;
    }
    assert(strings_view(rec.admins@).subrange(0, i as int) =~= strings_view(rec.admins@));
    let mut fields: Vec<Field> = Vec::new();
    fields.push(make_text_field("name", &rec.name));
    fields.push(Field { key: String::from_str("admins"), value: Value::Array(items) });
    fields.push(make_text_field("last_update", &rec.last_update));
    fields.push(make_text_field("cause", &rec.cause));
    Document { fields }
}

/// The filter that selects the documents of the given name.
pub fn name_filter(name: &str) -> (doc: Document)
    ensures
        doc.fields@.len() == 1,
        doc.fields@[0].key@ == "name"@,
        doc.fields@[0].value matches Value::Text(s) && s@ == name@,
{
    let mut fields: Vec<Field> = Vec::new();
    fields.push(Field { key: String::from_str("name"), value: Value::Text(String::from_str(name)) });
    Document { fields }
}

/// What a delete by name reports from the store's answer: whether a record
/// was removed, or the store's failure as it came.
pub open spec fn deletion_of(answer: Result<Option<Document>, StoreError>) -> Result<bool, StoreError> {
    match answer {
        Ok(found) => Ok(found is Some),
        Err(e) => Err(e),
    }
}

/// The result of a delete by name from what the store answered: success both
/// when a record was removed and when none had that name, telling which; the
/// store's failure otherwise.
pub fn deletion_result(answer: Result<Option<Document>, StoreError>) -> (r: Result<bool, StoreError>)
    ensures
        r == deletion_of(answer),
{
    match answer {
        Ok(found) => Ok(found.is_some()),
        Err(e) => Err(e),
    }
}

/// Deleting by name succeeds whenever the store answers, whether it removed a
/// record or found none of that name; a second delete of the same name, which
/// finds none, succeeds too and reports nothing removed.
pub proof fn lemma_delete_succeeds_without_match(first: Result<Option<Document>, StoreError>)
    requires
        first is Ok,
    ensures
        deletion_of(first) is Ok,
        deletion_of(Ok(None)) == Ok::<bool, StoreError>(false),
{
}

/// An array of texts holds exactly those texts.
pub proof fn lemma_texts_array(items: Seq<Scalar>, texts: Seq<Seq<char>>)
    requires
        texts_array(items, texts),
    ensures
        texts_of(items) == texts,
    decreases items.len(),
{
    if items.len() > 0 {
        let last = items.len() - 1;
        assert(items[last] == items.last());
        assert(texts_array(items.drop_last(), texts.drop_last())) by {
            assert forall|i: int| 0 <= i < items.drop_last().len() implies
                (#[trigger] items.drop_last()[i] matches Scalar::Text(s) && s@ == texts.drop_last()[i]) by {
                assert(items.drop_last()[i] == items[i]);
            }
        }
        lemma_texts_array(items.drop_last(), texts.drop_last());
        assert(texts_of(items) =~= texts);
    }
}

/// A stored record decodes to itself, field for field.
pub proof fn lemma_decode_encoded(doc: Document, r: RecordView)
    requires
        encodes(doc, r),
    ensures
        decoded(doc) == r,
{
    reveal_strlit("name");
    reveal_strlit("admins");
    reveal_strlit("last_update");
    reveal_strlit("cause");
    let f = doc.fields@;
    let f1 = f.subrange(1, 4);
    let f2 = f1.subrange(1, 3);
    let f3 = f2.subrange(1, 2);
    assert(f1[0] == f[1] && f2[0] == f[2] && f3[0] == f[3]);
    assert("name"@.len() == 4 && "admins"@.len() == 6 && "last_update"@.len() == 11);
    assert("name"@ != "admins"@);
    assert("name"@ != "last_update"@);
    assert("name"@ != "cause"@);
    assert("admins"@ != "last_update"@);
    assert("admins"@ != "cause"@);
    assert("last_update"@ != "cause"@);
    assert(field_value(f, "admins"@) == field_value(f1, "admins"@));
    assert(field_value(f, "last_update"@) == field_value(f1, "last_update"@));
    assert(field_value(f1, "last_update"@) == field_value(f2, "last_update"@));
    assert(field_value(f, "cause"@) == field_value(f1, "cause"@));
    assert(field_value(f1, "cause"@) == field_value(f2, "cause"@));
    assert(field_value(f2, "cause"@) == field_value(f3, "cause"@));
    if let Value::Array(items) = f[1].value {
        lemma_texts_array(items@, r.admins);
    }
}

/// A record inserted into a collection is listed back by the next full scan,
/// after the records listed before, equal to it field for field.
pub proof fn lemma_inserted_record_lists_back(
    cursor: Seq<Result<Document, StoreError>>,
    doc: Document,
    r: RecordView,
)
    requires
        encodes(doc, r),
    ensures
        listed(cursor.push(Ok(doc))) == listed(cursor).push(r),
{
    lemma_decode_encoded(doc, r);
    assert(cursor.push(Ok(doc)).drop_last() =~= cursor);
    assert(listed(cursor.push(Ok(doc))) =~= listed(cursor).push(r));
}

} // verus!
