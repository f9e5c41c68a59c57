use vstd::prelude::*;
use crate::record::{NamespaceRecord, RecordView};
use crate::store::records_view;

verus! {

/// Which collection a collection name selects.
#[derive(Debug, Clone, Copy, PartialEq, Eq, Structural)]
pub enum CollectionKind {
    /// `namespaces`: namespaces tracked for deletion.
    Namespaces,
    /// `whitelist`: namespaces exempt from deletion.
    Whitelist,
    /// Any other name.
    Unknown,
}

/// The operator's reply to the confirmation prompt.
#[derive(Debug, Clone, Copy, PartialEq, Eq, Structural)]
pub enum Answer {
    Yes,
    No,
    Invalid,
}

/// How a reconciliation ended.
#[derive(Debug, Clone, Copy, PartialEq, Eq, Structural)]
pub enum Outcome {
    /// The collection already held a record of that name; nothing was written.
    AlreadyTracked,
    /// The operator confirmed and the record was inserted.
    Added,
    /// The operator declined; nothing was written.
    Declined,
    /// The operator's reply was neither yes nor no; nothing was written and
    /// the prompt is not repeated.
    InvalidResponse,
}

/// What follows the comparison of a fresh record with the collection.
#[derive(Debug, Clone)]
pub enum Comparison {
    /// A record of the same name is listed: the workflow is done.
    AlreadyTracked,
    /// No record of that name is listed: the operator is asked about this one.
    AwaitConfirmation(NamespaceRecord),
}

/// What follows the operator's reply.
#[derive(Debug, Clone)]
pub enum Confirmation {
    /// Insert this record, then the workflow is done.
    Insert(NamespaceRecord),
    /// Done without writing.
    Finished(Outcome),
}

/// The collection that a collection name selects: `namespaces`, `whitelist`,
/// or none known.
pub open spec fn kind_of(name: Seq<char>) -> CollectionKind {
    if name == "namespaces"@ {
        CollectionKind::Namespaces
    } else if name == "whitelist"@ {
        CollectionKind::Whitelist
    } else {
        CollectionKind::Unknown
    }
}

/// Which collection a collection name selects.
pub fn collection_kind(name: &str) -> (r: CollectionKind)
    ensures
        r == kind_of(name@),
{
    let n = String::from_str(name);
    if n == String::from_str("namespaces") {
        CollectionKind::Namespaces
    } else if n == String::from_str("whitelist") {
        CollectionKind::Whitelist
    } else {
        CollectionKind::Unknown
    }
}

/// A line without its leading and trailing whitespace.
pub uninterp spec fn trimmed(s: Seq<char>) -> Seq<char>;

/// Relies on `str::trim`: the line with leading and trailing whitespace
/// removed, which depends on its characters alone.
#[verifier::external_body]
fn trim_line(s: &str) -> (r: &str)
    ensures
        r@ == trimmed(s@),
{
    s.trim()
}

/// The answer that a reply, already trimmed, stands for: exactly `y` is yes,
/// exactly `n` is no, anything else is invalid.
pub open spec fn answer_of(t: Seq<char>) -> Answer {
    if t == "y"@ {
        Answer::Yes
    } else if t == "n"@ {
        Answer::No
    } else {
        Answer::Invalid
    }
}

/// The answer that a trimmed reply stands for.
pub fn answer_from_trimmed(t: &str) -> (r: Answer)
    ensures
        r == answer_of(t@),
{
    let s = String::from_str(t);
    if s == String::from_str("y") {
        Answer::Yes
    } else if s == String::from_str("n") {
        Answer::No
    } else {
        Answer::Invalid
    }
}

/// The answer that a line typed by the operator stands for, once trimmed.
pub fn parse_answer(line: &str) -> (r: Answer)
    ensures
        r == answer_of(trimmed(line@)),
{
    answer_from_trimmed(trim_line(line))
}

/// Whether a listing holds a record of the given name.
pub open spec fn name_listed(existing: Seq<RecordView>, name: Seq<char>) -> bool {
    exists|i: int| 0 <= i < existing.len() && (#[trigger] existing[i]).name == name
}

/// The record that awaits confirmation after comparing a fresh record with a
/// listing: none when its name is listed.
pub open spec fn awaiting(existing: Seq<RecordView>, record: RecordView) -> Option<RecordView> {
    if name_listed(existing, record.name) {
        None
    } else {
        Some(record)
    }
}

/// The record to insert after a reply: the awaiting one, on yes only.
pub open spec fn to_insert(record: RecordView, line: Seq<char>) -> Option<RecordView> {
    if answer_of(trimmed(line)) == Answer::Yes {
        Some(record)
    } else {
        None
    }
}

/// Whether a listing holds a record of the given name.
pub fn is_tracked(existing: &Vec<NamespaceRecord>, name: &String) -> (r: bool)
    ensures
        r == name_listed(records_view(existing@), name@),
{
    let mut i: usize = 0;
    while i < existing.len()
        invariant
            i <= existing@.len(),
            forall|j: int| 0 <= j < i ==> (#[trigger] existing@[j]).name@ != name@,
        decreases existing@.len() - i,
    {
        if existing[i].name == *name {
            assert(records_view(existing@)[i as int].name == name@);
            return true;
        }
        i = i + 1;
    }
    assert forall|j: int| 0 <= j < existing@.len() implies (#[trigger] records_view(
        existing@,
    )[j]).name != name@ by {
        assert(records_view(existing@)[j] == existing@[j]@);
    }
    false
}

/// Compares a freshly aggregated record with the records listed from the
/// collection, by exact name: a listed name ends the workflow, an unlisted one
/// goes to the operator.
pub fn compare(existing: &Vec<NamespaceRecord>, record: NamespaceRecord) -> (r: Comparison)
    ensures
        match r {
            Comparison::AlreadyTracked => awaiting(records_view(existing@), record@) is None,
            Comparison::AwaitConfirmation(x) => awaiting(records_view(existing@), record@) == Some(
                x@,
            ),
        },
{
    if is_tracked(existing, &record.name) {
        Comparison::AlreadyTracked
    } else {
        Comparison::AwaitConfirmation(record)
    }
}

/// Acts on the operator's reply about a record: yes inserts it, no declines,
/// anything else is an invalid response; none of them asks again.
pub fn confirm(record: NamespaceRecord, line: &str) -> (r: Confirmation)
    ensures
        match r {
            Confirmation::Insert(x) => to_insert(record@, line@) == Some(x@),
            Confirmation::Finished(o) => to_insert(record@, line@) is None && o == (
                if answer_of(trimmed(line@)) == Answer::No {
                    Outcome::Declined
                } else {
                    Outcome::InvalidResponse
                }),
        },
{
    match parse_answer(line) {
        Answer::Yes => Confirmation::Insert(record),
        Answer::No => Confirmation::Finished(Outcome::Declined),
        Answer::Invalid => Confirmation::Finished(Outcome::InvalidResponse),
    }
}

/// Reconciliation never inserts a record whose name the collection already
/// listed: such a record never reaches the operator, and whatever the operator
/// answers, the only record inserted is one whose name was not listed.
pub proof fn lemma_listed_name_never_inserted(
    existing: Seq<RecordView>,
    record: RecordView,
    line: Seq<char>,
)
    ensures
        name_listed(existing, record.name) ==> awaiting(existing, record) is None,
        awaiting(existing, record) matches Some(x) ==> (to_insert(x, line) matches Some(y) ==> !name_listed(
            existing,
            y.name,
        ) && y == record),
{
}

} // verus!
