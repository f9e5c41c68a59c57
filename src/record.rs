use vstd::prelude::*;

verus! {

/// The activity summary of one namespace, as aggregated or as stored.
#[derive(Debug, Clone)]
pub struct NamespaceRecord {
    pub name: String,
    pub admins: Vec<String>,
    pub last_update: String,
    pub cause: String,
}

/// The mathematical value of a record: every string seen as its characters.
pub struct RecordView {
    pub name: Seq<char>,
    pub admins: Seq<Seq<char>>,
    pub last_update: Seq<char>,
    pub cause: Seq<char>,
}

/// The characters of each string of a sequence, in order.
pub open spec fn strings_view(v: Seq<String>) -> Seq<Seq<char>> {
    v.map_values(|s: String| s@)
}

impl View for NamespaceRecord {
    type V = RecordView;

    open spec fn view(&self) -> RecordView {
        RecordView {
            name: self.name@,
            admins: strings_view(self.admins@),
            last_update: self.last_update@,
            cause: self.cause@,
        }
    }
}

/// The value of `last_update` when no deployment condition exists.
pub open spec fn no_update_marker() -> Seq<char> {
    seq!['N', '/', 'A']
}

/// The one cause a record currently carries.
pub open spec fn deployment_cause() -> Seq<char> {
    seq!['D', 'e', 'p', 'l', 'o', 'y', 'm', 'e', 'n', 't']
}

/// A fresh `"N/A"`.
pub fn no_update() -> (r: String)
    ensures
        r@ == no_update_marker(),
{
    let r = String::from_str("N/A");
    proof {
        reveal_strlit("N/A");
        assert(r@ =~= no_update_marker());
    }
    r
}

/// A fresh `"Deployment"`.
pub fn deployment() -> (r: String)
    ensures
        r@ == deployment_cause(),
{
    let r = String::from_str("Deployment");
    proof {
        reveal_strlit("Deployment");
        assert(r@ =~= deployment_cause());
    }
    r
}

/// A copy of a list of strings.
pub fn copy_strings(v: &Vec<String>) -> (r: Vec<String>)
    ensures
        strings_view(r@) == strings_view(v@),
{
    let mut r: Vec<String> = Vec::new();
    let mut i: usize = 0;
    while i < v.len()
        invariant
            i <= v@.len(),
            strings_view(r@) == strings_view(v@.subrange(0, i as int)),
        decreases v@.len() - i,
    {
        let ghost prev = r@;
        let s = v[i].clone();
        r.push(s);
        proof {
            assert(r@ == prev.push(v@[i as int]));
            assert(v@.subrange(0, i + 1) =~= v@.subrange(0, i as int).push(v@[i as int]));
            assert(strings_view(r@) =~= strings_view(prev).push(v@[i as int]@));
            assert(strings_view(v@.subrange(0, i + 1)) =~= strings_view(
                v@.subrange(0, i as int),
            ).push(v@[i as int]@));
        }
        i = i + 1;
    }
    assert(v@.subrange(0, v@.len() as int) =~= v@);
    r
}

} // verus!
