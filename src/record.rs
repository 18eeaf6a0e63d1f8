use vstd::prelude::*;

verus! {

/// One stored secret: a unique name, the account it belongs to, and the secret.
pub struct Record {
    pub name: String,
    pub account: String,
    pub secret: String,
}

impl Record {
    pub fn new(name: String, account: String, secret: String) -> (r: Record)
        ensures
            r.name == name,
            r.account == account,
            r.secret == secret,
    {
        Record { name, account, secret }
    }
}

/// Whether some record in `records` is named `name`.
pub open spec fn has_name(records: Seq<Record>, name: Seq<char>) -> bool {
    exists|i: int| 0 <= i < records.len() && (#[trigger] records[i]).name@ == name
}

/// The records of `records` not named `name`, in their order.
pub open spec fn without_name(records: Seq<Record>, name: Seq<char>) -> Seq<Record> {
    records.filter(|r: Record| r.name@ != name)
}

/// The position of the first record named `name`.
pub fn find_record(records: &Vec<Record>, name: &String) -> (r: Option<usize>)
    ensures
        r is None <==> !has_name(records@, name@),
        r matches Some(i) ==> i < records@.len() && records@[i as int].name@ == name@ && forall|
            j: int,
        |
            0 <= j < i ==> (#[trigger] records@[j]).name@ != name@,
{
    let mut i: usize = 0;
    while i < records.len()
        invariant
            i <= records@.len(),
            forall|j: int| 0 <= j < i ==> (#[trigger] records@[j]).name@ != name@,
        decreases records@.len() - i,
    {
        if records[i].name == *name {
            return Some(i);
        }
        i = i + 1;
    }
    None
}

/// Appends `record` unless a record of the same name is already there; the
/// result says whether it was added.
pub fn add_record(records: &mut Vec<Record>, record: Record) -> (added: bool)
    ensures
        added <==> !has_name(old(records)@, record.name@),
        added ==> final(records)@ == old(records)@.push(record),
        !added ==> final(records)@ == old(records)@,
{
    match find_record(records, &record.name) {
        Some(_) => false,
        None => {
            records.push(record);
            true
        },
    }
}

/// Removes every record named `name`, keeping the order of the rest; the
/// result says whether any was removed.
pub fn remove_record(records: &mut Vec<Record>, name: &String) -> (removed: bool)
    ensures
        final(records)@ == without_name(old(records)@, name@),
        removed <==> has_name(old(records)@, name@),
{
    let ghost orig = records@;
    let mut rest: Vec<Record> = Vec::new();
    std::mem::swap(records, &mut rest);
    let n = rest.len();
    let mut k: usize = 0;
    let mut removed = false;
    while k < n
        invariant
            n == orig.len(),
            k <= n,
            rest@ == orig.skip(k as int),
            records@ == without_name(orig.take(k as int), name@),
            removed <==> exists|j: int| 0 <= j < k && (#[trigger] orig[j]).name@ == name@,
        decreases n - k,
    {
        let r = rest.remove(0);
        assert(r == orig[k as int]);
        proof {
            assert(orig.take(k + 1).drop_last() =~= orig.take(k as int));
            assert(orig.take(k + 1).last() == orig[k as int]);
            reveal_with_fuel(Seq::filter, 1);
        }
        if r.name == *name {
            removed = true;
        } else {
            records.push(r);
        }
        k = k + 1;
        assert(rest@ =~= orig.skip(k as int));
    }
    assert(orig.take(n as int) =~= orig);
    removed
}

} // verus!
