use vstd::prelude::*;

verus! {

/// The one kind of record that the service keeps.
#[derive(Debug, PartialEq, Eq)]
pub struct Record {
    /// The key, chosen by the caller.
    pub id: i32,
    /// Free text; fixed once the record is created.
    pub date: String,
    /// Free text; the one field that an update rewrites.
    pub message: String,
}

/// A record as contracts speak of it.
pub struct RecordView {
    pub id: int,
    pub date: Seq<char>,
    pub message: Seq<char>,
}

impl View for Record {
    type V = RecordView;

    open spec fn view(&self) -> RecordView {
        RecordView { id: self.id as int, date: self.date@, message: self.message@ }
    }
}

impl RecordView {
    /// This record with `message` in place of its message.
    pub open spec fn with_message(self, message: Seq<char>) -> RecordView {
        RecordView { id: self.id, date: self.date, message: message }
    }
}

impl Clone for Record {
    fn clone(&self) -> (copy: Record)
        ensures
            copy@ == self@,
    {
        Record { id: self.id, date: self.date.clone(), message: self.message.clone() }
    }
}

impl Record {
    /// A record of the three given fields.
    pub fn new(id: i32, date: &str, message: &str) -> (r: Record)
        ensures
            r@ == (RecordView { id: id as int, date: date@, message: message@ }),
    {
        Record { id: id, date: String::from_str(date), message: String::from_str(message) }
    }
}

/// The views of a list of records, in the list's order.
pub open spec fn views(records: Seq<Record>) -> Seq<RecordView> {
    records.map_values(|r: Record| r@)
}

/// A copy of `records`.
pub fn clone_records(records: &Vec<Record>) -> (copy: Vec<Record>)
    ensures
        views(copy@) == views(records@),
{
    let mut copy: Vec<Record> = Vec::new();
    let mut i: usize = 0;
    while i < records.len()
        invariant
            i <= records.len(),
            copy.len() == i,
            forall|j: int| 0 <= j < i ==> copy[j]@ == records[j]@,
        decreases records.len() - i,
    {
        copy.push(records[i].clone());
        i = i + 1;
    }
    assert(views(copy@) =~= views(records@));
    copy
}

} // verus!
