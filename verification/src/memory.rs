use vstd::prelude::*;
use crate::error::StoreError;
use crate::gateway::{ReplyView, RequestView, StoreFault, StoreReply, StoreRequest};
use crate::record::{Record, RecordView, clone_records, views};

verus! {

/// Whether no two of the records share an id.
pub open spec fn distinct_ids(rows: Seq<RecordView>) -> bool {
    forall|i: int, j: int| 0 <= i < j < rows.len() ==> rows[i].id != rows[j].id
}

/// Whether a record with the given id is among `rows`.
pub open spec fn has_id(rows: Seq<RecordView>, id: int) -> bool {
    exists|i: int| 0 <= i < rows.len() && (#[trigger] rows[i]).id == id
}

/// Where a record with the given id stands in `rows`, if there is one.
pub open spec fn position(rows: Seq<RecordView>, id: int) -> int {
    choose|i: int| 0 <= i < rows.len() && (#[trigger] rows[i]).id == id
}

/// What a table with a primary key on `id` does on a request, and what it
/// answers: the rows after the request, and the reply.
///
/// Rows are kept in the order in which they were inserted. An insert under an
/// id that is taken changes nothing and is a unique violation. An update or a
/// delete changes the one row with the id, or none.
pub open spec fn answer(rows: Seq<RecordView>, request: RequestView) -> (Seq<RecordView>, ReplyView) {
    match request {
        RequestView::SelectAll => (rows, ReplyView::Rows(rows)),
        RequestView::SelectById(id) => if has_id(rows, id) {
            (rows, ReplyView::Rows(seq![rows[position(rows, id)]]))
        } else {
            (rows, ReplyView::Rows(Seq::empty()))
        },
        RequestView::Insert(record) => if has_id(rows, record.id) {
            (rows, ReplyView::Fault(StoreFault::UniqueViolation))
        } else {
            (rows.push(record), ReplyView::Affected(1))
        },
        RequestView::UpdateMessage { id, message } => if has_id(rows, id) {
            let at = position(rows, id);
            (rows.update(at, rows[at].with_message(message)), ReplyView::Affected(1))
        } else {
            (rows, ReplyView::Affected(0))
        },
        RequestView::DeleteById(id) => if has_id(rows, id) {
            (rows.remove(position(rows, id)), ReplyView::Affected(1))
        } else {
            (rows, ReplyView::Affected(0))
        },
    }
}

/// In a table without repeated ids, a record's id gives its place.
pub proof fn lemma_position_is_unique(rows: Seq<RecordView>, at: int)
    requires
        distinct_ids(rows),
        0 <= at < rows.len(),
    ensures
        has_id(rows, rows[at].id),
        position(rows, rows[at].id) == at,
{
    let id = rows[at].id;
    assert(rows[at].id == id);
    let found = position(rows, id);
    assert(0 <= found < rows.len() && rows[found].id == id);
    if found < at {
        assert(rows[found].id != rows[at].id);
    } else if at < found {
        assert(rows[at].id != rows[found].id);
    }
}

/// Once a row is taken out of a table without repeated ids, the table holds
/// its id no more.
pub proof fn lemma_removed_id_is_gone(rows: Seq<RecordView>, at: int)
    requires
        distinct_ids(rows),
        0 <= at < rows.len(),
    ensures
        !has_id(rows.remove(at), rows[at].id),
{
    let after = rows.remove(at);
    assert forall|i: int| 0 <= i < after.len() implies (#[trigger] after[i]).id
        != rows[at].id by {
        let from: int = if i < at { i } else { i + 1 };
        assert(after[i] == rows[from]);
        if from < at {
            assert(rows[from].id != rows[at].id);
        } else {
            assert(rows[at].id != rows[from].id);
        }
    }
}

/// A request leaves a table without repeated ids as such a table.
pub proof fn lemma_answer_keeps_ids_distinct(rows: Seq<RecordView>, request: RequestView)
    requires
        distinct_ids(rows),
    ensures
        distinct_ids(answer(rows, request).0),
{
    let after = answer(rows, request).0;
    match request {
        RequestView::Insert(record) => {
            if !has_id(rows, record.id) {
                assert forall|i: int, j: int| 0 <= i < j < after.len() implies after[i].id
                    != after[j].id by {
                    if j == rows.len() {
                        assert(rows[i].id != record.id);
                    }
                }
            }
        },
        RequestView::UpdateMessage { id, message } => {
            if has_id(rows, id) {
                let at = position(rows, id);
                assert forall|i: int, j: int| 0 <= i < j < after.len() implies after[i].id
                    != after[j].id by {
                    assert(after[i].id == rows[i].id);
                    assert(after[j].id == rows[j].id);
                }
            }
        },
        RequestView::DeleteById(id) => {
            if has_id(rows, id) {
                let at = position(rows, id);
                assert forall|i: int, j: int| 0 <= i < j < after.len() implies after[i].id
                    != after[j].id by {
                    let i0 = if i < at { i } else { i + 1 };
                    let j0 = if j < at { j } else { j + 1 };
                    assert(after[i] == rows[i0]);
                    assert(after[j] == rows[j0]);
                }
            }
        },
        _ => {},
    }
}

/// A table of records held in memory, with `id` as its primary key. It
/// answers requests as a relational store does, and keeps its rows in the order
/// in which they were inserted.
pub struct MemoryStore {
    rows: Vec<Record>,
}

impl View for MemoryStore {
    type V = Seq<RecordView>;

    closed spec fn view(&self) -> Seq<RecordView> {
        views(self.rows@)
    }
}

impl MemoryStore {
    /// Whether the table is as it must be: no two rows share an id.
    pub open spec fn well_formed(&self) -> bool {
        distinct_ids(self@)
    }

    /// An empty table.
    pub fn new() -> (store: MemoryStore)
        ensures
            store@ == Seq::<RecordView>::empty(),
            store.well_formed(),
    {
        let store = MemoryStore { rows: Vec::new() };
        assert(views(store.rows@) =~= Seq::<RecordView>::empty());
        store
    }

    /// The number of rows.
    pub fn len(&self) -> (n: usize)
        ensures
            n == self@.len(),
    {
        self.rows.len()
    }

    /// The place of the row with the given id.
    fn find(&self, id: i32) -> (found: Option<usize>)
        requires
            self.well_formed(),
        ensures
            match found {
                Some(at) => has_id(self@, id as int) && position(self@, id as int) == at && at
                    < self@.len(),
                None => !has_id(self@, id as int),
            },
    {
        let mut i: usize = 0;
        while i < self.rows.len()
            invariant
                i <= self.rows.len(),
                self.well_formed(),
                forall|j: int| 0 <= j < i ==> (#[trigger] views(self.rows@)[j]).id != id,
            decreases self.rows.len() - i,
        {
            if self.rows[i].id == id {
                proof {
                    lemma_position_is_unique(self@, i as int);
                }
                return Some(i);
            }
            i = i + 1;
        }
        None
    }

    /// Stores a new record. Fails with `DuplicateKey` where the table holds a
    /// record with the same id, and then changes nothing.
    pub fn insert(&mut self, record: Record) -> (done: Result<(), StoreError>)
        requires
            old(self).well_formed(),
        ensures
            final(self).well_formed(),
            match done {
                Ok(_) => !has_id(old(self)@, record.id as int) && final(self)@ == old(self)@.push(
                    record@,
                ),
                Err(error) => error == StoreError::DuplicateKey && has_id(
                    old(self)@,
                    record.id as int,
                ) && final(self)@ == old(self)@,
            },
            final(self)@ == answer(old(self)@, RequestView::Insert(record@)).0,
    {
        match self.find(record.id) {
            Some(_) => Err(StoreError::DuplicateKey),
            None => {
                proof {
                    lemma_answer_keeps_ids_distinct(self@, RequestView::Insert(record@));
                }
                self.rows.push(record);
                assert(views(self.rows@) =~= views(old(self).rows@).push(record@));
                Ok(())
            },
        }
    }

    /// All records, in the order in which they were inserted.
    pub fn select_all(&self) -> (records: Vec<Record>)
        ensures
            views(records@) == self@,
    {
        clone_records(&self.rows)
    }

    /// The record with the given id. Fails with `NotFound` where the table
    /// holds none.
    pub fn select_by_id(&self, id: i32) -> (found: Result<Record, StoreError>)
        requires
            self.well_formed(),
        ensures
            match found {
                Ok(record) => has_id(self@, id as int) && record@ == self@[position(
                    self@,
                    id as int,
                )] && record.id == id,
                Err(error) => error == StoreError::NotFound && !has_id(self@, id as int),
            },
    {
        match self.find(id) {
            Some(at) => Ok(self.rows[at].clone()),
            None => Err(StoreError::NotFound),
        }
    }

    /// Rewrites the message of the record with the given id, and returns the
    /// number of rows that were changed, which is one. Fails with `NotFound`
    /// where the table holds no such record, and then changes nothing.
    pub fn update_message_by_id(&mut self, id: i32, message: &str) -> (changed: Result<
        u64,
        StoreError,
    >)
        requires
            old(self).well_formed(),
        ensures
            final(self).well_formed(),
            match changed {
                Ok(count) => count == 1 && has_id(old(self)@, id as int) && final(self)@ == old(
                    self,
                )@.update(
                    position(old(self)@, id as int),
                    old(self)@[position(old(self)@, id as int)].with_message(message@),
                ),
                Err(error) => error == StoreError::NotFound && !has_id(old(self)@, id as int)
                    && final(self)@ == old(self)@,
            },
            final(self)@ == answer(
                old(self)@,
                RequestView::UpdateMessage { id: id as int, message: message@ },
            ).0,
    {
        match self.find(id) {
            Some(at) => {
                proof {
                    lemma_answer_keeps_ids_distinct(
                        self@,
                        RequestView::UpdateMessage { id: id as int, message: message@ },
                    );
                }
                let changed = Record {
                    id: self.rows[at].id,
                    date: self.rows[at].date.clone(),
                    message: String::from_str(message),
                };
                self.rows.set(at, changed);
                assert(views(self.rows@) =~= views(old(self).rows@).update(
                    at as int,
                    old(self)@[at as int].with_message(message@),
                ));
                Ok(1)
            },
            None => Err(StoreError::NotFound),
        }
    }

    /// Removes the record with the given id, and returns the number of rows
    /// that were removed, which is one. Fails with `NotFound` where the table
    /// holds no such record, and then changes nothing.
    pub fn delete_by_id(&mut self, id: i32) -> (removed: Result<u64, StoreError>)
        requires
            old(self).well_formed(),
        ensures
            final(self).well_formed(),
            match removed {
                Ok(count) => count == 1 && has_id(old(self)@, id as int) && final(self)@ == old(
                    self,
                )@.remove(position(old(self)@, id as int)) && !has_id(final(self)@, id as int),
                Err(error) => error == StoreError::NotFound && !has_id(old(self)@, id as int)
                    && final(self)@ == old(self)@,
            },
            final(self)@ == answer(old(self)@, RequestView::DeleteById(id as int)).0,
    {
        match self.find(id) {
            Some(at) => {
                proof {
                    lemma_answer_keeps_ids_distinct(self@, RequestView::DeleteById(id as int));
                    lemma_removed_id_is_gone(self@, at as int);
                }
                self.rows.remove(at);
                assert(views(self.rows@) =~= views(old(self).rows@).remove(at as int));
                Ok(1)
            },
            None => Err(StoreError::NotFound),
        }
    }

    /// Carries out a request and answers it as a relational store does: with
    /// rows, with the number of rows that were changed, or with a fault.
    pub fn execute(&mut self, request: &StoreRequest) -> (reply: StoreReply)
        requires
            old(self).well_formed(),
        ensures
            (final(self)@, reply@) == answer(old(self)@, request@),
            final(self).well_formed(),
    {
        match request {
            StoreRequest::SelectAll => StoreReply::Rows(self.select_all()),
            StoreRequest::SelectById(id) => match self.select_by_id(*id) {
                Ok(record) => {
                    let rows = vec![record];
                    assert(views(rows@) =~= seq![self@[position(self@, *id as int)]]);
                    StoreReply::Rows(rows)
                },
                Err(_) => {
                    let rows: Vec<Record> = Vec::new();
                    assert(views(rows@) =~= Seq::<RecordView>::empty());
                    StoreReply::Rows(rows)
                },
            },
            StoreRequest::Insert(record) => match self.insert(record.clone()) {
                Ok(_) => StoreReply::Affected(1),
                Err(_) => StoreReply::Fault(StoreFault::UniqueViolation),
            },
            StoreRequest::UpdateMessage { id, message } => match self.update_message_by_id(
                *id,
                message.as_str(),
            ) {
                Ok(count) => StoreReply::Affected(count),
                Err(_) => StoreReply::Affected(0),
            },
            StoreRequest::DeleteById(id) => match self.delete_by_id(*id) {
                Ok(count) => StoreReply::Affected(count),
                Err(_) => StoreReply::Affected(0),
            },
        }
    }
}

} // verus!
