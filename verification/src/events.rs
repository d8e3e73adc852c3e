//! The event repository: community events, one row each.

use vstd::prelude::*;

use crate::schema::{TableId, build_delete_sql, build_insert_sql, build_select_sql, build_update_sql};
use crate::store::{
    exec_delete, exec_insert, exec_update, other_rows_unchanged, presence_unchanged, query_all,
    table_rows,
};
use crate::values::{
    DbVal, DbValue, fresh_row_id, int_fits_i32, lemma_rows_parsed_all, lemma_rows_parsed_bad_row,
    lemma_rows_parsed_index, lemma_rows_parsed_push, row_has_id, row_with_id, rows_parsed,
    rows_updated, text_of, text_val, i32_of,
};
use crate::{DbError, ErrorKind};

verus! {

/// A community event record.
#[derive(Debug, Clone)]
pub struct Event {
    pub id: Option<i32>,
    pub name: String,
    pub type_: String,
    pub status: String,
    pub date: String,
    pub venue: String,
    pub attendee: String,
    pub notes: String,
}

/// The mathematical value of an event record.
pub struct EventV {
    pub id: Option<int>,
    pub name: Seq<char>,
    pub type_: Seq<char>,
    pub status: Seq<char>,
    pub date: Seq<char>,
    pub venue: Seq<char>,
    pub attendee: Seq<char>,
    pub notes: Seq<char>,
}

impl View for Event {
    type V = EventV;

    open spec fn view(&self) -> EventV {
        EventV {
            id: match self.id {
                Some(i) => Some(i as int),
                None => None,
            },
            name: self.name@,
            type_: self.type_@,
            status: self.status@,
            date: self.date@,
            venue: self.venue@,
            attendee: self.attendee@,
            notes: self.notes@,
        }
    }
}

impl DeepView for Event {
    type V = EventV;

    open spec fn deep_view(&self) -> EventV {
        self.view()
    }
}

/// The non-id cells of an event, in schema column order.
pub open spec fn event_vals(e: EventV) -> Seq<DbVal> {
    seq![
        DbVal::Text(e.name),
        DbVal::Text(e.type_),
        DbVal::Text(e.status),
        DbVal::Text(e.date),
        DbVal::Text(e.venue),
        DbVal::Text(e.attendee),
        DbVal::Text(e.notes),
    ]
}

/// Reads an event back from a stored row; `None` if the row does not have
/// the event shape.
pub open spec fn event_from_row(row: Seq<DbVal>) -> Option<EventV> {
    if row.len() == 8 && row[0] is Int && int_fits_i32(row[0]->Int_0) && row[1] is Text
        && row[2] is Text && row[3] is Text && row[4] is Text && row[5] is Text && row[6] is Text
        && row[7] is Text {
        Some(
            EventV {
                id: Some(row[0]->Int_0),
                name: row[1]->Text_0,
                type_: row[2]->Text_0,
                status: row[3]->Text_0,
                date: row[4]->Text_0,
                venue: row[5]->Text_0,
                attendee: row[6]->Text_0,
                notes: row[7]->Text_0,
            },
        )
    } else {
        None
    }
}

/// The whole events table, read back in storage order.
pub open spec fn events_from_rows(rows: Seq<Seq<DbVal>>) -> Option<Seq<EventV>> {
    rows_parsed(rows, |row: Seq<DbVal>| event_from_row(row))
}

fn event_to_vals(e: &Event) -> (r: Vec<DbValue>)
    ensures
        r.deep_view() == event_vals(e@),
        r@.len() == 7,
{
    let mut v: Vec<DbValue> = Vec::new();
    v.push(text_val(&e.name));
    v.push(text_val(&e.type_));
    v.push(text_val(&e.status));
    v.push(text_val(&e.date));
    v.push(text_val(&e.venue));
    v.push(text_val(&e.attendee));
    v.push(text_val(&e.notes));
    proof {
        assert(v.deep_view() =~= event_vals(e@));
    }
    v
}

fn event_from_row_exec(row: &Vec<DbValue>) -> (r: Option<Event>)
    ensures
        match r {
            Some(e) => event_from_row(row.deep_view()) == Some(e@) && e.id is Some,
            None => event_from_row(row.deep_view()) is None,
        },
{
    if row.len() != 8 {
        return None;
    }
    let id = match i32_of(&row[0]) {
        Some(x) => x,
        None => { return None },
    };
    let name = match text_of(&row[1]) {
        Some(s) => s,
        None => { return None },
    };
    let type_ = match text_of(&row[2]) {
        Some(s) => s,
        None => { return None },
    };
    let status = match text_of(&row[3]) {
        Some(s) => s,
        None => { return None },
    };
    let date = match text_of(&row[4]) {
        Some(s) => s,
        None => { return None },
    };
    let venue = match text_of(&row[5]) {
        Some(s) => s,
        None => { return None },
    };
    let attendee = match text_of(&row[6]) {
        Some(s) => s,
        None => { return None },
    };
    let notes = match text_of(&row[7]) {
        Some(s) => s,
        None => { return None },
    };
    let e = Event { id: Some(id), name, type_, status, date, venue, attendee, notes };
    proof {
        assert(event_from_row(row.deep_view()) == Some(e@));
    }
    Some(e)
}

/// Selects every row of the events table, in storage order. A malformed
/// table (any row without the event shape) is a query error.
pub fn fetch_all_events(c: &rusqlite::Connection) -> (r: Result<Vec<Event>, DbError>)
    ensures
        r matches Ok(v) ==> events_from_rows(table_rows(*c, TableId::Events)) == Some(v.deep_view()),
        events_from_rows(table_rows(*c, TableId::Events)) is None ==> r is Err,
        r is Err ==> (r->Err_0).kind == ErrorKind::Query,
{
    let sql = build_select_sql(TableId::Events);
    let raw = match query_all(c, TableId::Events, sql.as_str()) {
        Ok(v) => v,
        Err(e) => { return Err(e) },
    };
    let ghost all = raw.deep_view();
    let mut out: Vec<Event> = Vec::new();
    let mut i: usize = 0;
    while i < raw.len()
        invariant
            i <= raw.len(),
            all == raw.deep_view(),
            all == table_rows(*c, TableId::Events),
            rows_parsed(all.take(i as int), |row: Seq<DbVal>| event_from_row(row)) == Some(
                out.deep_view(),
            ),
        decreases raw.len() - i,
    {
        match event_from_row_exec(&raw[i]) {
            Some(e) => {
                proof {
                    assert(raw[i as int].deep_view() == all[i as int]);
                    lemma_rows_parsed_push(
                        all.take(i as int),
                        |row: Seq<DbVal>| event_from_row(row),
                        all[i as int],
                    );
                    assert(all.take(i as int).push(all[i as int]) =~= all.take(i as int + 1));
                }
                out.push(e);
            },
            None => {
                proof {
                    assert(raw[i as int].deep_view() == all[i as int]);
                    lemma_rows_parsed_bad_row(all, |row: Seq<DbVal>| event_from_row(row), i as int);
                }
                return Err(
                    DbError { kind: ErrorKind::Query, message: "malformed event row".to_owned() },
                );
            },
        }
        i = i + 1;
    }
    proof {
        assert(all.take(raw.len() as int) =~= all);
    }
    Ok(out)
}

/// Appends one event; the storage engine assigns the id, and the record's
/// own id field is ignored, as every caller hands a fresh record.
pub fn insert_event(c: &mut rusqlite::Connection, e: &Event) -> (r: Result<(), DbError>)
    ensures
        r is Ok ==> exists|id: int|
            {
                &&& fresh_row_id(table_rows(*old(c), TableId::Events), id)
                &&& table_rows(*final(c), TableId::Events) == table_rows(
                    *old(c),
                    TableId::Events,
                ).push(#[trigger] row_with_id(id, event_vals(e@)))
            },
        r is Err ==> table_rows(*final(c), TableId::Events) == table_rows(
            *old(c),
            TableId::Events,
        ),
        r is Err ==> (r->Err_0).kind == ErrorKind::Constraint || (r->Err_0).kind
            == ErrorKind::Storage,
        other_rows_unchanged(*old(c), *final(c), TableId::Events),
        presence_unchanged(*old(c), *final(c)),
{
    let sql = build_insert_sql(TableId::Events);
    let vals = event_to_vals(e);
    exec_insert(c, TableId::Events, sql.as_str(), &vals)
}

/// Overwrites every non-id column of the row the record's id names; a row
/// that does not exist leaves the table unchanged, still a success.
pub fn update_event(c: &mut rusqlite::Connection, e: &Event) -> (r: Result<(), DbError>)
    requires
        e.id is Some,
    ensures
        r is Ok ==> rows_updated(
            table_rows(*old(c), TableId::Events),
            table_rows(*final(c), TableId::Events),
            e@.id->0,
            event_vals(e@),
        ),
        r is Err ==> table_rows(*final(c), TableId::Events) == table_rows(
            *old(c),
            TableId::Events,
        ),
        r is Err ==> (r->Err_0).kind == ErrorKind::Constraint || (r->Err_0).kind
            == ErrorKind::Storage,
        other_rows_unchanged(*old(c), *final(c), TableId::Events),
        presence_unchanged(*old(c), *final(c)),
{
    let id = e.id.unwrap();
    let sql = build_update_sql(TableId::Events);
    let vals = event_to_vals(e);
    exec_update(c, TableId::Events, sql.as_str(), &vals, id as i64)
}

/// Removes the rows carrying the given id; removing an id no row has is a
/// success that removes nothing.
pub fn delete_event(c: &mut rusqlite::Connection, id: i32) -> (r: Result<(), DbError>)
    ensures
        r is Ok ==> table_rows(*final(c), TableId::Events) == table_rows(
            *old(c),
            TableId::Events,
        ).filter(|row: Seq<DbVal>| !row_has_id(row, id as int)),
        r is Err ==> table_rows(*final(c), TableId::Events) == table_rows(
            *old(c),
            TableId::Events,
        ),
        r is Err ==> (r->Err_0).kind == ErrorKind::Storage,
        other_rows_unchanged(*old(c), *final(c), TableId::Events),
        presence_unchanged(*old(c), *final(c)),
{
    let sql = build_delete_sql(TableId::Events);
    exec_delete(c, TableId::Events, sql.as_str(), id as i64)
}

/// Inserts when the record has no id yet, updates the named row otherwise.
pub fn save_event(c: &mut rusqlite::Connection, e: &Event) -> (r: Result<(), DbError>)
    ensures
        e.id is None && r is Ok ==> exists|id: int|
            {
                &&& fresh_row_id(table_rows(*old(c), TableId::Events), id)
                &&& table_rows(*final(c), TableId::Events) == table_rows(
                    *old(c),
                    TableId::Events,
                ).push(#[trigger] row_with_id(id, event_vals(e@)))
            },
        e.id is Some && r is Ok ==> rows_updated(
            table_rows(*old(c), TableId::Events),
            table_rows(*final(c), TableId::Events),
            e@.id->0,
            event_vals(e@),
        ),
        r is Err ==> table_rows(*final(c), TableId::Events) == table_rows(
            *old(c),
            TableId::Events,
        ),
        r is Err ==> (r->Err_0).kind == ErrorKind::Constraint || (r->Err_0).kind
            == ErrorKind::Storage,
        other_rows_unchanged(*old(c), *final(c), TableId::Events),
        presence_unchanged(*old(c), *final(c)),
{
    if e.id.is_some() {
        update_event(c, e)
    } else {
        insert_event(c, e)
    }
}

/// After a successful insert, fetching everything shows the old records
/// followed by one equal to the inserted record in every field except the
/// engine-assigned id.
pub proof fn lemma_insert_then_fetch_events(rows: Seq<Seq<DbVal>>, e: EventV, id: int)
    requires
        events_from_rows(rows) is Some,
        int_fits_i32(id),
    ensures
        events_from_rows(rows.push(row_with_id(id, event_vals(e)))) == Some(
            events_from_rows(rows).unwrap().push(EventV { id: Some(id), ..e }),
        ),
{
    let row = row_with_id(id, event_vals(e));
    assert(row =~= seq![
        DbVal::Int(id),
        DbVal::Text(e.name),
        DbVal::Text(e.type_),
        DbVal::Text(e.status),
        DbVal::Text(e.date),
        DbVal::Text(e.venue),
        DbVal::Text(e.attendee),
        DbVal::Text(e.notes),
    ]);
    assert(event_from_row(row) == Some(EventV { id: Some(id), ..e }));
    lemma_rows_parsed_push(rows, |r: Seq<DbVal>| event_from_row(r), row);
}

/// After a successful update, fetching everything shows every record with
/// the given id rebuilt from the new record alone — every field replaced,
/// nothing merged — and every other record untouched.
pub proof fn lemma_update_then_fetch_events(
    pre: Seq<Seq<DbVal>>,
    post: Seq<Seq<DbVal>>,
    e: EventV,
    id: int,
)
    requires
        rows_updated(pre, post, id, event_vals(e)),
        events_from_rows(pre) is Some,
        int_fits_i32(id),
    ensures
        events_from_rows(post) is Some,
        events_from_rows(post).unwrap().len() == events_from_rows(pre).unwrap().len(),
        forall|j: int|
            0 <= j < pre.len() ==> events_from_rows(post).unwrap()[j] == (
            if events_from_rows(pre).unwrap()[j].id == Some(id) {
                EventV { id: Some(id), ..e }
            } else {
                #[trigger] events_from_rows(pre).unwrap()[j]
            }),
{
    let f = |r: Seq<DbVal>| event_from_row(r);
    let urow = row_with_id(id, event_vals(e));
    assert(urow =~= seq![
        DbVal::Int(id),
        DbVal::Text(e.name),
        DbVal::Text(e.type_),
        DbVal::Text(e.status),
        DbVal::Text(e.date),
        DbVal::Text(e.venue),
        DbVal::Text(e.attendee),
        DbVal::Text(e.notes),
    ]);
    assert(event_from_row(urow) == Some(EventV { id: Some(id), ..e }));
    lemma_rows_parsed_index(pre, f);
    assert forall|j: int| 0 <= j < post.len() implies f(#[trigger] post[j]) is Some by {
        assert(f(pre[j]) is Some);
    }
    lemma_rows_parsed_all(post, f);
    lemma_rows_parsed_index(post, f);
    assert forall|j: int|
        0 <= j < pre.len() implies events_from_rows(post).unwrap()[j] == (
    if events_from_rows(pre).unwrap()[j].id == Some(id) {
        EventV { id: Some(id), ..e }
    } else {
        #[trigger] events_from_rows(pre).unwrap()[j]
    }) by {
        assert(f(pre[j]) is Some);
        assert(events_from_rows(pre).unwrap()[j] == f(pre[j]).unwrap());
        assert(row_has_id(pre[j], id) <==> events_from_rows(pre).unwrap()[j].id == Some(id));
    }
}

} // verus!
