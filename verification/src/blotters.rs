//! The blotter repository: incident reports, one row each.

use vstd::prelude::*;

use crate::schema::{TableId, build_delete_sql, build_insert_sql, build_select_sql, build_update_sql};
use crate::store::{
    exec_delete, exec_insert, exec_update, other_rows_unchanged, presence_unchanged, query_all,
    table_rows,
};
use crate::values::{
    DbVal, DbValue, fresh_row_id, int_fits_i32, lemma_rows_parsed_all, lemma_rows_parsed_bad_row,
    lemma_rows_parsed_index, lemma_rows_parsed_push, row_has_id, row_with_id, rows_parsed,
    rows_updated, text_of, text_val, i32_of,
};
use crate::{DbError, ErrorKind};

verus! {

/// An incident report record.
#[derive(Debug, Clone)]
pub struct Blotter {
    pub id: Option<i32>,
    pub type_: String,
    pub reported_by: String,
    pub involved: String,
    pub incident_date: String,
    pub location: String,
    pub zone: String,
    pub status: String,
    pub narrative: String,
    pub action: String,
    pub witnesses: String,
    pub evidence: String,
    pub resolution: String,
    pub hearing_date: String,
}

/// The mathematical value of an incident report record.
pub struct BlotterV {
    pub id: Option<int>,
    pub type_: Seq<char>,
    pub reported_by: Seq<char>,
    pub involved: Seq<char>,
    pub incident_date: Seq<char>,
    pub location: Seq<char>,
    pub zone: Seq<char>,
    pub status: Seq<char>,
    pub narrative: Seq<char>,
    pub action: Seq<char>,
    pub witnesses: Seq<char>,
    pub evidence: Seq<char>,
    pub resolution: Seq<char>,
    pub hearing_date: Seq<char>,
}

impl View for Blotter {
    type V = BlotterV;

    open spec fn view(&self) -> BlotterV {
        BlotterV {
            id: match self.id {
                Some(i) => Some(i as int),
                None => None,
            },
            type_: self.type_@,
            reported_by: self.reported_by@,
            involved: self.involved@,
            incident_date: self.incident_date@,
            location: self.location@,
            zone: self.zone@,
            status: self.status@,
            narrative: self.narrative@,
            action: self.action@,
            witnesses: self.witnesses@,
            evidence: self.evidence@,
            resolution: self.resolution@,
            hearing_date: self.hearing_date@,
        }
    }
}

impl DeepView for Blotter {
    type V = BlotterV;

    open spec fn deep_view(&self) -> BlotterV {
        self.view()
    }
}

/// The non-id cells of an incident report, in schema column order.
pub open spec fn blotter_vals(b: BlotterV) -> Seq<DbVal> {
    seq![
        DbVal::Text(b.type_),
        DbVal::Text(b.reported_by),
        DbVal::Text(b.involved),
        DbVal::Text(b.incident_date),
        DbVal::Text(b.location),
        DbVal::Text(b.zone),
        DbVal::Text(b.status),
        DbVal::Text(b.narrative),
        DbVal::Text(b.action),
        DbVal::Text(b.witnesses),
        DbVal::Text(b.evidence),
        DbVal::Text(b.resolution),
        DbVal::Text(b.hearing_date),
    ]
}

/// Reads an incident report back from a stored row; `None` if the row does
/// not have the blotter shape.
pub open spec fn blotter_from_row(row: Seq<DbVal>) -> Option<BlotterV> {
    if row.len() == 14 && row[0] is Int && int_fits_i32(row[0]->Int_0) && row[1] is Text
        && row[2] is Text && row[3] is Text && row[4] is Text && row[5] is Text && row[6] is Text
        && row[7] is Text && row[8] is Text && row[9] is Text && row[10] is Text && row[11] is Text
        && row[12] is Text && row[13] is Text {
        Some(
            BlotterV {
                id: Some(row[0]->Int_0),
                type_: row[1]->Text_0,
                reported_by: row[2]->Text_0,
                involved: row[3]->Text_0,
                incident_date: row[4]->Text_0,
                location: row[5]->Text_0,
                zone: row[6]->Text_0,
                status: row[7]->Text_0,
                narrative: row[8]->Text_0,
                action: row[9]->Text_0,
                witnesses: row[10]->Text_0,
                evidence: row[11]->Text_0,
                resolution: row[12]->Text_0,
                hearing_date: row[13]->Text_0,
            },
        )
    } else {
        None
    }
}

/// The whole blotters table, read back in storage order.
pub open spec fn blotters_from_rows(rows: Seq<Seq<DbVal>>) -> Option<Seq<BlotterV>> {
    rows_parsed(rows, |row: Seq<DbVal>| blotter_from_row(row))
}

fn blotter_to_vals(b: &Blotter) -> (r: Vec<DbValue>)
    ensures
        r.deep_view() == blotter_vals(b@),
        r@.len() == 13,
{
    let mut v: Vec<DbValue> = Vec::new();
    v.push(text_val(&b.type_));
    v.push(text_val(&b.reported_by));
    v.push(text_val(&b.involved));
    v.push(text_val(&b.incident_date));
    v.push(text_val(&b.location));
    v.push(text_val(&b.zone));
    v.push(text_val(&b.status));
    v.push(text_val(&b.narrative));
    v.push(text_val(&b.action));
    v.push(text_val(&b.witnesses));
    v.push(text_val(&b.evidence));
    v.push(text_val(&b.resolution));
    v.push(text_val(&b.hearing_date));
    proof {
        assert(v.deep_view() =~= blotter_vals(b@));
    }
    v
}

fn blotter_from_row_exec(row: &Vec<DbValue>) -> (r: Option<Blotter>)
    ensures
        match r {
            Some(b) => blotter_from_row(row.deep_view()) == Some(b@) && b.id is Some,
            None => blotter_from_row(row.deep_view()) is None,
        },
{
    if row.len() != 14 {
        return None;
    }
    let id = match i32_of(&row[0]) {
        Some(x) => x,
        None => { return None },
    };
    let type_ = match text_of(&row[1]) {
        Some(s) => s,
        None => { return None },
    };
    let reported_by = match text_of(&row[2]) {
        Some(s) => s,
        None => { return None },
    };
    let involved = match text_of(&row[3]) {
        Some(s) => s,
        None => { return None },
    };
    let incident_date = match text_of(&row[4]) {
        Some(s) => s,
        None => { return None },
    };
    let location = match text_of(&row[5]) {
        Some(s) => s,
        None => { return None },
    };
    let zone = match text_of(&row[6]) {
        Some(s) => s,
        None => { return None },
    };
    let status = match text_of(&row[7]) {
        Some(s) => s,
        None => { return None },
    };
    let narrative = match text_of(&row[8]) {
        Some(s) => s,
        None => { return None },
    };
    let action = match text_of(&row[9]) {
        Some(s) => s,
        None => { return None },
    };
    let witnesses = match text_of(&row[10]) {
        Some(s) => s,
        None => { return None },
    };
    let evidence = match text_of(&row[11]) {
        Some(s) => s,
        None => { return None },
    };
    let resolution = match text_of(&row[12]) {
        Some(s) => s,
        None => { return None },
    };
    let hearing_date = match text_of(&row[13]) {
        Some(s) => s,
        None => { return None },
    };
    let b = Blotter {
        id: Some(id),
        type_,
        reported_by,
        involved,
        incident_date,
        location,
        zone,
        status,
        narrative,
        action,
        witnesses,
        evidence,
        resolution,
        hearing_date,
    };
    proof {
        assert(blotter_from_row(row.deep_view()) == Some(b@));
    }
    Some(b)
}

/// Selects every row of the blotters table, in storage order. A malformed
/// table (any row without the blotter shape) is a query error.
pub fn fetch_all_blotters(c: &rusqlite::Connection) -> (r: Result<Vec<Blotter>, DbError>)
    ensures
        r matches Ok(v) ==> blotters_from_rows(table_rows(*c, TableId::Blotters)) == Some(
            v.deep_view(),
        ),
        blotters_from_rows(table_rows(*c, TableId::Blotters)) is None ==> r is Err,
        r is Err ==> (r->Err_0).kind == ErrorKind::Query,
{
    let sql = build_select_sql(TableId::Blotters);
    let raw = match query_all(c, TableId::Blotters, sql.as_str()) {
        Ok(v) => v,
        Err(e) => { return Err(e) },
    };
    let ghost all = raw.deep_view();
    let mut out: Vec<Blotter> = Vec::new();
    let mut i: usize = 0;
    while i < raw.len()
        invariant
            i <= raw.len(),
            all == raw.deep_view(),
            all == table_rows(*c, TableId::Blotters),
            rows_parsed(all.take(i as int), |row: Seq<DbVal>| blotter_from_row(row)) == Some(
                out.deep_view(),
            ),
        decreases raw.len() - i,
    {
        match blotter_from_row_exec(&raw[i]) {
            Some(b) => {
                proof {
                    assert(raw[i as int].deep_view() == all[i as int]);
                    lemma_rows_parsed_push(
                        all.take(i as int),
                        |row: Seq<DbVal>| blotter_from_row(row),
                        all[i as int],
                    );
                    assert(all.take(i as int).push(all[i as int]) =~= all.take(i as int + 1));
                }
                out.push(b);
            },
            None => {
                proof {
                    assert(raw[i as int].deep_view() == all[i as int]);
                    lemma_rows_parsed_bad_row(
                        all,
                        |row: Seq<DbVal>| blotter_from_row(row),
                        i as int,
                    );
                }
                return Err(
                    DbError { kind: ErrorKind::Query, message: "malformed blotter row".to_owned() },
                );
            },
        }
        i = i + 1;
    }
    proof {
        assert(all.take(raw.len() as int) =~= all);
    }
    Ok(out)
}

/// Appends one incident report; the storage engine assigns the id, and the
/// record's own id field is ignored, as every caller hands a fresh record.
pub fn insert_blotter(c: &mut rusqlite::Connection, b: &Blotter) -> (r: Result<(), DbError>)
    ensures
        r is Ok ==> exists|id: int|
            {
                &&& fresh_row_id(table_rows(*old(c), TableId::Blotters), id)
                &&& table_rows(*final(c), TableId::Blotters) == table_rows(
                    *old(c),
                    TableId::Blotters,
                ).push(#[trigger] row_with_id(id, blotter_vals(b@)))
            },
        r is Err ==> table_rows(*final(c), TableId::Blotters) == table_rows(
            *old(c),
            TableId::Blotters,
        ),
        r is Err ==> (r->Err_0).kind == ErrorKind::Constraint || (r->Err_0).kind
            == ErrorKind::Storage,
        other_rows_unchanged(*old(c), *final(c), TableId::Blotters),
        presence_unchanged(*old(c), *final(c)),
{
    let sql = build_insert_sql(TableId::Blotters);
    let vals = blotter_to_vals(b);
    exec_insert(c, TableId::Blotters, sql.as_str(), &vals)
}

/// Overwrites every non-id column of the row the record's id names; a row
/// that does not exist leaves the table unchanged, still a success.
pub fn update_blotter(c: &mut rusqlite::Connection, b: &Blotter) -> (r: Result<(), DbError>)
    requires
        b.id is Some,
    ensures
        r is Ok ==> rows_updated(
            table_rows(*old(c), TableId::Blotters),
            table_rows(*final(c), TableId::Blotters),
            b@.id->0,
            blotter_vals(b@),
        ),
        r is Err ==> table_rows(*final(c), TableId::Blotters) == table_rows(
            *old(c),
            TableId::Blotters,
        ),
        r is Err ==> (r->Err_0).kind == ErrorKind::Constraint || (r->Err_0).kind
            == ErrorKind::Storage,
        other_rows_unchanged(*old(c), *final(c), TableId::Blotters),
        presence_unchanged(*old(c), *final(c)),
{
    let id = b.id.unwrap();
    let sql = build_update_sql(TableId::Blotters);
    let vals = blotter_to_vals(b);
    exec_update(c, TableId::Blotters, sql.as_str(), &vals, id as i64)
}

/// Removes the rows carrying the given id; removing an id no row has is a
/// success that removes nothing.
pub fn delete_blotter(c: &mut rusqlite::Connection, id: i32) -> (r: Result<(), DbError>)
    ensures
        r is Ok ==> table_rows(*final(c), TableId::Blotters) == table_rows(
            *old(c),
            TableId::Blotters,
        ).filter(|row: Seq<DbVal>| !row_has_id(row, id as int)),
        r is Err ==> table_rows(*final(c), TableId::Blotters) == table_rows(
            *old(c),
            TableId::Blotters,
        ),
        r is Err ==> (r->Err_0).kind == ErrorKind::Storage,
        other_rows_unchanged(*old(c), *final(c), TableId::Blotters),
        presence_unchanged(*old(c), *final(c)),
{
    let sql = build_delete_sql(TableId::Blotters);
    exec_delete(c, TableId::Blotters, sql.as_str(), id as i64)
}

/// Inserts when the record has no id yet, updates the named row otherwise.
pub fn save_blotter(c: &mut rusqlite::Connection, b: &Blotter) -> (r: Result<(), DbError>)
    ensures
        b.id is None && r is Ok ==> exists|id: int|
            {
                &&& fresh_row_id(table_rows(*old(c), TableId::Blotters), id)
                &&& table_rows(*final(c), TableId::Blotters) == table_rows(
                    *old(c),
                    TableId::Blotters,
                ).push(#[trigger] row_with_id(id, blotter_vals(b@)))
            },
        b.id is Some && r is Ok ==> rows_updated(
            table_rows(*old(c), TableId::Blotters),
            table_rows(*final(c), TableId::Blotters),
            b@.id->0,
            blotter_vals(b@),
        ),
        r is Err ==> table_rows(*final(c), TableId::Blotters) == table_rows(
            *old(c),
            TableId::Blotters,
        ),
        r is Err ==> (r->Err_0).kind == ErrorKind::Constraint || (r->Err_0).kind
            == ErrorKind::Storage,
        other_rows_unchanged(*old(c), *final(c), TableId::Blotters),
        presence_unchanged(*old(c), *final(c)),
{
    if b.id.is_some() {
        update_blotter(c, b)
    } else {
        insert_blotter(c, b)
    }
}

/// After a successful insert, fetching everything shows the old records
/// followed by one equal to the inserted record in every field except the
/// engine-assigned id.
pub proof fn lemma_insert_then_fetch_blotters(rows: Seq<Seq<DbVal>>, b: BlotterV, id: int)
    requires
        blotters_from_rows(rows) is Some,
        int_fits_i32(id),
    ensures
        blotters_from_rows(rows.push(row_with_id(id, blotter_vals(b)))) == Some(
            blotters_from_rows(rows).unwrap().push(BlotterV { id: Some(id), ..b }),
        ),
{
    let row = row_with_id(id, blotter_vals(b));
    assert(row =~= seq![
        DbVal::Int(id),
        DbVal::Text(b.type_),
        DbVal::Text(b.reported_by),
        DbVal::Text(b.involved),
        DbVal::Text(b.incident_date),
        DbVal::Text(b.location),
        DbVal::Text(b.zone),
        DbVal::Text(b.status),
        DbVal::Text(b.narrative),
        DbVal::Text(b.action),
        DbVal::Text(b.witnesses),
        DbVal::Text(b.evidence),
        DbVal::Text(b.resolution),
        DbVal::Text(b.hearing_date),
    ]);
    assert(blotter_from_row(row) == Some(BlotterV { id: Some(id), ..b }));
    lemma_rows_parsed_push(rows, |r: Seq<DbVal>| blotter_from_row(r), row);
}

/// After a successful update, fetching everything shows every record with
/// the given id rebuilt from the new record alone — every field replaced,
/// nothing merged — and every other record untouched.
pub proof fn lemma_update_then_fetch_blotters(
    pre: Seq<Seq<DbVal>>,
    post: Seq<Seq<DbVal>>,
    b: BlotterV,
    id: int,
)
    requires
        rows_updated(pre, post, id, blotter_vals(b)),
        blotters_from_rows(pre) is Some,
        int_fits_i32(id),
    ensures
        blotters_from_rows(post) is Some,
        blotters_from_rows(post).unwrap().len() == blotters_from_rows(pre).unwrap().len(),
        forall|j: int|
            0 <= j < pre.len() ==> blotters_from_rows(post).unwrap()[j] == (
            if blotters_from_rows(pre).unwrap()[j].id == Some(id) {
                BlotterV { id: Some(id), ..b }
            } else {
                #[trigger] blotters_from_rows(pre).unwrap()[j]
            }),
{
    let f = |r: Seq<DbVal>| blotter_from_row(r);
    let urow = row_with_id(id, blotter_vals(b));
    assert(urow =~= seq![
        DbVal::Int(id),
        DbVal::Text(b.type_),
        DbVal::Text(b.reported_by),
        DbVal::Text(b.involved),
        DbVal::Text(b.incident_date),
        DbVal::Text(b.location),
        DbVal::Text(b.zone),
        DbVal::Text(b.status),
        DbVal::Text(b.narrative),
        DbVal::Text(b.action),
        DbVal::Text(b.witnesses),
        DbVal::Text(b.evidence),
        DbVal::Text(b.resolution),
        DbVal::Text(b.hearing_date),
    ]);
    assert(blotter_from_row(urow) == Some(BlotterV { id: Some(id), ..b }));
    lemma_rows_parsed_index(pre, f);
    assert forall|j: int| 0 <= j < post.len() implies f(#[trigger] post[j]) is Some by {
        assert(f(pre[j]) is Some);
    }
    lemma_rows_parsed_all(post, f);
    lemma_rows_parsed_index(post, f);
    assert forall|j: int|
        0 <= j < pre.len() implies blotters_from_rows(post).unwrap()[j] == (
    if blotters_from_rows(pre).unwrap()[j].id == Some(id) {
        BlotterV { id: Some(id), ..b }
    } else {
        #[trigger] blotters_from_rows(pre).unwrap()[j]
    }) by {
        assert(f(pre[j]) is Some);
        assert(blotters_from_rows(pre).unwrap()[j] == f(pre[j]).unwrap());
        assert(row_has_id(pre[j], id) <==> blotters_from_rows(pre).unwrap()[j].id == Some(id));
    }
}

} // verus!
