//! The official repository: elected and appointed officials, one row each.
//!
//! This repository has no separate update operation: its save carries the
//! whole insert-or-update dispatch, inserting a record without an id and
//! otherwise overwriting the row the id names.

use vstd::prelude::*;

use crate::schema::{TableId, build_delete_sql, build_insert_sql, build_select_sql, build_update_sql};
use crate::store::{
    exec_delete, exec_insert, exec_update, other_rows_unchanged, presence_unchanged, query_all,
    table_rows,
};
use crate::values::{
    DbVal, DbValue, fresh_row_id, int_fits_i32, lemma_rows_parsed_all, lemma_rows_parsed_bad_row,
    lemma_rows_parsed_index, lemma_rows_parsed_push, opt_i32_of, opt_i32_val, opt_text_of,
    opt_text_val, row_has_id, row_with_id, rows_parsed, rows_updated, text_of, text_val, i32_of,
};
use crate::{DbError, ErrorKind};

verus! {

/// An official record.
#[derive(Debug, Clone)]
pub struct Official {
    pub id: Option<i32>,
    pub name: String,
    pub role: String,
    pub age: Option<i32>,
    pub contact: String,
    pub term_start: String,
    pub term_end: String,
    pub zone: String,
    pub image: Option<String>,
    pub section: String,
}

/// The mathematical value of an official record.
pub struct OfficialV {
    pub id: Option<int>,
    pub name: Seq<char>,
    pub role: Seq<char>,
    pub age: Option<int>,
    pub contact: Seq<char>,
    pub term_start: Seq<char>,
    pub term_end: Seq<char>,
    pub zone: Seq<char>,
    pub image: Option<Seq<char>>,
    pub section: Seq<char>,
}

impl View for Official {
    type V = OfficialV;

    open spec fn view(&self) -> OfficialV {
        OfficialV {
            id: match self.id {
                Some(i) => Some(i as int),
                None => None,
            },
            name: self.name@,
            role: self.role@,
            age: match self.age {
                Some(a) => Some(a as int),
                None => None,
            },
            contact: self.contact@,
            term_start: self.term_start@,
            term_end: self.term_end@,
            zone: self.zone@,
            image: match self.image {
                Some(s) => Some(s@),
                None => None,
            },
            section: self.section@,
        }
    }
}

impl DeepView for Official {
    type V = OfficialV;

    open spec fn deep_view(&self) -> OfficialV {
        self.view()
    }
}

/// The non-id cells of an official, in schema column order: name, role,
/// image, section, age, contact, term_start, term_end, zone.
pub open spec fn official_vals(o: OfficialV) -> Seq<DbVal> {
    seq![
        DbVal::Text(o.name),
        DbVal::Text(o.role),
        match o.image {
            Some(s) => DbVal::Text(s),
            None => DbVal::Null,
        },
        DbVal::Text(o.section),
        match o.age {
            Some(a) => DbVal::Int(a),
            None => DbVal::Null,
        },
        DbVal::Text(o.contact),
        DbVal::Text(o.term_start),
        DbVal::Text(o.term_end),
        DbVal::Text(o.zone),
    ]
}

/// Reads an official back from a stored row; `None` if the row does not
/// have the official shape.
pub open spec fn official_from_row(row: Seq<DbVal>) -> Option<OfficialV> {
    if row.len() == 10 && row[0] is Int && int_fits_i32(row[0]->Int_0) && row[1] is Text
        && row[2] is Text && (row[3] is Text || row[3] is Null) && row[4] is Text && (
    row[5] is Null || (row[5] is Int && int_fits_i32(row[5]->Int_0))) && row[6] is Text
        && row[7] is Text && row[8] is Text && row[9] is Text {
        Some(
            OfficialV {
                id: Some(row[0]->Int_0),
                name: row[1]->Text_0,
                role: row[2]->Text_0,
                image: if row[3] is Text {
                    Some(row[3]->Text_0)
                } else {
                    None
                },
                section: row[4]->Text_0,
                age: if row[5] is Int {
                    Some(row[5]->Int_0)
                } else {
                    None
                },
                contact: row[6]->Text_0,
                term_start: row[7]->Text_0,
                term_end: row[8]->Text_0,
                zone: row[9]->Text_0,
            },
        )
    } else {
        None
    }
}

/// The whole officials table, read back in storage order.
pub open spec fn officials_from_rows(rows: Seq<Seq<DbVal>>) -> Option<Seq<OfficialV>> {
    rows_parsed(rows, |row: Seq<DbVal>| official_from_row(row))
}

fn official_to_vals(o: &Official) -> (r: Vec<DbValue>)
    ensures
        r.deep_view() == official_vals(o@),
        r@.len() == 9,
{
    let mut v: Vec<DbValue> = Vec::new();
    v.push(text_val(&o.name));
    v.push(text_val(&o.role));
    v.push(opt_text_val(&o.image));
    v.push(text_val(&o.section));
    v.push(opt_i32_val(&o.age));
    v.push(text_val(&o.contact));
    v.push(text_val(&o.term_start));
    v.push(text_val(&o.term_end));
    v.push(text_val(&o.zone));
    proof {
        assert(v.deep_view() =~= official_vals(o@));
    }
    v
}

fn official_from_row_exec(row: &Vec<DbValue>) -> (r: Option<Official>)
    ensures
        match r {
            Some(o) => official_from_row(row.deep_view()) == Some(o@) && o.id is Some,
            None => official_from_row(row.deep_view()) is None,
        },
{
    if row.len() != 10 {
        return None;
    }
    let id = match i32_of(&row[0]) {
        Some(x) => x,
        None => { return None },
    };
    let name = match text_of(&row[1]) {
        Some(s) => s,
        None => { return None },
    };
    let role = match text_of(&row[2]) {
        Some(s) => s,
        None => { return None },
    };
    let image = match opt_text_of(&row[3]) {
        Some(o) => o,
        None => { return None },
    };
    let section = match text_of(&row[4]) {
        Some(s) => s,
        None => { return None },
    };
    let age = match opt_i32_of(&row[5]) {
        Some(o) => o,
        None => { return None },
    };
    let contact = match text_of(&row[6]) {
        Some(s) => s,
        None => { return None },
    };
    let term_start = match text_of(&row[7]) {
        Some(s) => s,
        None => { return None },
    };
    let term_end = match text_of(&row[8]) {
        Some(s) => s,
        None => { return None },
    };
    let zone = match text_of(&row[9]) {
        Some(s) => s,
        None => { return None },
    };
    let o = Official {
        id: Some(id),
        name,
        role,
        age,
        contact,
        term_start,
        term_end,
        zone,
        image,
        section,
    };
    proof {
        assert(official_from_row(row.deep_view()) == Some(o@));
    }
    Some(o)
}

/// Selects every row of the officials table, in storage order. A malformed
/// table (any row without the official shape) is a query error.
pub fn fetch_all_officials(c: &rusqlite::Connection) -> (r: Result<Vec<Official>, DbError>)
    ensures
        r matches Ok(v) ==> officials_from_rows(table_rows(*c, TableId::Officials)) == Some(
            v.deep_view(),
        ),
        officials_from_rows(table_rows(*c, TableId::Officials)) is None ==> r is Err,
        r is Err ==> (r->Err_0).kind == ErrorKind::Query,
{
    let sql = build_select_sql(TableId::Officials);
    let raw = match query_all(c, TableId::Officials, sql.as_str()) {
        Ok(v) => v,
        Err(e) => { return Err(e) },
    };
    let ghost all = raw.deep_view();
    let mut out: Vec<Official> = Vec::new();
    let mut i: usize = 0;
    while i < raw.len()
        invariant
            i <= raw.len(),
            all == raw.deep_view(),
            all == table_rows(*c, TableId::Officials),
            rows_parsed(all.take(i as int), |row: Seq<DbVal>| official_from_row(row)) == Some(
                out.deep_view(),
            ),
        decreases raw.len() - i,
    {
        match official_from_row_exec(&raw[i]) {
            Some(o) => {
                proof {
                    assert(raw[i as int].deep_view() == all[i as int]);
                    lemma_rows_parsed_push(
                        all.take(i as int),
                        |row: Seq<DbVal>| official_from_row(row),
                        all[i as int],
                    );
                    assert(all.take(i as int).push(all[i as int]) =~= all.take(i as int + 1));
                }
                out.push(o);
            },
            None => {
                proof {
                    assert(raw[i as int].deep_view() == all[i as int]);
                    lemma_rows_parsed_bad_row(
                        all,
                        |row: Seq<DbVal>| official_from_row(row),
                        i as int,
                    );
                }
                return Err(
                    DbError {
                        kind: ErrorKind::Query,
                        message: "malformed official row".to_owned(),
                    },
                );
            },
        }
        i = i + 1;
    }
    proof {
        assert(all.take(raw.len() as int) =~= all);
    }
    Ok(out)
}

/// Appends one official; the storage engine assigns the id, and the
/// record's own id field is ignored, as every caller hands a fresh record.
pub fn insert_official(c: &mut rusqlite::Connection, o: &Official) -> (r: Result<(), DbError>)
    ensures
        r is Ok ==> exists|id: int|
            {
                &&& fresh_row_id(table_rows(*old(c), TableId::Officials), id)
                &&& table_rows(*final(c), TableId::Officials) == table_rows(
                    *old(c),
                    TableId::Officials,
                ).push(#[trigger] row_with_id(id, official_vals(o@)))
            },
        r is Err ==> table_rows(*final(c), TableId::Officials) == table_rows(
            *old(c),
            TableId::Officials,
        ),
        r is Err ==> (r->Err_0).kind == ErrorKind::Constraint || (r->Err_0).kind
            == ErrorKind::Storage,
        other_rows_unchanged(*old(c), *final(c), TableId::Officials),
        presence_unchanged(*old(c), *final(c)),
{
    let sql = build_insert_sql(TableId::Officials);
    let vals = official_to_vals(o);
    exec_insert(c, TableId::Officials, sql.as_str(), &vals)
}

/// Inserts when the record has no id yet, and otherwise overwrites every
/// non-id column of the row the record's id names; updating an id no row
/// has leaves the table unchanged, still a success.
pub fn save_official(c: &mut rusqlite::Connection, o: &Official) -> (r: Result<(), DbError>)
    ensures
        o.id is None && r is Ok ==> exists|id: int|
            {
                &&& fresh_row_id(table_rows(*old(c), TableId::Officials), id)
                &&& table_rows(*final(c), TableId::Officials) == table_rows(
                    *old(c),
                    TableId::Officials,
                ).push(#[trigger] row_with_id(id, official_vals(o@)))
            },
        o.id is Some && r is Ok ==> rows_updated(
            table_rows(*old(c), TableId::Officials),
            table_rows(*final(c), TableId::Officials),
            o@.id->0,
            official_vals(o@),
        ),
        r is Err ==> table_rows(*final(c), TableId::Officials) == table_rows(
            *old(c),
            TableId::Officials,
        ),
        r is Err ==> (r->Err_0).kind == ErrorKind::Constraint || (r->Err_0).kind
            == ErrorKind::Storage,
        other_rows_unchanged(*old(c), *final(c), TableId::Officials),
        presence_unchanged(*old(c), *final(c)),
{
    match o.id {
        Some(id) => {
            let sql = build_update_sql(TableId::Officials);
            let vals = official_to_vals(o);
            exec_update(c, TableId::Officials, sql.as_str(), &vals, id as i64)
        },
        None => insert_official(c, o),
    }
}

/// Removes the rows carrying the given id; removing an id no row has is a
/// success that removes nothing.
pub fn delete_official(c: &mut rusqlite::Connection, id: i32) -> (r: Result<(), DbError>)
    ensures
        r is Ok ==> table_rows(*final(c), TableId::Officials) == table_rows(
            *old(c),
            TableId::Officials,
        ).filter(|row: Seq<DbVal>| !row_has_id(row, id as int)),
        r is Err ==> table_rows(*final(c), TableId::Officials) == table_rows(
            *old(c),
            TableId::Officials,
        ),
        r is Err ==> (r->Err_0).kind == ErrorKind::Storage,
        other_rows_unchanged(*old(c), *final(c), TableId::Officials),
        presence_unchanged(*old(c), *final(c)),
{
    let sql = build_delete_sql(TableId::Officials);
    exec_delete(c, TableId::Officials, sql.as_str(), id as i64)
}

/// After a successful insert, fetching everything shows the old records
/// followed by one equal to the inserted record in every field except the
/// engine-assigned id.
pub proof fn lemma_insert_then_fetch_officials(rows: Seq<Seq<DbVal>>, o: OfficialV, id: int)
    requires
        officials_from_rows(rows) is Some,
        int_fits_i32(id),
        o.age matches Some(a) ==> int_fits_i32(a),
    ensures
        officials_from_rows(rows.push(row_with_id(id, official_vals(o)))) == Some(
            officials_from_rows(rows).unwrap().push(OfficialV { id: Some(id), ..o }),
        ),
{
    let row = row_with_id(id, official_vals(o));
    assert(row =~= seq![
        DbVal::Int(id),
        DbVal::Text(o.name),
        DbVal::Text(o.role),
        match o.image {
            Some(s) => DbVal::Text(s),
            None => DbVal::Null,
        },
        DbVal::Text(o.section),
        match o.age {
            Some(a) => DbVal::Int(a),
            None => DbVal::Null,
        },
        DbVal::Text(o.contact),
        DbVal::Text(o.term_start),
        DbVal::Text(o.term_end),
        DbVal::Text(o.zone),
    ]);
    assert(official_from_row(row) == Some(OfficialV { id: Some(id), ..o }));
    lemma_rows_parsed_push(rows, |r: Seq<DbVal>| official_from_row(r), row);
}

/// After a successful save of a record with an id, fetching everything
/// shows every record with that id rebuilt from the saved record alone —
/// every field replaced, nothing merged — and every other record untouched.
pub proof fn lemma_save_then_fetch_officials(
    pre: Seq<Seq<DbVal>>,
    post: Seq<Seq<DbVal>>,
    o: OfficialV,
    id: int,
)
    requires
        rows_updated(pre, post, id, official_vals(o)),
        officials_from_rows(pre) is Some,
        int_fits_i32(id),
        o.age matches Some(a) ==> int_fits_i32(a),
    ensures
        officials_from_rows(post) is Some,
        officials_from_rows(post).unwrap().len() == officials_from_rows(pre).unwrap().len(),
        forall|j: int|
            0 <= j < pre.len() ==> officials_from_rows(post).unwrap()[j] == (
            if officials_from_rows(pre).unwrap()[j].id == Some(id) {
                OfficialV { id: Some(id), ..o }
            } else {
                #[trigger] officials_from_rows(pre).unwrap()[j]
            }),
{
    let f = |r: Seq<DbVal>| official_from_row(r);
    let urow = row_with_id(id, official_vals(o));
    assert(urow =~= seq![
        DbVal::Int(id),
        DbVal::Text(o.name),
        DbVal::Text(o.role),
        match o.image {
            Some(s) => DbVal::Text(s),
            None => DbVal::Null,
        },
        DbVal::Text(o.section),
        match o.age {
            Some(a) => DbVal::Int(a),
            None => DbVal::Null,
        },
        DbVal::Text(o.contact),
        DbVal::Text(o.term_start),
        DbVal::Text(o.term_end),
        DbVal::Text(o.zone),
    ]);
    assert(official_from_row(urow) == Some(OfficialV { id: Some(id), ..o }));
    lemma_rows_parsed_index(pre, f);
    assert forall|j: int| 0 <= j < post.len() implies f(#[trigger] post[j]) is Some by {
        assert(f(pre[j]) is Some);
    }
    lemma_rows_parsed_all(post, f);
    lemma_rows_parsed_index(post, f);
    assert forall|j: int|
        0 <= j < pre.len() implies officials_from_rows(post).unwrap()[j] == (
    if officials_from_rows(pre).unwrap()[j].id == Some(id) {
        OfficialV { id: Some(id), ..o }
    } else {
        #[trigger] officials_from_rows(pre).unwrap()[j]
    }) by {
        assert(f(pre[j]) is Some);
        assert(officials_from_rows(pre).unwrap()[j] == f(pre[j]).unwrap());
        assert(row_has_id(pre[j], id) <==> officials_from_rows(pre).unwrap()[j].id == Some(id));
    }
}

} // verus!
