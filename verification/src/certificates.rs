//! The certificate repository: issued certificates, one row each.
//!
//! Unlike the other record types, a certificate carries a plain integer id
//! with 0 as the "not yet persisted" sentinel: save inserts when the id is
//! 0 and updates otherwise. The age column is read leniently, as stored
//! data may hold it in any shape: a cell that is not an in-range integer
//! reads back as an absent age instead of failing the row.

use vstd::prelude::*;

use crate::schema::{TableId, build_delete_sql, build_insert_sql, build_select_sql, build_update_sql};
use crate::store::{
    exec_delete, exec_insert, exec_update, other_rows_unchanged, presence_unchanged, query_all,
    table_rows,
};
use crate::values::{
    DbVal, DbValue, fresh_row_id, int_fits_i32, lemma_rows_parsed_all, lemma_rows_parsed_bad_row,
    lemma_rows_parsed_index, lemma_rows_parsed_push, opt_i32_val, opt_text_of, opt_text_val,
    row_has_id, row_with_id, rows_parsed, rows_updated, text_of, text_val, i32_of,
};
use crate::{DbError, ErrorKind};

verus! {

/// A certificate record. An id of 0 means "not yet persisted".
#[derive(Debug, Clone)]
pub struct Certificate {
    pub id: i32,
    pub resident_name: String,
    pub type_: String,
    pub age: Option<i32>,
    pub civil_status: Option<String>,
    pub ownership_text: Option<String>,
    pub amount: Option<String>,
    pub issued_date: Option<String>,
}

/// The mathematical value of a certificate record.
pub struct CertificateV {
    pub id: int,
    pub resident_name: Seq<char>,
    pub type_: Seq<char>,
    pub age: Option<int>,
    pub civil_status: Option<Seq<char>>,
    pub ownership_text: Option<Seq<char>>,
    pub amount: Option<Seq<char>>,
    pub issued_date: Option<Seq<char>>,
}

impl View for Certificate {
    type V = CertificateV;

    open spec fn view(&self) -> CertificateV {
        CertificateV {
            id: self.id as int,
            resident_name: self.resident_name@,
            type_: self.type_@,
            age: match self.age {
                Some(a) => Some(a as int),
                None => None,
            },
            civil_status: match self.civil_status {
                Some(s) => Some(s@),
                None => None,
            },
            ownership_text: match self.ownership_text {
                Some(s) => Some(s@),
                None => None,
            },
            amount: match self.amount {
                Some(s) => Some(s@),
                None => None,
            },
            issued_date: match self.issued_date {
                Some(s) => Some(s@),
                None => None,
            },
        }
    }
}

impl DeepView for Certificate {
    type V = CertificateV;

    open spec fn deep_view(&self) -> CertificateV {
        self.view()
    }
}

/// The non-id cells of a certificate, in schema column order.
pub open spec fn certificate_vals(v: CertificateV) -> Seq<DbVal> {
    seq![
        DbVal::Text(v.resident_name),
        DbVal::Text(v.type_),
        match v.age {
            Some(a) => DbVal::Int(a),
            None => DbVal::Null,
        },
        match v.civil_status {
            Some(s) => DbVal::Text(s),
            None => DbVal::Null,
        },
        match v.ownership_text {
            Some(s) => DbVal::Text(s),
            None => DbVal::Null,
        },
        match v.amount {
            Some(s) => DbVal::Text(s),
            None => DbVal::Null,
        },
        match v.issued_date {
            Some(s) => DbVal::Text(s),
            None => DbVal::Null,
        },
    ]
}

/// Reads a certificate back from a stored row; `None` if the row does not
/// have the certificate shape. The age cell never fails the row: any cell
/// that is not an in-range integer reads back as an absent age.
pub open spec fn certificate_from_row(row: Seq<DbVal>) -> Option<CertificateV> {
    if row.len() == 8 && row[0] is Int && int_fits_i32(row[0]->Int_0) && row[1] is Text
        && row[2] is Text && (row[4] is Text || row[4] is Null) && (row[5] is Text
        || row[5] is Null) && (row[6] is Text || row[6] is Null) && (row[7] is Text
        || row[7] is Null) {
        Some(
            CertificateV {
                id: row[0]->Int_0,
                resident_name: row[1]->Text_0,
                type_: row[2]->Text_0,
                age: if row[3] is Int && int_fits_i32(row[3]->Int_0) {
                    Some(row[3]->Int_0)
                } else {
                    None
                },
                civil_status: if row[4] is Text {
                    Some(row[4]->Text_0)
                } else {
                    None
                },
                ownership_text: if row[5] is Text {
                    Some(row[5]->Text_0)
                } else {
                    None
                },
                amount: if row[6] is Text {
                    Some(row[6]->Text_0)
                } else {
                    None
                },
                issued_date: if row[7] is Text {
                    Some(row[7]->Text_0)
                } else {
                    None
                },
            },
        )
    } else {
        None
    }
}

/// The whole certificates table, read back in storage order.
pub open spec fn certificates_from_rows(rows: Seq<Seq<DbVal>>) -> Option<Seq<CertificateV>> {
    rows_parsed(rows, |row: Seq<DbVal>| certificate_from_row(row))
}

fn certificate_to_vals(v: &Certificate) -> (r: Vec<DbValue>)
    ensures
        r.deep_view() == certificate_vals(v@),
        r@.len() == 7,
{
    let mut out: Vec<DbValue> = Vec::new();
    out.push(text_val(&v.resident_name));
    out.push(text_val(&v.type_));
    out.push(opt_i32_val(&v.age));
    out.push(opt_text_val(&v.civil_status));
    out.push(opt_text_val(&v.ownership_text));
    out.push(opt_text_val(&v.amount));
    out.push(opt_text_val(&v.issued_date));
    proof {
        assert(out.deep_view() =~= certificate_vals(v@));
    }
    out
}

fn certificate_from_row_exec(row: &Vec<DbValue>) -> (r: Option<Certificate>)
    ensures
        match r {
            Some(v) => certificate_from_row(row.deep_view()) == Some(v@),
            None => certificate_from_row(row.deep_view()) is None,
        },
{
    if row.len() != 8 {
        return None;
    }
    let id = match i32_of(&row[0]) {
        Some(x) => x,
        None => { return None },
    };
    let resident_name = match text_of(&row[1]) {
        Some(s) => s,
        None => { return None },
    };
    let type_ = match text_of(&row[2]) {
        Some(s) => s,
        None => { return None },
    };
    let age = i32_of(&row[3]);
    let civil_status = match opt_text_of(&row[4]) {
        Some(o) => o,
        None => { return None },
    };
    let ownership_text = match opt_text_of(&row[5]) {
        Some(o) => o,
        None => { return None },
    };
    let amount = match opt_text_of(&row[6]) {
        Some(o) => o,
        None => { return None },
    };
    let issued_date = match opt_text_of(&row[7]) {
        Some(o) => o,
        None => { return None },
    };
    let v = Certificate {
        id,
        resident_name,
        type_,
        age,
        civil_status,
        ownership_text,
        amount,
        issued_date,
    };
    proof {
        assert(certificate_from_row(row.deep_view()) == Some(v@));
    }
    Some(v)
}

/// Selects every row of the certificates table, in storage order. A
/// malformed table (any row without the certificate shape) is a query
/// error.
pub fn fetch_all_certificates(c: &rusqlite::Connection) -> (r: Result<Vec<Certificate>, DbError>)
    ensures
        r matches Ok(v) ==> certificates_from_rows(table_rows(*c, TableId::Certificates)) == Some(
            v.deep_view(),
        ),
        certificates_from_rows(table_rows(*c, TableId::Certificates)) is None ==> r is Err,
        r is Err ==> (r->Err_0).kind == ErrorKind::Query,
{
    let sql = build_select_sql(TableId::Certificates);
    let raw = match query_all(c, TableId::Certificates, sql.as_str()) {
        Ok(v) => v,
        Err(e) => { return Err(e) },
    };
    let ghost all = raw.deep_view();
    let mut out: Vec<Certificate> = Vec::new();
    let mut i: usize = 0;
    while i < raw.len()
        invariant
            i <= raw.len(),
            all == raw.deep_view(),
            all == table_rows(*c, TableId::Certificates),
            rows_parsed(all.take(i as int), |row: Seq<DbVal>| certificate_from_row(row)) == Some(
                out.deep_view(),
            ),
        decreases raw.len() - i,
    {
        match certificate_from_row_exec(&raw[i]) {
            Some(v) => {
                proof {
                    assert(raw[i as int].deep_view() == all[i as int]);
                    lemma_rows_parsed_push(
                        all.take(i as int),
                        |row: Seq<DbVal>| certificate_from_row(row),
                        all[i as int],
                    );
                    assert(all.take(i as int).push(all[i as int]) =~= all.take(i as int + 1));
                }
                out.push(v);
            },
            None => {
                proof {
                    assert(raw[i as int].deep_view() == all[i as int]);
                    lemma_rows_parsed_bad_row(
                        all,
                        |row: Seq<DbVal>| certificate_from_row(row),
                        i as int,
                    );
                }
                return Err(
                    DbError {
                        kind: ErrorKind::Query,
                        message: "malformed certificate row".to_owned(),
                    },
                );
            },
        }
        i = i + 1;
    }
    proof {
        assert(all.take(raw.len() as int) =~= all);
    }
    Ok(out)
}

/// Appends one certificate; the storage engine assigns the id, and the
/// record's own id field is ignored, as every caller hands a fresh record.
pub fn insert_certificate(c: &mut rusqlite::Connection, v: &Certificate) -> (r: Result<(), DbError>)
    ensures
        r is Ok ==> exists|id: int|
            {
                &&& fresh_row_id(table_rows(*old(c), TableId::Certificates), id)
                &&& table_rows(*final(c), TableId::Certificates) == table_rows(
                    *old(c),
                    TableId::Certificates,
                ).push(#[trigger] row_with_id(id, certificate_vals(v@)))
            },
        r is Err ==> table_rows(*final(c), TableId::Certificates) == table_rows(
            *old(c),
            TableId::Certificates,
        ),
        r is Err ==> (r->Err_0).kind == ErrorKind::Constraint || (r->Err_0).kind
            == ErrorKind::Storage,
        other_rows_unchanged(*old(c), *final(c), TableId::Certificates),
        presence_unchanged(*old(c), *final(c)),
{
    let sql = build_insert_sql(TableId::Certificates);
    let vals = certificate_to_vals(v);
    exec_insert(c, TableId::Certificates, sql.as_str(), &vals)
}

/// Overwrites every non-id column of the row the record's id names; a row
/// that does not exist leaves the table unchanged, still a success.
pub fn update_certificate(c: &mut rusqlite::Connection, v: &Certificate) -> (r: Result<(), DbError>)
    ensures
        r is Ok ==> rows_updated(
            table_rows(*old(c), TableId::Certificates),
            table_rows(*final(c), TableId::Certificates),
            v@.id,
            certificate_vals(v@),
        ),
        r is Err ==> table_rows(*final(c), TableId::Certificates) == table_rows(
            *old(c),
            TableId::Certificates,
        ),
        r is Err ==> (r->Err_0).kind == ErrorKind::Constraint || (r->Err_0).kind
            == ErrorKind::Storage,
        other_rows_unchanged(*old(c), *final(c), TableId::Certificates),
        presence_unchanged(*old(c), *final(c)),
{
    let sql = build_update_sql(TableId::Certificates);
    let vals = certificate_to_vals(v);
    exec_update(c, TableId::Certificates, sql.as_str(), &vals, v.id as i64)
}

/// Removes the rows carrying the given id; removing an id no row has is a
/// success that removes nothing.
pub fn delete_certificate(c: &mut rusqlite::Connection, id: i32) -> (r: Result<(), DbError>)
    ensures
        r is Ok ==> table_rows(*final(c), TableId::Certificates) == table_rows(
            *old(c),
            TableId::Certificates,
        ).filter(|row: Seq<DbVal>| !row_has_id(row, id as int)),
        r is Err ==> table_rows(*final(c), TableId::Certificates) == table_rows(
            *old(c),
            TableId::Certificates,
        ),
        r is Err ==> (r->Err_0).kind == ErrorKind::Storage,
        other_rows_unchanged(*old(c), *final(c), TableId::Certificates),
        presence_unchanged(*old(c), *final(c)),
{
    let sql = build_delete_sql(TableId::Certificates);
    exec_delete(c, TableId::Certificates, sql.as_str(), id as i64)
}

/// Inserts when the record carries the 0 sentinel, updates the named row
/// otherwise.
pub fn save_certificate(c: &mut rusqlite::Connection, v: &Certificate) -> (r: Result<(), DbError>)
    ensures
        v.id == 0 && r is Ok ==> exists|id: int|
            {
                &&& fresh_row_id(table_rows(*old(c), TableId::Certificates), id)
                &&& table_rows(*final(c), TableId::Certificates) == table_rows(
                    *old(c),
                    TableId::Certificates,
                ).push(#[trigger] row_with_id(id, certificate_vals(v@)))
            },
        v.id != 0 && r is Ok ==> rows_updated(
            table_rows(*old(c), TableId::Certificates),
            table_rows(*final(c), TableId::Certificates),
            v@.id,
            certificate_vals(v@),
        ),
        r is Err ==> table_rows(*final(c), TableId::Certificates) == table_rows(
            *old(c),
            TableId::Certificates,
        ),
        r is Err ==> (r->Err_0).kind == ErrorKind::Constraint || (r->Err_0).kind
            == ErrorKind::Storage,
        other_rows_unchanged(*old(c), *final(c), TableId::Certificates),
        presence_unchanged(*old(c), *final(c)),
{
    if v.id != 0 {
        update_certificate(c, v)
    } else {
        insert_certificate(c, v)
    }
}

/// After a successful insert, fetching everything shows the old records
/// followed by one equal to the inserted record in every field except the
/// engine-assigned id.
pub proof fn lemma_insert_then_fetch_certificates(rows: Seq<Seq<DbVal>>, v: CertificateV, id: int)
    requires
        certificates_from_rows(rows) is Some,
        int_fits_i32(id),
        v.age matches Some(a) ==> int_fits_i32(a),
    ensures
        certificates_from_rows(rows.push(row_with_id(id, certificate_vals(v)))) == Some(
            certificates_from_rows(rows).unwrap().push(CertificateV { id: id, ..v }),
        ),
{
    let row = row_with_id(id, certificate_vals(v));
    assert(row =~= seq![
        DbVal::Int(id),
        DbVal::Text(v.resident_name),
        DbVal::Text(v.type_),
        match v.age {
            Some(a) => DbVal::Int(a),
            None => DbVal::Null,
        },
        match v.civil_status {
            Some(s) => DbVal::Text(s),
            None => DbVal::Null,
        },
        match v.ownership_text {
            Some(s) => DbVal::Text(s),
            None => DbVal::Null,
        },
        match v.amount {
            Some(s) => DbVal::Text(s),
            None => DbVal::Null,
        },
        match v.issued_date {
            Some(s) => DbVal::Text(s),
            None => DbVal::Null,
        },
    ]);
    assert(certificate_from_row(row) == Some(CertificateV { id: id, ..v }));
    lemma_rows_parsed_push(rows, |r: Seq<DbVal>| certificate_from_row(r), row);
}

/// After a successful update, fetching everything shows every record with
/// the given id rebuilt from the new record alone — every field replaced,
/// nothing merged — and every other record untouched.
pub proof fn lemma_update_then_fetch_certificates(
    pre: Seq<Seq<DbVal>>,
    post: Seq<Seq<DbVal>>,
    v: CertificateV,
    id: int,
)
    requires
        rows_updated(pre, post, id, certificate_vals(v)),
        certificates_from_rows(pre) is Some,
        int_fits_i32(id),
        v.age matches Some(a) ==> int_fits_i32(a),
    ensures
        certificates_from_rows(post) is Some,
        certificates_from_rows(post).unwrap().len() == certificates_from_rows(pre).unwrap().len(),
        forall|j: int|
            0 <= j < pre.len() ==> certificates_from_rows(post).unwrap()[j] == (
            if certificates_from_rows(pre).unwrap()[j].id == id {
                CertificateV { id: id, ..v }
            } else {
                #[trigger] certificates_from_rows(pre).unwrap()[j]
            }),
{
    let f = |r: Seq<DbVal>| certificate_from_row(r);
    let urow = row_with_id(id, certificate_vals(v));
    assert(urow =~= seq![
        DbVal::Int(id),
        DbVal::Text(v.resident_name),
        DbVal::Text(v.type_),
        match v.age {
            Some(a) => DbVal::Int(a),
            None => DbVal::Null,
        },
        match v.civil_status {
            Some(s) => DbVal::Text(s),
            None => DbVal::Null,
        },
        match v.ownership_text {
            Some(s) => DbVal::Text(s),
            None => DbVal::Null,
        },
        match v.amount {
            Some(s) => DbVal::Text(s),
            None => DbVal::Null,
        },
        match v.issued_date {
            Some(s) => DbVal::Text(s),
            None => DbVal::Null,
        },
    ]);
    assert(certificate_from_row(urow) == Some(CertificateV { id: id, ..v }));
    lemma_rows_parsed_index(pre, f);
    assert forall|j: int| 0 <= j < post.len() implies f(#[trigger] post[j]) is Some by {
        assert(f(pre[j]) is Some);
    }
    lemma_rows_parsed_all(post, f);
    lemma_rows_parsed_index(post, f);
    assert forall|j: int|
        0 <= j < pre.len() implies certificates_from_rows(post).unwrap()[j] == (
    if certificates_from_rows(pre).unwrap()[j].id == id {
        CertificateV { id: id, ..v }
    } else {
        #[trigger] certificates_from_rows(pre).unwrap()[j]
    }) by {
        assert(f(pre[j]) is Some);
        assert(certificates_from_rows(pre).unwrap()[j] == f(pre[j]).unwrap());
        assert(row_has_id(pre[j], id) <==> certificates_from_rows(pre).unwrap()[j].id == id);
    }
}

} // verus!
