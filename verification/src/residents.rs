//! The resident repository: the demographic register, one row each.

use vstd::prelude::*;

use crate::schema::{TableId, build_delete_sql, build_insert_sql, build_select_sql, build_update_sql};
use crate::store::{
    exec_delete, exec_insert, exec_update, other_rows_unchanged, presence_unchanged, query_all,
    table_rows,
};
use crate::values::{
    DbVal, DbValue, bool_of, bool_val, fresh_row_id, int_fits_i32, lemma_rows_parsed_all,
    lemma_rows_parsed_bad_row, lemma_rows_parsed_index, lemma_rows_parsed_push, opt_text_of,
    opt_text_val, row_has_id, row_with_id, rows_parsed, rows_updated, text_of, text_val, i32_of,
};
use crate::{DbError, ErrorKind};

verus! {

/// A resident record.
#[derive(Debug, Clone)]
pub struct Resident {
    pub id: Option<i32>,
    pub prefix: String,
    pub first_name: String,
    pub middle_name: Option<String>,
    pub last_name: String,
    pub suffix: Option<String>,
    pub civil_status: String,
    pub gender: String,
    pub nationality: String,
    pub mobile_number: String,
    pub date_of_birth: String,
    pub town_of_birth: String,
    pub province_of_birth: String,
    pub zone: String,
    pub barangay: String,
    pub town: String,
    pub province: String,
    pub father_prefix: String,
    pub father_first_name: String,
    pub father_middle_name: String,
    pub father_last_name: String,
    pub father_suffix: String,
    pub mother_prefix: String,
    pub mother_first_name: String,
    pub mother_middle_name: String,
    pub mother_last_name: String,
    pub status: String,
    pub photo: Option<String>,
    pub is_registered_voter: bool,
    pub is_pwd: bool,
    pub is_senior: bool,
}

/// The mathematical value of a resident record.
pub struct ResidentV {
    pub id: Option<int>,
    pub prefix: Seq<char>,
    pub first_name: Seq<char>,
    pub middle_name: Option<Seq<char>>,
    pub last_name: Seq<char>,
    pub suffix: Option<Seq<char>>,
    pub civil_status: Seq<char>,
    pub gender: Seq<char>,
    pub nationality: Seq<char>,
    pub mobile_number: Seq<char>,
    pub date_of_birth: Seq<char>,
    pub town_of_birth: Seq<char>,
    pub province_of_birth: Seq<char>,
    pub zone: Seq<char>,
    pub barangay: Seq<char>,
    pub town: Seq<char>,
    pub province: Seq<char>,
    pub father_prefix: Seq<char>,
    pub father_first_name: Seq<char>,
    pub father_middle_name: Seq<char>,
    pub father_last_name: Seq<char>,
    pub father_suffix: Seq<char>,
    pub mother_prefix: Seq<char>,
    pub mother_first_name: Seq<char>,
    pub mother_middle_name: Seq<char>,
    pub mother_last_name: Seq<char>,
    pub status: Seq<char>,
    pub photo: Option<Seq<char>>,
    pub is_registered_voter: bool,
    pub is_pwd: bool,
    pub is_senior: bool,
}

impl View for Resident {
    type V = ResidentV;

    open spec fn view(&self) -> ResidentV {
        ResidentV {
            id: match self.id {
                Some(i) => Some(i as int),
                None => None,
            },
            prefix: self.prefix@,
            first_name: self.first_name@,
            middle_name: match self.middle_name {
                Some(s) => Some(s@),
                None => None,
            },
            last_name: self.last_name@,
            suffix: match self.suffix {
                Some(s) => Some(s@),
                None => None,
            },
            civil_status: self.civil_status@,
            gender: self.gender@,
            nationality: self.nationality@,
            mobile_number: self.mobile_number@,
            date_of_birth: self.date_of_birth@,
            town_of_birth: self.town_of_birth@,
            province_of_birth: self.province_of_birth@,
            zone: self.zone@,
            barangay: self.barangay@,
            town: self.town@,
            province: self.province@,
            father_prefix: self.father_prefix@,
            father_first_name: self.father_first_name@,
            father_middle_name: self.father_middle_name@,
            father_last_name: self.father_last_name@,
            father_suffix: self.father_suffix@,
            mother_prefix: self.mother_prefix@,
            mother_first_name: self.mother_first_name@,
            mother_middle_name: self.mother_middle_name@,
            mother_last_name: self.mother_last_name@,
            status: self.status@,
            photo: match self.photo {
                Some(s) => Some(s@),
                None => None,
            },
            is_registered_voter: self.is_registered_voter,
            is_pwd: self.is_pwd,
            is_senior: self.is_senior,
        }
    }
}

impl DeepView for Resident {
    type V = ResidentV;

    open spec fn deep_view(&self) -> ResidentV {
        self.view()
    }
}

/// The non-id cells of a resident, in schema column order. Booleans are
/// stored as the engine's 1 and 0.
pub open spec fn resident_vals(p: ResidentV) -> Seq<DbVal> {
    seq![
        DbVal::Text(p.prefix),
        DbVal::Text(p.first_name),
        match p.middle_name {
            Some(s) => DbVal::Text(s),
            None => DbVal::Null,
        },
        DbVal::Text(p.last_name),
        match p.suffix {
            Some(s) => DbVal::Text(s),
            None => DbVal::Null,
        },
        DbVal::Text(p.civil_status),
        DbVal::Text(p.gender),
        DbVal::Text(p.nationality),
        DbVal::Text(p.mobile_number),
        DbVal::Text(p.date_of_birth),
        DbVal::Text(p.town_of_birth),
        DbVal::Text(p.province_of_birth),
        DbVal::Text(p.zone),
        DbVal::Text(p.barangay),
        DbVal::Text(p.town),
        DbVal::Text(p.province),
        DbVal::Text(p.father_prefix),
        DbVal::Text(p.father_first_name),
        DbVal::Text(p.father_middle_name),
        DbVal::Text(p.father_last_name),
        DbVal::Text(p.father_suffix),
        DbVal::Text(p.mother_prefix),
        DbVal::Text(p.mother_first_name),
        DbVal::Text(p.mother_middle_name),
        DbVal::Text(p.mother_last_name),
        DbVal::Text(p.status),
        match p.photo {
            Some(s) => DbVal::Text(s),
            None => DbVal::Null,
        },
        DbVal::Int(
            if p.is_registered_voter {
                1int
            } else {
                0int
            },
        ),
        DbVal::Int(
            if p.is_pwd {
                1int
            } else {
                0int
            },
        ),
        DbVal::Int(
            if p.is_senior {
                1int
            } else {
                0int
            },
        ),
    ]
}

/// Reads a resident back from a stored row; `None` if the row does not
/// have the resident shape. Boolean cells read the engine's way: zero is
/// false, any other integer is true.
pub open spec fn resident_from_row(row: Seq<DbVal>) -> Option<ResidentV> {
    if row.len() == 31 && row[0] is Int && int_fits_i32(row[0]->Int_0) && row[1] is Text
        && row[2] is Text && (row[3] is Text || row[3] is Null) && row[4] is Text && (
    row[5] is Text || row[5] is Null) && row[6] is Text && row[7] is Text && row[8] is Text
        && row[9] is Text && row[10] is Text && row[11] is Text && row[12] is Text
        && row[13] is Text && row[14] is Text && row[15] is Text && row[16] is Text
        && row[17] is Text && row[18] is Text && row[19] is Text && row[20] is Text
        && row[21] is Text && row[22] is Text && row[23] is Text && row[24] is Text
        && row[25] is Text && row[26] is Text && (row[27] is Text || row[27] is Null)
        && row[28] is Int && row[29] is Int && row[30] is Int {
        Some(
            ResidentV {
                id: Some(row[0]->Int_0),
                prefix: row[1]->Text_0,
                first_name: row[2]->Text_0,
                middle_name: if row[3] is Text {
                    Some(row[3]->Text_0)
                } else {
                    None
                },
                last_name: row[4]->Text_0,
                suffix: if row[5] is Text {
                    Some(row[5]->Text_0)
                } else {
                    None
                },
                civil_status: row[6]->Text_0,
                gender: row[7]->Text_0,
                nationality: row[8]->Text_0,
                mobile_number: row[9]->Text_0,
                date_of_birth: row[10]->Text_0,
                town_of_birth: row[11]->Text_0,
                province_of_birth: row[12]->Text_0,
                zone: row[13]->Text_0,
                barangay: row[14]->Text_0,
                town: row[15]->Text_0,
                province: row[16]->Text_0,
                father_prefix: row[17]->Text_0,
                father_first_name: row[18]->Text_0,
                father_middle_name: row[19]->Text_0,
                father_last_name: row[20]->Text_0,
                father_suffix: row[21]->Text_0,
                mother_prefix: row[22]->Text_0,
                mother_first_name: row[23]->Text_0,
                mother_middle_name: row[24]->Text_0,
                mother_last_name: row[25]->Text_0,
                status: row[26]->Text_0,
                photo: if row[27] is Text {
                    Some(row[27]->Text_0)
                } else {
                    None
                },
                is_registered_voter: row[28]->Int_0 != 0,
                is_pwd: row[29]->Int_0 != 0,
                is_senior: row[30]->Int_0 != 0,
            },
        )
    } else {
        None
    }
}

/// The whole residents table, read back in storage order.
pub open spec fn residents_from_rows(rows: Seq<Seq<DbVal>>) -> Option<Seq<ResidentV>> {
    rows_parsed(rows, |row: Seq<DbVal>| resident_from_row(row))
}

fn resident_to_vals(p: &Resident) -> (r: Vec<DbValue>)
    ensures
        r.deep_view() == resident_vals(p@),
        r@.len() == 30,
{
    let mut v: Vec<DbValue> = Vec::new();
    v.push(text_val(&p.prefix));
    v.push(text_val(&p.first_name));
    v.push(opt_text_val(&p.middle_name));
    v.push(text_val(&p.last_name));
    v.push(opt_text_val(&p.suffix));
    v.push(text_val(&p.civil_status));
    v.push(text_val(&p.gender));
    v.push(text_val(&p.nationality));
    v.push(text_val(&p.mobile_number));
    v.push(text_val(&p.date_of_birth));
    v.push(text_val(&p.town_of_birth));
    v.push(text_val(&p.province_of_birth));
    v.push(text_val(&p.zone));
    v.push(text_val(&p.barangay));
    v.push(text_val(&p.town));
    v.push(text_val(&p.province));
    v.push(text_val(&p.father_prefix));
    v.push(text_val(&p.father_first_name));
    v.push(text_val(&p.father_middle_name));
    v.push(text_val(&p.father_last_name));
    v.push(text_val(&p.father_suffix));
    v.push(text_val(&p.mother_prefix));
    v.push(text_val(&p.mother_first_name));
    v.push(text_val(&p.mother_middle_name));
    v.push(text_val(&p.mother_last_name));
    v.push(text_val(&p.status));
    v.push(opt_text_val(&p.photo));
    v.push(bool_val(p.is_registered_voter));
    v.push(bool_val(p.is_pwd));
    v.push(bool_val(p.is_senior));
    proof {
        assert(v.deep_view() =~= resident_vals(p@));
    }
    v
}

fn resident_from_row_exec(row: &Vec<DbValue>) -> (r: Option<Resident>)
    ensures
        match r {
            Some(p) => resident_from_row(row.deep_view()) == Some(p@) && p.id is Some,
            None => resident_from_row(row.deep_view()) is None,
        },
{
    if row.len() != 31 {
        return None;
    }
    let id = match i32_of(&row[0]) {
        Some(x) => x,
        None => { return None },
    };
    let prefix = match text_of(&row[1]) {
        Some(s) => s,
        None => { return None },
    };
    let first_name = match text_of(&row[2]) {
        Some(s) => s,
        None => { return None },
    };
    let middle_name = match opt_text_of(&row[3]) {
        Some(o) => o,
        None => { return None },
    };
    let last_name = match text_of(&row[4]) {
        Some(s) => s,
        None => { return None },
    };
    let suffix = match opt_text_of(&row[5]) {
        Some(o) => o,
        None => { return None },
    };
    let civil_status = match text_of(&row[6]) {
        Some(s) => s,
        None => { return None },
    };
    let gender = match text_of(&row[7]) {
        Some(s) => s,
        None => { return None },
    };
    let nationality = match text_of(&row[8]) {
        Some(s) => s,
        None => { return None },
    };
    let mobile_number = match text_of(&row[9]) {
        Some(s) => s,
        None => { return None },
    };
    let date_of_birth = match text_of(&row[10]) {
        Some(s) => s,
        None => { return None },
    };
    let town_of_birth = match text_of(&row[11]) {
        Some(s) => s,
        None => { return None },
    };
    let province_of_birth = match text_of(&row[12]) {
        Some(s) => s,
        None => { return None },
    };
    let zone = match text_of(&row[13]) {
        Some(s) => s,
        None => { return None },
    };
    let barangay = match text_of(&row[14]) {
        Some(s) => s,
        None => { return None },
    };
    let town = match text_of(&row[15]) {
        Some(s) => s,
        None => { return None },
    };
    let province = match text_of(&row[16]) {
        Some(s) => s,
        None => { return None },
    };
    let father_prefix = match text_of(&row[17]) {
        Some(s) => s,
        None => { return None },
    };
    let father_first_name = match text_of(&row[18]) {
        Some(s) => s,
        None => { return None },
    };
    let father_middle_name = match text_of(&row[19]) {
        Some(s) => s,
        None => { return None },
    };
    let father_last_name = match text_of(&row[20]) {
        Some(s) => s,
        None => { return None },
    };
    let father_suffix = match text_of(&row[21]) {
        Some(s) => s,
        None => { return None },
    };
    let mother_prefix = match text_of(&row[22]) {
        Some(s) => s,
        None => { return None },
    };
    let mother_first_name = match text_of(&row[23]) {
        Some(s) => s,
        None => { return None },
    };
    let mother_middle_name = match text_of(&row[24]) {
        Some(s) => s,
        None => { return None },
    };
    let mother_last_name = match text_of(&row[25]) {
        Some(s) => s,
        None => { return None },
    };
    let status = match text_of(&row[26]) {
        Some(s) => s,
        None => { return None },
    };
    let photo = match opt_text_of(&row[27]) {
        Some(o) => o,
        None => { return None },
    };
    let is_registered_voter = match bool_of(&row[28]) {
        Some(b) => b,
        None => { return None },
    };
    let is_pwd = match bool_of(&row[29]) {
        Some(b) => b,
        None => { return None },
    };
    let is_senior = match bool_of(&row[30]) {
        Some(b) => b,
        None => { return None },
    };
    let p = Resident {
        id: Some(id),
        prefix,
        first_name,
        middle_name,
        last_name,
        suffix,
        civil_status,
        gender,
        nationality,
        mobile_number,
        date_of_birth,
        town_of_birth,
        province_of_birth,
        zone,
        barangay,
        town,
        province,
        father_prefix,
        father_first_name,
        father_middle_name,
        father_last_name,
        father_suffix,
        mother_prefix,
        mother_first_name,
        mother_middle_name,
        mother_last_name,
        status,
        photo,
        is_registered_voter,
        is_pwd,
        is_senior,
    };
    proof {
        assert(resident_from_row(row.deep_view()) == Some(p@));
    }
    Some(p)
}

/// Selects every row of the residents table, in storage order. A malformed
/// table (any row without the resident shape) is a query error.
pub fn fetch_all_residents(c: &rusqlite::Connection) -> (r: Result<Vec<Resident>, DbError>)
    ensures
        r matches Ok(v) ==> residents_from_rows(table_rows(*c, TableId::Residents)) == Some(
            v.deep_view(),
        ),
        residents_from_rows(table_rows(*c, TableId::Residents)) is None ==> r is Err,
        r is Err ==> (r->Err_0).kind == ErrorKind::Query,
{
    let sql = build_select_sql(TableId::Residents);
    let raw = match query_all(c, TableId::Residents, sql.as_str()) {
        Ok(v) => v,
        Err(e) => { return Err(e) },
    };
    let ghost all = raw.deep_view();
    let mut out: Vec<Resident> = Vec::new();
    let mut i: usize = 0;
    while i < raw.len()
        invariant
            i <= raw.len(),
            all == raw.deep_view(),
            all == table_rows(*c, TableId::Residents),
            rows_parsed(all.take(i as int), |row: Seq<DbVal>| resident_from_row(row)) == Some(
                out.deep_view(),
            ),
        decreases raw.len() - i,
    {
        match resident_from_row_exec(&raw[i]) {
            Some(p) => {
                proof {
                    assert(raw[i as int].deep_view() == all[i as int]);
                    lemma_rows_parsed_push(
                        all.take(i as int),
                        |row: Seq<DbVal>| resident_from_row(row),
                        all[i as int],
                    );
                    assert(all.take(i as int).push(all[i as int]) =~= all.take(i as int + 1));
                }
                out.push(p);
            },
            None => {
                proof {
                    assert(raw[i as int].deep_view() == all[i as int]);
                    lemma_rows_parsed_bad_row(
                        all,
                        |row: Seq<DbVal>| resident_from_row(row),
                        i as int,
                    );
                }
                return Err(
                    DbError {
                        kind: ErrorKind::Query,
                        message: "malformed resident row".to_owned(),
                    },
                );
            },
        }
        i = i + 1;
    }
    proof {
        assert(all.take(raw.len() as int) =~= all);
    }
    Ok(out)
}

/// Appends one resident; the storage engine assigns the id, and the
/// record's own id field is ignored, as every caller hands a fresh record.
pub fn insert_resident(c: &mut rusqlite::Connection, p: &Resident) -> (r: Result<(), DbError>)
    ensures
        r is Ok ==> exists|id: int|
            {
                &&& fresh_row_id(table_rows(*old(c), TableId::Residents), id)
                &&& table_rows(*final(c), TableId::Residents) == table_rows(
                    *old(c),
                    TableId::Residents,
                ).push(#[trigger] row_with_id(id, resident_vals(p@)))
            },
        r is Err ==> table_rows(*final(c), TableId::Residents) == table_rows(
            *old(c),
            TableId::Residents,
        ),
        r is Err ==> (r->Err_0).kind == ErrorKind::Constraint || (r->Err_0).kind
            == ErrorKind::Storage,
        other_rows_unchanged(*old(c), *final(c), TableId::Residents),
        presence_unchanged(*old(c), *final(c)),
{
    let sql = build_insert_sql(TableId::Residents);
    let vals = resident_to_vals(p);
    exec_insert(c, TableId::Residents, sql.as_str(), &vals)
}

/// Overwrites every non-id column of the row the record's id names; a row
/// that does not exist leaves the table unchanged, still a success.
pub fn update_resident(c: &mut rusqlite::Connection, p: &Resident) -> (r: Result<(), DbError>)
    requires
        p.id is Some,
    ensures
        r is Ok ==> rows_updated(
            table_rows(*old(c), TableId::Residents),
            table_rows(*final(c), TableId::Residents),
            p@.id->0,
            resident_vals(p@),
        ),
        r is Err ==> table_rows(*final(c), TableId::Residents) == table_rows(
            *old(c),
            TableId::Residents,
        ),
        r is Err ==> (r->Err_0).kind == ErrorKind::Constraint || (r->Err_0).kind
            == ErrorKind::Storage,
        other_rows_unchanged(*old(c), *final(c), TableId::Residents),
        presence_unchanged(*old(c), *final(c)),
{
    let id = p.id.unwrap();
    let sql = build_update_sql(TableId::Residents);
    let vals = resident_to_vals(p);
    exec_update(c, TableId::Residents, sql.as_str(), &vals, id as i64)
}

/// Removes the rows carrying the given id; removing an id no row has is a
/// success that removes nothing.
pub fn delete_resident(c: &mut rusqlite::Connection, id: i32) -> (r: Result<(), DbError>)
    ensures
        r is Ok ==> table_rows(*final(c), TableId::Residents) == table_rows(
            *old(c),
            TableId::Residents,
        ).filter(|row: Seq<DbVal>| !row_has_id(row, id as int)),
        r is Err ==> table_rows(*final(c), TableId::Residents) == table_rows(
            *old(c),
            TableId::Residents,
        ),
        r is Err ==> (r->Err_0).kind == ErrorKind::Storage,
        other_rows_unchanged(*old(c), *final(c), TableId::Residents),
        presence_unchanged(*old(c), *final(c)),
{
    let sql = build_delete_sql(TableId::Residents);
    exec_delete(c, TableId::Residents, sql.as_str(), id as i64)
}

/// Inserts when the record has no id yet, updates the named row otherwise.
pub fn save_resident(c: &mut rusqlite::Connection, p: &Resident) -> (r: Result<(), DbError>)
    ensures
        p.id is None && r is Ok ==> exists|id: int|
            {
                &&& fresh_row_id(table_rows(*old(c), TableId::Residents), id)
                &&& table_rows(*final(c), TableId::Residents) == table_rows(
                    *old(c),
                    TableId::Residents,
                ).push(#[trigger] row_with_id(id, resident_vals(p@)))
            },
        p.id is Some && r is Ok ==> rows_updated(
            table_rows(*old(c), TableId::Residents),
            table_rows(*final(c), TableId::Residents),
            p@.id->0,
            resident_vals(p@),
        ),
        r is Err ==> table_rows(*final(c), TableId::Residents) == table_rows(
            *old(c),
            TableId::Residents,
        ),
        r is Err ==> (r->Err_0).kind == ErrorKind::Constraint || (r->Err_0).kind
            == ErrorKind::Storage,
        other_rows_unchanged(*old(c), *final(c), TableId::Residents),
        presence_unchanged(*old(c), *final(c)),
{
    if p.id.is_some() {
        update_resident(c, p)
    } else {
        insert_resident(c, p)
    }
}

/// After a successful insert, fetching everything shows the old records
/// followed by one equal to the inserted record in every field except the
/// engine-assigned id.
pub proof fn lemma_insert_then_fetch_residents(rows: Seq<Seq<DbVal>>, p: ResidentV, id: int)
    requires
        residents_from_rows(rows) is Some,
        int_fits_i32(id),
    ensures
        residents_from_rows(rows.push(row_with_id(id, resident_vals(p)))) == Some(
            residents_from_rows(rows).unwrap().push(ResidentV { id: Some(id), ..p }),
        ),
{
    let row = row_with_id(id, resident_vals(p));
    assert(row =~= seq![DbVal::Int(id)] + resident_vals(p));
    assert(resident_from_row(row) == Some(ResidentV { id: Some(id), ..p }));
    lemma_rows_parsed_push(rows, |r: Seq<DbVal>| resident_from_row(r), row);
}

/// After a successful update, fetching everything shows every record with
/// the given id rebuilt from the new record alone — every field replaced,
/// nothing merged — and every other record untouched.
pub proof fn lemma_update_then_fetch_residents(
    pre: Seq<Seq<DbVal>>,
    post: Seq<Seq<DbVal>>,
    p: ResidentV,
    id: int,
)
    requires
        rows_updated(pre, post, id, resident_vals(p)),
        residents_from_rows(pre) is Some,
        int_fits_i32(id),
    ensures
        residents_from_rows(post) is Some,
        residents_from_rows(post).unwrap().len() == residents_from_rows(pre).unwrap().len(),
        forall|j: int|
            0 <= j < pre.len() ==> residents_from_rows(post).unwrap()[j] == (
            if residents_from_rows(pre).unwrap()[j].id == Some(id) {
                ResidentV { id: Some(id), ..p }
            } else {
                #[trigger] residents_from_rows(pre).unwrap()[j]
            }),
{
    let f = |r: Seq<DbVal>| resident_from_row(r);
    let urow = row_with_id(id, resident_vals(p));
    assert(urow =~= seq![DbVal::Int(id)] + resident_vals(p));
    assert(resident_from_row(urow) == Some(ResidentV { id: Some(id), ..p }));
    lemma_rows_parsed_index(pre, f);
    assert forall|j: int| 0 <= j < post.len() implies f(#[trigger] post[j]) is Some by {
        assert(f(pre[j]) is Some);
    }
    lemma_rows_parsed_all(post, f);
    lemma_rows_parsed_index(post, f);
    assert forall|j: int|
        0 <= j < pre.len() implies residents_from_rows(post).unwrap()[j] == (
    if residents_from_rows(pre).unwrap()[j].id == Some(id) {
        ResidentV { id: Some(id), ..p }
    } else {
        #[trigger] residents_from_rows(pre).unwrap()[j]
    }) by {
        assert(f(pre[j]) is Some);
        assert(residents_from_rows(pre).unwrap()[j] == f(pre[j]).unwrap());
        assert(row_has_id(pre[j], id) <==> residents_from_rows(pre).unwrap()[j].id == Some(id));
    }
}

} // verus!
