//! The household repository: households and their ordered lists of member
//! references, one row each.
//!
//! The member list is persisted as one JSON-encoded TEXT cell. Every write
//! encodes the list canonically; every read decodes leniently, resolving a
//! malformed or absent cell to an empty list instead of failing the row.

use vstd::prelude::*;

use crate::jsonlist::{
    decode_or_empty, encode_string_list, json_list, parse_string_list,
};
use crate::schema::{TableId, build_delete_sql, build_insert_sql, build_select_by_id_sql, build_select_sql, build_update_sql};
use crate::store::{
    exec_delete, exec_insert, exec_update, other_rows_unchanged, presence_unchanged, query_all,
    query_by_id, table_rows,
};
use crate::values::{
    DbVal, DbValue, fresh_row_id, int_fits_i32, lemma_rows_parsed_all, lemma_rows_parsed_bad_row,
    lemma_rows_parsed_index, lemma_rows_parsed_push, row_has_id, row_with_id, rows_parsed,
    opt_text_of, rows_updated, text_of, text_val, i32_of, i32_val,
};
use crate::{DbError, ErrorKind};

verus! {

/// A household record.
#[derive(Debug, Clone)]
pub struct Household {
    pub id: Option<i32>,
    pub household_number: i32,
    pub type_: String,
    pub members: i32,
    pub head: String,
    pub zone: String,
    pub date: String,
    pub status: String,
    pub selected_residents: Vec<String>,
}

/// The mathematical value of a household record.
pub struct HouseholdV {
    pub id: Option<int>,
    pub household_number: int,
    pub type_: Seq<char>,
    pub members: int,
    pub head: Seq<char>,
    pub zone: Seq<char>,
    pub date: Seq<char>,
    pub status: Seq<char>,
    pub selected_residents: Seq<Seq<char>>,
}

impl View for Household {
    type V = HouseholdV;

    open spec fn view(&self) -> HouseholdV {
        HouseholdV {
            id: match self.id {
                Some(i) => Some(i as int),
                None => None,
            },
            household_number: self.household_number as int,
            type_: self.type_@,
            members: self.members as int,
            head: self.head@,
            zone: self.zone@,
            date: self.date@,
            status: self.status@,
            selected_residents: self.selected_residents.deep_view(),
        }
    }
}

impl DeepView for Household {
    type V = HouseholdV;

    open spec fn deep_view(&self) -> HouseholdV {
        self.view()
    }
}

/// The non-id cells of a household, in schema column order; the member list
/// is its canonical JSON encoding.
pub open spec fn household_vals(h: HouseholdV) -> Seq<DbVal> {
    seq![
        DbVal::Int(h.household_number),
        DbVal::Text(h.type_),
        DbVal::Int(h.members),
        DbVal::Text(h.head),
        DbVal::Text(h.zone),
        DbVal::Text(h.date),
        DbVal::Text(h.status),
        DbVal::Text(json_list(h.selected_residents)),
    ]
}

/// What a stored member cell means on read: a text cell holds the list it
/// parses to, or an empty list when it is not a JSON array of strings; an
/// absent cell is an empty list too; an integer cell has no meaning.
pub open spec fn list_cell_value(cell: DbVal) -> Option<Seq<Seq<char>>> {
    match cell {
        DbVal::Text(s) => Some(
            match parse_string_list(s) {
                Some(l) => l,
                None => Seq::empty(),
            },
        ),
        DbVal::Null => Some(Seq::empty()),
        DbVal::Int(_) => None,
    }
}

/// Reads a household back from a stored row; `None` if the row does not
/// have the household shape. The member cell is read leniently: a malformed
/// or absent string resolves to an empty list.
pub open spec fn household_from_row(row: Seq<DbVal>) -> Option<HouseholdV> {
    if row.len() == 9 && row[0] is Int && int_fits_i32(row[0]->Int_0) && row[1] is Int
        && int_fits_i32(row[1]->Int_0) && row[2] is Text && row[3] is Int && int_fits_i32(
        row[3]->Int_0,
    ) && row[4] is Text && row[5] is Text && row[6] is Text && row[7] is Text && !(row[8] is Int) {
        Some(
            HouseholdV {
                id: Some(row[0]->Int_0),
                household_number: row[1]->Int_0,
                type_: row[2]->Text_0,
                members: row[3]->Int_0,
                head: row[4]->Text_0,
                zone: row[5]->Text_0,
                date: row[6]->Text_0,
                status: row[7]->Text_0,
                selected_residents: match list_cell_value(row[8]) {
                    Some(l) => l,
                    None => Seq::empty(),
                },
            },
        )
    } else {
        None
    }
}

/// The whole households table, read back in storage order.
pub open spec fn households_from_rows(rows: Seq<Seq<DbVal>>) -> Option<Seq<HouseholdV>> {
    rows_parsed(rows, |row: Seq<DbVal>| household_from_row(row))
}

fn household_to_vals(h: &Household) -> (r: Vec<DbValue>)
    ensures
        r.deep_view() == household_vals(h@),
        r@.len() == 8,
{
    let mut v: Vec<DbValue> = Vec::new();
    v.push(i32_val(h.household_number));
    v.push(text_val(&h.type_));
    v.push(i32_val(h.members));
    v.push(text_val(&h.head));
    v.push(text_val(&h.zone));
    v.push(text_val(&h.date));
    v.push(text_val(&h.status));
    let encoded = encode_string_list(&h.selected_residents);
    v.push(DbValue::Text(encoded));
    proof {
        assert(v.deep_view() =~= household_vals(h@));
    }
    v
}

fn household_from_row_exec(row: &Vec<DbValue>) -> (r: Option<Household>)
    ensures
        match r {
            Some(h) => household_from_row(row.deep_view()) == Some(h@) && h.id is Some,
            None => household_from_row(row.deep_view()) is None,
        },
{
    if row.len() != 9 {
        return None;
    }
    let id = match i32_of(&row[0]) {
        Some(x) => x,
        None => { return None },
    };
    let household_number = match i32_of(&row[1]) {
        Some(x) => x,
        None => { return None },
    };
    let type_ = match text_of(&row[2]) {
        Some(s) => s,
        None => { return None },
    };
    let members = match i32_of(&row[3]) {
        Some(x) => x,
        None => { return None },
    };
    let head = match text_of(&row[4]) {
        Some(s) => s,
        None => { return None },
    };
    let zone = match text_of(&row[5]) {
        Some(s) => s,
        None => { return None },
    };
    let date = match text_of(&row[6]) {
        Some(s) => s,
        None => { return None },
    };
    let status = match text_of(&row[7]) {
        Some(s) => s,
        None => { return None },
    };
    let selected_residents: Vec<String> = match opt_text_of(&row[8]) {
        Some(Some(s)) => decode_or_empty(s.as_str()),
        Some(None) => {
            let empty: Vec<String> = Vec::new();
            proof {
                assert(empty.deep_view() =~= Seq::<Seq<char>>::empty());
            }
            empty
        },
        None => { return None },
    };
    let h = Household {
        id: Some(id),
        household_number,
        type_,
        members,
        head,
        zone,
        date,
        status,
        selected_residents,
    };
    proof {
        assert(household_from_row(row.deep_view()) == Some(h@));
    }
    Some(h)
}

/// Selects every row of the households table, in storage order, decoding
/// each member list leniently: a cell that is not a JSON array of strings,
/// or that is absent, reads back as an empty list while the rest of the row
/// and every other row come through unharmed.
pub fn fetch_all_households(c: &rusqlite::Connection) -> (r: Result<Vec<Household>, DbError>)
    ensures
        r matches Ok(v) ==> households_from_rows(table_rows(*c, TableId::Households)) == Some(
            v.deep_view(),
        ),
        households_from_rows(table_rows(*c, TableId::Households)) is None ==> r is Err,
        r is Err ==> (r->Err_0).kind == ErrorKind::Query,
{
    let sql = build_select_sql(TableId::Households);
    let raw = match query_all(c, TableId::Households, sql.as_str()) {
        Ok(v) => v,
        Err(e) => { return Err(e) },
    };
    let ghost all = raw.deep_view();
    let mut out: Vec<Household> = Vec::new();
    let mut i: usize = 0;
    while i < raw.len()
        invariant
            i <= raw.len(),
            all == raw.deep_view(),
            all == table_rows(*c, TableId::Households),
            rows_parsed(all.take(i as int), |row: Seq<DbVal>| household_from_row(row)) == Some(
                out.deep_view(),
            ),
        decreases raw.len() - i,
    {
        match household_from_row_exec(&raw[i]) {
            Some(h) => {
                proof {
                    assert(raw[i as int].deep_view() == all[i as int]);
                    lemma_rows_parsed_push(
                        all.take(i as int),
                        |row: Seq<DbVal>| household_from_row(row),
                        all[i as int],
                    );
                    assert(all.take(i as int).push(all[i as int]) =~= all.take(i as int + 1));
                }
                out.push(h);
            },
            None => {
                proof {
                    assert(raw[i as int].deep_view() == all[i as int]);
                    lemma_rows_parsed_bad_row(
                        all,
                        |row: Seq<DbVal>| household_from_row(row),
                        i as int,
                    );
                }
                return Err(
                    DbError {
                        kind: ErrorKind::Query,
                        message: "malformed household row".to_owned(),
                    },
                );
            },
        }
        i = i + 1;
    }
    proof {
        assert(all.take(raw.len() as int) =~= all);
    }
    Ok(out)
}

/// Looks up one household's member list by id, reading the cell the same
/// lenient way every fetch does: a malformed or absent string is an empty
/// list. A household that does not exist, or an integer cell, is an error.
pub fn fetch_members_by_household(c: &rusqlite::Connection, household_id: i32) -> (r: Result<
    Vec<String>,
    DbError,
>)
    ensures
        ({
            let m = table_rows(*c, TableId::Households).filter(
                |row: Seq<DbVal>| row_has_id(row, household_id as int),
            );
            &&& (r matches Ok(v) ==> {
                &&& m.len() > 0
                &&& m[0].len() == 9
                &&& list_cell_value(m[0][8]) == Some(v.deep_view())
            })
            &&& (m.len() == 0 ==> r is Err)
            &&& (r is Err ==> (r->Err_0).kind == ErrorKind::Query)
        }),
{
    let sql = build_select_by_id_sql(TableId::Households);
    let rows = match query_by_id(c, TableId::Households, sql.as_str(), household_id as i64) {
        Ok(v) => v,
        Err(e) => { return Err(e) },
    };
    if rows.len() == 0 {
        return Err(DbError { kind: ErrorKind::Query, message: "no such household".to_owned() });
    }
    let row = &rows[0];
    proof {
        assert(row.deep_view() == rows.deep_view()[0]);
    }
    if row.len() != 9 {
        return Err(DbError { kind: ErrorKind::Query, message: "malformed household row".to_owned() });
    }
    match opt_text_of(&row[8]) {
        Some(Some(s)) => Ok(decode_or_empty(s.as_str())),
        Some(None) => Ok(Vec::new()),
        None => Err(
            DbError { kind: ErrorKind::Query, message: "malformed household row".to_owned() },
        ),
    }
}

/// Appends one household; the storage engine assigns the id, and the
/// record's own id field is ignored, as every caller hands a fresh record.
pub fn insert_household(c: &mut rusqlite::Connection, h: &Household) -> (r: Result<(), DbError>)
    ensures
        r is Ok ==> exists|id: int|
            {
                &&& fresh_row_id(table_rows(*old(c), TableId::Households), id)
                &&& table_rows(*final(c), TableId::Households) == table_rows(
                    *old(c),
                    TableId::Households,
                ).push(#[trigger] row_with_id(id, household_vals(h@)))
            },
        r is Err ==> table_rows(*final(c), TableId::Households) == table_rows(
            *old(c),
            TableId::Households,
        ),
        r is Err ==> (r->Err_0).kind == ErrorKind::Constraint || (r->Err_0).kind
            == ErrorKind::Storage,
        other_rows_unchanged(*old(c), *final(c), TableId::Households),
        presence_unchanged(*old(c), *final(c)),
{
    let sql = build_insert_sql(TableId::Households);
    let vals = household_to_vals(h);
    exec_insert(c, TableId::Households, sql.as_str(), &vals)
}

/// Overwrites every non-id column of the row the record's id names; a row
/// that does not exist leaves the table unchanged, still a success.
pub fn update_household(c: &mut rusqlite::Connection, h: &Household) -> (r: Result<(), DbError>)
    requires
        h.id is Some,
    ensures
        r is Ok ==> rows_updated(
            table_rows(*old(c), TableId::Households),
            table_rows(*final(c), TableId::Households),
            h@.id->0,
            household_vals(h@),
        ),
        r is Err ==> table_rows(*final(c), TableId::Households) == table_rows(
            *old(c),
            TableId::Households,
        ),
        r is Err ==> (r->Err_0).kind == ErrorKind::Constraint || (r->Err_0).kind
            == ErrorKind::Storage,
        other_rows_unchanged(*old(c), *final(c), TableId::Households),
        presence_unchanged(*old(c), *final(c)),
{
    let id = h.id.unwrap();
    let sql = build_update_sql(TableId::Households);
    let vals = household_to_vals(h);
    exec_update(c, TableId::Households, sql.as_str(), &vals, id as i64)
}

/// Removes the rows carrying the given id; removing an id no row has is a
/// success that removes nothing.
pub fn delete_household(c: &mut rusqlite::Connection, id: i32) -> (r: Result<(), DbError>)
    ensures
        r is Ok ==> table_rows(*final(c), TableId::Households) == table_rows(
            *old(c),
            TableId::Households,
        ).filter(|row: Seq<DbVal>| !row_has_id(row, id as int)),
        r is Err ==> table_rows(*final(c), TableId::Households) == table_rows(
            *old(c),
            TableId::Households,
        ),
        r is Err ==> (r->Err_0).kind == ErrorKind::Storage,
        other_rows_unchanged(*old(c), *final(c), TableId::Households),
        presence_unchanged(*old(c), *final(c)),
{
    let sql = build_delete_sql(TableId::Households);
    exec_delete(c, TableId::Households, sql.as_str(), id as i64)
}

/// Inserts when the record has no id yet, updates the named row otherwise.
pub fn save_household(c: &mut rusqlite::Connection, h: &Household) -> (r: Result<(), DbError>)
    ensures
        h.id is None && r is Ok ==> exists|id: int|
            {
                &&& fresh_row_id(table_rows(*old(c), TableId::Households), id)
                &&& table_rows(*final(c), TableId::Households) == table_rows(
                    *old(c),
                    TableId::Households,
                ).push(#[trigger] row_with_id(id, household_vals(h@)))
            },
        h.id is Some && r is Ok ==> rows_updated(
            table_rows(*old(c), TableId::Households),
            table_rows(*final(c), TableId::Households),
            h@.id->0,
            household_vals(h@),
        ),
        r is Err ==> table_rows(*final(c), TableId::Households) == table_rows(
            *old(c),
            TableId::Households,
        ),
        r is Err ==> (r->Err_0).kind == ErrorKind::Constraint || (r->Err_0).kind
            == ErrorKind::Storage,
        other_rows_unchanged(*old(c), *final(c), TableId::Households),
        presence_unchanged(*old(c), *final(c)),
{
    if h.id.is_some() {
        update_household(c, h)
    } else {
        insert_household(c, h)
    }
}

/// After a successful insert, fetching everything shows the old records
/// followed by one equal to the inserted record in every field except the
/// engine-assigned id — the member list included, in its exact order,
/// whether empty or not.
pub proof fn lemma_insert_then_fetch_households(rows: Seq<Seq<DbVal>>, h: HouseholdV, id: int)
    requires
        households_from_rows(rows) is Some,
        int_fits_i32(id),
        int_fits_i32(h.household_number),
        int_fits_i32(h.members),
    ensures
        households_from_rows(rows.push(row_with_id(id, household_vals(h)))) == Some(
            households_from_rows(rows).unwrap().push(HouseholdV { id: Some(id), ..h }),
        ),
{
    let row = row_with_id(id, household_vals(h));
    assert(row =~= seq![DbVal::Int(id)] + household_vals(h));
    crate::jsonlist::lemma_json_roundtrip(h.selected_residents);
    assert(household_from_row(row) == Some(HouseholdV { id: Some(id), ..h }));
    lemma_rows_parsed_push(rows, |r: Seq<DbVal>| household_from_row(r), row);
}

/// After a successful update, fetching everything shows every record with
/// the given id rebuilt from the new record alone — every field replaced,
/// nothing merged — and every other record untouched.
pub proof fn lemma_update_then_fetch_households(
    pre: Seq<Seq<DbVal>>,
    post: Seq<Seq<DbVal>>,
    h: HouseholdV,
    id: int,
)
    requires
        rows_updated(pre, post, id, household_vals(h)),
        households_from_rows(pre) is Some,
        int_fits_i32(id),
        int_fits_i32(h.household_number),
        int_fits_i32(h.members),
    ensures
        households_from_rows(post) is Some,
        households_from_rows(post).unwrap().len() == households_from_rows(pre).unwrap().len(),
        forall|j: int|
            0 <= j < pre.len() ==> households_from_rows(post).unwrap()[j] == (
            if households_from_rows(pre).unwrap()[j].id == Some(id) {
                HouseholdV { id: Some(id), ..h }
            } else {
                #[trigger] households_from_rows(pre).unwrap()[j]
            }),
{
    let f = |r: Seq<DbVal>| household_from_row(r);
    let urow = row_with_id(id, household_vals(h));
    assert(urow =~= seq![DbVal::Int(id)] + household_vals(h));
    crate::jsonlist::lemma_json_roundtrip(h.selected_residents);
    assert(household_from_row(urow) == Some(HouseholdV { id: Some(id), ..h }));
    lemma_rows_parsed_index(pre, f);
    assert forall|j: int| 0 <= j < post.len() implies f(#[trigger] post[j]) is Some by {
        assert(f(pre[j]) is Some);
    }
    lemma_rows_parsed_all(post, f);
    lemma_rows_parsed_index(post, f);
    assert forall|j: int|
        0 <= j < pre.len() implies households_from_rows(post).unwrap()[j] == (
    if households_from_rows(pre).unwrap()[j].id == Some(id) {
        HouseholdV { id: Some(id), ..h }
    } else {
        #[trigger] households_from_rows(pre).unwrap()[j]
    }) by {
        assert(f(pre[j]) is Some);
        assert(households_from_rows(pre).unwrap()[j] == f(pre[j]).unwrap());
        assert(row_has_id(pre[j], id) <==> households_from_rows(pre).unwrap()[j].id == Some(id));
    }
}

/// A stored member cell that is not a JSON array of strings — or that is
/// absent altogether — does not fail the fetch: the row still reads back,
/// with an empty member list.
pub proof fn lemma_corrupt_list_reads_empty(row: Seq<DbVal>)
    requires
        household_from_row(row) is Some,
        row[8] is Null || (row[8] is Text && parse_string_list(row[8]->Text_0) is None),
    ensures
        household_from_row(row).unwrap().selected_residents == Seq::<Seq<char>>::empty(),
{
}

} // verus!
