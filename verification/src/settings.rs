//! The settings repository: one singleton row with fixed id 1.
//!
//! Fetching is read-or-initialize: the first fetch on a fresh database
//! writes the empty default row and returns it, so no caller ever has to
//! special-case "no settings yet".

use vstd::prelude::*;

use crate::schema::{TableId, build_insert_sql, build_insert_with_id_sql, build_select_by_id_sql, build_update_sql};
use crate::store::{
    all_rows_unchanged, exec_insert, exec_insert_with_id, exec_update, other_rows_unchanged,
    presence_unchanged, query_by_id, table_rows,
};
use crate::values::{
    DbVal, DbValue, fresh_row_id, int_fits_i32, lemma_filter_single_match, opt_text_of,
    opt_text_val, row_has_id, row_with_id, rows_updated, text_of, text_val,
};
use crate::{DbError, ErrorKind};

verus! {

/// The settings record.
#[derive(Debug, Clone)]
pub struct Settings {
    pub id: Option<i32>,
    pub barangay: String,
    pub municipality: String,
    pub province: String,
    pub phone_number: String,
    pub email: String,
    pub logo: Option<String>,
    pub logo_municipality: Option<String>,
}

/// The mathematical value of the settings record.
pub struct SettingsV {
    pub id: Option<int>,
    pub barangay: Seq<char>,
    pub municipality: Seq<char>,
    pub province: Seq<char>,
    pub phone_number: Seq<char>,
    pub email: Seq<char>,
    pub logo: Option<Seq<char>>,
    pub logo_municipality: Option<Seq<char>>,
}

impl View for Settings {
    type V = SettingsV;

    open spec fn view(&self) -> SettingsV {
        SettingsV {
            id: match self.id {
                Some(i) => Some(i as int),
                None => None,
            },
            barangay: self.barangay@,
            municipality: self.municipality@,
            province: self.province@,
            phone_number: self.phone_number@,
            email: self.email@,
            logo: match self.logo {
                Some(s) => Some(s@),
                None => None,
            },
            logo_municipality: match self.logo_municipality {
                Some(s) => Some(s@),
                None => None,
            },
        }
    }
}

impl DeepView for Settings {
    type V = SettingsV;

    open spec fn deep_view(&self) -> SettingsV {
        self.view()
    }
}

/// The non-id cells of a settings record, in schema column order.
pub open spec fn settings_vals(s: SettingsV) -> Seq<DbVal> {
    seq![
        DbVal::Text(s.barangay),
        DbVal::Text(s.municipality),
        DbVal::Text(s.province),
        DbVal::Text(s.phone_number),
        DbVal::Text(s.email),
        match s.logo {
            Some(t) => DbVal::Text(t),
            None => DbVal::Null,
        },
        match s.logo_municipality {
            Some(t) => DbVal::Text(t),
            None => DbVal::Null,
        },
    ]
}

/// Reads a settings record back from a stored row; `None` if the row does
/// not have the settings shape.
pub open spec fn settings_from_row(row: Seq<DbVal>) -> Option<SettingsV> {
    if row.len() == 8 && row[0] is Int && int_fits_i32(row[0]->Int_0) && row[1] is Text
        && row[2] is Text && row[3] is Text && row[4] is Text && row[5] is Text && (row[6] is Text
        || row[6] is Null) && (row[7] is Text || row[7] is Null) {
        Some(
            SettingsV {
                id: Some(row[0]->Int_0),
                barangay: row[1]->Text_0,
                municipality: row[2]->Text_0,
                province: row[3]->Text_0,
                phone_number: row[4]->Text_0,
                email: row[5]->Text_0,
                logo: if row[6] is Text {
                    Some(row[6]->Text_0)
                } else {
                    None
                },
                logo_municipality: if row[7] is Text {
                    Some(row[7]->Text_0)
                } else {
                    None
                },
            },
        )
    } else {
        None
    }
}

/// The row the first fetch writes: id 1 and every column the empty string.
pub open spec fn default_settings_row() -> Seq<DbVal> {
    seq![
        DbVal::Int(1),
        DbVal::Text(Seq::empty()),
        DbVal::Text(Seq::empty()),
        DbVal::Text(Seq::empty()),
        DbVal::Text(Seq::empty()),
        DbVal::Text(Seq::empty()),
        DbVal::Text(Seq::empty()),
        DbVal::Text(Seq::empty()),
    ]
}

/// The record the first fetch returns, matching the default row.
pub open spec fn default_settings() -> SettingsV {
    SettingsV {
        id: Some(1),
        barangay: Seq::empty(),
        municipality: Seq::empty(),
        province: Seq::empty(),
        phone_number: Seq::empty(),
        email: Seq::empty(),
        logo: Some(Seq::empty()),
        logo_municipality: Some(Seq::empty()),
    }
}

fn settings_from_row_exec(row: &Vec<DbValue>) -> (r: Option<Settings>)
    ensures
        match r {
            Some(s) => settings_from_row(row.deep_view()) == Some(s@),
            None => settings_from_row(row.deep_view()) is None,
        },
{
    if row.len() != 8 {
        return None;
    }
    let id = match crate::values::i32_of(&row[0]) {
        Some(x) => x,
        None => { return None },
    };
    let barangay = match text_of(&row[1]) {
        Some(s) => s,
        None => { return None },
    };
    let municipality = match text_of(&row[2]) {
        Some(s) => s,
        None => { return None },
    };
    let province = match text_of(&row[3]) {
        Some(s) => s,
        None => { return None },
    };
    let phone_number = match text_of(&row[4]) {
        Some(s) => s,
        None => { return None },
    };
    let email = match text_of(&row[5]) {
        Some(s) => s,
        None => { return None },
    };
    let logo = match opt_text_of(&row[6]) {
        Some(o) => o,
        None => { return None },
    };
    let logo_municipality = match opt_text_of(&row[7]) {
        Some(o) => o,
        None => { return None },
    };
    let s = Settings {
        id: Some(id),
        barangay,
        municipality,
        province,
        phone_number,
        email,
        logo,
        logo_municipality,
    };
    proof {
        assert(settings_from_row(row.deep_view()) == Some(s@));
    }
    Some(s)
}

/// Fetches the singleton settings row, writing the empty default row first
/// when none exists yet: a read with a one-time initialization side effect,
/// never an error for the "no settings yet" case.
pub fn fetch_settings(c: &mut rusqlite::Connection) -> (r: Result<Settings, DbError>)
    ensures
        ({
            let m = table_rows(*old(c), TableId::Settings).filter(
                |row: Seq<DbVal>| row_has_id(row, 1),
            );
            &&& (m.len() > 0 ==> all_rows_unchanged(*old(c), *final(c)))
            &&& (m.len() > 0 && r is Ok ==> settings_from_row(m[0]) == Some(r->Ok_0@))
            &&& (m.len() == 0 && r is Ok ==> r->Ok_0@ == default_settings() && (exists|k: int|
                0 <= k <= table_rows(*old(c), TableId::Settings).len() && table_rows(
                    *final(c),
                    TableId::Settings,
                ) == #[trigger] table_rows(*old(c), TableId::Settings).insert(
                    k,
                    default_settings_row(),
                )))
            &&& (r is Err ==> all_rows_unchanged(*old(c), *final(c)))
            &&& other_rows_unchanged(*old(c), *final(c), TableId::Settings)
            &&& presence_unchanged(*old(c), *final(c))
        }),
{
    let sql = build_select_by_id_sql(TableId::Settings);
    let rows = match query_by_id(&*c, TableId::Settings, sql.as_str(), 1) {
        Ok(v) => v,
        Err(e) => { return Err(e) },
    };
    if rows.len() > 0 {
        let row = &rows[0];
        proof {
            assert(row.deep_view() == rows.deep_view()[0]);
        }
        match settings_from_row_exec(row) {
            Some(s) => Ok(s),
            None => Err(
                DbError { kind: ErrorKind::Query, message: "malformed settings row".to_owned() },
            ),
        }
    } else {
        let mut vals: Vec<DbValue> = Vec::new();
        vals.push(DbValue::Int(1));
        let mut k: usize = 0;
        while k < 7
            invariant
                vals@.len() == 1 + k,
                k <= 7,
                vals.deep_view() == default_settings_row().take(1 + k as int),
            decreases 7 - k,
        {
            vals.push(DbValue::Text(String::new()));
            proof {
                assert(vals.deep_view() =~= default_settings_row().take(2 + k as int));
            }
            k = k + 1;
        }
        proof {
            assert(vals.deep_view() =~= default_settings_row());
        }
        let isql = build_insert_with_id_sql(TableId::Settings);
        match exec_insert_with_id(c, TableId::Settings, isql.as_str(), &vals) {
            Ok(()) => {
                let s = Settings {
                    id: Some(1),
                    barangay: String::new(),
                    municipality: String::new(),
                    province: String::new(),
                    phone_number: String::new(),
                    email: String::new(),
                    logo: Some(String::new()),
                    logo_municipality: Some(String::new()),
                };
                proof {
                    assert(s@ == default_settings());
                }
                Ok(s)
            },
            Err(e) => Err(e),
        }
    }
}

/// Updates the row the record's id names when one is set, inserts a fresh
/// row otherwise; the table's constraint makes id 1 the only row that can
/// ever exist.
pub fn save_settings(c: &mut rusqlite::Connection, s: &Settings) -> (r: Result<(), DbError>)
    ensures
        s.id is Some && r is Ok ==> rows_updated(
            table_rows(*old(c), TableId::Settings),
            table_rows(*final(c), TableId::Settings),
            s@.id->0,
            settings_vals(s@),
        ),
        s.id is None && r is Ok ==> exists|id: int|
            {
                &&& fresh_row_id(table_rows(*old(c), TableId::Settings), id)
                &&& id == 1
                &&& table_rows(*final(c), TableId::Settings) == table_rows(
                    *old(c),
                    TableId::Settings,
                ).push(#[trigger] row_with_id(id, settings_vals(s@)))
            },
        r is Err ==> table_rows(*final(c), TableId::Settings) == table_rows(
            *old(c),
            TableId::Settings,
        ),
        r is Err ==> (r->Err_0).kind == ErrorKind::Constraint || (r->Err_0).kind
            == ErrorKind::Storage,
        other_rows_unchanged(*old(c), *final(c), TableId::Settings),
        presence_unchanged(*old(c), *final(c)),
{
    let mut vals: Vec<DbValue> = Vec::new();
    vals.push(text_val(&s.barangay));
    vals.push(text_val(&s.municipality));
    vals.push(text_val(&s.province));
    vals.push(text_val(&s.phone_number));
    vals.push(text_val(&s.email));
    vals.push(opt_text_val(&s.logo));
    vals.push(opt_text_val(&s.logo_municipality));
    proof {
        assert(vals.deep_view() =~= settings_vals(s@));
    }
    match s.id {
        Some(id) => {
            let sql = build_update_sql(TableId::Settings);
            exec_update(c, TableId::Settings, sql.as_str(), &vals, id as i64)
        },
        None => {
            let sql = build_insert_sql(TableId::Settings);
            exec_insert(c, TableId::Settings, sql.as_str(), &vals)
        },
    }
}

/// Reads the logo column of the settings row; a missing row is an error,
/// a NULL logo is an absent one.
pub fn fetch_logo(c: &rusqlite::Connection) -> (r: Result<Option<String>, DbError>)
    ensures
        ({
            let m = table_rows(*c, TableId::Settings).filter(|row: Seq<DbVal>| row_has_id(row, 1));
            &&& (r matches Ok(v) ==> {
                &&& m.len() > 0
                &&& m[0].len() == 8
                &&& (match v {
                    Some(s) => m[0][6] == DbVal::Text(s@),
                    None => m[0][6] is Null,
                })
            })
            &&& (m.len() == 0 ==> r is Err)
        }),
{
    let sql = build_select_by_id_sql(TableId::Settings);
    let rows = match query_by_id(c, TableId::Settings, sql.as_str(), 1) {
        Ok(v) => v,
        Err(e) => { return Err(e) },
    };
    if rows.len() == 0 {
        return Err(DbError { kind: ErrorKind::Query, message: "no settings row".to_owned() });
    }
    let row = &rows[0];
    proof {
        assert(row.deep_view() == rows.deep_view()[0]);
    }
    if row.len() != 8 {
        return Err(DbError { kind: ErrorKind::Query, message: "malformed settings row".to_owned() });
    }
    match opt_text_of(&row[6]) {
        Some(o) => Ok(o),
        None => Err(
            DbError { kind: ErrorKind::Query, message: "malformed settings row".to_owned() },
        ),
    }
}

/// The bootstrap is idempotent: once the first fetch has written the
/// default row where none was, the row with id 1 exists, parses back to the
/// default record, and a second fetch finds it instead of writing again —
/// wherever in scan order the written row landed.
pub proof fn lemma_settings_bootstrap(rows: Seq<Seq<DbVal>>, k: int)
    requires
        rows.filter(|row: Seq<DbVal>| row_has_id(row, 1)).len() == 0,
        0 <= k <= rows.len(),
    ensures
        ({
            let rows2 = rows.insert(k, default_settings_row());
            let m = rows2.filter(|row: Seq<DbVal>| row_has_id(row, 1));
            &&& m.len() == 1
            &&& m[0] == default_settings_row()
            &&& settings_from_row(default_settings_row()) == Some(default_settings())
        }),
{
    let pred = |row: Seq<DbVal>| row_has_id(row, 1);
    let rows2 = rows.insert(k, default_settings_row());
    assert(rows2[k] == default_settings_row());
    assert(row_has_id(default_settings_row(), 1));
    assert forall|j: int| 0 <= j < rows2.len() && j != k implies !pred(#[trigger] rows2[j]) by {
        if j < k {
            assert(rows2[j] == rows[j]);
            lemma_filter_no_survivor(rows, pred, j);
        } else {
            assert(rows2[j] == rows[j - 1]);
            lemma_filter_no_survivor(rows, pred, j - 1);
        }
    }
    lemma_filter_single_match(rows2, k, pred);
}

/// Every way the settings table can change keeps its fixed key: an update
/// rewrites a row in place with the row's own key, and the only insert that
/// can succeed writes key 1, so a table whose rows all carry key 1 still
/// does afterwards — the singleton invariant of the settings row.
pub proof fn lemma_settings_singleton(
    pre: Seq<Seq<DbVal>>,
    post: Seq<Seq<DbVal>>,
    id: int,
    vals: Seq<DbVal>,
)
    requires
        forall|j: int| 0 <= j < pre.len() ==> row_has_id(#[trigger] pre[j], 1),
        rows_updated(pre, post, id, vals) || post == pre.push(row_with_id(1, vals)),
    ensures
        forall|j: int| 0 <= j < post.len() ==> row_has_id(#[trigger] post[j], 1),
{
    if rows_updated(pre, post, id, vals) {
        assert forall|j: int| 0 <= j < post.len() implies row_has_id(#[trigger] post[j], 1) by {
            if row_has_id(pre[j], id) {
                assert(id == 1);
            }
        }
    }
}

/// When a filter keeps nothing, no row satisfied it.
proof fn lemma_filter_no_survivor(
    rows: Seq<Seq<DbVal>>,
    pred: spec_fn(Seq<DbVal>) -> bool,
    j: int,
)
    requires
        rows.filter(pred).len() == 0,
        0 <= j < rows.len(),
    ensures
        !pred(rows[j]),
    decreases rows.len(),
{
    reveal(Seq::filter);
    if j == rows.len() - 1 {
        assert(rows.last() == rows[j]);
    } else {
        assert(rows.drop_last()[j] == rows[j]);
        lemma_filter_no_survivor(rows.drop_last(), pred, j);
    }
}

} // verus!
