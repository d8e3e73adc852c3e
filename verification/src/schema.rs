//! The declarative schema: one table per record type, each described by its
//! name and its column list, plus the SQL text of every statement shape the
//! repositories use. The statements are built by verified code and proved
//! equal to the spec-level text that the trusted store layer requires.

use vstd::prelude::*;

use crate::values::DbVal;

verus! {

/// One table of the database.
#[derive(Clone, Copy, PartialEq, Eq, Structural, Debug)]
pub enum TableId {
    Blotters,
    Incomes,
    Expenses,
    Households,
    Events,
    Logbook,
    Settings,
    Residents,
    Officials,
    Certificates,
    Users,
}

/// The table's name as it appears in every statement.
pub open spec fn table_name(t: TableId) -> Seq<char> {
    match t {
        TableId::Blotters => "blotters"@,
        TableId::Incomes => "incomes"@,
        TableId::Expenses => "expenses"@,
        TableId::Households => "households"@,
        TableId::Events => "events"@,
        TableId::Logbook => "logbook"@,
        TableId::Settings => "settings"@,
        TableId::Residents => "residents"@,
        TableId::Officials => "officials"@,
        TableId::Certificates => "certificates"@,
        TableId::Users => "users"@,
    }
}

/// The comma-separated list of the table's non-id columns, in the fixed
/// order every statement uses.
pub open spec fn insert_cols(t: TableId) -> Seq<char> {
    match t {
        TableId::Blotters => "type_, reported_by, involved, incident_date, location, zone, status, narrative, action, witnesses, evidence, resolution, hearing_date"@,
        TableId::Incomes => "type_, amount, or_number, received_from, received_by, category, date"@,
        TableId::Expenses => "type_, amount, or_number, paid_to, paid_by, category, date"@,
        TableId::Households => "household_number, type_, members, head, zone, date, status, selected_residents"@,
        TableId::Events => "name, type_, status, date, venue, attendee, notes"@,
        TableId::Logbook => "official_name, date, time_in_am, time_out_am, time_in_pm, time_out_pm, remarks, status, total_hours"@,
        TableId::Settings => "barangay, municipality, province, phone_number, email, logo, logo_municipality"@,
        TableId::Residents => "prefix, first_name, middle_name, last_name, suffix, civil_status, gender, nationality, mobile_number, date_of_birth, town_of_birth, province_of_birth, zone, barangay, town, province, father_prefix, father_first_name, father_middle_name, father_last_name, father_suffix, mother_prefix, mother_first_name, mother_middle_name, mother_last_name, status, photo, is_registered_voter, is_pwd, is_senior"@,
        TableId::Officials => "name, role, image, section, age, contact, term_start, term_end, zone"@,
        TableId::Certificates => "resident_name, type_, age, civil_status, ownership_text, amount, issued_date"@,
        TableId::Users => "username, password"@,
    }
}

/// The `SET` clause assigning every non-id column, in the same order.
pub open spec fn set_cols(t: TableId) -> Seq<char> {
    match t {
        TableId::Blotters => "type_ = ?, reported_by = ?, involved = ?, incident_date = ?, location = ?, zone = ?, status = ?, narrative = ?, action = ?, witnesses = ?, evidence = ?, resolution = ?, hearing_date = ?"@,
        TableId::Incomes => "type_ = ?, amount = ?, or_number = ?, received_from = ?, received_by = ?, category = ?, date = ?"@,
        TableId::Expenses => "type_ = ?, amount = ?, or_number = ?, paid_to = ?, paid_by = ?, category = ?, date = ?"@,
        TableId::Households => "household_number = ?, type_ = ?, members = ?, head = ?, zone = ?, date = ?, status = ?, selected_residents = ?"@,
        TableId::Events => "name = ?, type_ = ?, status = ?, date = ?, venue = ?, attendee = ?, notes = ?"@,
        TableId::Logbook => "official_name = ?, date = ?, time_in_am = ?, time_out_am = ?, time_in_pm = ?, time_out_pm = ?, remarks = ?, status = ?, total_hours = ?"@,
        TableId::Settings => "barangay = ?, municipality = ?, province = ?, phone_number = ?, email = ?, logo = ?, logo_municipality = ?"@,
        TableId::Residents => "prefix = ?, first_name = ?, middle_name = ?, last_name = ?, suffix = ?, civil_status = ?, gender = ?, nationality = ?, mobile_number = ?, date_of_birth = ?, town_of_birth = ?, province_of_birth = ?, zone = ?, barangay = ?, town = ?, province = ?, father_prefix = ?, father_first_name = ?, father_middle_name = ?, father_last_name = ?, father_suffix = ?, mother_prefix = ?, mother_first_name = ?, mother_middle_name = ?, mother_last_name = ?, status = ?, photo = ?, is_registered_voter = ?, is_pwd = ?, is_senior = ?"@,
        TableId::Officials => "name = ?, role = ?, image = ?, section = ?, age = ?, contact = ?, term_start = ?, term_end = ?, zone = ?"@,
        TableId::Certificates => "resident_name = ?, type_ = ?, age = ?, civil_status = ?, ownership_text = ?, amount = ?, issued_date = ?"@,
        TableId::Users => "username = ?, password = ?"@,
    }
}

/// How many non-id columns the table has.
pub open spec fn col_count(t: TableId) -> int {
    match t {
        TableId::Blotters => 13,
        TableId::Incomes => 7,
        TableId::Expenses => 7,
        TableId::Households => 8,
        TableId::Events => 7,
        TableId::Logbook => 9,
        TableId::Settings => 7,
        TableId::Residents => 30,
        TableId::Officials => 9,
        TableId::Certificates => 7,
        TableId::Users => 2,
    }
}

pub fn table_name_str(t: TableId) -> (r: &'static str)
    ensures
        r@ == table_name(t),
{
    match t {
        TableId::Blotters => "blotters",
        TableId::Incomes => "incomes",
        TableId::Expenses => "expenses",
        TableId::Households => "households",
        TableId::Events => "events",
        TableId::Logbook => "logbook",
        TableId::Settings => "settings",
        TableId::Residents => "residents",
        TableId::Officials => "officials",
        TableId::Certificates => "certificates",
        TableId::Users => "users",
    }
}

pub fn insert_cols_str(t: TableId) -> (r: &'static str)
    ensures
        r@ == insert_cols(t),
{
    match t {
        TableId::Blotters => "type_, reported_by, involved, incident_date, location, zone, status, narrative, action, witnesses, evidence, resolution, hearing_date",
        TableId::Incomes => "type_, amount, or_number, received_from, received_by, category, date",
        TableId::Expenses => "type_, amount, or_number, paid_to, paid_by, category, date",
        TableId::Households => "household_number, type_, members, head, zone, date, status, selected_residents",
        TableId::Events => "name, type_, status, date, venue, attendee, notes",
        TableId::Logbook => "official_name, date, time_in_am, time_out_am, time_in_pm, time_out_pm, remarks, status, total_hours",
        TableId::Settings => "barangay, municipality, province, phone_number, email, logo, logo_municipality",
        TableId::Residents => "prefix, first_name, middle_name, last_name, suffix, civil_status, gender, nationality, mobile_number, date_of_birth, town_of_birth, province_of_birth, zone, barangay, town, province, father_prefix, father_first_name, father_middle_name, father_last_name, father_suffix, mother_prefix, mother_first_name, mother_middle_name, mother_last_name, status, photo, is_registered_voter, is_pwd, is_senior",
        TableId::Officials => "name, role, image, section, age, contact, term_start, term_end, zone",
        TableId::Certificates => "resident_name, type_, age, civil_status, ownership_text, amount, issued_date",
        TableId::Users => "username, password",
    }
}

pub fn set_cols_str(t: TableId) -> (r: &'static str)
    ensures
        r@ == set_cols(t),
{
    match t {
        TableId::Blotters => "type_ = ?, reported_by = ?, involved = ?, incident_date = ?, location = ?, zone = ?, status = ?, narrative = ?, action = ?, witnesses = ?, evidence = ?, resolution = ?, hearing_date = ?",
        TableId::Incomes => "type_ = ?, amount = ?, or_number = ?, received_from = ?, received_by = ?, category = ?, date = ?",
        TableId::Expenses => "type_ = ?, amount = ?, or_number = ?, paid_to = ?, paid_by = ?, category = ?, date = ?",
        TableId::Households => "household_number = ?, type_ = ?, members = ?, head = ?, zone = ?, date = ?, status = ?, selected_residents = ?",
        TableId::Events => "name = ?, type_ = ?, status = ?, date = ?, venue = ?, attendee = ?, notes = ?",
        TableId::Logbook => "official_name = ?, date = ?, time_in_am = ?, time_out_am = ?, time_in_pm = ?, time_out_pm = ?, remarks = ?, status = ?, total_hours = ?",
        TableId::Settings => "barangay = ?, municipality = ?, province = ?, phone_number = ?, email = ?, logo = ?, logo_municipality = ?",
        TableId::Residents => "prefix = ?, first_name = ?, middle_name = ?, last_name = ?, suffix = ?, civil_status = ?, gender = ?, nationality = ?, mobile_number = ?, date_of_birth = ?, town_of_birth = ?, province_of_birth = ?, zone = ?, barangay = ?, town = ?, province = ?, father_prefix = ?, father_first_name = ?, father_middle_name = ?, father_last_name = ?, father_suffix = ?, mother_prefix = ?, mother_first_name = ?, mother_middle_name = ?, mother_last_name = ?, status = ?, photo = ?, is_registered_voter = ?, is_pwd = ?, is_senior = ?",
        TableId::Officials => "name = ?, role = ?, image = ?, section = ?, age = ?, contact = ?, term_start = ?, term_end = ?, zone = ?",
        TableId::Certificates => "resident_name = ?, type_ = ?, age = ?, civil_status = ?, ownership_text = ?, amount = ?, issued_date = ?",
        TableId::Users => "username = ?, password = ?",
    }
}

pub fn col_count_exec(t: TableId) -> (r: usize)
    ensures
        r as int == col_count(t),
{
    match t {
        TableId::Blotters => 13,
        TableId::Incomes => 7,
        TableId::Expenses => 7,
        TableId::Households => 8,
        TableId::Events => 7,
        TableId::Logbook => 9,
        TableId::Settings => 7,
        TableId::Residents => 30,
        TableId::Officials => 9,
        TableId::Certificates => 7,
        TableId::Users => 2,
    }
}

/// The declared storage class of a column. The engine's type affinity
/// converts a bound value that does not match its column's class (an
/// integer bound into a TEXT column is stored as its text form, numeric
/// text bound into an INTEGER column as an integer), so the trusted write
/// wrappers only accept cells that match and are therefore stored
/// unchanged.
pub enum ColKind {
    /// INTEGER and BOOLEAN columns: an Int cell is stored as bound.
    IntCol,
    /// REAL columns, which no cell of this layer can carry.
    RealCol,
    /// TEXT columns: a Text cell is stored as bound.
    TextCol,
}

/// The storage class of the table's non-id column at position `j`, in the
/// fixed order of `insert_cols`.
pub open spec fn col_kind(t: TableId, j: int) -> ColKind {
    match t {
        TableId::Blotters => ColKind::TextCol,
        TableId::Incomes => if j == 1 {
            ColKind::RealCol
        } else if j == 2 {
            ColKind::IntCol
        } else {
            ColKind::TextCol
        },
        TableId::Expenses => if j == 1 {
            ColKind::RealCol
        } else if j == 2 {
            ColKind::IntCol
        } else {
            ColKind::TextCol
        },
        TableId::Households => if j == 0 || j == 2 {
            ColKind::IntCol
        } else {
            ColKind::TextCol
        },
        TableId::Events => ColKind::TextCol,
        TableId::Logbook => if j == 8 {
            ColKind::RealCol
        } else {
            ColKind::TextCol
        },
        TableId::Settings => ColKind::TextCol,
        TableId::Residents => if 27 <= j {
            ColKind::IntCol
        } else {
            ColKind::TextCol
        },
        TableId::Officials => if j == 4 {
            ColKind::IntCol
        } else {
            ColKind::TextCol
        },
        TableId::Certificates => if j == 2 {
            ColKind::IntCol
        } else {
            ColKind::TextCol
        },
        TableId::Users => ColKind::TextCol,
    }
}

/// Whether a cell matches a storage class, so affinity stores it unchanged;
/// NULL passes any column.
pub open spec fn cell_typed(k: ColKind, v: DbVal) -> bool {
    match k {
        ColKind::IntCol => v is Int || v is Null,
        ColKind::RealCol => v is Null,
        ColKind::TextCol => v is Text || v is Null,
    }
}

/// Whether every non-id cell matches its column's storage class.
pub open spec fn vals_typed(t: TableId, vals: Seq<DbVal>) -> bool {
    forall|j: int| 0 <= j < vals.len() ==> cell_typed(col_kind(t, j), #[trigger] vals[j])
}

/// Whether a full stored row (primary key first) matches its columns'
/// storage classes.
pub open spec fn stored_row_typed(t: TableId, row: Seq<DbVal>) -> bool {
    &&& row.len() == col_count(t) + 1
    &&& row[0] is Int
    &&& forall|j: int| 1 <= j < row.len() ==> cell_typed(col_kind(t, j - 1), #[trigger] row[j])
}

/// `n` positional placeholders separated by commas.
pub open spec fn qmarks(n: int) -> Seq<char>
    decreases n,
{
    if n <= 1 {
        seq!['?']
    } else {
        qmarks(n - 1) + seq![',', '?']
    }
}

pub fn question_marks(n: usize) -> (r: String)
    requires
        1 <= n,
    ensures
        r@ == qmarks(n as int),
{
    proof {
        reveal_strlit("?");
        reveal_strlit(",?");
        assert("?"@ =~= seq!['?']);
        assert(",?"@ =~= seq![',', '?']);
    }
    let mut s = String::new();
    s.append("?");
    assert(s@ =~= qmarks(1));
    let mut i: usize = 1;
    while i < n
        invariant
            1 <= i <= n,
            s@ == qmarks(i as int),
        decreases n - i,
    {
        s.append(",?");
        proof {
            reveal_strlit(",?");
            assert(",?"@ =~= seq![',', '?']);
        }
        assert(s@ =~= qmarks(i as int + 1));
        i = i + 1;
    }
    s
}

/// `INSERT INTO <table> (<non-id columns>) VALUES (?, ..., ?)`.
pub open spec fn insert_sql(t: TableId) -> Seq<char> {
    "INSERT INTO "@ + table_name(t) + " ("@ + insert_cols(t) + ") VALUES ("@ + qmarks(col_count(t))
        + ")"@
}

/// `INSERT INTO <table> (id, <non-id columns>) VALUES (?, ..., ?)`.
pub open spec fn insert_with_id_sql(t: TableId) -> Seq<char> {
    "INSERT INTO "@ + table_name(t) + " (id, "@ + insert_cols(t) + ") VALUES ("@ + qmarks(
        col_count(t) + 1,
    ) + ")"@
}

/// `UPDATE <table> SET <every non-id column> WHERE id = ?`.
pub open spec fn update_sql(t: TableId) -> Seq<char> {
    "UPDATE "@ + table_name(t) + " SET "@ + set_cols(t) + " WHERE id = ?"@
}

/// `DELETE FROM <table> WHERE id = ?`.
pub open spec fn delete_sql(t: TableId) -> Seq<char> {
    "DELETE FROM "@ + table_name(t) + " WHERE id = ?"@
}

/// `SELECT id, <non-id columns> FROM <table>`.
pub open spec fn select_sql(t: TableId) -> Seq<char> {
    "SELECT id, "@ + insert_cols(t) + " FROM "@ + table_name(t)
}

/// `SELECT id, <non-id columns> FROM <table> WHERE id = ?`.
pub open spec fn select_by_id_sql(t: TableId) -> Seq<char> {
    select_sql(t) + " WHERE id = ?"@
}

pub fn build_insert_sql(t: TableId) -> (r: String)
    ensures
        r@ == insert_sql(t),
{
    let mut s = String::new();
    s.append("INSERT INTO ");
    s.append(table_name_str(t));
    s.append(" (");
    s.append(insert_cols_str(t));
    s.append(") VALUES (");
    let q = question_marks(col_count_exec(t));
    s.append(q.as_str());
    s.append(")");
    assert(s@ =~= insert_sql(t));
    s
}

pub fn build_insert_with_id_sql(t: TableId) -> (r: String)
    ensures
        r@ == insert_with_id_sql(t),
{
    let mut s = String::new();
    s.append("INSERT INTO ");
    s.append(table_name_str(t));
    s.append(" (id, ");
    s.append(insert_cols_str(t));
    s.append(") VALUES (");
    let n = col_count_exec(t);
    let q = question_marks(n + 1);
    s.append(q.as_str());
    s.append(")");
    assert(s@ =~= insert_with_id_sql(t));
    s
}

pub fn build_update_sql(t: TableId) -> (r: String)
    ensures
        r@ == update_sql(t),
{
    let mut s = String::new();
    s.append("UPDATE ");
    s.append(table_name_str(t));
    s.append(" SET ");
    s.append(set_cols_str(t));
    s.append(" WHERE id = ?");
    assert(s@ =~= update_sql(t));
    s
}

pub fn build_delete_sql(t: TableId) -> (r: String)
    ensures
        r@ == delete_sql(t),
{
    let mut s = String::new();
    s.append("DELETE FROM ");
    s.append(table_name_str(t));
    s.append(" WHERE id = ?");
    assert(s@ =~= delete_sql(t));
    s
}

pub fn build_select_sql(t: TableId) -> (r: String)
    ensures
        r@ == select_sql(t),
{
    let mut s = String::new();
    s.append("SELECT id, ");
    s.append(insert_cols_str(t));
    s.append(" FROM ");
    s.append(table_name_str(t));
    assert(s@ =~= select_sql(t));
    s
}

pub fn build_select_by_id_sql(t: TableId) -> (r: String)
    ensures
        r@ == select_by_id_sql(t),
{
    let mut s = build_select_sql(t);
    s.append(" WHERE id = ?");
    assert(s@ =~= select_by_id_sql(t));
    s
}

} // verus!
