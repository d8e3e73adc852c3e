//! The schema migrator: one idempotent batch of `CREATE TABLE IF NOT
//! EXISTS` statements, safe to run on every startup.

use vstd::prelude::*;

use crate::schema::TableId;
use crate::store::{all_rows_unchanged, exec_migration, table_present, table_rows};
use crate::{DbError, ErrorKind};

verus! {

/// The bootstrap batch: one `CREATE TABLE IF NOT EXISTS` per table, with
/// the column types and constraints of the data model.
pub const MIGRATION_DDL: &'static str = "
    CREATE TABLE IF NOT EXISTS blotters (
        id INTEGER PRIMARY KEY AUTOINCREMENT,
        type_ TEXT NOT NULL,
        reported_by TEXT NOT NULL,
        involved TEXT NOT NULL,
        incident_date TEXT NOT NULL,
        location TEXT NOT NULL,
        zone TEXT NOT NULL,
        status TEXT NOT NULL,
        narrative TEXT NOT NULL,
        action TEXT NOT NULL,
        witnesses TEXT NOT NULL,
        evidence TEXT NOT NULL,
        resolution TEXT NOT NULL,
        hearing_date TEXT NOT NULL
    );
    CREATE TABLE IF NOT EXISTS incomes (
        id INTEGER PRIMARY KEY AUTOINCREMENT,
        type_ TEXT NOT NULL,
        amount REAL NOT NULL,
        or_number INTEGER NOT NULL,
        received_from TEXT NOT NULL,
        received_by TEXT NOT NULL,
        category TEXT NOT NULL,
        date TEXT NOT NULL
    );
    CREATE TABLE IF NOT EXISTS expenses (
        id INTEGER PRIMARY KEY AUTOINCREMENT,
        type_ TEXT NOT NULL,
        amount REAL NOT NULL,
        paid_to TEXT NOT NULL,
        paid_by TEXT NOT NULL,
        date TEXT NOT NULL,
        category TEXT NOT NULL,
        or_number INTEGER NOT NULL
    );
    CREATE TABLE IF NOT EXISTS households (
        id INTEGER PRIMARY KEY AUTOINCREMENT,
        household_number INTEGER NOT NULL,
        type_ TEXT NOT NULL,
        members INTEGER NOT NULL,
        head TEXT NOT NULL,
        zone TEXT NOT NULL,
        date TEXT NOT NULL,
        status TEXT NOT NULL,
        selected_residents TEXT
    );
    CREATE TABLE IF NOT EXISTS events (
        id INTEGER PRIMARY KEY AUTOINCREMENT,
        name TEXT NOT NULL,
        type_ TEXT NOT NULL,
        status TEXT NOT NULL,
        date TEXT NOT NULL,
        venue TEXT NOT NULL,
        attendee TEXT NOT NULL,
        notes TEXT NOT NULL
    );
    CREATE TABLE IF NOT EXISTS logbook (
        id INTEGER PRIMARY KEY AUTOINCREMENT,
        official_name TEXT NOT NULL,
        date TEXT NOT NULL,
        time_in_am TEXT,
        time_out_am TEXT,
        time_in_pm TEXT,
        time_out_pm TEXT,
        remarks TEXT,
        status TEXT,
        total_hours REAL,
        created_at TEXT DEFAULT CURRENT_TIMESTAMP,
        updated_at TEXT DEFAULT CURRENT_TIMESTAMP
    );
    CREATE TABLE IF NOT EXISTS settings (
        id INTEGER PRIMARY KEY CHECK (id = 1),
        barangay TEXT,
        municipality TEXT,
        province TEXT,
        phone_number TEXT,
        email TEXT,
        logo TEXT,
        logo_municipality TEXT
    );
    CREATE TABLE IF NOT EXISTS residents (
        id INTEGER PRIMARY KEY AUTOINCREMENT,
        prefix TEXT NOT NULL,
        first_name TEXT NOT NULL,
        middle_name TEXT,
        last_name TEXT NOT NULL,
        suffix TEXT,
        civil_status TEXT NOT NULL,
        gender TEXT NOT NULL,
        nationality TEXT NOT NULL,
        mobile_number TEXT NOT NULL,
        date_of_birth TEXT NOT NULL,
        town_of_birth TEXT NOT NULL,
        province_of_birth TEXT NOT NULL,
        zone TEXT NOT NULL,
        barangay TEXT NOT NULL,
        town TEXT NOT NULL,
        province TEXT NOT NULL,
        father_prefix TEXT NOT NULL,
        father_first_name TEXT NOT NULL,
        father_middle_name TEXT NOT NULL,
        father_last_name TEXT NOT NULL,
        father_suffix TEXT NOT NULL,
        mother_prefix TEXT NOT NULL,
        mother_first_name TEXT NOT NULL,
        mother_middle_name TEXT NOT NULL,
        mother_last_name TEXT NOT NULL,
        status TEXT NOT NULL,
        photo TEXT,
        is_registered_voter BOOLEAN NOT NULL DEFAULT 0,
        is_pwd BOOLEAN NOT NULL DEFAULT 0,
        is_senior BOOLEAN NOT NULL DEFAULT 0
    );
    CREATE TABLE IF NOT EXISTS officials (
        id INTEGER PRIMARY KEY AUTOINCREMENT,
        name TEXT NOT NULL,
        role TEXT NOT NULL,
        section TEXT NOT NULL,
        age INTEGER NOT NULL,
        contact TEXT NOT NULL,
        term_start TEXT NOT NULL,
        term_end TEXT NOT NULL,
        zone TEXT NOT NULL,
        image TEXT
    );
    CREATE TABLE IF NOT EXISTS certificates (
        id INTEGER PRIMARY KEY AUTOINCREMENT,
        resident_name TEXT NOT NULL,
        type_ TEXT NOT NULL,
        age INTEGER,
        civil_status TEXT,
        ownership_text TEXT,
        amount TEXT,
        issued_date TEXT
    );
    CREATE TABLE IF NOT EXISTS users (
        id INTEGER PRIMARY KEY AUTOINCREMENT,
        username TEXT NOT NULL UNIQUE,
        password TEXT NOT NULL
    );
    ";

/// The text of the bootstrap batch, as the trusted store layer pins it.
pub open spec fn migration_sql() -> Seq<char> {
    MIGRATION_DDL@
}

/// Creates every missing table; never touches rows, and never harms a
/// table that already exists, so it is safe to run on every startup.
pub fn migrate(c: &mut rusqlite::Connection) -> (r: Result<(), DbError>)
    ensures
        all_rows_unchanged(*old(c), *final(c)),
        r is Ok ==> forall|t: TableId| #[trigger] table_present(*final(c), t),
        forall|t: TableId| #[trigger] table_present(*old(c), t) ==> table_present(*final(c), t),
        r is Err ==> (r->Err_0).kind == ErrorKind::Schema,
{
    exec_migration(c, MIGRATION_DDL)
}

/// Running the migration twice in a row is the same as running it once:
/// neither run touches any row, the first run makes every table present,
/// and the second keeps them present, so the state after the second run
/// equals the state after the first, with no table duplicated or recreated.
pub proof fn lemma_migration_idempotent(
    c0: rusqlite::Connection,
    c1: rusqlite::Connection,
    c2: rusqlite::Connection,
)
    requires
        all_rows_unchanged(c0, c1),
        forall|t: TableId| #[trigger] table_present(c1, t),
        all_rows_unchanged(c1, c2),
        forall|t: TableId| #[trigger] table_present(c2, t),
    ensures
        forall|t: TableId| #[trigger] table_rows(c2, t) == table_rows(c0, t),
        forall|t: TableId| #[trigger] table_present(c2, t) == table_present(c1, t),
{
}

} // verus!
