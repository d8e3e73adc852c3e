//! The trusted boundary to the storage engine.
//!
//! Everything the repositories know about the database goes through the two
//! uninterpreted functions `table_present` and `table_rows`, which model a
//! connection as a set of named tables, each a sequence of rows in storage
//! order. The functions below are the only code that touches `rusqlite`;
//! each one runs a single statement whose exact text is pinned by its
//! `requires`, and states what that statement does to the model. The model
//! reads the database as this connection reaches it, taking the connection
//! for the sole handle to it: what another connection or process writes to
//! the same file in the meantime is outside what it can describe.

use vstd::prelude::*;

use crate::migration::migration_sql;
use crate::schema::{
    TableId, col_count, delete_sql, insert_sql, insert_with_id_sql, select_by_id_sql, select_sql,
    stored_row_typed, update_sql, vals_typed,
};
use crate::values::{DbVal, DbValue, fresh_row_id, row_has_id, row_with_id, rows_updated};
use crate::{DbError, ErrorKind};

verus! {

#[verifier::external_type_specification]
#[verifier::external_body]
pub struct ExConnection(rusqlite::Connection);

/// Whether the named table exists on this connection.
pub uninterp spec fn table_present(c: rusqlite::Connection, t: TableId) -> bool;

/// The rows the named table holds, in storage order. Each row is the
/// integer primary key followed by the non-id cells in schema order.
pub uninterp spec fn table_rows(c: rusqlite::Connection, t: TableId) -> Seq<Seq<DbVal>>;

/// Whether every table holds the same rows on both connections' states.
pub open spec fn all_rows_unchanged(pre: rusqlite::Connection, post: rusqlite::Connection) -> bool {
    forall|t: TableId| #[trigger] table_rows(post, t) == table_rows(pre, t)
}

/// Whether every table but `t` holds the same rows on both states.
pub open spec fn other_rows_unchanged(
    pre: rusqlite::Connection,
    post: rusqlite::Connection,
    t: TableId,
) -> bool {
    forall|t2: TableId| t2 != t ==> #[trigger] table_rows(post, t2) == table_rows(pre, t2)
}

/// Whether table existence is the same on both states.
pub open spec fn presence_unchanged(pre: rusqlite::Connection, post: rusqlite::Connection) -> bool {
    forall|t: TableId| #[trigger] table_present(post, t) == table_present(pre, t)
}

/// Relies on `rusqlite::Connection::open_in_memory`: a fresh in-memory
/// database holds no tables.
#[verifier::external_body]
pub fn open_memory_db() -> (r: Result<rusqlite::Connection, DbError>)
    ensures
        r matches Ok(c) ==> forall|t: TableId| !(#[trigger] table_present(c, t)),
        r matches Ok(c) ==> forall|t: TableId| #[trigger] table_rows(c, t)
            == Seq::<Seq<DbVal>>::empty(),
        r is Err ==> (r->Err_0).kind == ErrorKind::Connection,
{
    match rusqlite::Connection::open_in_memory() {
        Ok(c) => Ok(c),
        Err(e) => Err(DbError { kind: ErrorKind::Connection, message: e.to_string() }),
    }
}

/// Relies on `rusqlite::Connection::execute_batch` running the idempotent
/// `CREATE TABLE IF NOT EXISTS` batch of `migration_sql`: such statements
/// create any missing table and never touch rows; on failure part of the
/// batch may have run, so tables may have appeared, but rows are still
/// untouched.
#[verifier::external_body]
pub fn exec_migration(c: &mut rusqlite::Connection, sql: &str) -> (r: Result<(), DbError>)
    requires
        sql@ == migration_sql(),
    ensures
        all_rows_unchanged(*old(c), *final(c)),
        r is Ok ==> forall|t: TableId| #[trigger] table_present(*final(c), t),
        forall|t: TableId| #[trigger] table_present(*old(c), t) ==> table_present(*final(c), t),
        r is Err ==> (r->Err_0).kind == ErrorKind::Schema,
{
    match c.execute_batch(sql) {
        Ok(()) => Ok(()),
        Err(e) => Err(DbError { kind: ErrorKind::Schema, message: e.to_string() }),
    }
}

/// Relies on `rusqlite::Connection::execute` running the single INSERT
/// statement of `insert_sql(t)`: the typed cells are stored as bound (the
/// `vals_typed` premise keeps type affinity from converting any of them);
/// on success SQLite assigns a primary key of at least 1 that is larger
/// than — so in particular carried by — no stored row (AUTOINCREMENT on
/// every table but settings, whose CHECK both pins the key to 1 and keeps
/// the max-plus-one rule at 1), and the new row lands last in scan order;
/// the UNIQUE username column makes an insert of a stored username fail;
/// on failure (missing table, NOT NULL, CHECK or UNIQUE violation, ...)
/// no table changes.
#[verifier::external_body]
pub fn exec_insert(
    c: &mut rusqlite::Connection,
    t: TableId,
    sql: &str,
    vals: &Vec<DbValue>,
) -> (r: Result<(), DbError>)
    requires
        sql@ == insert_sql(t),
        vals@.len() == col_count(t),
        vals_typed(t, vals.deep_view()),
    ensures
        r is Ok ==> exists|id: int|
            {
                &&& fresh_row_id(table_rows(*old(c), t), id)
                &&& (t == TableId::Settings ==> id == 1)
                &&& table_rows(*final(c), t) == table_rows(*old(c), t).push(
                    #[trigger] row_with_id(id, vals.deep_view()),
                )
            },
        t == TableId::Users && (exists|j: int|
            0 <= j < table_rows(*old(c), t).len() && (#[trigger] table_rows(*old(c), t)[j]).len()
                == 3 && table_rows(*old(c), t)[j][1] == vals.deep_view()[0]) ==> r is Err,
        r is Err ==> table_rows(*final(c), t) == table_rows(*old(c), t),
        r is Err ==> (r->Err_0).kind == ErrorKind::Constraint || (r->Err_0).kind
            == ErrorKind::Storage,
        other_rows_unchanged(*old(c), *final(c), t),
        presence_unchanged(*old(c), *final(c)),
{
    let ps = rusqlite::params_from_iter(vals.iter().map(|v| match v {
        DbValue::Null => rusqlite::types::Value::Null,
        DbValue::Int(i) => rusqlite::types::Value::Integer(*i),
        DbValue::Text(s) => rusqlite::types::Value::Text(s.clone()),
    }));
    match c.execute(sql, ps) {
        Ok(_) => Ok(()),
        Err(e) => Err(DbError {
            kind: match e.sqlite_error_code() {
                Some(rusqlite::ErrorCode::ConstraintViolation) => ErrorKind::Constraint,
                _ => ErrorKind::Storage,
            },
            message: e.to_string(),
        }),
    }
}

/// Relies on `rusqlite::Connection::execute` running the single INSERT
/// statement of `insert_with_id_sql(t)`, which names the id column first:
/// the typed cells are stored as bound (the `stored_row_typed` premise
/// keeps type affinity from converting any of them); on success exactly
/// the given row appears, at whatever position its explicit primary key
/// orders it in the scan; the settings CHECK admits only the key 1 there;
/// on failure no table changes.
#[verifier::external_body]
pub fn exec_insert_with_id(
    c: &mut rusqlite::Connection,
    t: TableId,
    sql: &str,
    vals: &Vec<DbValue>,
) -> (r: Result<(), DbError>)
    requires
        sql@ == insert_with_id_sql(t),
        stored_row_typed(t, vals.deep_view()),
    ensures
        r is Ok ==> exists|k: int|
            0 <= k <= table_rows(*old(c), t).len() && table_rows(*final(c), t) == #[trigger] table_rows(
                *old(c),
                t,
            ).insert(k, vals.deep_view()),
        r is Ok && t == TableId::Settings ==> vals.deep_view()[0] == DbVal::Int(1),
        r is Err ==> table_rows(*final(c), t) == table_rows(*old(c), t),
        r is Err ==> (r->Err_0).kind == ErrorKind::Constraint || (r->Err_0).kind
            == ErrorKind::Storage,
        other_rows_unchanged(*old(c), *final(c), t),
        presence_unchanged(*old(c), *final(c)),
{
    let ps = rusqlite::params_from_iter(vals.iter().map(|v| match v {
        DbValue::Null => rusqlite::types::Value::Null,
        DbValue::Int(i) => rusqlite::types::Value::Integer(*i),
        DbValue::Text(s) => rusqlite::types::Value::Text(s.clone()),
    }));
    match c.execute(sql, ps) {
        Ok(_) => Ok(()),
        Err(e) => Err(DbError {
            kind: match e.sqlite_error_code() {
                Some(rusqlite::ErrorCode::ConstraintViolation) => ErrorKind::Constraint,
                _ => ErrorKind::Storage,
            },
            message: e.to_string(),
        }),
    }
}

/// Relies on `rusqlite::Connection::execute` running the single UPDATE
/// statement of `update_sql(t)`: the typed cells are stored as bound (the
/// `vals_typed` premise keeps type affinity from converting any of them);
/// on success every row whose primary key equals `id` is overwritten with
/// the bound values, every other row is kept, in place; on failure no
/// table changes.
#[verifier::external_body]
pub fn exec_update(
    c: &mut rusqlite::Connection,
    t: TableId,
    sql: &str,
    vals: &Vec<DbValue>,
    id: i64,
) -> (r: Result<(), DbError>)
    requires
        sql@ == update_sql(t),
        vals@.len() == col_count(t),
        vals_typed(t, vals.deep_view()),
    ensures
        r is Ok ==> rows_updated(
            table_rows(*old(c), t),
            table_rows(*final(c), t),
            id as int,
            vals.deep_view(),
        ),
        r is Err ==> table_rows(*final(c), t) == table_rows(*old(c), t),
        r is Err ==> (r->Err_0).kind == ErrorKind::Constraint || (r->Err_0).kind
            == ErrorKind::Storage,
        other_rows_unchanged(*old(c), *final(c), t),
        presence_unchanged(*old(c), *final(c)),
{
    let mut ps: Vec<rusqlite::types::Value> = vals.iter().map(|v| match v {
        DbValue::Null => rusqlite::types::Value::Null,
        DbValue::Int(i) => rusqlite::types::Value::Integer(*i),
        DbValue::Text(s) => rusqlite::types::Value::Text(s.clone()),
    }).collect();
    ps.push(rusqlite::types::Value::Integer(id));
    match c.execute(sql, rusqlite::params_from_iter(ps)) {
        Ok(_) => Ok(()),
        Err(e) => Err(DbError {
            kind: match e.sqlite_error_code() {
                Some(rusqlite::ErrorCode::ConstraintViolation) => ErrorKind::Constraint,
                _ => ErrorKind::Storage },
            message: e.to_string(),
        }),
    }
}

/// Relies on `rusqlite::Connection::execute` running the single DELETE
/// statement of `delete_sql(t)`: on success exactly the rows whose primary
/// key equals `id` are gone and the rest are kept in order; deleting with a
/// key no row has succeeds and removes nothing; on failure no table
/// changes.
#[verifier::external_body]
pub fn exec_delete(c: &mut rusqlite::Connection, t: TableId, sql: &str, id: i64) -> (r: Result<
    (),
    DbError,
>)
    requires
        sql@ == delete_sql(t),
    ensures
        r is Ok ==> table_rows(*final(c), t) == table_rows(*old(c), t).filter(
            |row: Seq<DbVal>| !row_has_id(row, id as int),
        ),
        r is Err ==> table_rows(*final(c), t) == table_rows(*old(c), t),
        r is Err ==> (r->Err_0).kind == ErrorKind::Storage,
        other_rows_unchanged(*old(c), *final(c), t),
        presence_unchanged(*old(c), *final(c)),
{
    match c.execute(sql, [id]) {
        Ok(_) => Ok(()),
        Err(e) => Err(DbError { kind: ErrorKind::Storage, message: e.to_string() }),
    }
}

/// Relies on `rusqlite::Connection::prepare` and `Statement::query_map`
/// running the single SELECT statement of `select_sql(t)`, which lists the
/// id column and then every non-id column: on success the returned rows are
/// exactly the table's rows in storage order. NULL, INTEGER and TEXT cells
/// are converted one for one; the tables this layer models hold no other
/// kind of cell.
#[verifier::external_body]
pub fn query_all(c: &rusqlite::Connection, t: TableId, sql: &str) -> (r: Result<
    Vec<Vec<DbValue>>,
    DbError,
>)
    requires
        sql@ == select_sql(t),
    ensures
        r matches Ok(rows) ==> rows.deep_view() == table_rows(*c, t),
        r is Err ==> (r->Err_0).kind == ErrorKind::Query,
{
    let go = || -> rusqlite::Result<Vec<Vec<DbValue>>> {
        let mut stmt = c.prepare(sql)?;
        let n = stmt.column_count();
        let rows = stmt.query_map([], |row| (0..n).map(|i| Ok(
            match row.get::<usize, rusqlite::types::Value>(i)? {
                rusqlite::types::Value::Integer(v) => DbValue::Int(v),
                rusqlite::types::Value::Text(s) => DbValue::Text(s),
                _ => DbValue::Null,
            },
        )).collect())?;
        rows.collect()
    };
    go().map_err(|e| DbError { kind: ErrorKind::Query, message: e.to_string() })
}

/// Relies on `rusqlite::Connection::prepare` and `Statement::query_map`
/// running the single SELECT statement of `select_by_id_sql(t)`: on success
/// the returned rows are exactly the table's rows whose primary key equals
/// `id`, in storage order, converted as in `query_all`.
#[verifier::external_body]
pub fn query_by_id(c: &rusqlite::Connection, t: TableId, sql: &str, id: i64) -> (r: Result<
    Vec<Vec<DbValue>>,
    DbError,
>)
    requires
        sql@ == select_by_id_sql(t),
    ensures
        r matches Ok(rows) ==> rows.deep_view() == table_rows(*c, t).filter(
            |row: Seq<DbVal>| row_has_id(row, id as int),
        ),
        r is Err ==> (r->Err_0).kind == ErrorKind::Query,
{
    let go = || -> rusqlite::Result<Vec<Vec<DbValue>>> {
        let mut stmt = c.prepare(sql)?;
        let n = stmt.column_count();
        let rows = stmt.query_map([id], |row| (0..n).map(|i| Ok(
            match row.get::<usize, rusqlite::types::Value>(i)? {
                rusqlite::types::Value::Integer(v) => DbValue::Int(v),
                rusqlite::types::Value::Text(s) => DbValue::Text(s),
                _ => DbValue::Null,
            },
        )).collect())?;
        rows.collect()
    };
    go().map_err(|e| DbError { kind: ErrorKind::Query, message: e.to_string() })
}

} // verus!
