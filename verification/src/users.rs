//! The user account repository: usernames and their stored passwords.
//!
//! Credentials are compared exactly as stored, character for character.
//! That the stored password is plain text is the data model this layer
//! keeps, not a recommendation.

use vstd::prelude::*;

use crate::schema::{TableId, build_insert_sql, build_select_sql};
use crate::store::{
    exec_insert, other_rows_unchanged, presence_unchanged, query_all, table_rows,
};
use crate::values::{DbVal, DbValue, fresh_row_id, row_with_id, text_val};
use crate::{DbError, ErrorKind};

verus! {

/// A user account record.
#[derive(Debug, Clone)]
pub struct User {
    pub id: u16,
    pub username: String,
    pub password: String,
}

/// The non-id cells of a user, in schema column order.
pub open spec fn user_vals(username: Seq<char>, password: Seq<char>) -> Seq<DbVal> {
    seq![DbVal::Text(username), DbVal::Text(password)]
}

/// Whether a stored row carries exactly these credentials.
pub open spec fn user_matches(row: Seq<DbVal>, username: Seq<char>, password: Seq<char>) -> bool {
    row.len() == 3 && row[1] == DbVal::Text(username) && row[2] == DbVal::Text(password)
}

/// Whether some stored account already carries this username.
pub open spec fn username_taken(rows: Seq<Seq<DbVal>>, username: Seq<char>) -> bool {
    exists|j: int|
        0 <= j < rows.len() && (#[trigger] rows[j]).len() == 3 && rows[j][1] == DbVal::Text(
            username,
        )
}

/// Decides equality of two string slices, character for character.
fn str_eq(a: &str, b: &str) -> (r: bool)
    ensures
        r == (a@ == b@),
{
    let na = a.unicode_len();
    let nb = b.unicode_len();
    if na != nb {
        return false;
    }
    let mut i: usize = 0;
    while i < na
        invariant
            i <= na,
            na == a@.len(),
            na == b@.len(),
            forall|j: int| 0 <= j < i ==> a@[j] == b@[j],
        decreases na - i,
    {
        if a.get_char(i) != b.get_char(i) {
            return false;
        }
        i = i + 1;
    }
    proof {
        assert(a@ =~= b@);
    }
    true
}

/// Appends one user account; the storage engine assigns the id and rejects
/// a username another account already holds.
pub fn insert_user(c: &mut rusqlite::Connection, u: &User) -> (r: Result<(), DbError>)
    ensures
        r is Ok ==> exists|id: int|
            {
                &&& fresh_row_id(table_rows(*old(c), TableId::Users), id)
                &&& table_rows(*final(c), TableId::Users) == table_rows(
                    *old(c),
                    TableId::Users,
                ).push(#[trigger] row_with_id(id, user_vals(u.username@, u.password@)))
            },
        username_taken(table_rows(*old(c), TableId::Users), u.username@) ==> r is Err,
        r is Err ==> table_rows(*final(c), TableId::Users) == table_rows(*old(c), TableId::Users),
        r is Err ==> (r->Err_0).kind == ErrorKind::Constraint || (r->Err_0).kind
            == ErrorKind::Storage,
        other_rows_unchanged(*old(c), *final(c), TableId::Users),
        presence_unchanged(*old(c), *final(c)),
{
    let mut vals: Vec<DbValue> = Vec::new();
    vals.push(text_val(&u.username));
    vals.push(text_val(&u.password));
    proof {
        assert(vals.deep_view() =~= user_vals(u.username@, u.password@));
    }
    let sql = build_insert_sql(TableId::Users);
    exec_insert(c, TableId::Users, sql.as_str(), &vals)
}

/// True exactly when some stored account carries this username and this
/// password, compared as stored.
pub fn verify_user_credentials(c: &rusqlite::Connection, username: &str, password: &str) -> (r:
    Result<bool, DbError>)
    ensures
        r matches Ok(b) ==> b == exists|j: int|
            0 <= j < table_rows(*c, TableId::Users).len() && user_matches(
                #[trigger] table_rows(*c, TableId::Users)[j],
                username@,
                password@,
            ),
{
    let sql = build_select_sql(TableId::Users);
    let raw = match query_all(c, TableId::Users, sql.as_str()) {
        Ok(v) => v,
        Err(e) => { return Err(e) },
    };
    let ghost all = raw.deep_view();
    let mut i: usize = 0;
    while i < raw.len()
        invariant
            i <= raw.len(),
            all == raw.deep_view(),
            all == table_rows(*c, TableId::Users),
            forall|j: int| 0 <= j < i ==> !user_matches(#[trigger] all[j], username@, password@),
        decreases raw.len() - i,
    {
        let row = &raw[i];
        proof {
            assert(row.deep_view() == all[i as int]);
        }
        if row.len() == 3 {
            let name_ok = match &row[1] {
                DbValue::Text(s) => str_eq(s.as_str(), username),
                _ => false,
            };
            let pass_ok = match &row[2] {
                DbValue::Text(s) => str_eq(s.as_str(), password),
                _ => false,
            };
            if name_ok && pass_ok {
                proof {
                    assert(user_matches(all[i as int], username@, password@));
                }
                return Ok(true);
            }
        }
        proof {
            assert(!user_matches(all[i as int], username@, password@));
        }
        i = i + 1;
    }
    Ok(false)
}

/// Storing an account makes exactly its own credentials verify: the stored
/// pair now matches some row, and any other pair matches a row afterwards
/// exactly when it already matched one before.
pub proof fn lemma_insert_then_verify(
    rows: Seq<Seq<DbVal>>,
    username: Seq<char>,
    password: Seq<char>,
    id: int,
    u2: Seq<char>,
    p2: Seq<char>,
)
    ensures
        ({
            let rows2 = rows.push(row_with_id(id, user_vals(username, password)));
            &&& exists|j: int|
                0 <= j < rows2.len() && user_matches(#[trigger] rows2[j], username, password)
            &&& (u2 != username || p2 != password) ==> ((exists|j: int|
                0 <= j < rows2.len() && user_matches(#[trigger] rows2[j], u2, p2)) <==> (exists|
                j: int,
            |
                0 <= j < rows.len() && user_matches(#[trigger] rows[j], u2, p2)))
        }),
{
    let row = row_with_id(id, user_vals(username, password));
    assert(row =~= seq![DbVal::Int(id), DbVal::Text(username), DbVal::Text(password)]);
    let rows2 = rows.push(row);
    assert(rows2[rows.len() as int] == row);
    assert(user_matches(rows2[rows.len() as int], username, password));
    if u2 != username || p2 != password {
        assert(!user_matches(row, u2, p2));
        if exists|j: int| 0 <= j < rows2.len() && user_matches(#[trigger] rows2[j], u2, p2) {
            let j = choose|j: int|
                0 <= j < rows2.len() && user_matches(#[trigger] rows2[j], u2, p2);
            assert(j < rows.len());
            assert(rows2[j] == rows[j]);
        }
        if exists|j: int| 0 <= j < rows.len() && user_matches(#[trigger] rows[j], u2, p2) {
            let j = choose|j: int| 0 <= j < rows.len() && user_matches(#[trigger] rows[j], u2, p2);
            assert(rows2[j] == rows[j]);
            assert(user_matches(rows2[j], u2, p2));
        }
    }
}

} // verus!
