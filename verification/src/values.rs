//! The plain values a table cell can hold, and their mathematical model.
//!
//! The tables this layer manages store only NULL, INTEGER and TEXT cells
//! (the money and logbook tables, which hold REAL cells, are not managed
//! here).
//! A stored row is modelled as a `Seq<DbVal>` whose first entry is the
//! integer primary key.

use vstd::prelude::*;

verus! {

/// An executable table cell value.
#[derive(Debug)]
pub enum DbValue {
    Null,
    Int(i64),
    Text(String),
}

/// The mathematical value of a table cell.
pub enum DbVal {
    Null,
    Int(int),
    Text(Seq<char>),
}

impl View for DbValue {
    type V = DbVal;

    open spec fn view(&self) -> DbVal {
        match self {
            DbValue::Null => DbVal::Null,
            DbValue::Int(i) => DbVal::Int(*i as int),
            DbValue::Text(s) => DbVal::Text(s@),
        }
    }
}

impl DeepView for DbValue {
    type V = DbVal;

    open spec fn deep_view(&self) -> DbVal {
        self.view()
    }
}

/// Whether a stored row carries the given primary key.
pub open spec fn row_has_id(row: Seq<DbVal>, id: int) -> bool {
    row.len() > 0 && row[0] == DbVal::Int(id)
}

/// A stored row: the assigned primary key followed by the non-id cells.
pub open spec fn row_with_id(id: int, vals: Seq<DbVal>) -> Seq<DbVal> {
    seq![DbVal::Int(id)] + vals
}

/// Whether `id` can be the primary key the engine assigns to a fresh row:
/// at least 1, and carried by no stored row.
pub open spec fn fresh_row_id(rows: Seq<Seq<DbVal>>, id: int) -> bool {
    id >= 1 && forall|j: int| 0 <= j < rows.len() ==> !row_has_id(#[trigger] rows[j], id)
}

/// Whether a value fits the 32-bit identifiers the record types carry.
pub open spec fn int_fits_i32(v: int) -> bool {
    i32::MIN <= v <= i32::MAX
}

/// How an UPDATE leaves a table: same length, every row carrying the given
/// primary key overwritten in place with the given cells, every other row
/// kept.
pub open spec fn rows_updated(
    pre: Seq<Seq<DbVal>>,
    post: Seq<Seq<DbVal>>,
    id: int,
    vals: Seq<DbVal>,
) -> bool {
    &&& post.len() == pre.len()
    &&& forall|j: int|
        0 <= j < pre.len() ==> post[j] == (if row_has_id(#[trigger] pre[j], id) {
            row_with_id(id, vals)
        } else {
            pre[j]
        })
}

/// Reads a whole table back through a per-row reader; `None` as soon as any
/// row is malformed.
pub open spec fn rows_parsed<T>(rows: Seq<Seq<DbVal>>, f: spec_fn(Seq<DbVal>) -> Option<T>) -> Option<
    Seq<T>,
>
    decreases rows.len(),
{
    if rows.len() == 0 {
        Some(Seq::empty())
    } else {
        match (rows_parsed(rows.drop_last(), f), f(rows.last())) {
            (Some(s), Some(e)) => Some(s.push(e)),
            _ => None,
        }
    }
}

/// When a table parses, the records correspond to the rows one for one.
pub proof fn lemma_rows_parsed_index<T>(rows: Seq<Seq<DbVal>>, f: spec_fn(Seq<DbVal>) -> Option<T>)
    requires
        rows_parsed(rows, f) is Some,
    ensures
        rows_parsed(rows, f).unwrap().len() == rows.len(),
        forall|j: int|
            0 <= j < rows.len() ==> f(#[trigger] rows[j]) is Some && rows_parsed(rows, f).unwrap()[j]
                == f(rows[j]).unwrap(),
    decreases rows.len(),
{
    if rows.len() > 0 {
        lemma_rows_parsed_index(rows.drop_last(), f);
        let pre = rows.drop_last();
        assert forall|j: int| 0 <= j < rows.len() implies f(#[trigger] rows[j]) is Some
            && rows_parsed(rows, f).unwrap()[j] == f(rows[j]).unwrap() by {
            if j < rows.len() - 1 {
                assert(rows[j] == pre[j]);
                assert(rows_parsed(rows, f).unwrap()[j] == rows_parsed(pre, f).unwrap()[j]);
            } else {
                assert(rows[j] == rows.last());
            }
        }
    }
}

/// A table parses whenever every one of its rows does.
pub proof fn lemma_rows_parsed_all<T>(rows: Seq<Seq<DbVal>>, f: spec_fn(Seq<DbVal>) -> Option<T>)
    requires
        forall|j: int| 0 <= j < rows.len() ==> f(#[trigger] rows[j]) is Some,
    ensures
        rows_parsed(rows, f) is Some,
    decreases rows.len(),
{
    if rows.len() > 0 {
        assert forall|j: int| 0 <= j < rows.drop_last().len() implies f(
            #[trigger] rows.drop_last()[j],
        ) is Some by {
            assert(rows.drop_last()[j] == rows[j]);
        }
        lemma_rows_parsed_all(rows.drop_last(), f);
        assert(rows.last() == rows[rows.len() - 1]);
    }
}

/// One malformed row makes the whole table malformed.
pub proof fn lemma_rows_parsed_bad_row<T>(
    rows: Seq<Seq<DbVal>>,
    f: spec_fn(Seq<DbVal>) -> Option<T>,
    j: int,
)
    requires
        0 <= j < rows.len(),
        f(rows[j]) is None,
    ensures
        rows_parsed(rows, f) is None,
    decreases rows.len(),
{
    if j < rows.len() - 1 {
        lemma_rows_parsed_bad_row(rows.drop_last(), f, j);
    }
}

/// Appending a well-formed row appends its record.
pub proof fn lemma_rows_parsed_push<T>(
    rows: Seq<Seq<DbVal>>,
    f: spec_fn(Seq<DbVal>) -> Option<T>,
    row: Seq<DbVal>,
)
    requires
        f(row) is Some,
    ensures
        rows_parsed(rows.push(row), f) == (match rows_parsed(rows, f) {
            Some(s) => Some(s.push(f(row).unwrap())),
            None => None::<Seq<T>>,
        }),
{
    assert(rows.push(row).drop_last() =~= rows);
    assert(rows.push(row).last() == row);
}

/// A filter that no row satisfies keeps nothing.
pub proof fn lemma_filter_no_match(rows: Seq<Seq<DbVal>>, pred: spec_fn(Seq<DbVal>) -> bool)
    requires
        forall|j: int| 0 <= j < rows.len() ==> !pred(#[trigger] rows[j]),
    ensures
        rows.filter(pred) == Seq::<Seq<DbVal>>::empty(),
    decreases rows.len(),
{
    reveal(Seq::filter);
    if rows.len() > 0 {
        assert forall|j: int| 0 <= j < rows.drop_last().len() implies !pred(
            #[trigger] rows.drop_last()[j],
        ) by {
            assert(rows.drop_last()[j] == rows[j]);
        }
        lemma_filter_no_match(rows.drop_last(), pred);
        assert(rows.last() == rows[rows.len() - 1]);
    }
}

/// A filter that exactly one row satisfies keeps exactly that row.
pub proof fn lemma_filter_single_match(
    rows: Seq<Seq<DbVal>>,
    i: int,
    pred: spec_fn(Seq<DbVal>) -> bool,
)
    requires
        0 <= i < rows.len(),
        pred(rows[i]),
        forall|j: int| 0 <= j < rows.len() && j != i ==> !pred(#[trigger] rows[j]),
    ensures
        rows.filter(pred) == seq![rows[i]],
    decreases rows.len(),
{
    reveal(Seq::filter);
    if i == rows.len() - 1 {
        assert forall|j: int| 0 <= j < rows.drop_last().len() implies !pred(
            #[trigger] rows.drop_last()[j],
        ) by {
            assert(rows.drop_last()[j] == rows[j]);
        }
        lemma_filter_no_match(rows.drop_last(), pred);
        assert(rows.last() == rows[i]);
        assert(rows.filter(pred) =~= seq![rows[i]]);
    } else {
        assert(rows.drop_last()[i] == rows[i]);
        assert forall|j: int| 0 <= j < rows.drop_last().len() && j != i implies !pred(
            #[trigger] rows.drop_last()[j],
        ) by {
            assert(rows.drop_last()[j] == rows[j]);
        }
        lemma_filter_single_match(rows.drop_last(), i, pred);
        assert(rows.last() == rows[rows.len() - 1]);
        assert(!pred(rows.last()));
    }
}

/// Filtering away a primary key no row carries filters away nothing.
pub proof fn lemma_filter_missing_id(rows: Seq<Seq<DbVal>>, id: int)
    requires
        forall|j: int| 0 <= j < rows.len() ==> !row_has_id(#[trigger] rows[j], id),
    ensures
        rows.filter(|row: Seq<DbVal>| !row_has_id(row, id)) == rows,
    decreases rows.len(),
{
    reveal(Seq::filter);
    if rows.len() > 0 {
        lemma_filter_missing_id(rows.drop_last(), id);
        assert(rows.filter(|row: Seq<DbVal>| !row_has_id(row, id)) =~= rows);
    }
}

/// A TEXT cell holding the given string.
pub fn text_val(s: &String) -> (r: DbValue)
    ensures
        r@ == DbVal::Text(s@),
{
    DbValue::Text(s.clone())
}

/// A TEXT cell, or NULL when the field is absent.
pub fn opt_text_val(o: &Option<String>) -> (r: DbValue)
    ensures
        r@ == (match o {
            Some(s) => DbVal::Text(s@),
            None => DbVal::Null,
        }),
{
    match o {
        Some(s) => DbValue::Text(s.clone()),
        None => DbValue::Null,
    }
}

/// An INTEGER cell holding the given number.
pub fn i32_val(x: i32) -> (r: DbValue)
    ensures
        r@ == DbVal::Int(x as int),
{
    DbValue::Int(x as i64)
}

/// An INTEGER cell, or NULL when the field is absent.
pub fn opt_i32_val(o: &Option<i32>) -> (r: DbValue)
    ensures
        r@ == (match o {
            Some(x) => DbVal::Int(*x as int),
            None => DbVal::Null,
        }),
{
    match o {
        Some(x) => DbValue::Int(*x as i64),
        None => DbValue::Null,
    }
}

/// An INTEGER cell holding 1 for true and 0 for false, the storage
/// engine's own boolean convention.
pub fn bool_val(b: bool) -> (r: DbValue)
    ensures
        r@ == DbVal::Int(if b {
            1int
        } else {
            0int
        }),
{
    DbValue::Int(if b { 1 } else { 0 })
}

/// Reads a TEXT cell.
pub fn text_of(v: &DbValue) -> (r: Option<String>)
    ensures
        match r {
            Some(s) => v@ == DbVal::Text(s@),
            None => !(v@ is Text),
        },
{
    match v {
        DbValue::Text(s) => Some(s.clone()),
        _ => None,
    }
}

/// Reads a nullable TEXT cell; NULL is an absent field, an INTEGER cell is
/// malformed.
pub fn opt_text_of(v: &DbValue) -> (r: Option<Option<String>>)
    ensures
        match r {
            Some(Some(s)) => v@ == DbVal::Text(s@),
            Some(None) => v@ is Null,
            None => v@ is Int,
        },
{
    match v {
        DbValue::Text(s) => Some(Some(s.clone())),
        DbValue::Null => Some(None),
        DbValue::Int(_) => None,
    }
}

/// Reads an INTEGER cell that must fit an `i32`.
pub fn i32_of(v: &DbValue) -> (r: Option<i32>)
    ensures
        match r {
            Some(x) => v@ == DbVal::Int(x as int),
            None => !(v@ is Int && int_fits_i32(v@->Int_0)),
        },
{
    match v {
        DbValue::Int(x) => {
            if *x >= i32::MIN as i64 && *x <= i32::MAX as i64 {
                Some(*x as i32)
            } else {
                None
            }
        },
        _ => None,
    }
}

/// Reads a nullable INTEGER cell that must fit an `i32` when present.
pub fn opt_i32_of(v: &DbValue) -> (r: Option<Option<i32>>)
    ensures
        match r {
            Some(Some(x)) => v@ == DbVal::Int(x as int),
            Some(None) => v@ is Null,
            None => !(v@ is Null) && !(v@ is Int && int_fits_i32(v@->Int_0)),
        },
{
    match v {
        DbValue::Int(x) => {
            if *x >= i32::MIN as i64 && *x <= i32::MAX as i64 {
                Some(Some(*x as i32))
            } else {
                None
            }
        },
        DbValue::Null => Some(None),
        DbValue::Text(_) => None,
    }
}

/// Reads an INTEGER cell as a boolean, the way the storage engine does:
/// zero is false, anything else is true.
pub fn bool_of(v: &DbValue) -> (r: Option<bool>)
    ensures
        match r {
            Some(b) => v@ is Int && b == (v@->Int_0 != 0),
            None => !(v@ is Int),
        },
{
    match v {
        DbValue::Int(x) => Some(*x != 0),
        _ => None,
    }
}

} // verus!
