//! Random construction of the values, predicates and queries that properties
//! are made of.

use vstd::prelude::*;
use rand::rngs::StdRng;
use crate::budget::Remaining;
use crate::dispatch::{choose_weighted, lemma_total_push, total};
use crate::entropy::{draw_between, draw_index, draw_integer};
use crate::predicate::{
    compares_column, distinct_columns, holds, lemma_lookup_first, lemma_parts_view, lookup,
    written_over, Predicate, PredicateView,
};
use crate::query::{Create, Delete, Insert, Query, QueryView, Select};
use crate::render::{digit_char, digit_str, push_integer};
use crate::table::{Column, Table, TableView};
use crate::value::{value_fits, ColumnType, RowView, Value, ValueView};

verus! {

/// A row fits a table when it has one value for each column, each of the
/// column's type.
pub open spec fn row_fits(row: RowView, table: TableView) -> bool {
    &&& row.len() == table.columns.len()
    &&& forall|i: int|
        0 <= i < row.len() ==> value_fits(#[trigger] row[i], table.columns[i].column_type)
}

/// A query is well formed for a table when, unless it creates a table, it
/// names that table; when, if it inserts, it inserts at least one row and
/// only rows that fit; and when, if it selects or deletes, its predicate is
/// written over the table.
pub open spec fn query_targets(q: QueryView, table: TableView) -> bool {
    match q {
        QueryView::Insert(insert) => {
            &&& insert.table == table.name
            &&& insert.values.len() >= 1
            &&& forall|i: int|
                0 <= i < insert.values.len() ==> row_fits(#[trigger] insert.values[i], table)
        },
        QueryView::Select(select) => select.table == table.name && written_over(
            select.predicate,
            table,
        ),
        QueryView::Delete(delete) => delete.table == table.name && written_over(
            delete.predicate,
            table,
        ),
        QueryView::Create(_) => true,
    }
}

/// Whether a character is one of the sixteen digits.
pub open spec fn is_digit(c: char) -> bool {
    exists|d: int| 0 <= d < 16 && c == #[trigger] digit_char(d)
}

/// What a value drawn for a column of a given type looks like: an integer
/// for an integer column, a text of at most eight digits for a text column,
/// at most eight bytes for a blob column; never `Null`.
pub open spec fn drawn_value(v: ValueView, t: ColumnType) -> bool {
    match v {
        ValueView::Null => false,
        ValueView::Integer(_) => t == ColumnType::Integer,
        ValueView::Text(text) => {
            &&& t == ColumnType::Text
            &&& text.len() <= 8
            &&& forall|i: int| 0 <= i < text.len() ==> is_digit(#[trigger] text[i])
        },
        ValueView::Blob(bytes) => t == ColumnType::Blob && bytes.len() <= 8,
    }
}

/// A short random text: up to eight characters, each one of the sixteen
/// digits.
fn arbitrary_text(rng: &mut StdRng) -> (res: String)
    ensures
        res@.len() <= 8,
        forall|i: int| 0 <= i < res@.len() ==> is_digit(#[trigger] res@[i]),
{
    let mut text = String::new();
    let len = draw_between(rng, 0, 8);
    let mut i: usize = 0;
    while i < len
        invariant
            i <= len <= 8,
            text@.len() == i,
            forall|j: int| 0 <= j < text@.len() ==> is_digit(#[trigger] text@[j]),
        decreases len - i,
    {
        let digit = draw_index(rng, 16);
        let ghost before = text@;
        text.append(digit_str(digit as u8));
        proof {
            assert(text@ =~= before.push(digit_char(digit as int)));
            assert(is_digit(digit_char(digit as int)));
        }
        i += 1;
    }
    text
}

/// A few random bytes: up to eight.
fn arbitrary_blob(rng: &mut StdRng) -> (res: Vec<u8>)
    ensures
        res.len() <= 8,
{
    let mut bytes: Vec<u8> = Vec::new();
    let len = draw_between(rng, 0, 8);
    let mut i: usize = 0;
    while i < len
        invariant
            i <= len <= 8,
            bytes.len() == i,
        decreases len - i,
    {
        bytes.push(draw_index(rng, 256) as u8);
        i += 1;
    }
    bytes
}

/// A random value for a column of the given type: an integer, a short text
/// or a few bytes, as the column asks; never `Null`.
pub fn arbitrary_value(rng: &mut StdRng, column_type: ColumnType) -> (res: Value)
    ensures
        drawn_value(res@, column_type),
        value_fits(res@, column_type),
{
    match column_type {
        ColumnType::Integer => Value::Integer(draw_integer(rng)),
        ColumnType::Text => Value::Text(arbitrary_text(rng)),
        ColumnType::Blob => Value::Blob(arbitrary_blob(rng)),
    }
}

/// A random row for a table: one value for each column, of the column's type.
pub fn arbitrary_row(rng: &mut StdRng, table: &Table) -> (res: Vec<Value>)
    ensures
        row_fits(res.deep_view(), table@),
{
    let mut row: Vec<Value> = Vec::new();
    let mut i: usize = 0;
    while i < table.columns.len()
        invariant
            i <= table.columns.len(),
            row.len() == i,
            forall|j: int|
                0 <= j < i ==> value_fits(
                    (#[trigger] row@[j])@,
                    table.columns@[j].column_type,
                ),
        decreases table.columns.len() - i,
    {
        row.push(arbitrary_value(rng, table.columns[i].column_type));
        i += 1;
    }
    assert forall|j: int| 0 <= j < row.deep_view().len() implies value_fits(
        #[trigger] row.deep_view()[j],
        table@.columns[j].column_type,
    ) by {
        assert(row.deep_view()[j] == row@[j]@);
    }
    row
}

/// Between `least` and `most` random rows for a table.
pub fn arbitrary_rows(rng: &mut StdRng, table: &Table, least: usize, most: usize) -> (res: Vec<
    Vec<Value>,
>)
    requires
        least <= most,
    ensures
        least <= res.len() <= most,
        forall|i: int|
            0 <= i < res.len() ==> row_fits(#[trigger] res.deep_view()[i], table@),
{
    let count = draw_between(rng, least, most);
    let mut rows: Vec<Vec<Value>> = Vec::new();
    let mut i: usize = 0;
    while i < count
        invariant
            i <= count,
            rows.len() == i,
            forall|j: int| 0 <= j < i ==> row_fits((#[trigger] rows@[j]).deep_view(), table@),
        decreases count - i,
    {
        rows.push(arbitrary_row(rng, table));
        i += 1;
    }
    assert forall|j: int| 0 <= j < rows.len() implies row_fits(
        #[trigger] rows.deep_view()[j],
        table@,
    ) by {
        assert(rows.deep_view()[j] == rows@[j].deep_view());
    }
    rows
}

/// A random column type, each of the three as likely as the others.
fn arbitrary_column_type(rng: &mut StdRng) -> ColumnType {
    column_type_from_draw(draw_index(rng, 3))
}

/// The column type that a drawn number stands for: 0 for integer, 1 for
/// text, any other for blob.
pub fn column_type_from_draw(kind: usize) -> (res: ColumnType)
    ensures
        res == (if kind == 0 {
            ColumnType::Integer
        } else if kind == 1 {
            ColumnType::Text
        } else {
            ColumnType::Blob
        }),
{
    if kind == 0 {
        ColumnType::Integer
    } else if kind == 1 {
        ColumnType::Text
    } else {
        ColumnType::Blob
    }
}

/// A random table schema: a numbered name and one to four numbered columns of
/// random types.
pub fn arbitrary_table(rng: &mut StdRng) -> (res: Table)
    ensures
        1 <= res.columns.len() <= 4,
{
    let mut name = String::from_str("table_");
    push_integer(&mut name, draw_index(rng, 1_000_000) as i64);
    let count = draw_between(rng, 1, 4);
    let mut columns: Vec<Column> = Vec::new();
    let mut i: usize = 0;
    while i < count
        invariant
            i <= count <= 4,
            columns.len() == i,
        decreases count - i,
    {
        let mut column_name = String::from_str("column_");
        push_integer(&mut column_name, i as i64);
        columns.push(Column { name: column_name, column_type: arbitrary_column_type(rng) });
        i += 1;
    }
    Table { name, columns }
}

/// What a comparison drawn for a table looks like: an equality or an
/// inequality between one of the table's columns and a value drawn for that
/// column.
pub open spec fn drawn_comparison(p: PredicateView, table: TableView) -> bool {
    match p {
        PredicateView::Eq(column, value) => compares_drawn(table, column, value),
        PredicateView::Neq(column, value) => compares_drawn(table, column, value),
        _ => false,
    }
}

/// Whether the table has a column of the given name for which the value
/// could have been drawn.
pub open spec fn compares_drawn(table: TableView, column: Seq<char>, value: ValueView) -> bool {
    exists|k: int|
        0 <= k < table.columns.len() && (#[trigger] table.columns[k]).name == column
            && drawn_value(value, table.columns[k].column_type)
}

/// What a predicate drawn for a table looks like: the predicate that every
/// row matches; or, where the table has columns, one drawn comparison, or
/// two of them of which both or either must hold.
pub open spec fn drawn_predicate(p: PredicateView, table: TableView) -> bool {
    ||| p == PredicateView::And(Seq::empty())
    ||| drawn_comparison(p, table)
    ||| {
        &&& p matches PredicateView::And(parts)
        &&& parts.len() == 2
        &&& drawn_comparison(parts[0], table)
        &&& drawn_comparison(parts[1], table)
    }
    ||| {
        &&& p matches PredicateView::Or(parts)
        &&& parts.len() == 2
        &&& drawn_comparison(parts[0], table)
        &&& drawn_comparison(parts[1], table)
    }
}

/// A drawn comparison is written over its table.
pub proof fn lemma_drawn_comparison_written(p: PredicateView, table: TableView)
    requires
        drawn_comparison(p, table),
    ensures
        written_over(p, table),
{
    match p {
        PredicateView::Eq(column, value) => {
            let k = choose|k: int|
                0 <= k < table.columns.len() && (#[trigger] table.columns[k]).name == column
                    && drawn_value(value, table.columns[k].column_type);
            assert(value_fits(value, table.columns[k].column_type));
            assert(compares_column(table, column, value));
        },
        PredicateView::Neq(column, value) => {
            let k = choose|k: int|
                0 <= k < table.columns.len() && (#[trigger] table.columns[k]).name == column
                    && drawn_value(value, table.columns[k].column_type);
            assert(value_fits(value, table.columns[k].column_type));
            assert(compares_column(table, column, value));
        },
        _ => {},
    }
}

/// A random comparison of one column of the table with a value drawn for it.
fn arbitrary_comparison(rng: &mut StdRng, table: &Table) -> (res: Predicate)
    requires
        table.columns.len() > 0,
    ensures
        drawn_comparison(res@, table@),
        written_over(res@, table@),
{
    let at = draw_index(rng, table.columns.len());
    let column = &table.columns[at];
    let value = arbitrary_value(rng, column.column_type);
    assert(table@.columns[at as int] == column@);
    assert(compares_drawn(table@, column.name@, value@));
    let res = if draw_index(rng, 2) == 0 {
        Predicate::Eq(column.name.clone(), value)
    } else {
        Predicate::Neq(column.name.clone(), value)
    };
    proof {
        lemma_drawn_comparison_written(res@, table@);
    }
    res
}

/// A random predicate over the rows of a table: the predicate that every
/// row matches, one comparison, or two comparisons of which both or either
/// must hold. For a table without columns it is the predicate that every row
/// matches.
pub fn arbitrary_predicate(rng: &mut StdRng, table: &Table) -> (res: Predicate)
    ensures
        drawn_predicate(res@, table@),
        table.columns.len() == 0 ==> res@ == PredicateView::And(Seq::empty()),
        written_over(res@, table@),
{
    if table.columns.len() == 0 {
        return Predicate::always();
    }
    let shape = draw_index(rng, 4);
    if shape == 0 {
        Predicate::always()
    } else if shape == 1 {
        arbitrary_comparison(rng, table)
    } else {
        let mut parts: Vec<Predicate> = Vec::new();
        parts.push(arbitrary_comparison(rng, table));
        parts.push(arbitrary_comparison(rng, table));
        let res = if shape == 2 {
            Predicate::And(parts)
        } else {
            Predicate::Or(parts)
        };
        proof {
            lemma_parts_view(res);
            if shape == 2 {
                assert(res@->And_0[0] == parts@[0]@);
                assert(res@->And_0[1] == parts@[1]@);
            } else {
                assert(res@->Or_0[0] == parts@[0]@);
                assert(res@->Or_0[1] == parts@[1]@);
            }
        }
        res
    }
}

/// Whether a predicate states what a row holds in one column of a table
/// that the row has a value for.
pub open spec fn states_column(p: PredicateView, table: TableView, row: RowView) -> bool {
    p matches PredicateView::Eq(column, value) && exists|at: int|
        0 <= at < table.columns.len() && at < row.len() && (#[trigger] table.columns[at]).name
            == column && row[at] == value
}

/// A random predicate that the given row of the table matches: a conjunction
/// of at most three comparisons, each stating what the row holds in one of
/// its columns. Where no two columns share a name and the row has a value
/// for some column, the conjunction has at least one comparison. Otherwise,
/// where the row has no value for any column, or the conjunction would not
/// match the row, this gives the predicate that every row matches, which is
/// the conjunction of nothing.
pub fn matching_predicate(rng: &mut StdRng, table: &Table, row: &Vec<Value>) -> (res:
    Predicate)
    ensures
        holds(res@, row.deep_view(), table@),
        res@ is And,
        res@->And_0.len() <= 3,
        forall|i: int|
            0 <= i < res@->And_0.len() ==> states_column(
                #[trigger] res@->And_0[i],
                table@,
                row.deep_view(),
            ),
        table.columns.len() > 0 && row.len() > 0 && distinct_columns(table@) ==> res@->And_0.len()
            >= 1,
{
    let usable = if table.columns.len() < row.len() {
        table.columns.len()
    } else {
        row.len()
    };
    if usable == 0 {
        return Predicate::always();
    }
    let count = draw_between(rng, 1, 3);
    let mut parts: Vec<Predicate> = Vec::new();
    let mut i: usize = 0;
    while i < count
        invariant
            i <= count <= 3,
            parts.len() == i,
            0 < usable <= table.columns.len(),
            usable <= row.len(),
            forall|j: int|
                0 <= j < parts.len() ==> states_column(
                    (#[trigger] parts@[j])@,
                    table@,
                    row.deep_view(),
                ),
        decreases count - i,
    {
        let at = draw_index(rng, usable);
        let part = Predicate::Eq(table.columns[at].name.clone(), row[at].clone());
        proof {
            assert(table@.columns[at as int].name == table.columns@[at as int].name@);
            assert(row.deep_view()[at as int] == row@[at as int]@);
            assert(states_column(part@, table@, row.deep_view()));
        }
        parts.push(part);
        i += 1;
    }
    let candidate = Predicate::And(parts);
    proof {
        lemma_parts_view(candidate);
        assert forall|j: int| 0 <= j < candidate@->And_0.len() implies states_column(
            #[trigger] candidate@->And_0[j],
            table@,
            row.deep_view(),
        ) by {
            assert(candidate@->And_0[j] == parts@[j]@);
        }
        if distinct_columns(table@) {
            assert forall|j: int| 0 <= j < candidate@->And_0.len() implies holds(
                #[trigger] candidate@->And_0[j],
                row.deep_view(),
                table@,
            ) by {
                let part = candidate@->And_0[j];
                assert(states_column(part, table@, row.deep_view()));
                let at = choose|at: int|
                    0 <= at < table@.columns.len() && at < row.deep_view().len() && (
                    #[trigger] table@.columns[at]).name == part->Eq_0 && row.deep_view()[at]
                        == part->Eq_1;
                lemma_lookup_first(table@.columns, row.deep_view(), 0, at);
                assert(lookup(table@, row.deep_view(), part->Eq_0) == Some(part->Eq_1));
            }
            assert(holds(candidate@, row.deep_view(), table@));
        }
    }
    if candidate.test(row, table) {
        candidate
    } else {
        Predicate::always()
    }
}

/// The weight of a query's kind under what is left of the workload: the
/// create quota for a create, the read quota for a select, and the write
/// quota in two halves, the larger for an insert and the smaller for a
/// delete.
pub open spec fn kind_weight(q: QueryView, remaining: Remaining) -> int {
    match q {
        QueryView::Create(_) => remaining.create as int,
        QueryView::Select(_) => remaining.read as int,
        QueryView::Insert(_) => remaining.write - remaining.write / 2,
        QueryView::Delete(_) => remaining.write as int / 2,
    }
}

/// What a query drawn for a table under a budget looks like: it is well
/// formed for the table; a create has one to four columns, an insert at
/// most three rows, and a select or delete a drawn predicate; and its kind
/// has a weight above zero, unless every quota is zero.
pub open spec fn provided_query(q: QueryView, table: TableView, remaining: Remaining) -> bool {
    &&& query_targets(q, table)
    &&& match q {
        QueryView::Create(create) => 1 <= create.table.columns.len() <= 4,
        QueryView::Select(select) => drawn_predicate(select.predicate, table),
        QueryView::Insert(insert) => insert.values.len() <= 3,
        QueryView::Delete(delete) => drawn_predicate(delete.predicate, table),
    }
    &&& remaining.create + remaining.read + remaining.write > 0 ==> kind_weight(q, remaining) > 0
}

/// A random query about a table, its kind chosen in proportion to what is
/// left of the workload: a create by the create quota, a select by the read
/// quota, and an insert and a delete by one half of the write quota each.
/// Where every quota is zero, the four kinds are as likely as each other.
pub fn arbitrary_query(rng: &mut StdRng, table: &Table, remaining: &Remaining) -> (res: Query)
    requires
        remaining.bounded(),
    ensures
        provided_query(res@, table@, *remaining),
        query_targets(res@, table@),
{
    let deletes: u128 = remaining.write / 2;
    let inserts: u128 = remaining.write - deletes;
    let mut weights: Vec<u128> = Vec::new();
    proof {
        assert(total(weights@) == 0);
        lemma_total_push(weights@, remaining.create);
    }
    weights.push(remaining.create);
    proof {
        lemma_total_push(weights@, remaining.read);
    }
    weights.push(remaining.read);
    proof {
        lemma_total_push(weights@, inserts);
    }
    weights.push(inserts);
    proof {
        lemma_total_push(weights@, deletes);
    }
    weights.push(deletes);
    assert(total(weights@) == remaining.create + remaining.read + remaining.write);
    let kind = choose_weighted(rng, &weights);
    if kind == 0 {
        Query::Create(Create { table: arbitrary_table(rng) })
    } else if kind == 1 {
        Query::Select(
            Select { table: table.name.clone(), predicate: arbitrary_predicate(rng, table) },
        )
    } else if kind == 2 {
        Query::Insert(
            Insert { table: table.name.clone(), values: arbitrary_rows(rng, table, 1, 3) },
        )
    } else {
        Query::Delete(
            Delete { table: table.name.clone(), predicate: arbitrary_predicate(rng, table) },
        )
    }
}

} // verus!
