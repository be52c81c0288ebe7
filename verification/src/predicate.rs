//! Row predicates: boolean tests over a row and the schema of its table.

use vstd::prelude::*;
use crate::table::{ColumnView, Table, TableView};
use crate::value::{value_fits, RowView, Value, ValueView};

verus! {

/// A test over a row of a table. It is plain data, so it can be evaluated
/// apart from the query that carries it.
#[derive(Debug)]
pub enum Predicate {
    /// Every part holds; with no parts, always true.
    And(Vec<Predicate>),
    /// Some part holds; with no parts, always false.
    Or(Vec<Predicate>),
    /// The named column holds this value.
    Eq(String, Value),
    /// The named column is missing or holds another value.
    Neq(String, Value),
}

/// The mathematical content of a [`Predicate`].
pub enum PredicateView {
    And(Seq<PredicateView>),
    Or(Seq<PredicateView>),
    Eq(Seq<char>, ValueView),
    Neq(Seq<char>, ValueView),
}

/// The content of a predicate, part by part.
pub open spec fn predicate_view(p: Predicate) -> PredicateView
    decreases p,
{
    match p {
        Predicate::And(parts) => PredicateView::And(
            Seq::new(
                parts.len() as nat,
                |i: int|
                    if 0 <= i < parts.len() {
                        predicate_view(parts[i])
                    } else {
                        arbitrary()
                    },
            ),
        ),
        Predicate::Or(parts) => PredicateView::Or(
            Seq::new(
                parts.len() as nat,
                |i: int|
                    if 0 <= i < parts.len() {
                        predicate_view(parts[i])
                    } else {
                        arbitrary()
                    },
            ),
        ),
        Predicate::Eq(column, value) => PredicateView::Eq(column@, value@),
        Predicate::Neq(column, value) => PredicateView::Neq(column@, value@),
    }
}

impl DeepView for Predicate {
    type V = PredicateView;

    open spec fn deep_view(&self) -> PredicateView {
        predicate_view(*self)
    }
}

impl View for Predicate {
    type V = PredicateView;

    open spec fn view(&self) -> PredicateView {
        self.deep_view()
    }
}

/// The value that a row holds in the first column of the given name, scanning
/// columns and values in step from position `from`.
pub open spec fn lookup_from(
    columns: Seq<ColumnView>,
    row: RowView,
    name: Seq<char>,
    from: int,
) -> Option<ValueView>
    decreases columns.len() - from,
{
    if from < 0 || from >= columns.len() || from >= row.len() {
        None
    } else if columns[from].name == name {
        Some(row[from])
    } else {
        lookup_from(columns, row, name, from + 1)
    }
}

/// The value that a row holds in the first column of the given name.
pub open spec fn lookup(table: TableView, row: RowView, name: Seq<char>) -> Option<ValueView> {
    lookup_from(table.columns, row, name, 0)
}

/// What it means for a predicate to match a row of a table.
pub open spec fn holds(p: PredicateView, row: RowView, table: TableView) -> bool
    decreases p,
{
    match p {
        PredicateView::And(parts) => forall|i: int|
            0 <= i < parts.len() ==> holds(#[trigger] parts[i], row, table),
        PredicateView::Or(parts) => exists|i: int|
            0 <= i < parts.len() && holds(#[trigger] parts[i], row, table),
        PredicateView::Eq(column, value) => lookup(table, row, column) == Some(value),
        PredicateView::Neq(column, value) => lookup(table, row, column) != Some(value),
    }
}

/// Whether a predicate is written over a table: each of its comparisons
/// names a column of the table and compares it with a value that fits the
/// column.
pub open spec fn written_over(p: PredicateView, table: TableView) -> bool
    decreases p,
{
    match p {
        PredicateView::And(parts) => forall|i: int|
            0 <= i < parts.len() ==> written_over(#[trigger] parts[i], table),
        PredicateView::Or(parts) => forall|i: int|
            0 <= i < parts.len() ==> written_over(#[trigger] parts[i], table),
        PredicateView::Eq(column, value) => compares_column(table, column, value),
        PredicateView::Neq(column, value) => compares_column(table, column, value),
    }
}

/// Whether the table has a column of the given name that the value fits.
pub open spec fn compares_column(table: TableView, column: Seq<char>, value: ValueView) -> bool {
    exists|k: int|
        0 <= k < table.columns.len() && (#[trigger] table.columns[k]).name == column
            && value_fits(value, table.columns[k].column_type)
}

/// No two columns of the table have the same name.
pub open spec fn distinct_columns(table: TableView) -> bool {
    forall|i: int, j: int|
        0 <= i < j < table.columns.len() ==> (#[trigger] table.columns[i]).name != (
        #[trigger] table.columns[j]).name
}

/// Scanning from a position at or before a column that no earlier column
/// shares its name with finds the value the row holds in that column.
pub proof fn lemma_lookup_first(
    columns: Seq<ColumnView>,
    row: RowView,
    from: int,
    at: int,
)
    requires
        0 <= from <= at < columns.len(),
        at < row.len(),
        forall|k: int| from <= k < at ==> (#[trigger] columns[k]).name != columns[at].name,
    ensures
        lookup_from(columns, row, columns[at].name, from) == Some(row[at]),
    decreases at - from,
{
    if from < at {
        assert(columns[from].name != columns[at].name);
        lemma_lookup_first(columns, row, from + 1, at);
    }
}

/// Finds the value of a row in the first column of the given name.
pub fn column_value<'a>(table: &Table, row: &'a Vec<Value>, name: &String) -> (res: Option<&'a Value>)
    ensures
        match res {
            Some(v) => lookup(table@, row.deep_view(), name@) == Some(v@),
            None => lookup(table@, row.deep_view(), name@) is None,
        },
{
    let mut i: usize = 0;
    while i < table.columns.len() && i < row.len()
        invariant
            i <= table.columns.len(),
            i <= row.len(),
            lookup(table@, row.deep_view(), name@) == lookup_from(
                table@.columns,
                row.deep_view(),
                name@,
                i as int,
            ),
        decreases table.columns.len() - i,
    {
        if table.columns[i].name == *name {
            return Some(&row[i]);
        }
        i += 1;
    }
    None
}

/// The view of a composite predicate lists the views of its parts.
pub proof fn lemma_parts_view(p: Predicate)
    ensures
        p matches Predicate::And(parts) ==> p@ is And && p@->And_0.len() == parts.len() && forall|
            i: int,
        | 0 <= i < parts.len() ==> #[trigger] p@->And_0[i] == parts[i]@,
        p matches Predicate::Or(parts) ==> p@ is Or && p@->Or_0.len() == parts.len() && forall|
            i: int,
        | 0 <= i < parts.len() ==> #[trigger] p@->Or_0[i] == parts[i]@,
{
}

impl Predicate {
    /// The predicate that every row matches.
    pub fn always() -> (res: Predicate)
        ensures
            res@ == PredicateView::And(Seq::empty()),
            forall|row: RowView, table: TableView| holds(res@, row, table),
            forall|table: TableView| written_over(res@, table),
    {
        let res = Predicate::And(Vec::new());
        assert(res@->And_0 =~= Seq::empty());
        res
    }

    /// Evaluates the predicate on a row of a table.
    pub fn test(&self, row: &Vec<Value>, table: &Table) -> (res: bool)
        ensures
            res == holds(self@, row.deep_view(), table@),
        decreases self,
    {
        proof {
            lemma_parts_view(*self);
        }
        match self {
            Predicate::And(parts) => {
                let mut i: usize = 0;
                while i < parts.len()
                    invariant
                        i <= parts.len(),
                        *self == Predicate::And(*parts),
                        forall|j: int|
                            0 <= j < i ==> holds((#[trigger] parts@[j])@, row.deep_view(), table@),
                    decreases parts.len() - i,
                {
                    proof {
                        lemma_parts_view(*self);
                        assert(decreases_to!(*self => self->And_0));
                    }
                    assert(decreases_to!(*parts => parts@));
                    assert(decreases_to!(parts@ => parts@[i as int]));
                    if !parts[i].test(row, table) {
                        assert(self@->And_0[i as int] == parts@[i as int]@);
                        return false;
                    }
                    i += 1;
                }
                proof {
                    lemma_parts_view(*self);
                }
                true
            },
            Predicate::Or(parts) => {
                let mut i: usize = 0;
                while i < parts.len()
                    invariant
                        i <= parts.len(),
                        *self == Predicate::Or(*parts),
                        forall|j: int|
                            0 <= j < i ==> !holds((#[trigger] parts@[j])@, row.deep_view(), table@),
                    decreases parts.len() - i,
                {
                    proof {
                        lemma_parts_view(*self);
                        assert(decreases_to!(*self => self->Or_0));
                    }
                    assert(decreases_to!(*parts => parts@));
                    assert(decreases_to!(parts@ => parts@[i as int]));
                    if parts[i].test(row, table) {
                        assert(self@->Or_0[i as int] == parts@[i as int]@);
                        return true;
                    }
                    i += 1;
                }
                proof {
                    lemma_parts_view(*self);
                }
                false
            },
            Predicate::Eq(column, value) => {
                match column_value(table, row, column) {
                    Some(found) => found.same_as(value),
                    None => false,
                }
            },
            Predicate::Neq(column, value) => {
                match column_value(table, row, column) {
                    Some(found) => !found.same_as(value),
                    None => true,
                }
            },
        }
    }
}

impl Clone for Predicate {
    fn clone(&self) -> (res: Self)
        ensures
            res@ == self@,
        decreases self,
    {
        proof {
            lemma_parts_view(*self);
        }
        match self {
            Predicate::And(parts) => {
                let mut out: Vec<Predicate> = Vec::new();
                let mut i: usize = 0;
                while i < parts.len()
                    invariant
                        i <= parts.len(),
                        out.len() == i,
                        *self == Predicate::And(*parts),
                        forall|j: int| 0 <= j < i ==> out@[j]@ == parts@[j]@,
                    decreases parts.len() - i,
                {
                    proof {
                        lemma_parts_view(*self);
                        assert(decreases_to!(*self => self->And_0));
                    }
                    assert(decreases_to!(*parts => parts@));
                    assert(decreases_to!(parts@ => parts@[i as int]));
                    out.push(parts[i].clone());
                    i += 1;
                }
                let res = Predicate::And(out);
                proof {
                    lemma_parts_view(res);
                    assert(res@->And_0 =~= self@->And_0);
                }
                res
            },
            Predicate::Or(parts) => {
                let mut out: Vec<Predicate> = Vec::new();
                let mut i: usize = 0;
                while i < parts.len()
                    invariant
                        i <= parts.len(),
                        out.len() == i,
                        *self == Predicate::Or(*parts),
                        forall|j: int| 0 <= j < i ==> out@[j]@ == parts@[j]@,
                    decreases parts.len() - i,
                {
                    proof {
                        lemma_parts_view(*self);
                        assert(decreases_to!(*self => self->Or_0));
                    }
                    assert(decreases_to!(*parts => parts@));
                    assert(decreases_to!(parts@ => parts@[i as int]));
                    out.push(parts[i].clone());
                    i += 1;
                }
                let res = Predicate::Or(out);
                proof {
                    lemma_parts_view(res);
                    assert(res@->Or_0 =~= self@->Or_0);
                }
                res
            },
            Predicate::Eq(column, value) => Predicate::Eq(column.clone(), value.clone()),
            Predicate::Neq(column, value) => Predicate::Neq(column.clone(), value.clone()),
        }
    }
}

} // verus!
