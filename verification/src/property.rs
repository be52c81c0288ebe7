//! Properties: checkable invariants of the engine, held as plain data, and
//! their compilation into scripts.

use vstd::prelude::*;
use crate::plan::{Assertion, AssertionView, Check, CheckView, Interaction, InteractionView};
use crate::predicate::holds;
use crate::query::{
    clone_queries, Create, CreateView, Insert, InsertView, Query, QueryView, Select, SelectView,
};
use crate::render::{push_row, row_text};
use crate::table::TableView;
use crate::value::{clone_row, RowView};

verus! {

/// An executable specification of the engine's behaviour.
#[derive(Debug)]
pub enum Property {
    /// A row that was inserted is found by a later select whose predicate
    /// matches it:
    ///
    /// ```text
    /// INSERT INTO <t> VALUES (...)
    /// I_0 .. I_n
    /// SELECT * FROM <t> WHERE <predicate>
    /// ```
    ///
    /// The queries in the middle do not delete the row and do not create `t`.
    InsertSelect {
        /// The insert query.
        insert: Insert,
        /// Which of the inserted rows the select must find.
        row_index: usize,
        /// The queries in the middle.
        queries: Vec<Query>,
        /// The select query.
        select: Select,
    },
    /// Creating a table that exists fails:
    ///
    /// ```text
    /// CREATE TABLE <t> (...)
    /// I_0 .. I_n
    /// CREATE TABLE <t> (...) -> error
    /// ```
    ///
    /// The queries in the middle do not create `t`.
    DoubleCreateFailure {
        /// The create query, sent twice.
        create: Create,
        /// The queries in the middle.
        queries: Vec<Query>,
    },
}

/// The mathematical content of a [`Property`].
pub enum PropertyView {
    InsertSelect { insert: InsertView, row_index: int, queries: Seq<QueryView>, select: SelectView },
    DoubleCreateFailure { create: CreateView, queries: Seq<QueryView> },
}

impl DeepView for Property {
    type V = PropertyView;

    open spec fn deep_view(&self) -> PropertyView {
        match self {
            Property::InsertSelect { insert, row_index, queries, select } => {
                PropertyView::InsertSelect {
                    insert: insert@,
                    row_index: *row_index as int,
                    queries: queries.deep_view(),
                    select: select@,
                }
            },
            Property::DoubleCreateFailure { create, queries } => {
                PropertyView::DoubleCreateFailure { create: create@, queries: queries.deep_view() }
            },
        }
    }
}

impl View for Property {
    type V = PropertyView;

    open spec fn view(&self) -> PropertyView {
        self.deep_view()
    }
}

impl PropertyView {
    /// The selected row index of an insert-select property points at one of
    /// the inserted rows; so the insert has at least one row.
    pub open spec fn well_formed(self) -> bool {
        self matches PropertyView::InsertSelect { insert, row_index, .. } ==> 0 <= row_index
            < insert.values.len()
    }

    /// The queries in the middle.
    pub open spec fn fillers(self) -> Seq<QueryView> {
        match self {
            PropertyView::InsertSelect { queries, .. } => queries,
            PropertyView::DoubleCreateFailure { queries, .. } => queries,
        }
    }

    /// The name of the table that the property is about.
    pub open spec fn table_name(self) -> Seq<char> {
        match self {
            PropertyView::InsertSelect { insert, .. } => insert.table,
            PropertyView::DoubleCreateFailure { create, .. } => create.table.name,
        }
    }

    /// Whether every query in the middle leaves the property intact, given
    /// the schema of the table that the property is about.
    pub open spec fn sound(self, table: TableView) -> bool {
        match self {
            PropertyView::InsertSelect { insert, row_index, queries, .. } => forall|i: int|
                0 <= i < queries.len() ==> keeps_row(
                    #[trigger] queries[i],
                    table,
                    insert.values[row_index],
                ),
            PropertyView::DoubleCreateFailure { queries, .. } => forall|i: int|
                0 <= i < queries.len() ==> !creates_table(#[trigger] queries[i], table.name),
        }
    }
}

/// Whether a query creates a table of the given name.
pub open spec fn creates_table(q: QueryView, name: Seq<char>) -> bool {
    q matches QueryView::Create(c) && c.table.name == name
}

/// Whether a query deletes, from the given table, the rows among which the
/// given row is.
pub open spec fn deletes_row(q: QueryView, table: TableView, row: RowView) -> bool {
    q matches QueryView::Delete(d) && d.table == table.name && holds(d.predicate, row, table)
}

/// Whether a query in the middle of an insert-select property leaves it
/// intact: it neither deletes the selected row nor creates the table again.
pub open spec fn keeps_row(q: QueryView, table: TableView, row: RowView) -> bool {
    !deletes_row(q, table, row) && !creates_table(q, table.name)
}

/// The message of the assumption that a table exists.
pub open spec fn table_exists_message(table: Seq<char>) -> Seq<char> {
    "table "@ + table + " exists"@
}

/// The message of the assertion that a row was found.
pub open spec fn row_missing_message(row: RowView, table: Seq<char>) -> Seq<char> {
    "row ["@ + row_text(row) + "] not found in table "@ + table
}

/// A script: an assumption, a first query, the queries in the middle in
/// their order, a last query, and an assertion.
pub open spec fn script(
    assumption: AssertionView,
    first: QueryView,
    fillers: Seq<QueryView>,
    last: QueryView,
    assertion: AssertionView,
) -> Seq<InteractionView> {
    seq![InteractionView::Assumption(assumption), InteractionView::Query(first)] + Seq::new(
        fillers.len(),
        |i: int| InteractionView::Query(fillers[i]),
    ) + seq![InteractionView::Query(last), InteractionView::Assertion(assertion)]
}

/// The script of a property.
///
/// Insert-select: assume that the table exists, insert, run the queries in
/// the middle, select, and assert that the latest result set holds the
/// selected row. Double-create-failure: assume that the table does not
/// exist, create it, run the queries in the middle, create it again with the
/// same specification, and assert that the engine refused.
pub open spec fn compile(p: PropertyView) -> Seq<InteractionView> {
    match p {
        PropertyView::InsertSelect { insert, row_index, queries, select } => script(
            AssertionView {
                message: table_exists_message(insert.table),
                check: CheckView::TableExists { table: insert.table },
            },
            QueryView::Insert(insert),
            queries,
            QueryView::Select(select),
            AssertionView {
                message: row_missing_message(insert.values[row_index], insert.table),
                check: CheckView::RowInLastResult { row: insert.values[row_index] },
            },
        ),
        PropertyView::DoubleCreateFailure { create, queries } => script(
            AssertionView {
                message: "Double-Create-Failure should not be called on an existing table"@,
                check: CheckView::TableAbsent { table: create.table.name },
            },
            QueryView::Create(create),
            queries,
            QueryView::Create(create),
            AssertionView {
                message: "creating two tables with the name should result in a failure for the second query"@,
                check: CheckView::CreateRejected { table: create.table.name },
            },
        ),
    }
}

/// Lays a script out.
fn build_script(
    assumption: Assertion,
    first: Query,
    fillers: &Vec<Query>,
    last: Query,
    assertion: Assertion,
) -> (res: Vec<Interaction>)
    requires
        fillers.len() + 4 <= usize::MAX,
    ensures
        res.deep_view() == script(assumption@, first@, fillers.deep_view(), last@, assertion@),
{
    let ghost expected = script(assumption@, first@, fillers.deep_view(), last@, assertion@);
    let mut out: Vec<Interaction> = Vec::new();
    out.push(Interaction::Assumption(assumption));
    out.push(Interaction::Query(first));
    let mut i: usize = 0;
    while i < fillers.len()
        invariant
            i <= fillers.len(),
            fillers.len() + 4 <= usize::MAX,
            out.len() == i + 2,
            expected == script(assumption@, first@, fillers.deep_view(), last@, assertion@),
            forall|j: int| 0 <= j < out.len() ==> (#[trigger] out@[j])@ == expected[j],
        decreases fillers.len() - i,
    {
        out.push(Interaction::Query(fillers[i].clone()));
        i += 1;
    }
    out.push(Interaction::Query(last));
    out.push(Interaction::Assertion(assertion));
    assert(out.deep_view() =~= expected);
    out
}

impl Property {
    /// The property's name.
    pub fn name(&self) -> (res: String)
        ensures
            self is InsertSelect ==> res@ == "Insert-Select"@,
            self is DoubleCreateFailure ==> res@ == "Double-Create-Failure"@,
    {
        match self {
            Property::InsertSelect { .. } => String::from_str("Insert-Select"),
            Property::DoubleCreateFailure { .. } => String::from_str("Double-Create-Failure"),
        }
    }

    /// Compiles the property into its script, the executable form that a
    /// driver runs. The script captures copies of what its checks need.
    pub fn interactions(&self) -> (res: Vec<Interaction>)
        requires
            self@.well_formed(),
            self@.fillers().len() + 4 <= usize::MAX,
        ensures
            res.deep_view() == compile(self@),
    {
        match self {
            Property::InsertSelect { insert, row_index, queries, select } => {
                let row = clone_row(&insert.values[*row_index]);
                assert(row.deep_view() == insert@.values[*row_index as int]);

                let mut exists_message = String::from_str("table ");
                exists_message.append(insert.table.as_str());
                exists_message.append(" exists");
                let assumption = Assertion {
                    message: exists_message,
                    check: Check::TableExists { table: insert.table.clone() },
                };

                let mut missing_message = String::from_str("row [");
                push_row(&mut missing_message, &row);
                missing_message.append("] not found in table ");
                missing_message.append(insert.table.as_str());
                let assertion = Assertion {
                    message: missing_message,
                    check: Check::RowInLastResult { row },
                };

                build_script(
                    assumption,
                    Query::Insert(insert.clone()),
                    queries,
                    Query::Select(select.clone()),
                    assertion,
                )
            },
            Property::DoubleCreateFailure { create, queries } => {
                let assumption = Assertion {
                    message: String::from_str(
                        "Double-Create-Failure should not be called on an existing table",
                    ),
                    check: Check::TableAbsent { table: create.table.name.clone() },
                };
                let assertion = Assertion {
                    message: String::from_str(
                        "creating two tables with the name should result in a failure for the second query",
                    ),
                    check: Check::CreateRejected { table: create.table.name.clone() },
                };
                build_script(
                    assumption,
                    Query::Create(create.clone()),
                    queries,
                    Query::Create(create.clone()),
                    assertion,
                )
            },
        }
    }
}

impl Clone for Property {
    fn clone(&self) -> (res: Self)
        ensures
            res@ == self@,
    {
        match self {
            Property::InsertSelect { insert, row_index, queries, select } => {
                Property::InsertSelect {
                    insert: insert.clone(),
                    row_index: *row_index,
                    queries: clone_queries(queries),
                    select: select.clone(),
                }
            },
            Property::DoubleCreateFailure { create, queries } => {
                Property::DoubleCreateFailure {
                    create: create.clone(),
                    queries: clone_queries(queries),
                }
            },
        }
    }
}

} // verus!
