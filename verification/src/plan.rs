//! The script model: interactions, and the checks that assumptions and
//! assertions carry.
//!
//! A check is plain captured data (a table name, a row) with one evaluation
//! operation, so that a script never points back into the property or the
//! queries it was compiled from.

use vstd::prelude::*;
use crate::env::SimulatorEnv;
use crate::query::{Query, QueryView};
use crate::table::{has_table, table_exists, TableView};
use crate::text::{contains_text, is_infix};
use crate::value::{rows_equal, RowView, Value};

verus! {

/// The failure of one executed query, as the engine reported it.
#[derive(Debug)]
pub struct ExecutionError {
    pub message: String,
}

/// The outcome of one executed query: the returned rows, or the failure.
pub type ResultSet = Result<Vec<Vec<Value>>, ExecutionError>;

/// The mathematical content of a [`ResultSet`]: rows, or the error's text.
pub type ResultSetView = Result<Seq<RowView>, Seq<char>>;

/// The content of one result set.
pub open spec fn result_view(r: ResultSet) -> ResultSetView {
    match r {
        Ok(rows) => Ok(rows.deep_view()),
        Err(e) => Err(e.message@),
    }
}

/// The content of a result-set stack, oldest entry first.
pub open spec fn stack_view(stack: Seq<ResultSet>) -> Seq<ResultSetView> {
    Seq::new(stack.len(), |i: int| result_view(stack[i]))
}

/// Running counters of executed queries, by category.
#[derive(Clone, Copy, Debug, PartialEq, Eq, Structural)]
pub struct InteractionStats {
    pub read_count: usize,
    pub write_count: usize,
    pub create_count: usize,
}

/// The failure of the oracle itself, as opposed to a falsified invariant.
#[derive(Debug)]
pub enum OracleError {
    /// A check needed a successful result set and found the engine's error,
    /// whose text this carries.
    Internal(String),
}

/// The mathematical content of an [`OracleError`].
pub enum OracleErrorView {
    Internal(Seq<char>),
}

impl DeepView for OracleError {
    type V = OracleErrorView;

    open spec fn deep_view(&self) -> OracleErrorView {
        match self {
            OracleError::Internal(text) => OracleErrorView::Internal(text@),
        }
    }
}

impl View for OracleError {
    type V = OracleErrorView;

    open spec fn view(&self) -> OracleErrorView {
        self.deep_view()
    }
}

/// What an assumption or assertion tests.
#[derive(Debug)]
pub enum Check {
    /// The environment lists a table of this name.
    TableExists { table: String },
    /// The environment lists no table of this name.
    TableAbsent { table: String },
    /// The latest result set succeeded and holds this row.
    RowInLastResult { row: Vec<Value> },
    /// The latest result set is the engine's refusal to create a table of
    /// this name a second time.
    CreateRejected { table: String },
}

/// The mathematical content of a [`Check`].
pub enum CheckView {
    TableExists { table: Seq<char> },
    TableAbsent { table: Seq<char> },
    RowInLastResult { row: RowView },
    CreateRejected { table: Seq<char> },
}

impl DeepView for Check {
    type V = CheckView;

    open spec fn deep_view(&self) -> CheckView {
        match self {
            Check::TableExists { table } => CheckView::TableExists { table: table@ },
            Check::TableAbsent { table } => CheckView::TableAbsent { table: table@ },
            Check::RowInLastResult { row } => CheckView::RowInLastResult { row: row.deep_view() },
            Check::CreateRejected { table } => CheckView::CreateRejected { table: table@ },
        }
    }
}

impl View for Check {
    type V = CheckView;

    open spec fn view(&self) -> CheckView {
        self.deep_view()
    }
}

/// A check with the message to report when it does not hold.
#[derive(Debug)]
pub struct Assertion {
    pub message: String,
    pub check: Check,
}

/// The mathematical content of an [`Assertion`].
pub struct AssertionView {
    pub message: Seq<char>,
    pub check: CheckView,
}

impl DeepView for Assertion {
    type V = AssertionView;

    open spec fn deep_view(&self) -> AssertionView {
        AssertionView { message: self.message@, check: self.check@ }
    }
}

impl View for Assertion {
    type V = AssertionView;

    open spec fn view(&self) -> AssertionView {
        self.deep_view()
    }
}

/// One step of a script.
#[derive(Debug)]
pub enum Interaction {
    /// Execute a query and push its outcome on the result-set stack.
    Query(Query),
    /// A precondition: if it does not hold, the script is discarded.
    Assumption(Assertion),
    /// A postcondition: if it does not hold, the run is a reportable failure.
    Assertion(Assertion),
}

/// The mathematical content of an [`Interaction`].
pub enum InteractionView {
    Query(QueryView),
    Assumption(AssertionView),
    Assertion(AssertionView),
}

impl DeepView for Interaction {
    type V = InteractionView;

    open spec fn deep_view(&self) -> InteractionView {
        match self {
            Interaction::Query(q) => InteractionView::Query(q@),
            Interaction::Assumption(a) => InteractionView::Assumption(a@),
            Interaction::Assertion(a) => InteractionView::Assertion(a@),
        }
    }
}

impl View for Interaction {
    type V = InteractionView;

    open spec fn view(&self) -> InteractionView {
        self.deep_view()
    }
}

/// The text by which the engine refuses to create a table that exists.
pub open spec fn already_exists_text(table: Seq<char>) -> Seq<char> {
    "Table "@ + table + " already exists"@
}

/// Whether a check reads the result-set stack.
pub open spec fn reads_stack(check: CheckView) -> bool {
    check is RowInLastResult || check is CreateRejected
}

/// The outcome of a check against a result-set stack and a table list.
///
/// The two table checks look at the environment only. The two result checks
/// look at the latest result set only: a row check passes when that result is
/// a success holding the row, and is an oracle error when it is a failure; a
/// rejection check passes when that result is a failure whose text holds the
/// engine's refusal.
pub open spec fn verdict(
    check: CheckView,
    stack: Seq<ResultSetView>,
    tables: Seq<TableView>,
) -> Result<bool, OracleErrorView> {
    match check {
        CheckView::TableExists { table } => Ok(has_table(tables, table)),
        CheckView::TableAbsent { table } => Ok(!has_table(tables, table)),
        CheckView::RowInLastResult { row } => match stack.last() {
            Ok(rows) => Ok(rows.contains(row)),
            Err(text) => Err(OracleErrorView::Internal(text)),
        },
        CheckView::CreateRejected { table } => match stack.last() {
            Ok(_) => Ok(false),
            Err(text) => Ok(is_infix(already_exists_text(table), text)),
        },
    }
}

/// The content of a check's outcome.
pub open spec fn outcome_view(r: Result<bool, OracleError>) -> Result<bool, OracleErrorView> {
    match r {
        Ok(b) => Ok(b),
        Err(e) => Err(e@),
    }
}

/// Whether some row of the list equals the given row, component by component.
pub fn rows_contain(rows: &Vec<Vec<Value>>, row: &Vec<Value>) -> (res: bool)
    ensures
        res == rows.deep_view().contains(row.deep_view()),
{
    let mut i: usize = 0;
    while i < rows.len()
        invariant
            i <= rows.len(),
            forall|j: int| 0 <= j < i ==> rows.deep_view()[j] != row.deep_view(),
        decreases rows.len() - i,
    {
        if rows_equal(&rows[i], row) {
            assert(rows.deep_view()[i as int] == row.deep_view());
            return true;
        }
        i += 1;
    }
    false
}

/// Builds the engine's refusal text for a table name.
pub fn already_exists_message(table: &String) -> (res: String)
    ensures
        res@ == already_exists_text(table@),
{
    let mut text = String::from_str("Table ");
    text.append(table.as_str());
    text.append(" already exists");
    text
}

impl Check {
    /// Evaluates the check against the result-set stack and the environment.
    pub fn evaluate(&self, stack: &Vec<ResultSet>, env: &SimulatorEnv) -> (res: Result<
        bool,
        OracleError,
    >)
        requires
            reads_stack(self@) ==> stack.len() > 0,
        ensures
            outcome_view(res) == verdict(self@, stack_view(stack@), env@.tables),
    {
        match self {
            Check::TableExists { table } => Ok(table_exists(&env.tables, table)),
            Check::TableAbsent { table } => Ok(!table_exists(&env.tables, table)),
            Check::RowInLastResult { row } => {
                let last = &stack[stack.len() - 1];
                assert(stack_view(stack@).last() == result_view(*last));
                match last {
                    Ok(rows) => Ok(rows_contain(rows, row)),
                    Err(e) => Err(OracleError::Internal(e.message.clone())),
                }
            },
            Check::CreateRejected { table } => {
                let last = &stack[stack.len() - 1];
                assert(stack_view(stack@).last() == result_view(*last));
                match last {
                    Ok(_) => Ok(false),
                    Err(e) => {
                        let needle = already_exists_message(table);
                        Ok(contains_text(e.message.as_str(), needle.as_str()))
                    },
                }
            },
        }
    }
}

impl Assertion {
    /// Evaluates the carried check against the result-set stack and the
    /// environment.
    pub fn evaluate(&self, stack: &Vec<ResultSet>, env: &SimulatorEnv) -> (res: Result<
        bool,
        OracleError,
    >)
        requires
            reads_stack(self@.check) ==> stack.len() > 0,
        ensures
            outcome_view(res) == verdict(self@.check, stack_view(stack@), env@.tables),
    {
        self.check.evaluate(stack, env)
    }
}

} // verus!
