//! Queries: the statements a script sends to the engine.

use vstd::prelude::*;
use crate::predicate::{Predicate, PredicateView};
use crate::table::{Table, TableView};
use crate::value::{clone_row, RowView, Value};

verus! {

/// `INSERT INTO <table> VALUES <rows>`.
#[derive(Debug)]
pub struct Insert {
    pub table: String,
    pub values: Vec<Vec<Value>>,
}

/// `SELECT * FROM <table> WHERE <predicate>`.
#[derive(Debug)]
pub struct Select {
    pub table: String,
    pub predicate: Predicate,
}

/// `CREATE TABLE <table>`.
#[derive(Debug)]
pub struct Create {
    pub table: Table,
}

/// `DELETE FROM <table> WHERE <predicate>`.
#[derive(Debug)]
pub struct Delete {
    pub table: String,
    pub predicate: Predicate,
}

/// One statement.
#[derive(Debug)]
pub enum Query {
    Insert(Insert),
    Select(Select),
    Create(Create),
    Delete(Delete),
}

/// The mathematical content of an [`Insert`].
pub struct InsertView {
    pub table: Seq<char>,
    pub values: Seq<RowView>,
}

/// The mathematical content of a [`Select`].
pub struct SelectView {
    pub table: Seq<char>,
    pub predicate: PredicateView,
}

/// The mathematical content of a [`Create`].
pub struct CreateView {
    pub table: TableView,
}

/// The mathematical content of a [`Delete`].
pub struct DeleteView {
    pub table: Seq<char>,
    pub predicate: PredicateView,
}

/// The mathematical content of a [`Query`].
pub enum QueryView {
    Insert(InsertView),
    Select(SelectView),
    Create(CreateView),
    Delete(DeleteView),
}

impl DeepView for Insert {
    type V = InsertView;

    open spec fn deep_view(&self) -> InsertView {
        InsertView { table: self.table@, values: self.values.deep_view() }
    }
}

impl View for Insert {
    type V = InsertView;

    open spec fn view(&self) -> InsertView {
        self.deep_view()
    }
}

impl DeepView for Select {
    type V = SelectView;

    open spec fn deep_view(&self) -> SelectView {
        SelectView { table: self.table@, predicate: self.predicate@ }
    }
}

impl View for Select {
    type V = SelectView;

    open spec fn view(&self) -> SelectView {
        self.deep_view()
    }
}

impl DeepView for Create {
    type V = CreateView;

    open spec fn deep_view(&self) -> CreateView {
        CreateView { table: self.table@ }
    }
}

impl View for Create {
    type V = CreateView;

    open spec fn view(&self) -> CreateView {
        self.deep_view()
    }
}

impl DeepView for Delete {
    type V = DeleteView;

    open spec fn deep_view(&self) -> DeleteView {
        DeleteView { table: self.table@, predicate: self.predicate@ }
    }
}

impl View for Delete {
    type V = DeleteView;

    open spec fn view(&self) -> DeleteView {
        self.deep_view()
    }
}

impl DeepView for Query {
    type V = QueryView;

    open spec fn deep_view(&self) -> QueryView {
        match self {
            Query::Insert(q) => QueryView::Insert(q@),
            Query::Select(q) => QueryView::Select(q@),
            Query::Create(q) => QueryView::Create(q@),
            Query::Delete(q) => QueryView::Delete(q@),
        }
    }
}

impl View for Query {
    type V = QueryView;

    open spec fn view(&self) -> QueryView {
        self.deep_view()
    }
}

/// Copies a list of rows.
pub fn clone_rows(rows: &Vec<Vec<Value>>) -> (res: Vec<Vec<Value>>)
    ensures
        res.deep_view() == rows.deep_view(),
{
    let mut out: Vec<Vec<Value>> = Vec::new();
    let mut i: usize = 0;
    while i < rows.len()
        invariant
            i <= rows.len(),
            out.len() == i,
            forall|j: int| 0 <= j < i ==> out@[j].deep_view() == rows@[j].deep_view(),
        decreases rows.len() - i,
    {
        out.push(clone_row(&rows[i]));
        i += 1;
    }
    assert(out.deep_view() =~= rows.deep_view());
    out
}

impl Clone for Insert {
    fn clone(&self) -> (res: Self)
        ensures
            res@ == self@,
    {
        Insert { table: self.table.clone(), values: clone_rows(&self.values) }
    }
}

impl Clone for Select {
    fn clone(&self) -> (res: Self)
        ensures
            res@ == self@,
    {
        Select { table: self.table.clone(), predicate: self.predicate.clone() }
    }
}

impl Clone for Create {
    fn clone(&self) -> (res: Self)
        ensures
            res@ == self@,
    {
        Create { table: self.table.clone() }
    }
}

impl Clone for Delete {
    fn clone(&self) -> (res: Self)
        ensures
            res@ == self@,
    {
        Delete { table: self.table.clone(), predicate: self.predicate.clone() }
    }
}

impl Clone for Query {
    fn clone(&self) -> (res: Self)
        ensures
            res@ == self@,
    {
        match self {
            Query::Insert(q) => Query::Insert(q.clone()),
            Query::Select(q) => Query::Select(q.clone()),
            Query::Create(q) => Query::Create(q.clone()),
            Query::Delete(q) => Query::Delete(q.clone()),
        }
    }
}

/// Copies a list of queries, in order.
pub fn clone_queries(queries: &Vec<Query>) -> (res: Vec<Query>)
    ensures
        res.deep_view() == queries.deep_view(),
{
    let mut out: Vec<Query> = Vec::new();
    let mut i: usize = 0;
    while i < queries.len()
        invariant
            i <= queries.len(),
            out.len() == i,
            forall|j: int| 0 <= j < i ==> out@[j]@ == queries@[j]@,
        decreases queries.len() - i,
    {
        out.push(queries[i].clone());
        i += 1;
    }
    assert(out.deep_view() =~= queries.deep_view());
    out
}

} // verus!
