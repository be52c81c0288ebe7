//! Table schemas: a name and ordered column definitions.

use vstd::prelude::*;
use crate::value::ColumnType;

verus! {

/// One column definition.
#[derive(Debug)]
pub struct Column {
    pub name: String,
    pub column_type: ColumnType,
}

/// The mathematical content of a [`Column`].
pub struct ColumnView {
    pub name: Seq<char>,
    pub column_type: ColumnType,
}

impl DeepView for Column {
    type V = ColumnView;

    open spec fn deep_view(&self) -> ColumnView {
        ColumnView { name: self.name@, column_type: self.column_type }
    }
}

impl View for Column {
    type V = ColumnView;

    open spec fn view(&self) -> ColumnView {
        self.deep_view()
    }
}

impl Clone for Column {
    fn clone(&self) -> (res: Self)
        ensures
            res@ == self@,
    {
        Column { name: self.name.clone(), column_type: self.column_type }
    }
}

/// A table schema.
#[derive(Debug)]
pub struct Table {
    pub name: String,
    pub columns: Vec<Column>,
}

/// The mathematical content of a [`Table`].
pub struct TableView {
    pub name: Seq<char>,
    pub columns: Seq<ColumnView>,
}

impl DeepView for Table {
    type V = TableView;

    open spec fn deep_view(&self) -> TableView {
        TableView { name: self.name@, columns: self.columns.deep_view() }
    }
}

impl View for Table {
    type V = TableView;

    open spec fn view(&self) -> TableView {
        self.deep_view()
    }
}

impl Clone for Table {
    fn clone(&self) -> (res: Self)
        ensures
            res@ == self@,
    {
        let mut columns: Vec<Column> = Vec::new();
        let mut i: usize = 0;
        while i < self.columns.len()
            invariant
                i <= self.columns.len(),
                columns.len() == i,
                forall|j: int| 0 <= j < i ==> columns@[j]@ == self.columns@[j]@,
            decreases self.columns.len() - i,
        {
            columns.push(self.columns[i].clone());
            i += 1;
        }
        assert(columns.deep_view() =~= self.columns.deep_view());
        Table { name: self.name.clone(), columns }
    }
}

/// Whether some table of the list carries the given name.
pub open spec fn has_table(tables: Seq<TableView>, name: Seq<char>) -> bool {
    exists|i: int| 0 <= i < tables.len() && (#[trigger] tables[i]).name == name
}

/// Looks a table up by name.
pub fn table_exists(tables: &Vec<Table>, name: &String) -> (res: bool)
    ensures
        res == has_table(tables.deep_view(), name@),
{
    let mut i: usize = 0;
    while i < tables.len()
        invariant
            i <= tables.len(),
            forall|j: int| 0 <= j < i ==> (#[trigger] tables.deep_view()[j]).name != name@,
        decreases tables.len() - i,
    {
        if tables[i].name == *name {
            assert(tables.deep_view()[i as int].name == name@);
            return true;
        }
        i += 1;
    }
    false
}

} // verus!
