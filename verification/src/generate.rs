//! Random construction of properties: the two generators, the filters that
//! keep the queries in the middle from spoiling a property, and the weighted
//! choice between the generators.

use vstd::prelude::*;
use rand::rngs::StdRng;
use crate::budget::{quotas, remaining, Remaining};
use crate::dispatch::{choose_weighted, lemma_total_push, total};
use crate::entropy::{draw_between, draw_index};
use crate::env::{EnvView, SimulatorEnv};
use crate::plan::InteractionStats;
use crate::predicate::{holds, Predicate, PredicateView};
use crate::property::{creates_table, keeps_row, Property, PropertyView};
use crate::providers::{
    arbitrary_query, arbitrary_rows, matching_predicate, provided_query, query_targets, row_fits,
};
use crate::query::{
    Create, CreateView, Insert, InsertView, Query, QueryView, Select, SelectView,
};
use crate::table::{Table, TableView};
use crate::value::{RowView, Value};

verus! {

/// The test that [`keeps_row`] makes for a table and a row.
pub open spec fn keeps_row_test(table: TableView, row: RowView) -> spec_fn(QueryView) -> bool {
    |q: QueryView| keeps_row(q, table, row)
}

/// The test that a query does not create a table of the given name.
pub open spec fn spares_table_test(name: Seq<char>) -> spec_fn(QueryView) -> bool {
    |q: QueryView| !creates_table(q, name)
}

/// What an insert-select property generated for a table looks like: it
/// inserts one to five fitting rows into the table, selects one of them by
/// index, has at most two queries in the middle, all well formed and none
/// spoiling the property, and selects from the table with a predicate that
/// the selected row matches.
pub open spec fn insert_select_about(p: PropertyView, table: TableView) -> bool {
    &&& p matches PropertyView::InsertSelect { insert, row_index, queries, select }
    &&& insert.table == table.name
    &&& 1 <= insert.values.len() <= 5
    &&& forall|i: int| 0 <= i < insert.values.len() ==> row_fits(#[trigger] insert.values[i], table)
    &&& 0 <= row_index < insert.values.len()
    &&& queries.len() <= 2
    &&& forall|i: int| 0 <= i < queries.len() ==> query_targets(#[trigger] queries[i], table)
    &&& p.sound(table)
    &&& select.table == table.name
    &&& holds(select.predicate, insert.values[row_index], table)
}

/// What a double-create-failure property generated for a table looks like:
/// it creates the table with its own schema, and has at most two queries in
/// the middle, all well formed and none creating a table of that name.
pub open spec fn double_create_about(p: PropertyView, table: TableView) -> bool {
    &&& p matches PropertyView::DoubleCreateFailure { create, queries }
    &&& create.table == table
    &&& queries.len() <= 2
    &&& forall|i: int| 0 <= i < queries.len() ==> query_targets(#[trigger] queries[i], table)
    &&& p.sound(table)
}

/// Whether a candidate query may stand in the middle of an insert-select
/// property about the given table and row: not a delete from that table
/// whose predicate matches the row, and not a create of that table.
pub fn keeps_insert_select(query: &Query, table: &Table, row: &Vec<Value>) -> (res: bool)
    ensures
        res == keeps_row(query@, table@, row.deep_view()),
{
    match query {
        Query::Delete(delete) => !(delete.table == table.name && delete.predicate.test(
            row,
            table,
        )),
        Query::Create(create) => !(create.table.name == table.name),
        _ => true,
    }
}

/// Whether a candidate query may stand in the middle of a
/// double-create-failure property about the given table: not a create of a
/// table of that name.
pub fn keeps_double_create(query: &Query, table: &Table) -> (res: bool)
    ensures
        res == !creates_table(query@, table@.name),
{
    match query {
        Query::Create(create) => !(create.table.name == table.name),
        _ => true,
    }
}

/// Keeps, in their order, the candidates that may stand in the middle of an
/// insert-select property about the given table and row. A candidate that is
/// dropped is not replaced.
pub fn retain_insert_select_fillers(candidates: &Vec<Query>, table: &Table, row: &Vec<Value>) -> (res:
    Vec<Query>)
    ensures
        res.deep_view() == candidates.deep_view().filter(
            keeps_row_test(table@, row.deep_view()),
        ),
{
    let ghost test = keeps_row_test(table@, row.deep_view());
    let ghost all = candidates.deep_view();
    let mut kept: Vec<Query> = Vec::new();
    let mut i: usize = 0;
    proof {
        reveal(Seq::filter);
        assert(all.take(0) =~= Seq::empty());
        assert(kept.deep_view() =~= all.take(0).filter(test));
    }
    while i < candidates.len()
        invariant
            i <= candidates.len(),
            all == candidates.deep_view(),
            test == keeps_row_test(table@, row.deep_view()),
            kept.deep_view() == all.take(i as int).filter(test),
        decreases candidates.len() - i,
    {
        let ghost before = kept.deep_view();
        let keep = keeps_insert_select(&candidates[i], table, row);
        if keep {
            kept.push(candidates[i].clone());
        }
        proof {
            reveal(Seq::filter);
            let next = all.take(i + 1);
            assert(next.drop_last() =~= all.take(i as int));
            assert(next.last() == candidates@[i as int]@);
            if keep {
                assert(kept.deep_view() =~= before.push(candidates@[i as int]@));
            } else {
                assert(kept.deep_view() =~= before);
            }
        }
        i += 1;
    }
    assert(all.take(candidates.len() as int) =~= all);
    kept
}

/// Keeps, in their order, the candidates that may stand in the middle of a
/// double-create-failure property about the given table. A candidate that is
/// dropped is not replaced.
pub fn retain_double_create_fillers(candidates: &Vec<Query>, table: &Table) -> (res: Vec<Query>)
    ensures
        res.deep_view() == candidates.deep_view().filter(spares_table_test(table@.name)),
{
    let ghost test = spares_table_test(table@.name);
    let ghost all = candidates.deep_view();
    let mut kept: Vec<Query> = Vec::new();
    let mut i: usize = 0;
    proof {
        reveal(Seq::filter);
        assert(all.take(0) =~= Seq::empty());
        assert(kept.deep_view() =~= all.take(0).filter(test));
    }
    while i < candidates.len()
        invariant
            i <= candidates.len(),
            all == candidates.deep_view(),
            test == spares_table_test(table@.name),
            kept.deep_view() == all.take(i as int).filter(test),
        decreases candidates.len() - i,
    {
        let ghost before = kept.deep_view();
        let keep = keeps_double_create(&candidates[i], table);
        if keep {
            kept.push(candidates[i].clone());
        }
        proof {
            reveal(Seq::filter);
            let next = all.take(i + 1);
            assert(next.drop_last() =~= all.take(i as int));
            assert(next.last() == candidates@[i as int]@);
            if keep {
                assert(kept.deep_view() =~= before.push(candidates@[i as int]@));
            } else {
                assert(kept.deep_view() =~= before);
            }
        }
        i += 1;
    }
    assert(all.take(candidates.len() as int) =~= all);
    kept
}

/// What is kept of well-formed candidates is well formed, passes the test,
/// and is no longer than the candidates.
pub proof fn lemma_retained(candidates: Seq<QueryView>, test: spec_fn(QueryView) -> bool, table: TableView)
    requires
        forall|i: int| 0 <= i < candidates.len() ==> query_targets(#[trigger] candidates[i], table),
    ensures
        candidates.filter(test).len() <= candidates.len(),
        forall|i: int|
            0 <= i < candidates.filter(test).len() ==> test(#[trigger] candidates.filter(test)[i])
                && query_targets(candidates.filter(test)[i], table),
    decreases candidates.len(),
{
    reveal(Seq::filter);
    if candidates.len() > 0 {
        let shorter = candidates.drop_last();
        assert forall|i: int| 0 <= i < shorter.len() implies query_targets(
            #[trigger] shorter[i],
            table,
        ) by {
            assert(shorter[i] == candidates[i]);
        }
        lemma_retained(shorter, test, table);
        assert(query_targets(candidates[candidates.len() - 1], table));
    }
}

/// Draws how many queries to try for the middle of a property, none to two,
/// and generates that many candidates about the table, each as the query
/// provider gives it under the budget.
fn candidate_fillers(rng: &mut StdRng, table: &Table, remaining: &Remaining) -> (res: Vec<Query>)
    requires
        remaining.bounded(),
    ensures
        res.len() <= 2,
        forall|i: int|
            0 <= i < res.len() ==> provided_query(
                #[trigger] res.deep_view()[i],
                table@,
                *remaining,
            ),
        forall|i: int| 0 <= i < res.len() ==> query_targets(#[trigger] res.deep_view()[i], table@),
{
    let attempts = draw_between(rng, 0, 2);
    let mut candidates: Vec<Query> = Vec::new();
    let mut i: usize = 0;
    while i < attempts
        invariant
            i <= attempts <= 2,
            remaining.bounded(),
            candidates.len() == i,
            forall|j: int|
                0 <= j < i ==> provided_query((#[trigger] candidates@[j])@, table@, *remaining),
        decreases attempts - i,
    {
        candidates.push(arbitrary_query(rng, table, remaining));
        i += 1;
    }
    assert forall|j: int| 0 <= j < candidates.len() implies provided_query(
        #[trigger] candidates.deep_view()[j],
        table@,
        *remaining,
    ) by {
        assert(candidates.deep_view()[j] == candidates@[j]@);
    }
    candidates
}

/// The insert-select property that is made of what was drawn for it: the
/// rows go into the insert, the candidates that may stay go into the middle,
/// and the predicate goes into the select.
pub open spec fn assembled_insert_select(
    table: TableView,
    rows: Seq<RowView>,
    row_index: int,
    candidates: Seq<QueryView>,
    predicate: PredicateView,
) -> PropertyView {
    PropertyView::InsertSelect {
        insert: InsertView { table: table.name, values: rows },
        row_index,
        queries: candidates.filter(keeps_row_test(table, rows[row_index])),
        select: SelectView { table: table.name, predicate },
    }
}

/// The double-create-failure property that is made of what was drawn for
/// it: the table goes into the create, and the candidates that may stay go
/// into the middle.
pub open spec fn assembled_double_create(
    table: TableView,
    candidates: Seq<QueryView>,
) -> PropertyView {
    PropertyView::DoubleCreateFailure {
        create: CreateView { table },
        queries: candidates.filter(spares_table_test(table.name)),
    }
}

/// Makes an insert-select property about a table out of the rows to insert,
/// the index of the row to select, the candidates for the middle and the
/// predicate of the select. The property is a function of these alone.
pub fn assemble_insert_select(
    table: &Table,
    rows: Vec<Vec<Value>>,
    row_index: usize,
    candidates: &Vec<Query>,
    predicate: Predicate,
) -> (res: Property)
    requires
        row_index < rows.len(),
    ensures
        res@ == assembled_insert_select(
            table@,
            rows.deep_view(),
            row_index as int,
            candidates.deep_view(),
            predicate@,
        ),
{
    let queries = retain_insert_select_fillers(candidates, table, &rows[row_index]);
    Property::InsertSelect {
        insert: Insert { table: table.name.clone(), values: rows },
        row_index,
        queries,
        select: Select { table: table.name.clone(), predicate },
    }
}

/// Makes a double-create-failure property about a table out of the
/// candidates for the middle. The property is a function of these alone.
pub fn assemble_double_create(table: &Table, candidates: &Vec<Query>) -> (res: Property)
    ensures
        res@ == assembled_double_create(table@, candidates.deep_view()),
{
    let queries = retain_double_create_fillers(candidates, table);
    Property::DoubleCreateFailure { create: Create { table: table.clone() }, queries }
}

/// Generates an insert-select property about the given table.
fn insert_select_for(rng: &mut StdRng, table: &Table, remaining: &Remaining) -> (res: Property)
    requires
        remaining.bounded(),
    ensures
        insert_select_about(res@, table@),
{
    let rows = arbitrary_rows(rng, table, 1, 5);
    let row_index = draw_index(rng, rows.len());
    let candidates = candidate_fillers(rng, table, remaining);
    let predicate = matching_predicate(rng, table, &rows[row_index]);
    proof {
        lemma_retained(
            candidates.deep_view(),
            keeps_row_test(table@, rows.deep_view()[row_index as int]),
            table@,
        );
    }
    assemble_insert_select(table, rows, row_index, &candidates, predicate)
}

/// Generates a double-create-failure property about the given table.
fn double_create_for(rng: &mut StdRng, table: &Table, remaining: &Remaining) -> (res: Property)
    requires
        remaining.bounded(),
    ensures
        double_create_about(res@, table@),
{
    let candidates = candidate_fillers(rng, table, remaining);
    proof {
        lemma_retained(candidates.deep_view(), spares_table_test(table@.name), table@);
    }
    assemble_double_create(table, &candidates)
}

/// Generates an insert-select property about a table picked evenly from the
/// environment: one to five rows to insert, one of them picked evenly, up to
/// two queries for the middle, of which those that would spoil the property
/// are dropped, and a select whose predicate matches the picked row.
pub fn property_insert_select(rng: &mut StdRng, env: &SimulatorEnv, remaining: &Remaining) -> (res:
    Property)
    requires
        env.tables.len() > 0,
        remaining.bounded(),
    ensures
        res@.well_formed(),
        exists|i: int|
            0 <= i < env@.tables.len() && insert_select_about(res@, #[trigger] env@.tables[i]),
{
    let at = draw_index(rng, env.tables.len());
    let res = insert_select_for(rng, &env.tables[at], remaining);
    assert(insert_select_about(res@, env@.tables[at as int]));
    res
}

/// Generates a double-create-failure property about a table picked evenly
/// from the environment: a create of that table, and up to two queries for
/// the middle, of which those that create a table of that name are dropped.
pub fn property_double_create_failure(
    rng: &mut StdRng,
    env: &SimulatorEnv,
    remaining: &Remaining,
) -> (res: Property)
    requires
        env.tables.len() > 0,
        remaining.bounded(),
    ensures
        res@.well_formed(),
        exists|i: int|
            0 <= i < env@.tables.len() && double_create_about(res@, #[trigger] env@.tables[i]),
{
    let at = draw_index(rng, env.tables.len());
    let res = double_create_for(rng, &env.tables[at], remaining);
    assert(double_create_about(res@, env@.tables[at as int]));
    res
}

/// The weight of the insert-select generator: the smaller of the read and
/// write quotas, since the property takes a read and a write.
pub open spec fn insert_select_weight(remaining: Remaining) -> int {
    if remaining.read <= remaining.write {
        remaining.read as int
    } else {
        remaining.write as int
    }
}

/// The weight of the double-create-failure generator: half the create quota,
/// since the property takes two creates.
pub open spec fn double_create_weight(remaining: Remaining) -> int {
    remaining.create as int / 2
}

/// The weights of the generators, insert-select first.
pub fn generator_weights(remaining: &Remaining) -> (res: Vec<u128>)
    ensures
        res.len() == 2,
        res[0] == insert_select_weight(*remaining),
        res[1] == double_create_weight(*remaining),
        total(res@) == insert_select_weight(*remaining) + double_create_weight(*remaining),
{
    let both: u128 = if remaining.read <= remaining.write {
        remaining.read
    } else {
        remaining.write
    };
    let mut weights: Vec<u128> = Vec::new();
    proof {
        assert(total(weights@) == 0);
        lemma_total_push(weights@, both);
    }
    weights.push(both);
    proof {
        lemma_total_push(weights@, (remaining.create / 2) as u128);
    }
    weights.push(remaining.create / 2);
    weights
}

/// What a property generated in an environment looks like: a property of
/// either kind about one of the environment's tables.
pub open spec fn generated(p: PropertyView, env: EnvView) -> bool {
    exists|i: int|
        0 <= i < env.tables.len() && (insert_select_about(p, #[trigger] env.tables[i])
            || double_create_about(p, env.tables[i]))
}

impl Property {
    /// Generates a property. What is left of the workload is computed from
    /// the environment's targets and the running counters; the generator is
    /// then chosen at random in proportion to its weight, so that a generator
    /// of weight zero is chosen only where both weights are zero, in which
    /// case the choice between the two is even.
    pub fn arbitrary_from(rng: &mut StdRng, context: (&SimulatorEnv, &InteractionStats)) -> (res:
        Property)
        requires
            context.0.tables.len() > 0,
        ensures
            res@.well_formed(),
            generated(res@, context.0@),
            insert_select_weight(quotas(context.0.opts, *context.1)) == 0 && double_create_weight(
                quotas(context.0.opts, *context.1),
            ) > 0 ==> res is DoubleCreateFailure,
            double_create_weight(quotas(context.0.opts, *context.1)) == 0 && insert_select_weight(
                quotas(context.0.opts, *context.1),
            ) > 0 ==> res is InsertSelect,
    {
        let env = context.0;
        let stats = context.1;
        let left = remaining(env, stats);
        let weights = generator_weights(&left);
        let kind = choose_weighted(rng, &weights);
        if kind == 0 {
            let res = property_insert_select(rng, env, &left);
            proof {
                let i = choose|i: int|
                    0 <= i < env@.tables.len() && insert_select_about(
                        res@,
                        #[trigger] env@.tables[i],
                    );
                assert(insert_select_about(res@, env@.tables[i]));
            }
            res
        } else {
            let res = property_double_create_failure(rng, env, &left);
            proof {
                let i = choose|i: int|
                    0 <= i < env@.tables.len() && double_create_about(
                        res@,
                        #[trigger] env@.tables[i],
                    );
                assert(double_create_about(res@, env@.tables[i]));
            }
            res
        }
    }
}

} // verus!
