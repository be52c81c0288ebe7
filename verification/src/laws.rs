//! What holds of every compiled script.

use vstd::prelude::*;
use crate::plan::{CheckView, InteractionView};
use crate::property::{compile, creates_table, keeps_row, script, PropertyView};
use crate::query::QueryView;
use crate::table::TableView;

verus! {

/// How many items of a sequence pass a test.
pub open spec fn count<T>(s: Seq<T>, test: spec_fn(T) -> bool) -> nat
    decreases s.len(),
{
    if s.len() == 0 {
        0
    } else {
        count(s.drop_last(), test) + if test(s.last()) {
            1nat
        } else {
            0nat
        }
    }
}

/// The test for an assumption.
pub open spec fn is_assumption() -> spec_fn(InteractionView) -> bool {
    |i: InteractionView| i is Assumption
}

/// The test for an assertion.
pub open spec fn is_assertion() -> spec_fn(InteractionView) -> bool {
    |i: InteractionView| i is Assertion
}

/// The test for a query that passes the given test.
pub open spec fn is_query(test: spec_fn(QueryView) -> bool) -> spec_fn(InteractionView) -> bool {
    |i: InteractionView| i matches InteractionView::Query(q) && test(q)
}

/// The test for an insert.
pub open spec fn is_insert() -> spec_fn(QueryView) -> bool {
    |q: QueryView| q is Insert
}

/// The test for a select.
pub open spec fn is_select() -> spec_fn(QueryView) -> bool {
    |q: QueryView| q is Select
}

/// The test for a create of a table of the given name.
pub open spec fn is_create_of(name: Seq<char>) -> spec_fn(QueryView) -> bool {
    |q: QueryView| creates_table(q, name)
}

/// Counting over two sequences laid end to end adds the counts.
pub proof fn lemma_count_add<T>(a: Seq<T>, b: Seq<T>, test: spec_fn(T) -> bool)
    ensures
        count(a + b, test) == count(a, test) + count(b, test),
    decreases b.len(),
{
    if b.len() == 0 {
        assert(a + b =~= a);
    } else {
        assert((a + b).drop_last() =~= a + b.drop_last());
        lemma_count_add(a, b.drop_last(), test);
    }
}

/// Two sequences whose items pass their tests at the same positions have
/// the same counts.
pub proof fn lemma_count_alike<S, T>(
    a: Seq<S>,
    test_a: spec_fn(S) -> bool,
    b: Seq<T>,
    test_b: spec_fn(T) -> bool,
)
    requires
        a.len() == b.len(),
        forall|i: int| 0 <= i < a.len() ==> test_a(#[trigger] a[i]) == test_b(b[i]),
    ensures
        count(a, test_a) == count(b, test_b),
    decreases a.len(),
{
    if a.len() > 0 {
        assert(test_a(a[a.len() - 1]) == test_b(b[a.len() - 1]));
        assert forall|i: int| 0 <= i < a.drop_last().len() implies test_a(
            #[trigger] a.drop_last()[i],
        ) == test_b(b.drop_last()[i]) by {
            assert(test_a(a[i]) == test_b(b[i]));
        }
        lemma_count_alike(a.drop_last(), test_a, b.drop_last(), test_b);
    }
}

/// Where no item passes the test, the count is zero.
pub proof fn lemma_count_none<T>(s: Seq<T>, test: spec_fn(T) -> bool)
    requires
        forall|i: int| 0 <= i < s.len() ==> !test(#[trigger] s[i]),
    ensures
        count(s, test) == 0,
    decreases s.len(),
{
    if s.len() > 0 {
        assert(!test(s[s.len() - 1]));
        assert forall|i: int| 0 <= i < s.drop_last().len() implies !test(
            #[trigger] s.drop_last()[i],
        ) by {
            assert(!test(s[i]));
        }
        lemma_count_none(s.drop_last(), test);
    }
}

/// The count over a pair of items.
proof fn lemma_count_pair<T>(a: T, b: T, test: spec_fn(T) -> bool)
    ensures
        count(seq![a, b], test) == (if test(a) {
            1nat
        } else {
            0nat
        }) + (if test(b) {
            1nat
        } else {
            0nat
        }),
{
    let s = seq![a, b];
    assert(s.drop_last() =~= seq![a]);
    assert(seq![a].drop_last() =~= Seq::<T>::empty());
    assert(count(seq![a], test) == count(Seq::<T>::empty(), test) + if test(a) {
        1nat
    } else {
        0nat
    });
}

/// The shape of a script, whatever it is made of: the assumption, the first
/// query, the queries in the middle in their order, the last query, the
/// assertion; and how many of its steps pass a test, counted over its parts.
pub proof fn lemma_script_shape(
    s: Seq<InteractionView>,
    first: QueryView,
    fillers: Seq<QueryView>,
    last: QueryView,
    test: spec_fn(QueryView) -> bool,
)
    requires
        exists|assumption, assertion| s == script(assumption, first, fillers, last, assertion),
    ensures
        s.len() == fillers.len() + 4,
        s[0] is Assumption,
        s[1] == InteractionView::Query(first),
        forall|i: int| 0 <= i < fillers.len() ==> #[trigger] s[2 + i] == InteractionView::Query(fillers[i]),
        s[fillers.len() as int + 2] == InteractionView::Query(last),
        s[fillers.len() as int + 3] is Assertion,
        count(s, is_assumption()) == 1,
        count(s, is_assertion()) == 1,
        count(s, is_query(test)) == count(fillers, test) + (if test(first) {
            1nat
        } else {
            0nat
        }) + (if test(last) {
            1nat
        } else {
            0nat
        }),
{
    let (assumption, assertion) = choose|assumption, assertion|
        s == script(assumption, first, fillers, last, assertion);
    let head = seq![InteractionView::Assumption(assumption), InteractionView::Query(first)];
    let middle = Seq::new(fillers.len(), |i: int| InteractionView::Query(fillers[i]));
    let tail = seq![InteractionView::Query(last), InteractionView::Assertion(assertion)];
    assert(s == head + middle + tail);

    lemma_count_add(head + middle, tail, is_assumption());
    lemma_count_add(head, middle, is_assumption());
    lemma_count_pair(head[0], head[1], is_assumption());
    lemma_count_pair(tail[0], tail[1], is_assumption());
    lemma_count_none(middle, is_assumption());

    lemma_count_add(head + middle, tail, is_assertion());
    lemma_count_add(head, middle, is_assertion());
    lemma_count_pair(head[0], head[1], is_assertion());
    lemma_count_pair(tail[0], tail[1], is_assertion());
    lemma_count_none(middle, is_assertion());

    lemma_count_add(head + middle, tail, is_query(test));
    lemma_count_add(head, middle, is_query(test));
    lemma_count_pair(head[0], head[1], is_query(test));
    lemma_count_pair(tail[0], tail[1], is_query(test));
    lemma_count_alike(middle, is_query(test), fillers, test);
}

/// The script of an insert-select property holds exactly one assumption,
/// which comes first, and exactly one assertion, which comes last. Its second
/// step is the insert and its last but one the select; the steps strictly
/// between them are the property's queries in the middle, in their order.
/// Besides those two, it holds as many inserts and selects as there are among
/// the queries in the middle: exactly one of each where none of them is one.
/// The assertion tests for the very row that the index selects.
pub proof fn lemma_insert_select_script(p: PropertyView)
    requires
        p is InsertSelect,
        p.well_formed(),
    ensures
        ({
            let s = compile(p);
            let n = p.fillers().len() as int;
            &&& s.len() == n + 4
            &&& s[0] matches InteractionView::Assumption(a) && a.check == (CheckView::TableExists {
                table: p.table_name(),
            })
            &&& s[1] == InteractionView::Query(QueryView::Insert(p->insert))
            &&& forall|i: int|
                0 <= i < n ==> #[trigger] s[2 + i] == InteractionView::Query(p.fillers()[i])
            &&& s[n + 2] == InteractionView::Query(QueryView::Select(p->select))
            &&& s[n + 3] matches InteractionView::Assertion(a) && a.check
                == (CheckView::RowInLastResult { row: p->insert.values[p->row_index] })
            &&& count(s, is_assumption()) == 1
            &&& count(s, is_assertion()) == 1
            &&& count(s, is_query(is_insert())) == 1 + count(p.fillers(), is_insert())
            &&& count(s, is_query(is_select())) == 1 + count(p.fillers(), is_select())
        }),
{
    let s = compile(p);
    let first = QueryView::Insert(p->insert);
    let last = QueryView::Select(p->select);
    lemma_script_shape(s, first, p.fillers(), last, is_insert());
    lemma_script_shape(s, first, p.fillers(), last, is_select());
}

/// In the script of an insert-select property that is sound for its table,
/// no step strictly between the insert and the select deletes the selected
/// row or creates the table.
pub proof fn lemma_insert_select_fillers(p: PropertyView, table: TableView)
    requires
        p is InsertSelect,
        p.well_formed(),
        p.sound(table),
    ensures
        forall|i: int|
            2 <= i < compile(p).len() - 2 ==> (#[trigger] compile(p)[i] matches InteractionView::Query(
                q,
            ) && keeps_row(q, table, p->insert.values[p->row_index])),
{
    lemma_insert_select_script(p);
    let s = compile(p);
    assert forall|i: int| 2 <= i < s.len() - 2 implies (#[trigger] s[i] matches InteractionView::Query(
        q,
    ) && keeps_row(q, table, p->insert.values[p->row_index])) by {
        assert(s[2 + (i - 2)] == InteractionView::Query(p.fillers()[i - 2]));
        assert(keeps_row(p.fillers()[i - 2], table, p->insert.values[p->row_index]));
    }
}

/// The script of a double-create-failure property holds exactly one
/// assumption, which comes first, and exactly one assertion, which comes
/// last. Its second step and its last but one are creates of the same table
/// specification; the steps strictly between them are the property's queries
/// in the middle, in their order. Where the property is sound for its table,
/// none of these creates a table of that name, so that the script holds
/// exactly two creates of it.
pub proof fn lemma_double_create_script(p: PropertyView)
    requires
        p is DoubleCreateFailure,
    ensures
        ({
            let s = compile(p);
            let n = p.fillers().len() as int;
            &&& s.len() == n + 4
            &&& s[0] matches InteractionView::Assumption(a) && a.check == (CheckView::TableAbsent {
                table: p.table_name(),
            })
            &&& s[1] == InteractionView::Query(QueryView::Create(p->create))
            &&& forall|i: int|
                0 <= i < n ==> #[trigger] s[2 + i] == InteractionView::Query(p.fillers()[i])
            &&& s[n + 2] == s[1]
            &&& s[n + 3] matches InteractionView::Assertion(a) && a.check
                == (CheckView::CreateRejected { table: p.table_name() })
            &&& count(s, is_assumption()) == 1
            &&& count(s, is_assertion()) == 1
            &&& count(s, is_query(is_create_of(p.table_name()))) == 2 + count(
                p.fillers(),
                is_create_of(p.table_name()),
            )
            &&& p.sound(p->create.table) ==> count(s, is_query(is_create_of(p.table_name()))) == 2
        }),
{
    let s = compile(p);
    let both = QueryView::Create(p->create);
    lemma_script_shape(s, both, p.fillers(), both, is_create_of(p.table_name()));
    if p.sound(p->create.table) {
        lemma_count_none(p.fillers(), is_create_of(p.table_name()));
    }
}

} // verus!
