//! Comparing tasks and lists without regard to order: two sequences are
//! alike where the items of one can be paired off with those of the other.
//! This is what decides whether there are unsaved changes.

use crate::task::{list_views, task_views, Task, TaskList, TaskListView, TaskView};
use vstd::prelude::*;
use vstd::set_lib::{lemma_int_range, lemma_len_subset, set_int_range};

verus! {

/// `p` gives each index below `n` an index below `n` of its own.
pub open spec fn is_matching(p: Seq<int>, n: nat) -> bool {
    &&& p.len() == n
    &&& forall|i: int| 0 <= i < n ==> 0 <= #[trigger] p[i] < n
    &&& p.no_duplicates()
}

/// `p` pairs each item of `a` with an item of `b` that it is `rel`-related
/// to, no item of `b` taken twice and none left over.
pub open spec fn pairs_up<T>(p: Seq<int>, a: Seq<T>, b: Seq<T>, rel: spec_fn(T, T) -> bool) -> bool {
    &&& a.len() == b.len()
    &&& is_matching(p, a.len())
    &&& forall|i: int| 0 <= i < a.len() ==> rel(a[i], #[trigger] b[p[i]])
}

/// `a` and `b` hold `rel`-related items, in whatever order.
pub open spec fn alike_in_any_order<T>(a: Seq<T>, b: Seq<T>, rel: spec_fn(T, T) -> bool) -> bool {
    exists|p: Seq<int>| pairs_up(p, a, b, rel)
}

/// A matching reaches every index.
pub proof fn lemma_matching_onto(p: Seq<int>, n: nat, j: int)
    requires
        is_matching(p, n),
        0 <= j < n,
    ensures
        exists|i: int| 0 <= i < n && p[i] == j,
{
    if !(exists|i: int| 0 <= i < n && p[i] == j) {
        let range = set_int_range(0, n as int);
        lemma_int_range(0, n as int);
        p.unique_seq_to_set();
        assert forall|x: int| p.to_set().contains(x) implies range.remove(j).contains(x) by {
            let i = choose|i: int| 0 <= i < p.len() && p[i] == x;
            assert(0 <= p[i] < n);
        }
        assert(range.contains(j));
        lemma_len_subset(p.to_set(), range.remove(j));
    }
}

/// The matching that undoes `p`.
pub open spec fn inverse(p: Seq<int>) -> Seq<int> {
    Seq::new(p.len(), |j: int| choose|i: int| 0 <= i < p.len() && p[i] == j)
}

pub proof fn lemma_inverse(p: Seq<int>, n: nat)
    requires
        is_matching(p, n),
    ensures
        is_matching(inverse(p), n),
        forall|j: int| 0 <= j < n ==> p[#[trigger] inverse(p)[j]] == j,
        forall|i: int| 0 <= i < n ==> inverse(p)[#[trigger] p[i]] == i,
{
    let q = inverse(p);
    assert forall|j: int| 0 <= j < n implies 0 <= #[trigger] q[j] < n && p[q[j]] == j by {
        lemma_matching_onto(p, n, j);
    }
    assert forall|i: int| 0 <= i < n implies q[#[trigger] p[i]] == i by {
        let j = p[i];
        assert(p[q[j]] == j);
    }
    assert forall|j1: int, j2: int|
        0 <= j1 < q.len() && 0 <= j2 < q.len() && j1 != j2 implies q[j1] != q[j2] by {
        assert(p[q[j1]] == j1);
        assert(p[q[j2]] == j2);
    }
}

/// A sequence is alike to itself where every item is related to itself.
pub proof fn lemma_alike_reflexive<T>(a: Seq<T>, rel: spec_fn(T, T) -> bool)
    requires
        forall|i: int| 0 <= i < a.len() ==> rel(#[trigger] a[i], a[i]),
    ensures
        alike_in_any_order(a, a, rel),
{
    let p = Seq::new(a.len(), |i: int| i);
    assert(pairs_up(p, a, a, rel));
}

/// Alikeness turns round where the relation does, item by item.
pub proof fn lemma_alike_symmetric<T>(a: Seq<T>, b: Seq<T>, rel: spec_fn(T, T) -> bool)
    requires
        alike_in_any_order(a, b, rel),
        forall|i: int, j: int|
            0 <= i < a.len() && 0 <= j < b.len() && rel(#[trigger] a[i], #[trigger] b[j]) ==> rel(
                b[j],
                a[i],
            ),
    ensures
        alike_in_any_order(b, a, rel),
{
    let p = choose|p: Seq<int>| pairs_up(p, a, b, rel);
    let q = inverse(p);
    lemma_inverse(p, a.len());
    assert forall|j: int| 0 <= j < b.len() implies rel(b[j], #[trigger] a[q[j]]) by {
        assert(rel(a[q[j]], b[p[q[j]]]));
    }
    assert(pairs_up(q, b, a, rel));
}

/// Alikeness carries over a middle sequence where the relation does, item
/// by item.
pub proof fn lemma_alike_transitive<T>(a: Seq<T>, b: Seq<T>, c: Seq<T>, rel: spec_fn(T, T) -> bool)
    requires
        alike_in_any_order(a, b, rel),
        alike_in_any_order(b, c, rel),
        forall|i: int, j: int, k: int|
            0 <= i < a.len() && 0 <= j < b.len() && 0 <= k < c.len() && rel(
                #[trigger] a[i],
                #[trigger] b[j],
            ) && rel(b[j], #[trigger] c[k]) ==> rel(a[i], c[k]),
    ensures
        alike_in_any_order(a, c, rel),
{
    let p = choose|p: Seq<int>| pairs_up(p, a, b, rel);
    let q = choose|q: Seq<int>| pairs_up(q, b, c, rel);
    let r = Seq::new(a.len(), |i: int| q[p[i]]);
    assert forall|i: int| 0 <= i < a.len() implies rel(a[i], #[trigger] c[r[i]]) by {
        assert(rel(a[i], b[p[i]]));
        assert(rel(b[p[i]], c[q[p[i]]]));
    }
    assert(pairs_up(r, a, c, rel));
}

/// A pairing can be changed so that it pairs `a[i]` with `b[j]`, where
/// these are related: the item that had `b[j]` takes the partner that
/// `a[i]` had, and all others keep theirs. This needs that partners can be
/// swapped: `x` related to `y`, and `z` to both `y` and `w`, make `x`
/// related to `w`.
pub proof fn lemma_rematch<T>(
    q: Seq<int>,
    a: Seq<T>,
    b: Seq<T>,
    rel: spec_fn(T, T) -> bool,
    i: int,
    j: int,
) -> (r: Seq<int>)
    requires
        pairs_up(q, a, b, rel),
        0 <= i < a.len(),
        0 <= j < b.len(),
        rel(a[i], b[j]),
        swappable(a, b, rel),
    ensures
        pairs_up(r, a, b, rel),
        r[i] == j,
        forall|k: int| 0 <= k < a.len() && k != i && q[k] != j ==> r[k] == q[k],
{
    let n = a.len();
    lemma_matching_onto(q, n, j);
    let m = choose|m: int| 0 <= m < n && q[m] == j;
    if m == i {
        q
    } else {
        let r = q.update(i, j).update(m, q[i]);
        assert forall|k: int| 0 <= k < n implies rel(a[k], #[trigger] b[r[k]]) by {
            if k == m {
                assert(rel(a[m], b[q[m]]));
                assert(rel(a[i], b[q[i]]));
                assert(rel(a[m], b[q[i]]));
            } else if k == i {
            } else {
                assert(rel(a[k], b[q[k]]));
            }
        }
        assert(r.no_duplicates());
        r
    }
}

/// A pairing of a sequence with itself, one item replaced, can be changed
/// so that every other item is its own partner.
proof fn lemma_pair_with_self<T>(
    q: Seq<int>,
    a: Seq<T>,
    i: int,
    x: T,
    rel: spec_fn(T, T) -> bool,
    k: int,
) -> (r: Seq<int>)
    requires
        0 <= i < a.len(),
        0 <= k <= a.len(),
        pairs_up(q, a.update(i, x), a, rel),
        forall|m: int| 0 <= m < a.len() ==> rel(#[trigger] a[m], a[m]),
        swappable(a.update(i, x), a, rel),
        forall|m: int| 0 <= m < k && m != i ==> q[m] == m,
    ensures
        pairs_up(r, a.update(i, x), a, rel),
        forall|m: int| 0 <= m < a.len() && m != i ==> r[m] == m,
    decreases a.len() - k,
{
    if k == a.len() {
        q
    } else if k == i || q[k] == k {
        lemma_pair_with_self(q, a, i, x, rel, k + 1)
    } else {
        assert(rel(a[k], a[k]));
        let r = lemma_rematch(q, a.update(i, x), a, rel, k, k);
        lemma_pair_with_self(r, a, i, x, rel, k + 1)
    }
}

/// Where a sequence with one item replaced is still alike to what it was,
/// the new item is related to the one it replaced.
pub proof fn lemma_replaced_item<T>(a: Seq<T>, i: int, x: T, rel: spec_fn(T, T) -> bool)
    requires
        0 <= i < a.len(),
        alike_in_any_order(a.update(i, x), a, rel),
        forall|m: int| 0 <= m < a.len() ==> rel(#[trigger] a[m], a[m]),
        swappable(a.update(i, x), a, rel),
    ensures
        rel(x, a[i]),
{
    let q = choose|q: Seq<int>| pairs_up(q, a.update(i, x), a, rel);
    let r = lemma_pair_with_self(q, a, i, x, rel, 0);
    if r[i] != i {
        assert(r[r[i]] == r[i]);
    }
    assert(rel(a.update(i, x)[i], a[r[i]]));
}

/// Name, status, duration and date agree.
pub open spec fn same_fields(a: TaskView, b: TaskView) -> bool {
    &&& a.name == b.name
    &&& a.status == b.status
    &&& a.duration == b.duration
    &&& a.date == b.date
}

/// Two tasks are equal where name, status, duration and date agree and
/// the sub-tasks of one can be paired off with equal sub-tasks of the
/// other. Neither the order of the sub-tasks nor `expanded` counts.
pub open spec fn task_equal(a: TaskView, b: TaskView) -> bool
    decreases a,
{
    &&& same_fields(a, b)
    &&& a.sub_tasks.len() == b.sub_tasks.len()
    &&& exists|p: Seq<int>|
        is_matching(p, a.sub_tasks.len()) && forall|i: int|
            0 <= i < a.sub_tasks.len() ==> task_equal(a.sub_tasks[i], #[trigger] b.sub_tasks[p[i]])
}

/// Two sequences of tasks hold equal tasks, in whatever order.
pub open spec fn tasks_equal(a: Seq<TaskView>, b: Seq<TaskView>) -> bool {
    alike_in_any_order(a, b, |x: TaskView, y: TaskView| task_equal(x, y))
}

/// Tasks are equal where their fields agree and their sub-tasks are equal
/// in whatever order.
pub proof fn lemma_task_equal(a: TaskView, b: TaskView)
    ensures
        task_equal(a, b) <==> same_fields(a, b) && tasks_equal(a.sub_tasks, b.sub_tasks),
{
    let rel = |x: TaskView, y: TaskView| task_equal(x, y);
    if task_equal(a, b) {
        let p = choose|p: Seq<int>|
            is_matching(p, a.sub_tasks.len()) && forall|i: int|
                0 <= i < a.sub_tasks.len() ==> task_equal(
                    a.sub_tasks[i],
                    #[trigger] b.sub_tasks[p[i]],
                );
        assert(pairs_up(p, a.sub_tasks, b.sub_tasks, rel));
    }
    if same_fields(a, b) && tasks_equal(a.sub_tasks, b.sub_tasks) {
        let p = choose|p: Seq<int>| pairs_up(p, a.sub_tasks, b.sub_tasks, rel);
        assert forall|i: int| 0 <= i < a.sub_tasks.len() implies task_equal(
            a.sub_tasks[i],
            #[trigger] b.sub_tasks[p[i]],
        ) by {
            assert(rel(a.sub_tasks[i], b.sub_tasks[p[i]]));
        }
    }
}

/// Every task is equal to itself.
pub proof fn lemma_task_equal_reflexive(a: TaskView)
    ensures
        task_equal(a, a),
    decreases a,
{
    let rel = |x: TaskView, y: TaskView| task_equal(x, y);
    assert forall|i: int| 0 <= i < a.sub_tasks.len() implies rel(
        #[trigger] a.sub_tasks[i],
        a.sub_tasks[i],
    ) by {
        lemma_task_equal_reflexive(a.sub_tasks[i]);
    }
    lemma_alike_reflexive(a.sub_tasks, rel);
    lemma_task_equal(a, a);
}

/// Equality of tasks does not depend on which of the two comes first.
pub proof fn lemma_task_equal_symmetric(a: TaskView, b: TaskView)
    requires
        task_equal(a, b),
    ensures
        task_equal(b, a),
    decreases a,
{
    let rel = |x: TaskView, y: TaskView| task_equal(x, y);
    lemma_task_equal(a, b);
    assert forall|i: int, j: int|
        0 <= i < a.sub_tasks.len() && 0 <= j < b.sub_tasks.len() && rel(
            #[trigger] a.sub_tasks[i],
            #[trigger] b.sub_tasks[j],
        ) implies rel(b.sub_tasks[j], a.sub_tasks[i]) by {
        lemma_task_equal_symmetric(a.sub_tasks[i], b.sub_tasks[j]);
    }
    lemma_alike_symmetric(a.sub_tasks, b.sub_tasks, rel);
    lemma_task_equal(b, a);
}

/// Tasks equal to the same task are equal to each other.
pub proof fn lemma_task_equal_transitive(a: TaskView, b: TaskView, c: TaskView)
    requires
        task_equal(a, b),
        task_equal(b, c),
    ensures
        task_equal(a, c),
    decreases a,
{
    let rel = |x: TaskView, y: TaskView| task_equal(x, y);
    lemma_task_equal(a, b);
    lemma_task_equal(b, c);
    assert forall|i: int, j: int, k: int|
        0 <= i < a.sub_tasks.len() && 0 <= j < b.sub_tasks.len() && 0 <= k < c.sub_tasks.len()
            && rel(#[trigger] a.sub_tasks[i], #[trigger] b.sub_tasks[j]) && rel(
            b.sub_tasks[j],
            #[trigger] c.sub_tasks[k],
        ) implies rel(a.sub_tasks[i], c.sub_tasks[k]) by {
        lemma_task_equal_transitive(a.sub_tasks[i], b.sub_tasks[j], c.sub_tasks[k]);
    }
    lemma_alike_transitive(a.sub_tasks, b.sub_tasks, c.sub_tasks, rel);
    lemma_task_equal(a, c);
}

/// Two lists are equal where their names agree and they hold equal
/// tasks, in whatever order. The cursor does not count.
pub open spec fn list_equal(a: TaskListView, b: TaskListView) -> bool {
    a.name == b.name && tasks_equal(a.tasks, b.tasks)
}

/// Two sequences of lists hold equal lists, in whatever order.
pub open spec fn lists_equal(a: Seq<TaskListView>, b: Seq<TaskListView>) -> bool {
    alike_in_any_order(a, b, |x: TaskListView, y: TaskListView| list_equal(x, y))
}

pub proof fn lemma_tasks_equal_reflexive(a: Seq<TaskView>)
    ensures
        tasks_equal(a, a),
{
    let rel = |x: TaskView, y: TaskView| task_equal(x, y);
    assert forall|i: int| 0 <= i < a.len() implies rel(#[trigger] a[i], a[i]) by {
        lemma_task_equal_reflexive(a[i]);
    }
    lemma_alike_reflexive(a, rel);
}

pub proof fn lemma_tasks_equal_symmetric(a: Seq<TaskView>, b: Seq<TaskView>)
    requires
        tasks_equal(a, b),
    ensures
        tasks_equal(b, a),
{
    let rel = |x: TaskView, y: TaskView| task_equal(x, y);
    assert forall|i: int, j: int|
        0 <= i < a.len() && 0 <= j < b.len() && rel(#[trigger] a[i], #[trigger] b[j]) implies rel(
        b[j],
        a[i],
    ) by {
        lemma_task_equal_symmetric(a[i], b[j]);
    }
    lemma_alike_symmetric(a, b, rel);
}

pub proof fn lemma_tasks_equal_transitive(a: Seq<TaskView>, b: Seq<TaskView>, c: Seq<TaskView>)
    requires
        tasks_equal(a, b),
        tasks_equal(b, c),
    ensures
        tasks_equal(a, c),
{
    let rel = |x: TaskView, y: TaskView| task_equal(x, y);
    assert forall|i: int, j: int, k: int|
        0 <= i < a.len() && 0 <= j < b.len() && 0 <= k < c.len() && rel(
            #[trigger] a[i],
            #[trigger] b[j],
        ) && rel(b[j], #[trigger] c[k]) implies rel(a[i], c[k]) by {
        lemma_task_equal_transitive(a[i], b[j], c[k]);
    }
    lemma_alike_transitive(a, b, c, rel);
}

pub proof fn lemma_list_equal_reflexive(a: TaskListView)
    ensures
        list_equal(a, a),
{
    lemma_tasks_equal_reflexive(a.tasks);
}

pub proof fn lemma_list_equal_symmetric(a: TaskListView, b: TaskListView)
    requires
        list_equal(a, b),
    ensures
        list_equal(b, a),
{
    lemma_tasks_equal_symmetric(a.tasks, b.tasks);
}

pub proof fn lemma_list_equal_transitive(a: TaskListView, b: TaskListView, c: TaskListView)
    requires
        list_equal(a, b),
        list_equal(b, c),
    ensures
        list_equal(a, c),
{
    lemma_tasks_equal_transitive(a.tasks, b.tasks, c.tasks);
}

/// Every store is equal to itself.
pub proof fn lemma_lists_equal_reflexive(a: Seq<TaskListView>)
    ensures
        lists_equal(a, a),
{
    let rel = |x: TaskListView, y: TaskListView| list_equal(x, y);
    assert forall|i: int| 0 <= i < a.len() implies rel(#[trigger] a[i], a[i]) by {
        lemma_list_equal_reflexive(a[i]);
    }
    lemma_alike_reflexive(a, rel);
}

pub proof fn lemma_lists_equal_symmetric(a: Seq<TaskListView>, b: Seq<TaskListView>)
    requires
        lists_equal(a, b),
    ensures
        lists_equal(b, a),
{
    let rel = |x: TaskListView, y: TaskListView| list_equal(x, y);
    assert forall|i: int, j: int|
        0 <= i < a.len() && 0 <= j < b.len() && rel(#[trigger] a[i], #[trigger] b[j]) implies rel(
        b[j],
        a[i],
    ) by {
        lemma_list_equal_symmetric(a[i], b[j]);
    }
    lemma_alike_symmetric(a, b, rel);
}

pub proof fn lemma_lists_equal_transitive(
    a: Seq<TaskListView>,
    b: Seq<TaskListView>,
    c: Seq<TaskListView>,
)
    requires
        lists_equal(a, b),
        lists_equal(b, c),
    ensures
        lists_equal(a, c),
{
    let rel = |x: TaskListView, y: TaskListView| list_equal(x, y);
    assert forall|i: int, j: int, k: int|
        0 <= i < a.len() && 0 <= j < b.len() && 0 <= k < c.len() && rel(
            #[trigger] a[i],
            #[trigger] b[j],
        ) && rel(b[j], #[trigger] c[k]) implies rel(a[i], c[k]) by {
        lemma_list_equal_transitive(a[i], b[j], c[k]);
    }
    lemma_alike_transitive(a, b, c, rel);
}

/// What the search for partners has found so far: `p` pairs the first
/// `p.len()` items of `a` with related items of `b`, `used` marks the items
/// of `b` that are taken, and if `a` and `b` are alike at all then there is
/// a full pairing that starts as `p` does.
pub open spec fn search_state<T>(
    p: Seq<int>,
    used: Seq<bool>,
    a: Seq<T>,
    b: Seq<T>,
    rel: spec_fn(T, T) -> bool,
) -> bool {
    &&& a.len() == b.len() == used.len()
    &&& p.len() <= a.len()
    &&& p.no_duplicates()
    &&& forall|k: int| 0 <= k < p.len() ==> 0 <= #[trigger] p[k] < b.len() && used[p[k]]
    &&& forall|k: int| 0 <= k < p.len() ==> rel(a[k], #[trigger] b[p[k]])
    &&& forall|j: int| 0 <= j < used.len() && #[trigger] used[j] ==> p.contains(j)
    &&& alike_in_any_order(a, b, rel) ==> exists|q: Seq<int>|
        pairs_up(q, a, b, rel) && q.subrange(0, p.len() as int) == p
}

/// Partners can be swapped, as `lemma_rematch` needs it.
pub open spec fn swappable<T>(a: Seq<T>, b: Seq<T>, rel: spec_fn(T, T) -> bool) -> bool {
    forall|x: int, y: int, z: int, w: int|
        #![trigger rel(a[x], b[y]), rel(a[z], b[w])]
        0 <= x < a.len() && 0 <= z < a.len() && 0 <= y < b.len() && 0 <= w < b.len() && rel(
            a[x],
            b[y],
        ) && rel(a[z], b[y]) && rel(a[z], b[w]) ==> rel(a[x], b[w])
}

/// The search starts with nothing paired.
pub proof fn lemma_search_start<T>(used: Seq<bool>, a: Seq<T>, b: Seq<T>, rel: spec_fn(T, T) -> bool)
    requires
        a.len() == b.len() == used.len(),
        forall|j: int| 0 <= j < used.len() ==> !used[j],
    ensures
        search_state(Seq::empty(), used, a, b, rel),
{
    if alike_in_any_order(a, b, rel) {
        let q = choose|q: Seq<int>| pairs_up(q, a, b, rel);
        assert(q.subrange(0, 0) =~= Seq::<int>::empty());
    }
}

/// Taking the free partner `j` for the next item keeps the search sound.
pub proof fn lemma_search_step<T>(
    p: Seq<int>,
    used: Seq<bool>,
    a: Seq<T>,
    b: Seq<T>,
    rel: spec_fn(T, T) -> bool,
    j: int,
)
    requires
        search_state(p, used, a, b, rel),
        swappable(a, b, rel),
        p.len() < a.len(),
        0 <= j < b.len(),
        !used[j],
        rel(a[p.len() as int], b[j]),
    ensures
        search_state(p.push(j), used.update(j, true), a, b, rel),
{
    let i = p.len() as int;
    let p2 = p.push(j);
    let used2 = used.update(j, true);
    assert forall|k: int| 0 <= k < p2.len() implies rel(a[k], #[trigger] b[p2[k]]) by {
        if k < i {
            assert(rel(a[k], b[p[k]]));
        }
    }
    assert forall|m: int| 0 <= m < used2.len() && #[trigger] used2[m] implies p2.contains(m) by {
        if m == j {
            assert(p2[i] == j);
        } else {
            assert(used[m]);
            let k = choose|k: int| 0 <= k < p.len() && p[k] == m;
            assert(p2[k] == m);
        }
    }
    assert(p2.no_duplicates()) by {
        assert forall|k: int| 0 <= k < i implies p2[k] != j by {
            assert(used[p[k]]);
        }
    }
    if alike_in_any_order(a, b, rel) {
        let q = choose|q: Seq<int>| pairs_up(q, a, b, rel) && q.subrange(0, i) == p;
        assert forall|k: int| 0 <= k < i implies q[k] != j by {
            assert(q[k] == q.subrange(0, i)[k]);
            assert(used[p[k]]);
        }
        let r = lemma_rematch(q, a, b, rel, i, j);
        assert forall|k: int| 0 <= k < i implies r[k] == p[k] by {
            assert(q[k] == q.subrange(0, i)[k]);
        }
        assert(r.subrange(0, i + 1) =~= p2);
    }
}

/// Where the next item has no free partner, the sequences are not alike.
pub proof fn lemma_search_stuck<T>(
    p: Seq<int>,
    used: Seq<bool>,
    a: Seq<T>,
    b: Seq<T>,
    rel: spec_fn(T, T) -> bool,
)
    requires
        search_state(p, used, a, b, rel),
        p.len() < a.len(),
        forall|j: int| 0 <= j < b.len() ==> #[trigger] used[j] || !rel(a[p.len() as int], b[j]),
    ensures
        !alike_in_any_order(a, b, rel),
{
    let i = p.len() as int;
    if alike_in_any_order(a, b, rel) {
        let q = choose|q: Seq<int>| pairs_up(q, a, b, rel) && q.subrange(0, i) == p;
        let j = q[i];
        assert(rel(a[i], b[q[i]]));
        assert(used[j]);
        let k = choose|k: int| 0 <= k < p.len() && p[k] == j;
        assert(q[k] == q.subrange(0, i)[k]);
    }
}

/// Where every item has found its partner, the sequences are alike.
pub proof fn lemma_search_done<T>(
    p: Seq<int>,
    used: Seq<bool>,
    a: Seq<T>,
    b: Seq<T>,
    rel: spec_fn(T, T) -> bool,
)
    requires
        search_state(p, used, a, b, rel),
        p.len() == a.len(),
    ensures
        alike_in_any_order(a, b, rel),
{
    assert(pairs_up(p, a, b, rel));
}

/// Partners among equal tasks can be swapped.
pub proof fn lemma_tasks_swappable(a: Seq<TaskView>, b: Seq<TaskView>)
    ensures
        swappable(a, b, |x: TaskView, y: TaskView| task_equal(x, y)),
{
    let rel = |x: TaskView, y: TaskView| task_equal(x, y);
    assert forall|x: int, y: int, z: int, w: int|
        #![trigger rel(a[x], b[y]), rel(a[z], b[w])]
        0 <= x < a.len() && 0 <= z < a.len() && 0 <= y < b.len() && 0 <= w < b.len() && rel(
            a[x],
            b[y],
        ) && rel(a[z], b[y]) && rel(a[z], b[w]) implies rel(a[x], b[w]) by {
        lemma_task_equal_symmetric(a[z], b[y]);
        lemma_task_equal_transitive(a[x], b[y], a[z]);
        lemma_task_equal_transitive(a[x], a[z], b[w]);
    }
}

/// Partners among equal lists can be swapped.
pub proof fn lemma_lists_swappable(a: Seq<TaskListView>, b: Seq<TaskListView>)
    ensures
        swappable(a, b, |x: TaskListView, y: TaskListView| list_equal(x, y)),
{
    let rel = |x: TaskListView, y: TaskListView| list_equal(x, y);
    assert forall|x: int, y: int, z: int, w: int|
        #![trigger rel(a[x], b[y]), rel(a[z], b[w])]
        0 <= x < a.len() && 0 <= z < a.len() && 0 <= y < b.len() && 0 <= w < b.len() && rel(
            a[x],
            b[y],
        ) && rel(a[z], b[y]) && rel(a[z], b[w]) implies rel(a[x], b[w]) by {
        lemma_list_equal_symmetric(a[z], b[y]);
        lemma_list_equal_transitive(a[x], b[y], a[z]);
        lemma_list_equal_transitive(a[x], a[z], b[w]);
    }
}

/// Whether two tasks are equal, their sub-tasks taken in any order.
pub fn same_task(a: &Task, b: &Task) -> (r: bool)
    ensures
        r == task_equal(a@, b@),
    decreases a,
{
    proof {
        lemma_task_equal(a@, b@);
        a.lemma_view();
        b.lemma_view();
    }
    a.name == b.name && a.status == b.status && a.duration == b.duration && a.date == b.date
        && same_tasks(&a.sub_tasks, &b.sub_tasks)
}

/// Whether two sequences of tasks hold equal tasks, in whatever order.
/// Each task of `a` takes the first equal task of `b` that is still free.
pub fn same_tasks(a: &Vec<Task>, b: &Vec<Task>) -> (r: bool)
    ensures
        r == tasks_equal(task_views(a@), task_views(b@)),
    decreases a,
{
    let n = a.len();
    if n != b.len() {
        return false;
    }
    let ghost va = task_views(a@);
    let ghost vb = task_views(b@);
    let ghost rel = |x: TaskView, y: TaskView| task_equal(x, y);
    let mut used: Vec<bool> = vec![false; n];
    let ghost mut p: Seq<int> = Seq::empty();
    proof {
        lemma_search_start(used@, va, vb, rel);
        lemma_tasks_swappable(va, vb);
    }
    let mut i: usize = 0;
    while i < n
        invariant
            n == a.len(),
            i <= n,
            p.len() == i,
            va == task_views(a@),
            vb == task_views(b@),
            rel == |x: TaskView, y: TaskView| task_equal(x, y),
            search_state(p, used@, va, vb, rel),
            swappable(va, vb, rel),
        decreases n - i,
    {
        let mut j: usize = 0;
        let mut found = false;
        while j < n && !found
            invariant
                n == a.len() == b.len() == used.len(),
                i < n,
                j <= n,
                va == task_views(a@),
                vb == task_views(b@),
                found ==> j < n && !used[j as int] && task_equal(va[i as int], vb[j as int]),
                forall|m: int| 0 <= m < j ==> #[trigger] used[m] || !task_equal(va[i as int], vb[m]),
            decreases n - j + (if found { 0int } else { 1int }),
        {
            if !used[j] && same_task(&a[i], &b[j]) {
                found = true;
            } else {
                j += 1;
            }
        }
        if !found {
            proof {
                assert forall|m: int| 0 <= m < vb.len() implies #[trigger] used@[m] || !rel(
                    va[p.len() as int],
                    vb[m],
                ) by {}
                lemma_search_stuck(p, used@, va, vb, rel);
            }
            return false;
        }
        proof {
            assert(rel(va[p.len() as int], vb[j as int]));
            lemma_search_step(p, used@, va, vb, rel, j as int);
            p = p.push(j as int);
        }
        used[j] = true;
        i += 1;
    }
    proof {
        lemma_search_done(p, used@, va, vb, rel);
    }
    true
}

/// Whether two lists are equal: the same name and equal tasks, in
/// whatever order.
pub fn same_list(a: &TaskList, b: &TaskList) -> (r: bool)
    ensures
        r == list_equal(a@, b@),
{
    a.name == b.name && same_tasks(&a.tasks, &b.tasks)
}

/// Whether two sequences of lists hold equal lists, in whatever order.
pub fn same_lists(a: &Vec<TaskList>, b: &Vec<TaskList>) -> (r: bool)
    ensures
        r == lists_equal(list_views(a@), list_views(b@)),
{
    let n = a.len();
    if n != b.len() {
        return false;
    }
    let ghost va = list_views(a@);
    let ghost vb = list_views(b@);
    let ghost rel = |x: TaskListView, y: TaskListView| list_equal(x, y);
    let mut used: Vec<bool> = vec![false; n];
    let ghost mut p: Seq<int> = Seq::empty();
    proof {
        lemma_search_start(used@, va, vb, rel);
        lemma_lists_swappable(va, vb);
    }
    let mut i: usize = 0;
    while i < n
        invariant
            n == a.len(),
            i <= n,
            p.len() == i,
            va == list_views(a@),
            vb == list_views(b@),
            rel == |x: TaskListView, y: TaskListView| list_equal(x, y),
            search_state(p, used@, va, vb, rel),
            swappable(va, vb, rel),
        decreases n - i,
    {
        let mut j: usize = 0;
        let mut found = false;
        while j < n && !found
            invariant
                n == a.len() == b.len() == used.len(),
                i < n,
                j <= n,
                va == list_views(a@),
                vb == list_views(b@),
                found ==> j < n && !used[j as int] && list_equal(va[i as int], vb[j as int]),
                forall|m: int| 0 <= m < j ==> #[trigger] used[m] || !list_equal(va[i as int], vb[m]),
            decreases n - j + (if found { 0int } else { 1int }),
        {
            if !used[j] && same_list(&a[i], &b[j]) {
                found = true;
            } else {
                j += 1;
            }
        }
        if !found {
            proof {
                assert forall|m: int| 0 <= m < vb.len() implies #[trigger] used@[m] || !rel(
                    va[p.len() as int],
                    vb[m],
                ) by {}
                lemma_search_stuck(p, used@, va, vb, rel);
            }
            return false;
        }
        proof {
            assert(rel(va[p.len() as int], vb[j as int]));
            lemma_search_step(p, used@, va, vb, rel, j as int);
            p = p.push(j as int);
        }
        used[j] = true;
        i += 1;
    }
    proof {
        lemma_search_done(p, used@, va, vb, rel);
    }
    true
}

impl PartialEq for Task {
    /// `==` on tasks is equality in any order of the sub-tasks.
    fn eq(&self, other: &Task) -> (r: bool) {
        same_task(self, other)
    }
}

impl vstd::std_specs::cmp::PartialEqSpecImpl for Task {
    open spec fn obeys_eq_spec() -> bool {
        true
    }

    open spec fn eq_spec(&self, other: &Task) -> bool {
        task_equal(self@, other@)
    }
}

impl Eq for Task {

}

impl PartialEq for TaskList {
    /// `==` on lists is equality in any order of the tasks.
    fn eq(&self, other: &TaskList) -> (r: bool) {
        same_list(self, other)
    }
}

impl vstd::std_specs::cmp::PartialEqSpecImpl for TaskList {
    open spec fn obeys_eq_spec() -> bool {
        true
    }

    open spec fn eq_spec(&self, other: &TaskList) -> bool {
        list_equal(self@, other@)
    }
}

impl Eq for TaskList {

}

} // verus!
