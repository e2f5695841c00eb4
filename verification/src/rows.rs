//! The rows of a list as it is shown: one for each task, and one for each
//! sub-task of an expanded task, right below it. The cursor walks these
//! rows; walking down as many times as there are rows leads back.

use crate::task::{TaskListView, TaskView};
use vstd::arithmetic::div_mod::{lemma_mod_self_0, lemma_small_mod};
use vstd::prelude::*;

verus! {

/// The number of rows that a task takes.
pub open spec fn rows_of(task: TaskView) -> nat {
    if task.expanded {
        1 + task.sub_tasks.len()
    } else {
        1
    }
}

/// The number of rows that the first `k` tasks take.
pub open spec fn rows_before(tasks: Seq<TaskView>, k: int) -> nat
    decreases k,
{
    if k <= 0 {
        0
    } else {
        rows_before(tasks, k - 1) + rows_of(tasks[k - 1])
    }
}

/// The number of rows that all tasks take.
pub open spec fn row_count(tasks: Seq<TaskView>) -> nat {
    rows_before(tasks, tasks.len() as int)
}

/// The cursor stands on a row: on a task of the list, and either on the
/// task itself or on one of the sub-tasks that are shown.
pub open spec fn on_row(list: TaskListView, sub: nat) -> bool {
    &&& list.selected < list.tasks.len()
    &&& sub < rows_of(list.current())
}

/// The number of the row that the cursor stands on, from 0.
pub open spec fn row_of(list: TaskListView, sub: nat) -> nat {
    rows_before(list.tasks, list.selected as int) + sub
}

/// The cursor after `n` steps down.
pub open spec fn next_times(list: TaskListView, sub: nat, n: nat) -> (TaskListView, nat)
    decreases n,
{
    if n == 0 {
        (list, sub)
    } else {
        let before = next_times(list, sub, (n - 1) as nat);
        before.0.next(before.1)
    }
}

/// Later tasks start at later rows.
pub proof fn lemma_rows_before_grows(tasks: Seq<TaskView>, i: int, j: int)
    requires
        0 <= i < j <= tasks.len(),
    ensures
        rows_before(tasks, i) + rows_of(tasks[i]) <= rows_before(tasks, j),
    decreases j - i,
{
    if i + 1 < j {
        lemma_rows_before_grows(tasks, i, j - 1);
    }
}

/// A cursor on a row has a row number below the row count.
pub proof fn lemma_row_in_range(list: TaskListView, sub: nat)
    requires
        on_row(list, sub),
    ensures
        row_of(list, sub) < row_count(list.tasks),
{
    lemma_rows_before_grows(list.tasks, list.selected as int, list.tasks.len() as int);
}

/// Two cursors on rows of the same tasks with the same row number are the
/// same cursor.
pub proof fn lemma_row_determines_cursor(a: TaskListView, sub_a: nat, b: TaskListView, sub_b: nat)
    requires
        on_row(a, sub_a),
        on_row(b, sub_b),
        a.tasks == b.tasks,
        row_of(a, sub_a) == row_of(b, sub_b),
    ensures
        a.selected == b.selected,
        sub_a == sub_b,
{
    if a.selected < b.selected {
        lemma_rows_before_grows(a.tasks, a.selected as int, b.selected as int);
    } else if b.selected < a.selected {
        lemma_rows_before_grows(a.tasks, b.selected as int, a.selected as int);
    }
}

/// One step down from a row leads to the next row, and from the last row to
/// the first. Nothing but the cursor changes.
pub proof fn lemma_next_row(list: TaskListView, sub: nat)
    requires
        on_row(list, sub),
    ensures
        on_row(list.next(sub).0, list.next(sub).1),
        list.next(sub).0.tasks == list.tasks,
        list.next(sub).0.name == list.name,
        row_of(list.next(sub).0, list.next(sub).1) == (row_of(list, sub) + 1) % row_count(
            list.tasks,
        ),
{
    let count = row_count(list.tasks) as int;
    let len = list.tasks.len() as int;
    let row = row_of(list, sub) as int;
    lemma_row_in_range(list, sub);
    if sub + 1 < rows_of(list.current()) {
        lemma_rows_before_grows(list.tasks, list.selected as int, len);
        lemma_small_mod((row + 1) as nat, count as nat);
    } else {
        assert(list.next(sub) == (list.next_task(), 0nat));
        if list.selected + 1 == len {
            lemma_mod_self_0(len);
            lemma_mod_self_0(count);
        } else {
            lemma_small_mod((list.selected + 1) as nat, len as nat);
            lemma_rows_before_grows(list.tasks, (list.selected + 1) as int, len);
            lemma_small_mod((row + 1) as nat, count as nat);
        }
    }
}

/// A step up undoes a step down.
pub proof fn lemma_previous_undoes_next(list: TaskListView, sub: nat)
    requires
        on_row(list, sub),
    ensures
        list.next(sub).0.previous(list.next(sub).1) == (list, sub),
{
    let len = list.tasks.len() as int;
    let after = list.next(sub);
    if sub + 1 >= rows_of(list.current()) {
        assert(after == (list.next_task(), 0nat));
        if list.selected + 1 == len {
            lemma_mod_self_0(len);
            lemma_small_mod((len - 1) as nat, len as nat);
        } else {
            lemma_small_mod((list.selected + 1) as nat, len as nat);
            vstd::arithmetic::div_mod::lemma_mod_add_multiples_vanish(list.selected as int, len);
            lemma_small_mod(list.selected, len as nat);
        }
        assert(after.0.previous_task().selected == list.selected);
    }
}

/// `n` steps down from a row lead `n` rows on, counted round the list.
pub proof fn lemma_next_times_row(list: TaskListView, sub: nat, n: nat)
    requires
        on_row(list, sub),
    ensures
        on_row(next_times(list, sub, n).0, next_times(list, sub, n).1),
        next_times(list, sub, n).0.tasks == list.tasks,
        next_times(list, sub, n).0.name == list.name,
        row_of(next_times(list, sub, n).0, next_times(list, sub, n).1) == (row_of(list, sub) + n)
            % row_count(list.tasks),
    decreases n,
{
    let count = row_count(list.tasks) as int;
    let row = row_of(list, sub) as int;
    lemma_row_in_range(list, sub);
    if n == 0 {
        lemma_small_mod(row as nat, count as nat);
    } else {
        let before = next_times(list, sub, (n - 1) as nat);
        lemma_next_times_row(list, sub, (n - 1) as nat);
        lemma_next_row(before.0, before.1);
        assert(((row + n - 1) % count + 1) % count == (row + n) % count) by {
            vstd::arithmetic::div_mod::lemma_add_mod_noop(row + n - 1, 1, count);
            vstd::arithmetic::div_mod::lemma_mod_twice(row + n - 1, count);
            vstd::arithmetic::div_mod::lemma_add_mod_noop((row + n - 1) % count, 1, count);
        }
    }
}

/// In a list with a task, stepping down as many times as there are rows
/// leads back to the row where the cursor stood, and leaves the list as it
/// was.
pub proof fn lemma_next_comes_round(list: TaskListView, sub: nat)
    requires
        on_row(list, sub),
    ensures
        next_times(list, sub, row_count(list.tasks)) == (list, sub),
{
    let count = row_count(list.tasks);
    let end = next_times(list, sub, count);
    lemma_next_times_row(list, sub, count);
    lemma_row_in_range(list, sub);
    vstd::arithmetic::div_mod::lemma_mod_add_multiples_vanish(
        row_of(list, sub) as int,
        count as int,
    );
    lemma_small_mod(row_of(list, sub), count);
    lemma_row_determines_cursor(end.0, end.1, list, sub);
}

} // verus!
