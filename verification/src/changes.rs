//! Which changes make the lists differ from what was saved, and which do
//! not: a new status, one task more or one less is a difference, another
//! order is none.

use crate::compare::{
    is_matching, lemma_list_equal_reflexive, lemma_lists_equal_symmetric,
    lemma_lists_equal_transitive, lemma_lists_swappable, lemma_replaced_item, lemma_task_equal,
    lemma_task_equal_reflexive, lemma_tasks_swappable, list_equal, lists_equal, pairs_up,
    task_equal, tasks_equal,
};
use crate::tabs::{on_sub_task, Board};
use crate::task::{TaskListView, TaskStatus, TaskView};
use vstd::prelude::*;

verus! {

/// Tasks with one of them replaced by a task that is not equal to it are
/// not equal to what they were.
pub proof fn lemma_changed_task(tasks: Seq<TaskView>, k: int, task: TaskView)
    requires
        0 <= k < tasks.len(),
        !task_equal(task, tasks[k]),
    ensures
        !tasks_equal(tasks.update(k, task), tasks),
{
    let rel = |x: TaskView, y: TaskView| task_equal(x, y);
    if tasks_equal(tasks.update(k, task), tasks) {
        assert forall|m: int| 0 <= m < tasks.len() implies rel(#[trigger] tasks[m], tasks[m]) by {
            lemma_task_equal_reflexive(tasks[m]);
        }
        lemma_tasks_swappable(tasks.update(k, task), tasks);
        lemma_replaced_item(tasks, k, task, rel);
    }
}

/// Lists with one of them replaced by a list that is not equal to it are
/// not equal to what they were.
pub proof fn lemma_changed_list(lists: Seq<TaskListView>, k: int, list: TaskListView)
    requires
        0 <= k < lists.len(),
        !list_equal(list, lists[k]),
    ensures
        !lists_equal(lists.update(k, list), lists),
{
    let rel = |x: TaskListView, y: TaskListView| list_equal(x, y);
    if lists_equal(lists.update(k, list), lists) {
        assert forall|m: int| 0 <= m < lists.len() implies rel(#[trigger] lists[m], lists[m]) by {
            lemma_list_equal_reflexive(lists[m]);
        }
        lemma_lists_swappable(lists.update(k, list), lists);
        lemma_replaced_item(lists, k, list, rel);
    }
}

/// Lists that were equal to the saved ones and have changed are not equal
/// to the saved ones.
pub proof fn lemma_differs_from_saved(
    before: Seq<TaskListView>,
    after: Seq<TaskListView>,
    saved: Seq<TaskListView>,
)
    requires
        lists_equal(before, saved),
        !lists_equal(after, before),
    ensures
        !lists_equal(after, saved),
{
    if lists_equal(after, saved) {
        lemma_lists_equal_symmetric(before, saved);
        lemma_lists_equal_transitive(after, saved, before);
    }
}

/// The shown list of a board replaced by a list with unequal tasks: the
/// board's lists are no longer equal to the saved ones.
pub proof fn lemma_changed_board(board: Board, list: TaskListView, saved: Seq<TaskListView>)
    requires
        board.wf(),
        board.lists.len() > 0,
        lists_equal(board.lists, saved),
        !tasks_equal(list.tasks, board.current_list().tasks),
    ensures
        !lists_equal(board.with_list(list).lists, saved),
{
    lemma_changed_list(board.lists, board.tab.selected as int, list);
    lemma_differs_from_saved(board.lists, board.with_list(list).lists, saved);
}

/// After the status of a task or sub-task has moved on, the lists differ
/// from the saved ones that they were equal to. (A deleted task has no
/// next status, so there it does not hold.)
pub proof fn lemma_mark_task_makes_dirty(board: Board, saved: Seq<TaskListView>)
    requires
        board.wf(),
        board.has_task(),
        board.current_list().selected_task(board.tab.selected_sub_task).status
            != TaskStatus::Deleted,
        lists_equal(board.lists, saved),
    ensures
        !lists_equal(board.mark_task().lists, saved),
{
    let list = board.current_list();
    let sub = board.tab.selected_sub_task;
    let marked = list.selected_task(sub).cycle_status();
    let k = list.selected as int;
    assert(list.wf());
    if on_sub_task(list.current(), sub) {
        let parent = list.current();
        let changed = TaskView { sub_tasks: parent.sub_tasks.update(sub - 1, marked), ..parent };
        lemma_changed_task(parent.sub_tasks, sub - 1, marked);
        lemma_task_equal(changed, parent);
        lemma_changed_task(list.tasks, k, changed);
    } else {
        lemma_changed_task(list.tasks, k, marked);
    }
    lemma_changed_board(board, list.cycle_status(sub), saved);
}

/// After a task has been added, the lists differ from the saved ones
/// that they were equal to.
pub proof fn lemma_push_task_makes_dirty(board: Board, task: TaskView, saved: Seq<TaskListView>)
    requires
        board.wf(),
        board.lists.len() > 0,
        lists_equal(board.lists, saved),
    ensures
        !lists_equal(board.push_task(task).lists, saved),
{
    lemma_changed_board(board, board.current_list().push_task(task), saved);
}

/// After a task or sub-task has been deleted, the lists differ from the
/// saved ones that they were equal to.
pub proof fn lemma_delete_task_makes_dirty(board: Board, saved: Seq<TaskListView>)
    requires
        board.wf(),
        board.has_task(),
        lists_equal(board.lists, saved),
    ensures
        !lists_equal(board.delete_task().lists, saved),
{
    let list = board.current_list();
    let sub = board.tab.selected_sub_task;
    let k = list.selected as int;
    assert(list.wf());
    let after = list.delete_selected(sub).0;
    if on_sub_task(list.current(), sub) {
        let parent = list.current();
        let changed = TaskView { sub_tasks: parent.sub_tasks.remove(sub - 1), ..parent };
        lemma_task_equal(changed, parent);
        lemma_changed_task(list.tasks, k, changed);
    }
    lemma_changed_board(board, after, saved);
}

/// After a list has been added, the lists differ from the saved ones that
/// they were equal to.
pub proof fn lemma_new_list_makes_dirty(board: Board, name: Seq<char>, saved: Seq<TaskListView>)
    requires
        lists_equal(board.lists, saved),
    ensures
        !lists_equal(board.new_list(name).lists, saved),
{
}

/// `tasks` in the order that `order` gives: first the task with the index
/// `order[0]`, and so on.
pub open spec fn reordered(tasks: Seq<TaskView>, order: Seq<int>) -> Seq<TaskView> {
    Seq::new(tasks.len(), |i: int| tasks[order[i]])
}

/// Tasks in another order are equal to what they were.
pub proof fn lemma_reordered_tasks_equal(tasks: Seq<TaskView>, order: Seq<int>)
    requires
        is_matching(order, tasks.len()),
    ensures
        tasks_equal(reordered(tasks, order), tasks),
{
    let rel = |x: TaskView, y: TaskView| task_equal(x, y);
    let moved = reordered(tasks, order);
    assert forall|i: int| 0 <= i < moved.len() implies rel(moved[i], #[trigger] tasks[order[i]]) by {
        lemma_task_equal_reflexive(tasks[order[i]]);
    }
    assert(pairs_up(order, moved, tasks, rel));
}

/// After the tasks of a list have been put in another order, the lists
/// are still equal to the saved ones that they were equal to.
pub proof fn lemma_reorder_stays_clean(
    lists: Seq<TaskListView>,
    k: int,
    order: Seq<int>,
    saved: Seq<TaskListView>,
)
    requires
        0 <= k < lists.len(),
        is_matching(order, lists[k].tasks.len()),
        lists_equal(lists, saved),
    ensures
        lists_equal(
            lists.update(k, TaskListView { tasks: reordered(lists[k].tasks, order), ..lists[k] }),
            saved,
        ),
{
    let rel = |x: TaskListView, y: TaskListView| list_equal(x, y);
    let moved = TaskListView { tasks: reordered(lists[k].tasks, order), ..lists[k] };
    let after = lists.update(k, moved);
    lemma_reordered_tasks_equal(lists[k].tasks, order);
    let same = Seq::new(lists.len(), |i: int| i);
    assert forall|i: int| 0 <= i < after.len() implies rel(after[i], #[trigger] lists[same[i]]) by {
        if i != k {
            lemma_list_equal_reflexive(lists[i]);
        }
    }
    assert(pairs_up(same, after, lists, rel));
    lemma_lists_equal_transitive(after, lists, saved);
}

/// A task as it is kept in a file: without the display state, so
/// collapsed, and its sub-tasks likewise.
pub open spec fn stored_task(task: TaskView) -> TaskView
    decreases task,
{
    TaskView {
        sub_tasks: Seq::new(
            task.sub_tasks.len(),
            |i: int|
                if 0 <= i < task.sub_tasks.len() {
                    stored_task(task.sub_tasks[i])
                } else {
                    arbitrary()
                },
        ),
        expanded: false,
        ..task
    }
}

/// A list as it is kept in a file: without the cursor, its tasks as
/// `stored_task` gives them.
pub open spec fn stored_list(list: TaskListView) -> TaskListView {
    TaskListView {
        name: list.name,
        tasks: Seq::new(list.tasks.len(), |i: int| stored_task(list.tasks[i])),
        selected: 0,
    }
}

/// Lists as they are kept in a file.
pub open spec fn stored_lists(lists: Seq<TaskListView>) -> Seq<TaskListView> {
    Seq::new(lists.len(), |i: int| stored_list(lists[i]))
}

/// A task as kept in a file is equal to the task.
pub proof fn lemma_stored_task_equal(task: TaskView)
    ensures
        task_equal(stored_task(task), task),
    decreases task,
{
    let rel = |x: TaskView, y: TaskView| task_equal(x, y);
    let kept = stored_task(task);
    let same = Seq::new(task.sub_tasks.len(), |i: int| i);
    assert forall|i: int| 0 <= i < kept.sub_tasks.len() implies rel(
        kept.sub_tasks[i],
        #[trigger] task.sub_tasks[same[i]],
    ) by {
        lemma_stored_task_equal(task.sub_tasks[i]);
    }
    assert(pairs_up(same, kept.sub_tasks, task.sub_tasks, rel));
    lemma_task_equal(kept, task);
}

/// A list as kept in a file is equal to the list.
pub proof fn lemma_stored_list_equal(list: TaskListView)
    ensures
        list_equal(stored_list(list), list),
{
    let rel = |x: TaskView, y: TaskView| task_equal(x, y);
    let kept = stored_list(list);
    let same = Seq::new(list.tasks.len(), |i: int| i);
    assert forall|i: int| 0 <= i < kept.tasks.len() implies rel(
        kept.tasks[i],
        #[trigger] list.tasks[same[i]],
    ) by {
        lemma_stored_task_equal(list.tasks[i]);
    }
    assert(pairs_up(same, kept.tasks, list.tasks, rel));
}

/// Lists written to a file and read back are equal to what they were: the
/// file keeps everything but the display state, and that does not count.
pub proof fn lemma_stored_lists_equal(lists: Seq<TaskListView>)
    ensures
        lists_equal(stored_lists(lists), lists),
{
    let rel = |x: TaskListView, y: TaskListView| list_equal(x, y);
    let kept = stored_lists(lists);
    let same = Seq::new(lists.len(), |i: int| i);
    assert forall|i: int| 0 <= i < kept.len() implies rel(kept[i], #[trigger] lists[same[i]]) by {
        lemma_stored_list_equal(lists[i]);
    }
    assert(pairs_up(same, kept, lists, rel));
}

} // verus!
