//! The task tab: which list is shown, where the cursor stands in it, and the
//! popups through which tasks and lists are made, changed and deleted.

use crate::command::{
    outcome_view, parse_task_command, same_text, task_command_spec, word_views, CommandRequest,
    TaskCommandError,
};
use crate::date::Date;
use crate::key::Key;
use crate::popup::{
    ConfirmationField, ConfirmationPopup, ConfirmationPopupView, PopupStatus, TaskEditorPopup,
    TaskEditorView, TaskSource, TextEntryPopup, TextEntryPopupView,
};
use crate::task::{list_views, step_back, step_forward, Task, TaskList, TaskListView, TaskView};
use crate::widgets::TextEntryView;
use vstd::prelude::*;
use vstd::string::*;

verus! {

/// Whether the cursor `sub` stands on a sub-task of `task`: the task is
/// expanded and has a `sub`-th sub-task, counted from 1. Otherwise the
/// cursor stands on the task itself.
pub open spec fn on_sub_task(task: TaskView, sub: nat) -> bool {
    task.expanded && 0 < sub <= task.sub_tasks.len()
}

impl TaskListView {
    /// The task under the cursor.
    pub open spec fn current(self) -> TaskView
        recommends
            self.tasks.len() > 0,
    {
        self.tasks[self.selected as int]
    }

    /// The list with `task` in place of the task under the cursor.
    pub open spec fn with_current(self, task: TaskView) -> TaskListView {
        TaskListView { tasks: self.tasks.update(self.selected as int, task), ..self }
    }

    /// One row down. In an expanded task the cursor walks through the
    /// sub-tasks and from the last of them to the next task; from any other
    /// task it goes to the next task. The new list and sub-task cursor.
    pub open spec fn next(self, sub: nat) -> (TaskListView, nat) {
        if self.tasks.len() == 0 {
            (self, sub)
        } else if self.current().expanded {
            if sub < self.current().sub_tasks.len() {
                (self, sub + 1)
            } else {
                (self.next_task(), 0)
            }
        } else {
            (self.next_task(), sub)
        }
    }

    /// One row up: the mirror of `next`. Going up from a task itself leads
    /// to the last sub-task of the task before it where that is expanded.
    pub open spec fn previous(self, sub: nat) -> (TaskListView, nat) {
        if self.tasks.len() == 0 {
            (self, sub)
        } else if self.current().expanded && sub != 0 {
            (self, (sub - 1) as nat)
        } else {
            let list = self.previous_task();
            if list.current().expanded {
                (list, list.current().sub_tasks.len())
            } else {
                (list, sub)
            }
        }
    }

    /// Shows or hides the sub-tasks of the task under the cursor. Hiding
    /// them puts the cursor on the task itself.
    pub open spec fn toggle_expand(self, sub: nat) -> (TaskListView, nat) {
        if self.tasks.len() == 0 {
            (self, sub)
        } else if self.current().expanded {
            (self.with_current(TaskView { expanded: false, ..self.current() }), 0)
        } else {
            (self.with_current(TaskView { expanded: true, ..self.current() }), sub)
        }
    }

    /// The list with `task` in place of what the cursor stands on: a
    /// sub-task, or the task itself.
    pub open spec fn replace_selected(self, sub: nat, task: TaskView) -> TaskListView {
        if self.tasks.len() == 0 {
            self
        } else if on_sub_task(self.current(), sub) {
            self.with_current(
                TaskView {
                    sub_tasks: self.current().sub_tasks.update(sub - 1, task),
                    ..self.current()
                },
            )
        } else {
            self.with_current(task)
        }
    }

    /// What the cursor stands on: a sub-task, or the task itself.
    pub open spec fn selected_task(self, sub: nat) -> TaskView
        recommends
            self.tasks.len() > 0,
    {
        if on_sub_task(self.current(), sub) {
            self.current().sub_tasks[sub - 1]
        } else {
            self.current()
        }
    }

    /// The list with the status of what the cursor stands on moved on.
    pub open spec fn cycle_status(self, sub: nat) -> TaskListView {
        self.replace_selected(sub, self.selected_task(sub).cycle_status())
    }

    /// The list without what the cursor stood on. After the last sub-task
    /// is gone the cursor stands on the one before it, or on the task;
    /// after the last task is gone it stands on the task before it.
    pub open spec fn delete_selected(self, sub: nat) -> (TaskListView, nat) {
        if self.tasks.len() == 0 {
            (self, sub)
        } else if on_sub_task(self.current(), sub) {
            let rest = self.current().sub_tasks.remove(sub - 1);
            (
                self.with_current(TaskView { sub_tasks: rest, ..self.current() }),
                if sub > rest.len() {
                    (sub - 1) as nat
                } else {
                    sub
                },
            )
        } else {
            let list = TaskListView { tasks: self.tasks.remove(self.selected as int), ..self };
            (
                if list.selected == list.tasks.len() {
                    list.previous_task()
                } else {
                    list
                },
                sub,
            )
        }
    }

    /// The list with `task` added at its end.
    pub open spec fn push_task(self, task: TaskView) -> TaskListView {
        TaskListView { tasks: self.tasks.push(task), ..self }
    }
}

/// Every list has its cursor on a task, or at 0 where it has none.
pub open spec fn lists_wf(lists: Seq<TaskListView>) -> bool {
    forall|i: int| 0 <= i < lists.len() ==> (#[trigger] lists[i]).wf()
}

impl TaskList {
    /// Moves the cursor one row down and gives the new sub-task cursor.
    pub fn next(&mut self, sub: usize) -> (r: usize)
        requires
            old(self)@.wf(),
        ensures
            (final(self)@, r as nat) == old(self)@.next(sub as nat),
            final(self)@.wf(),
    {
        if self.tasks.len() == 0 {
            return sub;
        }
        if self.tasks[self.selected].expanded {
            if sub < self.tasks[self.selected].sub_tasks.len() {
                sub + 1
            } else {
                self.next_task();
                0
            }
        } else {
            self.next_task();
            sub
        }
    }

    /// Moves the cursor one row up and gives the new sub-task cursor.
    pub fn previous(&mut self, sub: usize) -> (r: usize)
        requires
            old(self)@.wf(),
        ensures
            (final(self)@, r as nat) == old(self)@.previous(sub as nat),
            final(self)@.wf(),
    {
        if self.tasks.len() == 0 {
            return sub;
        }
        if self.tasks[self.selected].expanded && sub != 0 {
            return sub - 1;
        }
        self.previous_task();
        if self.tasks[self.selected].expanded {
            self.tasks[self.selected].sub_tasks.len()
        } else {
            sub
        }
    }

    /// Shows or hides the sub-tasks of the task under the cursor and gives
    /// the new sub-task cursor.
    pub fn toggle_expand(&mut self, sub: usize) -> (r: usize)
        requires
            old(self)@.wf(),
        ensures
            (final(self)@, r as nat) == old(self)@.toggle_expand(sub as nat),
            final(self)@.wf(),
            old(self)@.tasks.len() > 0 && old(self)@.current().expanded ==> r == 0
                && !final(self)@.current().expanded,
    {
        if self.tasks.len() == 0 {
            return sub;
        }
        let ghost before = self.tasks@;
        proof {
            before[self.selected as int].lemma_view();
        }
        if self.tasks[self.selected].expanded {
            self.tasks[self.selected].expanded = false;
            proof {
                self.tasks@[self.selected as int].lemma_view();
                assert(self@.tasks =~= old(self)@.toggle_expand(sub as nat).0.tasks);
            }
            0
        } else {
            self.tasks[self.selected].expanded = true;
            proof {
                self.tasks@[self.selected as int].lemma_view();
                assert(self@.tasks =~= old(self)@.toggle_expand(sub as nat).0.tasks);
            }
            sub
        }
    }

    /// Whether the cursor `sub` stands on a sub-task of the task under the
    /// list's cursor.
    pub fn is_on_sub_task(&self, sub: usize) -> (r: bool)
        requires
            self@.wf(),
            self@.tasks.len() > 0,
        ensures
            r == on_sub_task(self@.current(), sub as nat),
    {
        let task = &self.tasks[self.selected];
        task.expanded && 0 < sub && sub <= task.sub_tasks.len()
    }

    /// What the cursor stands on: a sub-task, or the task itself.
    pub fn selected_task(&self, sub: usize) -> (r: &Task)
        requires
            self@.wf(),
            self@.tasks.len() > 0,
        ensures
            r@ == self@.selected_task(sub as nat),
    {
        proof {
            self.tasks@[self.selected as int].lemma_view();
        }
        if self.is_on_sub_task(sub) {
            &self.tasks[self.selected].sub_tasks[sub - 1]
        } else {
            &self.tasks[self.selected]
        }
    }

    /// Puts `task` in place of what the cursor stands on. A list without
    /// tasks stays as it is.
    pub fn replace_selected(&mut self, sub: usize, task: Task)
        requires
            old(self)@.wf(),
        ensures
            final(self)@ == old(self)@.replace_selected(sub as nat, task@),
            final(self)@.wf(),
    {
        if self.tasks.len() == 0 {
            return ;
        }
        proof {
            self.tasks@[self.selected as int].lemma_view();
        }
        if self.is_on_sub_task(sub) {
            self.tasks[self.selected].sub_tasks[sub - 1] = task;
            proof {
                self.tasks@[self.selected as int].lemma_view();
                assert(self.tasks@[self.selected as int]@.sub_tasks =~= old(
                    self,
                )@.current().sub_tasks.update(sub - 1, task@));
            }
        } else {
            self.tasks[self.selected] = task;
        }
        assert(self@.tasks =~= old(self)@.replace_selected(sub as nat, task@).tasks);
    }

    /// Moves the status of what the cursor stands on one step on.
    pub fn cycle_status(&mut self, sub: usize)
        requires
            old(self)@.wf(),
        ensures
            final(self)@ == old(self)@.cycle_status(sub as nat),
            final(self)@.wf(),
    {
        if self.tasks.len() == 0 {
            return ;
        }
        proof {
            self.tasks@[self.selected as int].lemma_view();
        }
        if self.is_on_sub_task(sub) {
            proof {
                self.tasks@[self.selected as int].sub_tasks@[sub - 1].lemma_view();
            }
            self.tasks[self.selected].sub_tasks[sub - 1].status.cycle_next();
            proof {
                self.tasks@[self.selected as int].lemma_view();
                self.tasks@[self.selected as int].sub_tasks@[sub - 1].lemma_view();
                assert(self.tasks@[self.selected as int]@.sub_tasks =~= old(
                    self,
                )@.current().sub_tasks.update(
                    sub - 1,
                    old(self)@.selected_task(sub as nat).cycle_status(),
                ));
            }
        } else {
            self.tasks[self.selected].status.cycle_next();
            proof {
                self.tasks@[self.selected as int].lemma_view();
            }
        }
        assert(self@.tasks =~= old(self)@.cycle_status(sub as nat).tasks);
    }

    /// Removes what the cursor stands on and gives the new sub-task cursor.
    pub fn delete_selected(&mut self, sub: usize) -> (r: usize)
        requires
            old(self)@.wf(),
        ensures
            (final(self)@, r as nat) == old(self)@.delete_selected(sub as nat),
            final(self)@.wf(),
            old(self)@.tasks.len() == 1 && !on_sub_task(old(self)@.current(), sub as nat)
                ==> final(self)@.tasks.len() == 0 && final(self)@.selected == 0,
    {
        if self.tasks.len() == 0 {
            return sub;
        }
        proof {
            self.tasks@[self.selected as int].lemma_view();
        }
        if self.is_on_sub_task(sub) {
            self.tasks[self.selected].sub_tasks.remove(sub - 1);
            proof {
                self.tasks@[self.selected as int].lemma_view();
                assert(self.tasks@[self.selected as int]@.sub_tasks =~= old(
                    self,
                )@.current().sub_tasks.remove(sub - 1));
                assert(self@.tasks =~= old(self)@.delete_selected(sub as nat).0.tasks);
            }
            if sub > self.tasks[self.selected].sub_tasks.len() {
                sub - 1
            } else {
                sub
            }
        } else {
            self.tasks.remove(self.selected);
            assert(self@.tasks =~= old(self)@.tasks.remove(old(self)@.selected as int));
            if self.selected == self.tasks.len() && self.selected > 0 {
                self.selected = self.selected - 1;
                proof {
                    let len = self.tasks.len() as int;
                    vstd::arithmetic::div_mod::lemma_mod_add_multiples_vanish(len - 1, len);
                    vstd::arithmetic::div_mod::lemma_small_mod((len - 1) as nat, len as nat);
                }
            }
            sub
        }
    }

    /// Adds `task` at the end of the list.
    pub fn push_task(&mut self, task: Task)
        requires
            old(self)@.wf(),
        ensures
            final(self)@ == old(self)@.push_task(task@),
            final(self)@.wf(),
    {
        self.tasks.push(task);
        assert(self@.tasks =~= old(self)@.tasks.push(task@));
    }
}

/// The task tab: the index of the list that is shown, the sub-task cursor
/// in it (0 for a task itself, `k` for its `k`-th sub-task) and the popups.
pub struct TaskListTab {
    pub selected: usize,
    pub new_task_window: TaskEditorPopup,
    pub delete_conf_window: ConfirmationPopup,
    pub new_tasklist_window: TextEntryPopup,
    pub selected_sub_task: usize,
}

/// The task tab as a value.
pub struct TaskListTabView {
    pub selected: nat,
    pub new_task_window: TaskEditorView,
    pub delete_conf_window: ConfirmationPopupView,
    pub new_tasklist_window: TextEntryPopupView,
    pub selected_sub_task: nat,
}

impl View for TaskListTab {
    type V = TaskListTabView;

    open spec fn view(&self) -> TaskListTabView {
        TaskListTabView {
            selected: self.selected as nat,
            new_task_window: self.new_task_window@,
            delete_conf_window: self.delete_conf_window@,
            new_tasklist_window: self.new_tasklist_window@,
            selected_sub_task: self.selected_sub_task as nat,
        }
    }
}

impl TaskListTabView {
    /// The tab as it starts: on the first list, all popups closed.
    pub open spec fn initial() -> TaskListTabView {
        TaskListTabView {
            selected: 0,
            new_task_window: TaskEditorView::initial(),
            delete_conf_window: ConfirmationPopupView {
                title: "Confirm delete"@,
                body: "Are you sure you want to delete?"@,
                status: PopupStatus::Closed,
                selected_field: ConfirmationField::No,
            },
            new_tasklist_window: TextEntryPopupView {
                text_field: TextEntryView {
                    text: Seq::empty(),
                    cursor: 0,
                    max_len: usize::MAX as nat,
                },
                title: "Enter TaskList Name"@,
                status: PopupStatus::Closed,
                max_lines: 3,
            },
            selected_sub_task: 0,
        }
    }

    /// The tab after a command with these words: `new` opens the editor on
    /// a fresh task, `newlist` opens the list prompt.
    pub open spec fn after_command(self, words: Seq<Seq<char>>, today: Date) -> TaskListTabView {
        if words.len() > 0 && words[0] == "new"@ {
            TaskListTabView { new_task_window: self.new_task_window.new_task(today), ..self }
        } else if words.len() > 0 && words[0] == "newlist"@ {
            TaskListTabView {
                new_tasklist_window: TextEntryPopupView {
                    status: PopupStatus::InUse,
                    ..self.new_tasklist_window
                },
                ..self
            }
        } else {
            self
        }
    }

    /// The tab with its list index put on the first of `count` lists where
    /// it was on none.
    pub open spec fn settle_cursor(self, count: nat) -> TaskListTabView {
        if self.selected < count {
            self
        } else {
            TaskListTabView { selected: 0, ..self }
        }
    }
}

/// The lists, each with its cursor put on the first task where it was on none.
pub open spec fn settled_lists(lists: Seq<TaskListView>) -> Seq<TaskListView> {
    Seq::new(lists.len(), |i: int| lists[i].settle_cursor())
}

/// The task tab together with the lists it works on.
pub struct Board {
    pub tab: TaskListTabView,
    pub lists: Seq<TaskListView>,
}

impl Board {
    /// Every list has its cursor in range, and the tab shows one of the
    /// lists where there is any.
    pub open spec fn wf(self) -> bool {
        &&& lists_wf(self.lists)
        &&& if self.lists.len() == 0 {
            self.tab.selected == 0
        } else {
            self.tab.selected < self.lists.len()
        }
    }

    /// The list that is shown.
    pub open spec fn current_list(self) -> TaskListView
        recommends
            self.lists.len() > 0,
    {
        self.lists[self.tab.selected as int]
    }

    /// Whether there is a task under the cursor.
    pub open spec fn has_task(self) -> bool {
        self.lists.len() > 0 && self.current_list().tasks.len() > 0
    }

    /// The board with `list` in place of the list that is shown.
    pub open spec fn with_list(self, list: TaskListView) -> Board {
        Board { lists: self.lists.update(self.tab.selected as int, list), ..self }
    }

    /// The board with the sub-task cursor at `sub`.
    pub open spec fn with_sub(self, sub: nat) -> Board {
        Board { tab: TaskListTabView { selected_sub_task: sub, ..self.tab }, ..self }
    }

    /// The board with a changed list and sub-task cursor in place.
    pub open spec fn with_cursor(self, moved: (TaskListView, nat)) -> Board {
        self.with_list(moved.0).with_sub(moved.1)
    }

    /// The next list is shown, after the last one the first. Cursors stay.
    pub open spec fn next_list(self) -> Board {
        if self.lists.len() == 0 {
            self
        } else {
            Board {
                tab: TaskListTabView {
                    selected: (self.tab.selected + 1) % self.lists.len(),
                    ..self.tab
                },
                ..self
            }
        }
    }

    /// The previous list is shown, before the first one the last. Cursors stay.
    pub open spec fn previous_list(self) -> Board {
        if self.lists.len() == 0 {
            self
        } else {
            Board {
                tab: TaskListTabView {
                    selected: ((self.tab.selected + self.lists.len() - 1) % (
                    self.lists.len() as int)) as nat,
                    ..self.tab
                },
                ..self
            }
        }
    }

    /// One row down in the list that is shown.
    pub open spec fn next(self) -> Board {
        if self.lists.len() == 0 {
            self
        } else {
            self.with_cursor(self.current_list().next(self.tab.selected_sub_task))
        }
    }

    /// One row up in the list that is shown.
    pub open spec fn previous(self) -> Board {
        if self.lists.len() == 0 {
            self
        } else {
            self.with_cursor(self.current_list().previous(self.tab.selected_sub_task))
        }
    }

    /// Shows or hides the sub-tasks of the task under the cursor.
    pub open spec fn toggle_expand(self) -> Board {
        if self.lists.len() == 0 {
            self
        } else {
            self.with_cursor(self.current_list().toggle_expand(self.tab.selected_sub_task))
        }
    }

    /// Moves the status of what the cursor stands on one step on.
    pub open spec fn mark_task(self) -> Board {
        if self.lists.len() == 0 {
            self
        } else {
            self.with_list(self.current_list().cycle_status(self.tab.selected_sub_task))
        }
    }

    /// Removes what the cursor stands on.
    pub open spec fn delete_task(self) -> Board {
        if self.lists.len() == 0 {
            self
        } else {
            self.with_cursor(self.current_list().delete_selected(self.tab.selected_sub_task))
        }
    }

    /// Puts `task` in place of what the cursor stands on.
    pub open spec fn replace_selected(self, task: TaskView) -> Board {
        if self.lists.len() == 0 {
            self
        } else {
            self.with_list(self.current_list().replace_selected(self.tab.selected_sub_task, task))
        }
    }

    /// Adds `task` at the end of the list that is shown.
    pub open spec fn push_task(self, task: TaskView) -> Board {
        if self.lists.len() == 0 {
            self
        } else {
            self.with_list(self.current_list().push_task(task))
        }
    }

    /// Adds an empty list named `name` after the others.
    pub open spec fn new_list(self, name: Seq<char>) -> Board {
        Board {
            lists: self.lists.push(TaskListView { name, tasks: Seq::empty(), selected: 0 }),
            ..self
        }
    }

    pub open spec fn with_editor(self, editor: TaskEditorView) -> Board {
        Board { tab: TaskListTabView { new_task_window: editor, ..self.tab }, ..self }
    }

    pub open spec fn with_confirmation(self, popup: ConfirmationPopupView) -> Board {
        Board { tab: TaskListTabView { delete_conf_window: popup, ..self.tab }, ..self }
    }

    pub open spec fn with_prompt(self, popup: TextEntryPopupView) -> Board {
        Board { tab: TaskListTabView { new_tasklist_window: popup, ..self.tab }, ..self }
    }

    /// Asks whether to delete, where there is a task under the cursor.
    pub open spec fn try_delete_task(self) -> Board {
        if self.has_task() {
            self.with_confirmation(self.tab.delete_conf_window.show())
        } else {
            self
        }
    }

    /// Opens the editor on what the cursor stands on, where there is a task
    /// under the cursor.
    pub open spec fn edit_task(self) -> Board {
        if self.has_task() {
            self.with_editor(
                self.tab.new_task_window.edit_task(
                    self.current_list().selected_task(self.tab.selected_sub_task),
                ),
            )
        } else {
            self
        }
    }

    /// Opens the editor on a fresh task dated `today`.
    pub open spec fn new_task(self, today: Date) -> Board {
        self.with_editor(self.tab.new_task_window.new_task(today))
    }

    /// Opens the prompt for the name of a new list.
    pub open spec fn new_task_list(self) -> Board {
        self.with_prompt(
            TextEntryPopupView { status: PopupStatus::InUse, ..self.tab.new_tasklist_window },
        )
    }

    /// What follows once the editor has had a key. Confirmed, its task is
    /// added as a new task or put in place of what the cursor stands on,
    /// and the editor closes with a fresh task; canceled, it closes.
    pub open spec fn settle_editor(self) -> Board {
        let editor = self.tab.new_task_window;
        match editor.status {
            PopupStatus::Confirmed => {
                let placed = match editor.task_source {
                    TaskSource::New => self.push_task(editor.task),
                    TaskSource::Existing => self.replace_selected(editor.task),
                };
                placed.with_editor(
                    TaskEditorView {
                        status: PopupStatus::Closed,
                        task: TaskView::empty(),
                        ..editor
                    },
                )
            },
            PopupStatus::Canceled => self.with_editor(
                TaskEditorView { status: PopupStatus::Closed, ..editor },
            ),
            _ => self,
        }
    }

    /// What follows once the delete confirmation has had a key. Confirmed
    /// with yes, what the cursor stands on is removed; confirmed or
    /// canceled, the confirmation closes.
    pub open spec fn settle_confirmation(self) -> Board {
        let popup = self.tab.delete_conf_window;
        let closed = ConfirmationPopupView { status: PopupStatus::Closed, ..popup };
        match popup.status {
            PopupStatus::Confirmed => if popup.decision() {
                self.delete_task().with_confirmation(closed)
            } else {
                self.with_confirmation(closed)
            },
            PopupStatus::Canceled => self.with_confirmation(closed),
            _ => self,
        }
    }

    /// What follows once the list prompt has had a key. Confirmed, a list
    /// with the typed name is added; confirmed or canceled, the prompt
    /// closes and its text is gone.
    pub open spec fn settle_prompt(self) -> Board {
        let popup = self.tab.new_tasklist_window;
        match popup.status {
            PopupStatus::Confirmed => self.new_list(popup.text_field.text).with_prompt(
                popup.reset(),
            ),
            PopupStatus::Canceled => self.with_prompt(popup.reset()),
            _ => self,
        }
    }

    /// What a key does while no popup is in use.
    pub open spec fn browse(self, key: Key, today: Date) -> Board {
        match key {
            Key::Char(c) => if c == 'h' {
                self.previous_list()
            } else if c == 'l' {
                self.next_list()
            } else if c == 'k' {
                self.previous()
            } else if c == 'j' {
                self.next()
            } else if c == 'a' {
                self.new_task(today)
            } else if c == 'e' {
                self.edit_task()
            } else if c == 'm' {
                self.mark_task()
            } else if c == 'd' {
                self.try_delete_task()
            } else {
                self
            },
            Key::Right => self.toggle_expand(),
            _ => self,
        }
    }

    /// Whether a key is one of those that do something while no popup is
    /// in use.
    pub open spec fn is_bound(key: Key) -> bool {
        match key {
            Key::Char(c) => c == 'h' || c == 'l' || c == 'k' || c == 'j' || c == 'a' || c == 'e'
                || c == 'm' || c == 'd',
            Key::Right => true,
            _ => false,
        }
    }

    /// Whether any popup is in use.
    pub open spec fn popup_in_use(self) -> bool {
        ||| self.tab.new_task_window.status == PopupStatus::InUse
        ||| self.tab.delete_conf_window.status == PopupStatus::InUse
        ||| self.tab.new_tasklist_window.status == PopupStatus::InUse
    }

    /// No two popups are in use.
    pub open spec fn one_popup_at_most(self) -> bool {
        let editor = self.tab.new_task_window.status == PopupStatus::InUse;
        let confirmation = self.tab.delete_conf_window.status == PopupStatus::InUse;
        let prompt = self.tab.new_tasklist_window.status == PopupStatus::InUse;
        !(editor && confirmation) && !(editor && prompt) && !(confirmation && prompt)
    }

    /// The board after a key. The first popup in use gets it, the editor
    /// before the delete confirmation before the list prompt; without a
    /// popup the key moves the cursor or starts an action.
    pub open spec fn handle_input(self, key: Key, today: Date) -> Board {
        if self.tab.new_task_window.status == PopupStatus::InUse {
            self.with_editor(self.tab.new_task_window.handle_input(key, today)).settle_editor()
        } else if self.tab.delete_conf_window.status == PopupStatus::InUse {
            self.with_confirmation(
                self.tab.delete_conf_window.handle_input(key),
            ).settle_confirmation()
        } else if self.tab.new_tasklist_window.status == PopupStatus::InUse {
            self.with_prompt(self.tab.new_tasklist_window.handle_input(key)).settle_prompt()
        } else {
            self.browse(key, today)
        }
    }

    /// Whether the tab uses a key up: always while a popup is in use, else
    /// where the key is bound.
    pub open spec fn consumes(self, key: Key) -> bool {
        self.popup_in_use() || Board::is_bound(key)
    }
}

/// A key leaves at most one popup in use where at most one was in use.
/// So the popups never compete for a key.
pub proof fn lemma_one_popup_at_a_time(board: Board, key: Key, today: Date)
    requires
        board.one_popup_at_most(),
    ensures
        board.handle_input(key, today).one_popup_at_most(),
{
}

/// The board that a tab and its lists make up.
pub open spec fn board_of(tab: TaskListTab, lists: Vec<TaskList>) -> Board {
    Board { tab: tab@, lists: list_views(lists@) }
}

impl TaskListTab {
    /// The tab as it starts.
    pub fn new() -> (r: TaskListTab)
        ensures
            r@ == TaskListTabView::initial(),
    {
        TaskListTab {
            selected: 0,
            new_task_window: TaskEditorPopup::default(),
            delete_conf_window: ConfirmationPopup::new(
                String::from_str("Confirm delete"),
                String::from_str("Are you sure you want to delete?"),
            ),
            new_tasklist_window: TextEntryPopup::new(String::from_str("Enter TaskList Name"), 3),
            selected_sub_task: 0,
        }
    }

    /// Shows the next list.
    pub fn next_tab(&mut self, task_lists: &Vec<TaskList>)
        requires
            board_of(*old(self), *task_lists).wf(),
        ensures
            board_of(*final(self), *task_lists) == board_of(*old(self), *task_lists).next_list(),
            board_of(*final(self), *task_lists).wf(),
    {
        if task_lists.is_empty() {
            return ;
        }
        self.selected = step_forward(self.selected, task_lists.len());
    }

    /// Shows the previous list.
    pub fn previous_tab(&mut self, task_lists: &Vec<TaskList>)
        requires
            board_of(*old(self), *task_lists).wf(),
        ensures
            board_of(*final(self), *task_lists) == board_of(
                *old(self),
                *task_lists,
            ).previous_list(),
            board_of(*final(self), *task_lists).wf(),
    {
        if task_lists.is_empty() {
            return ;
        }
        self.selected = step_back(self.selected, task_lists.len());
    }

    /// Moves the cursor one row down.
    pub fn next(&mut self, task_lists: &mut Vec<TaskList>)
        requires
            board_of(*old(self), *old(task_lists)).wf(),
        ensures
            board_of(*final(self), *final(task_lists)) == board_of(
                *old(self),
                *old(task_lists),
            ).next(),
            board_of(*final(self), *final(task_lists)).wf(),
    {
        if task_lists.is_empty() {
            return ;
        }
        self.selected_sub_task = task_lists[self.selected].next(self.selected_sub_task);
        proof {
            lemma_list_changed(old(task_lists)@, task_lists@, self.selected as int);
        }
    }

    /// Moves the cursor one row up.
    pub fn previous(&mut self, task_lists: &mut Vec<TaskList>)
        requires
            board_of(*old(self), *old(task_lists)).wf(),
        ensures
            board_of(*final(self), *final(task_lists)) == board_of(
                *old(self),
                *old(task_lists),
            ).previous(),
            board_of(*final(self), *final(task_lists)).wf(),
    {
        if task_lists.is_empty() {
            return ;
        }
        self.selected_sub_task = task_lists[self.selected].previous(self.selected_sub_task);
        proof {
            lemma_list_changed(old(task_lists)@, task_lists@, self.selected as int);
        }
    }

    /// Shows or hides the sub-tasks of the task under the cursor.
    pub fn toggle_expand(&mut self, task_lists: &mut Vec<TaskList>)
        requires
            board_of(*old(self), *old(task_lists)).wf(),
        ensures
            board_of(*final(self), *final(task_lists)) == board_of(
                *old(self),
                *old(task_lists),
            ).toggle_expand(),
            board_of(*final(self), *final(task_lists)).wf(),
            board_of(*old(self), *old(task_lists)).has_task() && board_of(
                *old(self),
                *old(task_lists),
            ).current_list().current().expanded ==> final(self).selected_sub_task == 0,
    {
        if task_lists.is_empty() {
            return ;
        }
        self.selected_sub_task = task_lists[self.selected].toggle_expand(self.selected_sub_task);
        proof {
            lemma_list_changed(old(task_lists)@, task_lists@, self.selected as int);
        }
    }

    /// Moves the status of what the cursor stands on one step on.
    pub fn mark_task(&mut self, task_lists: &mut Vec<TaskList>)
        requires
            board_of(*old(self), *old(task_lists)).wf(),
        ensures
            board_of(*final(self), *final(task_lists)) == board_of(
                *old(self),
                *old(task_lists),
            ).mark_task(),
            board_of(*final(self), *final(task_lists)).wf(),
            *final(self) == *old(self),
    {
        if task_lists.is_empty() {
            return ;
        }
        task_lists[self.selected].cycle_status(self.selected_sub_task);
        proof {
            lemma_list_changed(old(task_lists)@, task_lists@, self.selected as int);
        }
    }

    /// Asks whether to delete what the cursor stands on.
    pub fn try_delete_task(&mut self, task_lists: &Vec<TaskList>)
        requires
            board_of(*old(self), *task_lists).wf(),
        ensures
            board_of(*final(self), *task_lists) == board_of(
                *old(self),
                *task_lists,
            ).try_delete_task(),
            board_of(*final(self), *task_lists).wf(),
    {
        if task_lists.is_empty() || task_lists[self.selected].tasks.is_empty() {
            return ;
        }
        self.delete_conf_window.show();
    }

    /// Removes what the cursor stands on.
    pub fn delete_task(&mut self, task_lists: &mut Vec<TaskList>)
        requires
            board_of(*old(self), *old(task_lists)).wf(),
        ensures
            board_of(*final(self), *final(task_lists)) == board_of(
                *old(self),
                *old(task_lists),
            ).delete_task(),
            board_of(*final(self), *final(task_lists)).wf(),
    {
        if task_lists.is_empty() {
            return ;
        }
        self.selected_sub_task = task_lists[self.selected].delete_selected(
            self.selected_sub_task,
        );
        proof {
            lemma_list_changed(old(task_lists)@, task_lists@, self.selected as int);
        }
    }

    /// Opens the editor on a copy of what the cursor stands on.
    pub fn edit_task(&mut self, task_lists: &Vec<TaskList>)
        requires
            board_of(*old(self), *task_lists).wf(),
        ensures
            board_of(*final(self), *task_lists) == board_of(*old(self), *task_lists).edit_task(),
            board_of(*final(self), *task_lists).wf(),
    {
        if task_lists.is_empty() || task_lists[self.selected].tasks.is_empty() {
            return ;
        }
        let task = task_lists[self.selected].selected_task(self.selected_sub_task).clone();
        self.new_task_window.edit_task(task);
    }

    /// Opens the editor on a fresh task dated `today`.
    pub fn new_task(&mut self, today: Date)
        ensures
            final(self)@ == (TaskListTabView {
                new_task_window: old(self)@.new_task_window.new_task(today),
                ..old(self)@
            }),
    {
        self.new_task_window.new_task(today);
    }

    /// Opens the prompt for the name of a new list.
    pub fn new_task_list(&mut self)
        ensures
            final(self)@ == (TaskListTabView {
                new_tasklist_window: TextEntryPopupView {
                    status: PopupStatus::InUse,
                    ..old(self)@.new_tasklist_window
                },
                ..old(self)@
            }),
    {
        self.new_tasklist_window.show();
    }

    /// Carries out a task command, given as the words after the tab's
    /// name. What the command asks of the application is handed back; file
    /// work is not done here and the lists stay as they are. An `export`
    /// of an index that names none of the lists is an `InvalidFilePath`.
    pub fn process_command(
        &mut self,
        command: &Vec<String>,
        task_lists: &Vec<TaskList>,
        today: Date,
    ) -> (r: Result<CommandRequest, TaskCommandError>)
        ensures
            outcome_view(r) == task_command_spec(word_views(command@), task_lists@.len()),
            r matches Ok(CommandRequest::Export(index)) ==> index < task_lists@.len(),
            final(self)@ == old(self)@.after_command(word_views(command@), today),
    {
        if command.len() > 0 {
            if same_text(command[0].as_str(), "new") {
                self.new_task(today);
            } else if same_text(command[0].as_str(), "newlist") {
                self.new_task_list();
            }
        }
        parse_task_command(command, task_lists.len())
    }

    /// Takes what reading a file of lists gave. Lists that were read take
    /// the place of the present ones, their cursors put in range; an error
    /// is handed on and changes nothing.
    pub fn load_data(
        &mut self,
        read: Result<Vec<TaskList>, TaskCommandError>,
        task_lists: &mut Vec<TaskList>,
    ) -> (r: Result<CommandRequest, TaskCommandError>)
        requires
            board_of(*old(self), *old(task_lists)).wf(),
        ensures
            board_of(*final(self), *final(task_lists)).wf(),
            match read {
                Ok(lists) => {
                    &&& r matches Ok(CommandRequest::Nothing)
                    &&& list_views(final(task_lists)@) == settled_lists(list_views(lists@))
                    &&& final(self)@ == old(self)@.settle_cursor(lists@.len())
                },
                Err(e) => {
                    &&& r == Err::<CommandRequest, TaskCommandError>(e)
                    &&& *final(task_lists) == *old(task_lists)
                    &&& *final(self) == *old(self)
                },
            },
    {
        match read {
            Ok(lists) => {
                let mut lists = lists;
                let mut i: usize = 0;
                while i < lists.len()
                    invariant
                        i <= lists.len(),
                        lists.len() == read->Ok_0.len(),
                        forall|k: int| 0 <= k < i ==> (#[trigger] lists[k])@ == read->Ok_0[k]@.settle_cursor(),
                        forall|k: int| i <= k < lists.len() ==> #[trigger] lists[k] == read->Ok_0[k],
                    decreases lists.len() - i,
                {
                    lists[i].settle_cursor();
                    i += 1;
                }
                if self.selected >= lists.len() {
                    self.selected = 0;
                }
                *task_lists = lists;
                proof {
                    assert(list_views(task_lists@) =~= settled_lists(list_views(read->Ok_0@)));
                }
                Ok(CommandRequest::Nothing)
            },
            Err(e) => Err(e),
        }
    }

    /// Takes what reading a file of one list gave. A list that was read is
    /// added after the others, its cursor put in range; an error is handed
    /// on and changes nothing.
    pub fn load_list(
        &mut self,
        read: Result<TaskList, TaskCommandError>,
        task_lists: &mut Vec<TaskList>,
    ) -> (r: Result<CommandRequest, TaskCommandError>)
        requires
            board_of(*old(self), *old(task_lists)).wf(),
        ensures
            board_of(*final(self), *final(task_lists)).wf(),
            *final(self) == *old(self),
            match read {
                Ok(list) => {
                    &&& r matches Ok(CommandRequest::Nothing)
                    &&& list_views(final(task_lists)@) == list_views(old(task_lists)@).push(
                        list@.settle_cursor(),
                    )
                },
                Err(e) => {
                    &&& r == Err::<CommandRequest, TaskCommandError>(e)
                    &&& *final(task_lists) == *old(task_lists)
                },
            },
    {
        match read {
            Ok(list) => {
                let mut list = list;
                list.settle_cursor();
                task_lists.push(list);
                proof {
                    assert(list_views(task_lists@) =~= list_views(old(task_lists)@).push(list@));
                }
                Ok(CommandRequest::Nothing)
            },
            Err(e) => Err(e),
        }
    }

    /// Adds `task` at the end of the list that is shown. Without a list the
    /// task is dropped.
    pub fn push_task(&self, task_lists: &mut Vec<TaskList>, task: Task)
        requires
            board_of(*self, *old(task_lists)).wf(),
        ensures
            board_of(*self, *final(task_lists)) == board_of(*self, *old(task_lists)).push_task(
                task@,
            ),
            board_of(*self, *final(task_lists)).wf(),
    {
        if task_lists.is_empty() {
            return ;
        }
        task_lists[self.selected].push_task(task);
        proof {
            lemma_list_changed(old(task_lists)@, task_lists@, self.selected as int);
        }
    }

    /// Puts `task` in place of what the cursor stands on. Without a task
    /// under the cursor `task` is dropped.
    pub fn replace_selected(&self, task_lists: &mut Vec<TaskList>, task: Task)
        requires
            board_of(*self, *old(task_lists)).wf(),
        ensures
            board_of(*self, *final(task_lists)) == board_of(
                *self,
                *old(task_lists),
            ).replace_selected(task@),
            board_of(*self, *final(task_lists)).wf(),
    {
        if task_lists.is_empty() {
            return ;
        }
        task_lists[self.selected].replace_selected(self.selected_sub_task, task);
        proof {
            lemma_list_changed(old(task_lists)@, task_lists@, self.selected as int);
        }
    }

    /// Adds an empty list named `name` after the others.
    pub fn new_list(&self, task_lists: &mut Vec<TaskList>, name: String)
        requires
            board_of(*self, *old(task_lists)).wf(),
        ensures
            board_of(*self, *final(task_lists)) == board_of(*self, *old(task_lists)).new_list(
                name@,
            ),
            board_of(*self, *final(task_lists)).wf(),
    {
        let list = TaskList::new(name, None);
        task_lists.push(list);
        assert(list_views(task_lists@) =~= list_views(old(task_lists)@).push(list@));
    }

    /// Acts on what the editor said after its last key.
    fn settle_editor(&mut self, task_lists: &mut Vec<TaskList>)
        requires
            board_of(*old(self), *old(task_lists)).wf(),
        ensures
            board_of(*final(self), *final(task_lists)) == board_of(
                *old(self),
                *old(task_lists),
            ).settle_editor(),
            board_of(*final(self), *final(task_lists)).wf(),
    {
        match self.new_task_window.status() {
            PopupStatus::Confirmed => {
                let source = self.new_task_window.task_source();
                let task = self.new_task_window.take_task();
                match source {
                    TaskSource::New => self.push_task(task_lists, task),
                    TaskSource::Existing => self.replace_selected(task_lists, task),
                }
                self.new_task_window.close();
            },
            PopupStatus::Canceled => {
                self.new_task_window.close();
            },
            _ => {},
        }
    }

    /// Acts on what the delete confirmation said after its last key.
    fn settle_confirmation(&mut self, task_lists: &mut Vec<TaskList>)
        requires
            board_of(*old(self), *old(task_lists)).wf(),
        ensures
            board_of(*final(self), *final(task_lists)) == board_of(
                *old(self),
                *old(task_lists),
            ).settle_confirmation(),
            board_of(*final(self), *final(task_lists)).wf(),
    {
        match self.delete_conf_window.status() {
            PopupStatus::Confirmed => {
                if self.delete_conf_window.decision() {
                    self.delete_task(task_lists);
                }
                self.delete_conf_window.close();
            },
            PopupStatus::Canceled => {
                self.delete_conf_window.close();
            },
            _ => {},
        }
    }

    /// Acts on what the list prompt said after its last key.
    fn settle_prompt(&mut self, task_lists: &mut Vec<TaskList>)
        requires
            board_of(*old(self), *old(task_lists)).wf(),
        ensures
            board_of(*final(self), *final(task_lists)) == board_of(
                *old(self),
                *old(task_lists),
            ).settle_prompt(),
            board_of(*final(self), *final(task_lists)).wf(),
    {
        match self.new_tasklist_window.status {
            PopupStatus::Confirmed => {
                let name = self.new_tasklist_window.take();
                self.new_list(task_lists, name);
                self.new_tasklist_window.close();
            },
            PopupStatus::Canceled => {
                self.new_tasklist_window.reset();
            },
            _ => {},
        }
    }

    /// Gives one key to the tab. `true` says that the key was used up, so
    /// that no hotkey of the application may fire on it.
    pub fn handle_input(&mut self, task_lists: &mut Vec<TaskList>, key: Key, today: Date) -> (consumed:
        bool)
        requires
            board_of(*old(self), *old(task_lists)).wf(),
        ensures
            board_of(*final(self), *final(task_lists)) == board_of(
                *old(self),
                *old(task_lists),
            ).handle_input(key, today),
            consumed == board_of(*old(self), *old(task_lists)).consumes(key),
            board_of(*final(self), *final(task_lists)).wf(),
    {
        if self.new_task_window.status() == PopupStatus::InUse {
            let consumed = self.new_task_window.handle_input(key, today);
            self.settle_editor(task_lists);
            consumed
        } else if self.delete_conf_window.status() == PopupStatus::InUse {
            let consumed = self.delete_conf_window.handle_input(key);
            self.settle_confirmation(task_lists);
            consumed
        } else if self.new_tasklist_window.status == PopupStatus::InUse {
            let consumed = self.new_tasklist_window.handle_input(key);
            self.settle_prompt(task_lists);
            consumed
        } else {
            match key {
                Key::Char(c) => {
                    if c == 'h' {
                        self.previous_tab(task_lists);
                        true
                    } else if c == 'l' {
                        self.next_tab(task_lists);
                        true
                    } else if c == 'k' {
                        self.previous(task_lists);
                        true
                    } else if c == 'j' {
                        self.next(task_lists);
                        true
                    } else if c == 'a' {
                        self.new_task(today);
                        true
                    } else if c == 'e' {
                        self.edit_task(task_lists);
                        true
                    } else if c == 'm' {
                        self.mark_task(task_lists);
                        true
                    } else if c == 'd' {
                        self.try_delete_task(task_lists);
                        true
                    } else {
                        false
                    }
                },
                Key::Right => {
                    self.toggle_expand(task_lists);
                    true
                },
                _ => false,
            }
        }
    }
}

/// Lists of which one changed and the others stayed: their views differ in
/// that one place.
pub proof fn lemma_list_changed(before: Seq<TaskList>, after: Seq<TaskList>, i: int)
    requires
        0 <= i < before.len(),
        after == before.update(i, after[i]),
    ensures
        list_views(after) == list_views(before).update(i, after[i]@),
{
    assert(list_views(after) =~= list_views(before).update(i, after[i]@));
}

} // verus!
