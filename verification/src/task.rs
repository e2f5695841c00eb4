//! Tasks, their one-level sub-tasks, and the lists that hold them.

use crate::date::Date;
use crate::text::{push_char, push_two_digits, two_digits};
use vstd::prelude::*;
use vstd::string::*;

verus! {

/// How long a task is expected to take.
#[derive(Clone, Copy, Debug, PartialEq, Eq, Structural)]
pub struct Duration {
    pub days: u16,
    pub hours: u8,
    pub minutes: u8,
}

impl Default for Duration {
    fn default() -> (r: Duration)
        ensures
            r == (Duration { days: 0, hours: 0, minutes: 0 }),
    {
        Duration { days: 0, hours: 0, minutes: 0 }
    }
}

impl Duration {
    /// The duration as shown: days, hours and minutes with two digits or
    /// more each and colons between, or a dash for no duration.
    pub open spec fn text(self) -> Seq<char> {
        if self.days == 0 && self.hours == 0 && self.minutes == 0 {
            "   --   "@
        } else {
            two_digits(self.days as nat) + seq![':'] + two_digits(self.hours as nat) + seq![':']
                + two_digits(self.minutes as nat)
        }
    }

    /// The duration as shown.
    pub fn to_string(&self) -> (r: String)
        ensures
            r@ == self.text(),
    {
        if self.days == 0 && self.hours == 0 && self.minutes == 0 {
            String::from_str("   --   ")
        } else {
            let mut r = String::new();
            push_two_digits(&mut r, self.days as u32);
            push_char(&mut r, ':');
            push_two_digits(&mut r, self.hours as u32);
            push_char(&mut r, ':');
            push_two_digits(&mut r, self.minutes as u32);
            assert(r@ =~= self.text());
            r
        }
    }
}

/// Progress of a task. `Deleted` marks a task as gone; no key leads to it
/// or away from it.
#[derive(Clone, Copy, Debug, PartialEq, Eq, Structural)]
pub enum TaskStatus {
    NotStarted,
    InProgress,
    Finished,
    Deleted,
}

impl Default for TaskStatus {
    fn default() -> (r: TaskStatus)
        ensures
            r == TaskStatus::NotStarted,
    {
        TaskStatus::NotStarted
    }
}

impl TaskStatus {
    /// The status that follows in the cycle not started, in progress,
    /// finished; `Deleted` stays.
    pub open spec fn next(self) -> TaskStatus {
        match self {
            TaskStatus::NotStarted => TaskStatus::InProgress,
            TaskStatus::InProgress => TaskStatus::Finished,
            TaskStatus::Finished => TaskStatus::NotStarted,
            TaskStatus::Deleted => TaskStatus::Deleted,
        }
    }

    pub open spec fn symbol(self) -> char {
        match self {
            TaskStatus::NotStarted => ' ',
            TaskStatus::InProgress => '-',
            TaskStatus::Finished => 'x',
            TaskStatus::Deleted => 'D',
        }
    }

    pub open spec fn name(self) -> Seq<char> {
        match self {
            TaskStatus::NotStarted => "Not Started"@,
            TaskStatus::InProgress => "In Progress"@,
            TaskStatus::Finished => "Finished"@,
            TaskStatus::Deleted => "Deleted"@,
        }
    }

    /// The mark shown in a task's checkbox.
    pub fn get_symbol(&self) -> (r: char)
        ensures
            r == self.symbol(),
    {
        match self {
            TaskStatus::NotStarted => ' ',
            TaskStatus::InProgress => '-',
            TaskStatus::Finished => 'x',
            TaskStatus::Deleted => 'D',
        }
    }

    pub fn get_name(&self) -> (r: &'static str)
        ensures
            r@ == self.name(),
    {
        match self {
            TaskStatus::NotStarted => "Not Started",
            TaskStatus::InProgress => "In Progress",
            TaskStatus::Finished => "Finished",
            TaskStatus::Deleted => "Deleted",
        }
    }

    /// Moves on to the next status of the cycle.
    pub fn cycle_next(&mut self)
        ensures
            *final(self) == old(self).next(),
    {
        *self = match *self {
            TaskStatus::NotStarted => TaskStatus::InProgress,
            TaskStatus::InProgress => TaskStatus::Finished,
            TaskStatus::Finished => TaskStatus::NotStarted,
            TaskStatus::Deleted => TaskStatus::Deleted,
        }
    }
}

/// A task. `expanded` says whether its sub-tasks are shown and can be
/// walked through; it is display state and not part of what is stored.
#[derive(Debug)]
pub struct Task {
    pub name: String,
    pub status: TaskStatus,
    pub duration: Duration,
    pub date: Date,
    pub sub_tasks: Vec<Task>,
    pub expanded: bool,
}

/// A task as a value: text as characters, sub-tasks as a sequence.
pub struct TaskView {
    pub name: Seq<char>,
    pub status: TaskStatus,
    pub duration: Duration,
    pub date: Date,
    pub sub_tasks: Seq<TaskView>,
    pub expanded: bool,
}

/// The value of a task: the view of each sub-task, in place.
pub open spec fn task_view(task: Task) -> TaskView
    decreases task,
{
    TaskView {
        name: task.name@,
        status: task.status,
        duration: task.duration,
        date: task.date,
        sub_tasks: Seq::new(
            task.sub_tasks.len() as nat,
            |i: int|
                if 0 <= i < task.sub_tasks.len() {
                    task_view(task.sub_tasks[i])
                } else {
                    arbitrary()
                },
        ),
        expanded: task.expanded,
    }
}

impl View for Task {
    type V = TaskView;

    open spec fn view(&self) -> TaskView {
        task_view(*self)
    }
}

/// The views of a sequence of tasks.
pub open spec fn task_views(tasks: Seq<Task>) -> Seq<TaskView> {
    Seq::new(tasks.len(), |i: int| tasks[i]@)
}

impl TaskView {
    /// The task with its status moved on by one step of the cycle.
    pub open spec fn cycle_status(self) -> TaskView {
        TaskView { status: self.status.next(), ..self }
    }

    /// The task as it is when first made: no text, not started, no
    /// duration, dated 1970-01-01, no sub-tasks, collapsed.
    pub open spec fn empty() -> TaskView {
        TaskView {
            name: Seq::empty(),
            status: TaskStatus::NotStarted,
            duration: Duration { days: 0, hours: 0, minutes: 0 },
            date: Date { year: 1970, month: 1, day: 1 },
            sub_tasks: Seq::empty(),
            expanded: false,
        }
    }
}

impl Task {
    /// The view of a task, field by field.
    pub proof fn lemma_view(self)
        ensures
            self@ == (TaskView {
                name: self.name@,
                status: self.status,
                duration: self.duration,
                date: self.date,
                sub_tasks: task_views(self.sub_tasks@),
                expanded: self.expanded,
            }),
    {
        assert(self@.sub_tasks =~= task_views(self.sub_tasks@));
    }
}

impl Default for Task {
    fn default() -> (r: Task)
        ensures
            r@ == TaskView::empty(),
    {
        let r = Task {
            name: String::new(),
            status: TaskStatus::NotStarted,
            duration: Duration { days: 0, hours: 0, minutes: 0 },
            date: Date { year: 1970, month: 1, day: 1 },
            sub_tasks: Vec::new(),
            expanded: false,
        };
        assert(r@.sub_tasks =~= Seq::empty());
        r
    }
}

impl Clone for Task {
    fn clone(&self) -> (r: Task)
        ensures
            r@ == self@,
        decreases self,
    {
        let mut sub_tasks: Vec<Task> = Vec::new();
        let mut i: usize = 0;
        while i < self.sub_tasks.len()
            invariant
                i <= self.sub_tasks.len(),
                sub_tasks.len() == i,
                forall|k: int| 0 <= k < i ==> (#[trigger] sub_tasks[k])@ == self.sub_tasks[k]@,
            decreases self.sub_tasks.len() - i,
        {
            let sub = self.sub_tasks[i].clone();
            sub_tasks.push(sub);
            i += 1;
        }
        let r = Task {
            name: self.name.clone(),
            status: self.status,
            duration: self.duration,
            date: self.date,
            sub_tasks,
            expanded: self.expanded,
        };
        assert(r@.sub_tasks =~= self@.sub_tasks);
        r
    }
}

/// The index after `index` among `len` of them, after the last the first.
pub fn step_forward(index: usize, len: usize) -> (r: usize)
    requires
        index < len,
    ensures
        r == (index + 1) % (len as int),
        r < len,
{
    proof {
        if index + 1 == len {
            vstd::arithmetic::div_mod::lemma_mod_self_0(len as int);
        } else {
            vstd::arithmetic::div_mod::lemma_small_mod((index + 1) as nat, len as nat);
        }
    }
    if index + 1 == len {
        0
    } else {
        index + 1
    }
}

/// The index before `index` among `len` of them, before the first the last.
pub fn step_back(index: usize, len: usize) -> (r: usize)
    requires
        index < len,
    ensures
        r == (index + len - 1) % (len as int),
        r < len,
{
    proof {
        if index == 0 {
            vstd::arithmetic::div_mod::lemma_small_mod((len - 1) as nat, len as nat);
        } else {
            vstd::arithmetic::div_mod::lemma_mod_add_multiples_vanish(index - 1, len as int);
            vstd::arithmetic::div_mod::lemma_small_mod((index - 1) as nat, len as nat);
        }
    }
    if index == 0 {
        len - 1
    } else {
        index - 1
    }
}

/// A named list of tasks and the index of the task the cursor is on.
#[derive(Debug)]
pub struct TaskList {
    pub name: String,
    pub tasks: Vec<Task>,
    pub selected: usize,
}

/// A task list as a value.
pub struct TaskListView {
    pub name: Seq<char>,
    pub tasks: Seq<TaskView>,
    pub selected: nat,
}

impl View for TaskList {
    type V = TaskListView;

    open spec fn view(&self) -> TaskListView {
        TaskListView {
            name: self.name@,
            tasks: task_views(self.tasks@),
            selected: self.selected as nat,
        }
    }
}

/// The views of a sequence of task lists.
pub open spec fn list_views(lists: Seq<TaskList>) -> Seq<TaskListView> {
    Seq::new(lists.len(), |i: int| lists[i]@)
}

impl TaskListView {
    /// The cursor is on a task, or at 0 in a list without tasks.
    pub open spec fn wf(self) -> bool {
        if self.tasks.len() == 0 {
            self.selected == 0
        } else {
            self.selected < self.tasks.len()
        }
    }

    /// The list with its cursor put on the first task where it was on none.
    pub open spec fn settle_cursor(self) -> TaskListView {
        if self.selected < self.tasks.len() {
            self
        } else {
            TaskListView { selected: 0, ..self }
        }
    }

    /// The cursor one task further, from the last task to the first.
    pub open spec fn next_task(self) -> TaskListView {
        if self.tasks.len() == 0 {
            self
        } else {
            TaskListView { selected: (self.selected + 1) % self.tasks.len(), ..self }
        }
    }

    /// The cursor one task back, from the first task to the last.
    pub open spec fn previous_task(self) -> TaskListView {
        if self.tasks.len() == 0 {
            self
        } else {
            TaskListView {
                selected: ((self.selected + self.tasks.len() - 1) % (self.tasks.len() as int)) as nat,
                ..self
            }
        }
    }
}

impl TaskList {
    /// A list named `new_name` that holds `tasks_new`, or no task where none
    /// is given, with the cursor on the first.
    pub fn new(new_name: String, tasks_new: Option<Vec<Task>>) -> (r: TaskList)
        ensures
            r@ == (TaskListView {
                name: new_name@,
                tasks: match tasks_new {
                    Some(tasks) => task_views(tasks@),
                    None => Seq::empty(),
                },
                selected: 0,
            }),
    {
        let tasks = match tasks_new {
            Some(tasks) => tasks,
            None => Vec::new(),
        };
        let r = TaskList { name: new_name, selected: 0, tasks };
        assert(tasks_new is None ==> r@.tasks =~= Seq::empty());
        r
    }

    /// Puts the cursor on the first task where it is on none.
    pub fn settle_cursor(&mut self)
        ensures
            final(self)@ == old(self)@.settle_cursor(),
            final(self)@.wf(),
    {
        if self.selected >= self.tasks.len() {
            self.selected = 0;
        }
    }

    /// The name of the file that the list is exported to: its name and
    /// `.json`.
    pub fn export_file_name(&self) -> (r: String)
        ensures
            r@ == self@.name + ".json"@,
    {
        self.name.clone().concat(".json")
    }

    /// Moves the cursor to the next task, wrapping around.
    pub fn next_task(&mut self)
        requires
            old(self)@.wf(),
        ensures
            final(self)@ == old(self)@.next_task(),
            final(self)@.wf(),
            final(self).tasks == old(self).tasks,
            final(self).name == old(self).name,
    {
        if self.tasks.is_empty() {
            return ;
        }
        self.selected = step_forward(self.selected, self.tasks.len());
    }

    /// Moves the cursor to the previous task, wrapping around.
    pub fn previous_task(&mut self)
        requires
            old(self)@.wf(),
        ensures
            final(self)@ == old(self)@.previous_task(),
            final(self)@.wf(),
            final(self).tasks == old(self).tasks,
            final(self).name == old(self).name,
    {
        if self.tasks.is_empty() {
            return ;
        }
        self.selected = step_back(self.selected, self.tasks.len());
    }
}

impl Default for TaskList {
    fn default() -> (r: TaskList)
        ensures
            r@ == (TaskListView { name: Seq::empty(), tasks: Seq::empty(), selected: 0 }),
    {
        TaskList::new(String::new(), None)
    }
}

impl Clone for TaskList {
    fn clone(&self) -> (r: TaskList)
        ensures
            r@ == self@,
    {
        let mut tasks: Vec<Task> = Vec::new();
        let mut i: usize = 0;
        while i < self.tasks.len()
            invariant
                i <= self.tasks.len(),
                tasks.len() == i,
                forall|k: int| 0 <= k < i ==> (#[trigger] tasks[k])@ == self.tasks[k]@,
            decreases self.tasks.len() - i,
        {
            tasks.push(self.tasks[i].clone());
            i += 1;
        }
        let r = TaskList { name: self.name.clone(), tasks, selected: self.selected };
        assert(r@.tasks =~= self@.tasks);
        r
    }
}

} // verus!
