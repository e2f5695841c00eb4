//! The three popups: the task editor, the yes/no confirmation and the text
//! prompt. While a popup is in use every key goes to it.

use crate::date::Date;
use crate::key::Key;
use crate::quick_date::{is_digit, parse, parse_spec};
use crate::task::{Task, TaskStatus, TaskView};
use crate::widgets::{TextEntry, TextEntryView};
use vstd::prelude::*;

verus! {

/// Where a popup stands in its life: closed, in use, and for the moment
/// after its last key confirmed or canceled.
#[derive(Clone, Copy, Debug, PartialEq, Eq, Structural)]
pub enum PopupStatus {
    InUse,
    Canceled,
    Confirmed,
    Closed,
}

impl Default for PopupStatus {
    fn default() -> (r: PopupStatus)
        ensures
            r == PopupStatus::Closed,
    {
        PopupStatus::Closed
    }
}

/// The field of the task editor that the keys go to.
#[derive(Clone, Copy, Debug, PartialEq, Eq, Structural)]
pub enum TaskEditorField {
    Description,
    Status,
    Date,
    Duration,
}

impl Default for TaskEditorField {
    fn default() -> (r: TaskEditorField)
        ensures
            r == TaskEditorField::Description,
    {
        TaskEditorField::Description
    }
}

impl TaskEditorField {
    pub open spec fn next_field(self) -> TaskEditorField {
        match self {
            TaskEditorField::Description => TaskEditorField::Status,
            TaskEditorField::Status => TaskEditorField::Date,
            TaskEditorField::Date => TaskEditorField::Duration,
            TaskEditorField::Duration => TaskEditorField::Description,
        }
    }

    pub open spec fn previous_field(self) -> TaskEditorField {
        match self {
            TaskEditorField::Description => TaskEditorField::Duration,
            TaskEditorField::Status => TaskEditorField::Description,
            TaskEditorField::Date => TaskEditorField::Status,
            TaskEditorField::Duration => TaskEditorField::Date,
        }
    }

    /// Moves on to the next field, from the last to the first.
    pub fn next(&mut self)
        ensures
            *final(self) == old(self).next_field(),
    {
        *self = match *self {
            TaskEditorField::Description => TaskEditorField::Status,
            TaskEditorField::Status => TaskEditorField::Date,
            TaskEditorField::Date => TaskEditorField::Duration,
            TaskEditorField::Duration => TaskEditorField::Description,
        }
    }

    /// Moves back to the previous field, from the first to the last.
    pub fn previous(&mut self)
        ensures
            *final(self) == old(self).previous_field(),
    {
        *self = match *self {
            TaskEditorField::Description => TaskEditorField::Duration,
            TaskEditorField::Status => TaskEditorField::Description,
            TaskEditorField::Date => TaskEditorField::Status,
            TaskEditorField::Duration => TaskEditorField::Date,
        }
    }
}

/// Whether the task in the editor is a new one or one of the list.
#[derive(Clone, Copy, Debug, PartialEq, Eq, Structural)]
pub enum TaskSource {
    New,
    Existing,
}

impl Default for TaskSource {
    fn default() -> (r: TaskSource)
        ensures
            r == TaskSource::New,
    {
        TaskSource::New
    }
}

/// The editor for one task.
pub struct TaskEditorPopup {
    pub status: PopupStatus,
    pub task_source: TaskSource,
    task: Task,
    selected_field: TaskEditorField,
    desc_field: TextEntry,
    editing_date: bool,
    date_field: TextEntry,
}

/// The task editor as a value.
pub struct TaskEditorView {
    pub status: PopupStatus,
    pub task_source: TaskSource,
    /// The task as edited so far; its name is set when the editor confirms.
    pub task: TaskView,
    pub selected_field: TaskEditorField,
    /// The description being typed.
    pub desc_field: TextEntryView,
    /// Whether a quick date entry is under way.
    pub editing_date: bool,
    /// The quick date entry typed so far.
    pub date_field: TextEntryView,
}

/// The date a day later, or the same date where there is none.
pub open spec fn day_after(date: Date) -> Date {
    match date.shifted(1) {
        Some(d) => d,
        None => date,
    }
}

/// The date a day earlier, or the same date where there is none.
pub open spec fn day_before(date: Date) -> Date {
    match date.shifted(-1) {
        Some(d) => d,
        None => date,
    }
}

/// Whether a character starts or continues a quick date entry.
pub open spec fn is_date_char(c: char) -> bool {
    is_digit(c) || c == '+' || c == '-'
}

impl TaskEditorView {
    /// The editor as it starts: closed, on a fresh task.
    pub open spec fn initial() -> TaskEditorView {
        TaskEditorView {
            status: PopupStatus::Closed,
            task_source: TaskSource::New,
            task: TaskView::empty(),
            selected_field: TaskEditorField::Description,
            desc_field: TextEntryView { text: Seq::empty(), cursor: 0, max_len: usize::MAX as nat },
            editing_date: false,
            date_field: TextEntryView { text: Seq::empty(), cursor: 0, max_len: usize::MAX as nat },
        }
    }

    /// Ends the quick date entry: the task takes the date that the entry
    /// stands for, and keeps its own where the entry stands for none.
    pub open spec fn submit_date(self, today: Date) -> TaskEditorView {
        TaskEditorView {
            task: TaskView {
                date: match parse_spec(self.date_field.text, today) {
                    Some(d) => d,
                    None => self.task.date,
                },
                ..self.task
            },
            editing_date: false,
            date_field: self.date_field.clear(),
            ..self
        }
    }

    /// What a key does to the field it goes to.
    pub open spec fn edit_field(self, key: Key, today: Date) -> TaskEditorView {
        match self.selected_field {
            TaskEditorField::Description => match key {
                Key::Char(c) => TaskEditorView { desc_field: self.desc_field.insert(c), ..self },
                Key::Backspace => TaskEditorView { desc_field: self.desc_field.remove(), ..self },
                Key::Left => TaskEditorView {
                    desc_field: self.desc_field.move_cursor_left(),
                    ..self
                },
                Key::Right => TaskEditorView {
                    desc_field: self.desc_field.move_cursor_right(),
                    ..self
                },
                _ => self,
            },
            TaskEditorField::Status => match key {
                Key::Char(c) => if c == '1' {
                    self.with_status(TaskStatus::NotStarted)
                } else if c == '2' {
                    self.with_status(TaskStatus::InProgress)
                } else if c == '3' {
                    self.with_status(TaskStatus::Finished)
                } else if c == 'j' {
                    self.with_status(self.task.status.next())
                } else {
                    self
                },
                _ => self,
            },
            TaskEditorField::Date => match key {
                Key::Char(c) => if c == 'j' {
                    self.with_date(day_after(self.task.date))
                } else if c == 'k' {
                    self.with_date(day_before(self.task.date))
                } else if c == '/' && self.editing_date {
                    self.submit_date(today)
                } else if is_date_char(c) {
                    TaskEditorView {
                        editing_date: true,
                        date_field: self.date_field.insert(c),
                        ..self
                    }
                } else {
                    self
                },
                Key::Tab => if self.editing_date {
                    self.submit_date(today)
                } else {
                    self
                },
                Key::Backspace => if self.editing_date {
                    TaskEditorView { date_field: self.date_field.remove(), ..self }
                } else {
                    self
                },
                _ => self,
            },
            TaskEditorField::Duration => self,
        }
    }

    pub open spec fn with_status(self, status: TaskStatus) -> TaskEditorView {
        TaskEditorView { task: TaskView { status, ..self.task }, ..self }
    }

    pub open spec fn with_date(self, date: Date) -> TaskEditorView {
        TaskEditorView { task: TaskView { date, ..self.task }, ..self }
    }

    /// What a key does to the editor as a whole, after the field had it.
    pub open spec fn finish_key(self, key: Key, today: Date) -> TaskEditorView {
        match key {
            Key::Enter => if self.editing_date {
                self.submit_date(today)
            } else {
                TaskEditorView {
                    status: PopupStatus::Confirmed,
                    task: TaskView { name: self.desc_field.text, ..self.task },
                    desc_field: self.desc_field.clear(),
                    ..self
                }
            },
            Key::Esc => TaskEditorView {
                status: PopupStatus::Canceled,
                desc_field: self.desc_field.clear(),
                editing_date: false,
                date_field: self.date_field.clear(),
                ..self
            },
            Key::Tab => TaskEditorView { selected_field: self.selected_field.next_field(), ..self },
            Key::BackTab => TaskEditorView {
                selected_field: self.selected_field.previous_field(),
                ..self
            },
            _ => self,
        }
    }

    /// The editor after a key: first the selected field takes it, then the
    /// editor as a whole.
    pub open spec fn handle_input(self, key: Key, today: Date) -> TaskEditorView {
        self.edit_field(key, today).finish_key(key, today)
    }

    /// The editor opened on `task`.
    pub open spec fn edit_task(self, task: TaskView) -> TaskEditorView {
        TaskEditorView {
            status: PopupStatus::InUse,
            task_source: TaskSource::Existing,
            task,
            desc_field: self.desc_field.set_text(task.name),
            ..self
        }
    }

    /// The editor opened on a fresh task dated `today`.
    pub open spec fn new_task(self, today: Date) -> TaskEditorView {
        TaskEditorView {
            status: PopupStatus::InUse,
            task_source: TaskSource::New,
            task: TaskView { date: today, ..TaskView::empty() },
            selected_field: TaskEditorField::Description,
            desc_field: self.desc_field.clear(),
            editing_date: false,
            date_field: self.date_field.clear(),
        }
    }
}

impl View for TaskEditorPopup {
    type V = TaskEditorView;

    closed spec fn view(&self) -> TaskEditorView {
        TaskEditorView {
            status: self.status,
            task_source: self.task_source,
            task: self.task@,
            selected_field: self.selected_field,
            desc_field: self.desc_field@,
            editing_date: self.editing_date,
            date_field: self.date_field@,
        }
    }
}

impl Default for TaskEditorPopup {
    fn default() -> (r: TaskEditorPopup)
        ensures
            r@ == TaskEditorView::initial(),
    {
        TaskEditorPopup {
            status: PopupStatus::Closed,
            task_source: TaskSource::New,
            task: Task::default(),
            selected_field: TaskEditorField::Description,
            desc_field: TextEntry::new(),
            editing_date: false,
            date_field: TextEntry::new(),
        }
    }
}

impl TaskEditorPopup {
    /// Where the editor stands in its life.
    pub fn status(&self) -> (r: PopupStatus)
        ensures
            r == self@.status,
    {
        self.status
    }

    /// Whether the task in the editor is new or one of the list.
    pub fn task_source(&self) -> (r: TaskSource)
        ensures
            r == self@.task_source,
    {
        self.task_source
    }

    /// The task as edited so far.
    pub fn task(&self) -> (r: &Task)
        ensures
            r@ == self@.task,
    {
        &self.task
    }

    /// The field that the keys go to.
    pub fn selected_field(&self) -> (r: TaskEditorField)
        ensures
            r == self@.selected_field,
    {
        self.selected_field
    }

    /// The description being typed.
    pub fn desc_field(&self) -> (r: &TextEntry)
        ensures
            r@ == self@.desc_field,
    {
        &self.desc_field
    }

    /// Whether a quick date entry is under way.
    pub fn editing_date(&self) -> (r: bool)
        ensures
            r == self@.editing_date,
    {
        self.editing_date
    }

    /// The quick date entry typed so far.
    pub fn date_field(&self) -> (r: &TextEntry)
        ensures
            r@ == self@.date_field,
    {
        &self.date_field
    }

    /// Closes the editor; what it holds stays as it is.
    pub fn close(&mut self)
        ensures
            final(self)@ == (TaskEditorView { status: PopupStatus::Closed, ..old(self)@ }),
    {
        self.status = PopupStatus::Closed;
    }

    /// Gives one key to the editor. The key is always used up: `true`.
    pub fn handle_input(&mut self, key: Key, today: Date) -> (consumed: bool)
        ensures
            consumed,
            final(self)@ == old(self)@.handle_input(key, today),
    {
        proof {
            self.task.lemma_view();
        }
        match self.selected_field {
            TaskEditorField::Description => match key {
                Key::Char(c) => self.desc_field.insert(c),
                Key::Backspace => self.desc_field.remove(),
                Key::Left => self.desc_field.move_cursor_left(),
                Key::Right => self.desc_field.move_cursor_right(),
                _ => {},
            },
            TaskEditorField::Status => match key {
                Key::Char(c) => {
                    if c == '1' {
                        self.task.status = TaskStatus::NotStarted;
                    } else if c == '2' {
                        self.task.status = TaskStatus::InProgress;
                    } else if c == '3' {
                        self.task.status = TaskStatus::Finished;
                    } else if c == 'j' {
                        self.task.status.cycle_next();
                    }
                },
                _ => {},
            },
            TaskEditorField::Date => match key {
                Key::Char(c) => {
                    if c == 'j' {
                        match self.task.date.succ_opt() {
                            Some(d) => self.task.date = d,
                            None => {},
                        }
                    } else if c == 'k' {
                        match self.task.date.pred_opt() {
                            Some(d) => self.task.date = d,
                            None => {},
                        }
                    } else if c == '/' && self.editing_date {
                        self.submit_date(today);
                    } else if (c >= '0' && c <= '9') || c == '+' || c == '-' {
                        self.editing_date = true;
                        self.date_field.insert(c);
                    }
                },
                Key::Tab => {
                    if self.editing_date {
                        self.submit_date(today);
                    }
                },
                Key::Backspace => {
                    if self.editing_date {
                        self.date_field.remove();
                    }
                },
                _ => {},
            },
            TaskEditorField::Duration => {},
        }
        proof {
            self.task.lemma_view();
        }
        assert(self@ == old(self)@.edit_field(key, today));
        match key {
            Key::Enter => {
                if self.editing_date {
                    self.submit_date(today);
                } else {
                    self.status = PopupStatus::Confirmed;
                    self.task.name = self.desc_field.take();
                }
            },
            Key::Esc => {
                self.status = PopupStatus::Canceled;
                self.desc_field.clear();
                self.editing_date = false;
                self.date_field.clear();
            },
            Key::Tab => self.selected_field.next(),
            Key::BackTab => self.selected_field.previous(),
            _ => {},
        }
        proof {
            self.task.lemma_view();
        }
        true
    }

    /// Hands the edited task out and leaves a fresh one in the editor.
    pub fn take_task(&mut self) -> (r: Task)
        ensures
            r@ == old(self)@.task,
            final(self)@ == (TaskEditorView { task: TaskView::empty(), ..old(self)@ }),
    {
        let mut task = Task::default();
        core::mem::swap(&mut self.task, &mut task);
        task
    }

    /// Opens the editor on `task`, its name in the description field.
    pub fn edit_task(&mut self, task: Task)
        ensures
            final(self)@ == old(self)@.edit_task(task@),
    {
        proof {
            task.lemma_view();
        }
        self.desc_field.set_text(task.name.clone());
        self.task = task;
        self.status = PopupStatus::InUse;
        self.task_source = TaskSource::Existing;
    }

    /// Opens the editor on a fresh task dated `today`.
    pub fn new_task(&mut self, today: Date)
        ensures
            final(self)@ == old(self)@.new_task(today),
    {
        self.status = PopupStatus::InUse;
        self.selected_field = TaskEditorField::Description;
        self.task_source = TaskSource::New;
        let mut task = Task::default();
        proof {
            task.lemma_view();
        }
        task.date = today;
        proof {
            task.lemma_view();
        }
        self.task = task;
        self.desc_field.clear();
        self.editing_date = false;
        self.date_field.clear();
    }

    /// Ends the quick date entry and applies it where it names a date.
    fn submit_date(&mut self, today: Date)
        ensures
            final(self)@ == old(self)@.submit_date(today),
    {
        proof {
            self.task.lemma_view();
        }
        match self.parse_date(today) {
            None => {},
            Some(d) => self.task.date = d,
        }
        proof {
            self.task.lemma_view();
        }
        self.editing_date = false;
        self.date_field.clear();
    }

    /// The date that the quick date entry stands for.
    fn parse_date(&self, today: Date) -> (r: Option<Date>)
        ensures
            r == parse_spec(self@.date_field.text, today),
    {
        parse(self.date_field.get_str(), today)
    }
}

/// A prompt for one line of text.
pub struct TextEntryPopup {
    pub text_field: TextEntry,
    pub title: String,
    pub status: PopupStatus,
    pub max_lines: u16,
}

/// The text prompt as a value.
pub struct TextEntryPopupView {
    pub text_field: TextEntryView,
    pub title: Seq<char>,
    pub status: PopupStatus,
    pub max_lines: u16,
}

impl TextEntryPopupView {
    /// The prompt after a key: Enter confirms, Esc cancels, the other keys
    /// edit the text.
    pub open spec fn handle_input(self, key: Key) -> TextEntryPopupView {
        match key {
            Key::Enter => TextEntryPopupView { status: PopupStatus::Confirmed, ..self },
            Key::Esc => TextEntryPopupView { status: PopupStatus::Canceled, ..self },
            Key::Char(c) => TextEntryPopupView { text_field: self.text_field.insert(c), ..self },
            Key::Backspace => TextEntryPopupView { text_field: self.text_field.remove(), ..self },
            Key::Left => TextEntryPopupView {
                text_field: self.text_field.move_cursor_left(),
                ..self
            },
            Key::Right => TextEntryPopupView {
                text_field: self.text_field.move_cursor_right(),
                ..self
            },
            _ => self,
        }
    }

    /// The closed prompt with its text gone.
    pub open spec fn reset(self) -> TextEntryPopupView {
        TextEntryPopupView {
            status: PopupStatus::Closed,
            text_field: self.text_field.clear(),
            ..self
        }
    }
}

impl View for TextEntryPopup {
    type V = TextEntryPopupView;

    open spec fn view(&self) -> TextEntryPopupView {
        TextEntryPopupView {
            text_field: self.text_field@,
            title: self.title@,
            status: self.status,
            max_lines: self.max_lines,
        }
    }
}

impl Default for TextEntryPopup {
    fn default() -> (r: TextEntryPopup)
        ensures
            r@ == (TextEntryPopupView {
                text_field: TextEntryView {
                    text: Seq::empty(),
                    cursor: 0,
                    max_len: usize::MAX as nat,
                },
                title: Seq::empty(),
                status: PopupStatus::Closed,
                max_lines: 0,
            }),
    {
        TextEntryPopup::new(String::new(), 0)
    }
}

impl TextEntryPopup {
    /// Gives one key to the prompt. The key is always used up: `true`.
    pub fn handle_input(&mut self, key: Key) -> (consumed: bool)
        ensures
            consumed,
            final(self)@ == old(self)@.handle_input(key),
    {
        match key {
            Key::Enter => self.confirm(),
            Key::Esc => self.cancel(),
            Key::Char(c) => self.text_field.insert(c),
            Key::Backspace => self.text_field.remove(),
            Key::Left => self.text_field.move_cursor_left(),
            Key::Right => self.text_field.move_cursor_right(),
            _ => {},
        }
        true
    }

    /// A closed prompt with an empty text.
    pub fn new(title: String, max_lines: u16) -> (r: TextEntryPopup)
        ensures
            r@ == (TextEntryPopupView {
                text_field: TextEntryView {
                    text: Seq::empty(),
                    cursor: 0,
                    max_len: usize::MAX as nat,
                },
                title: title@,
                status: PopupStatus::Closed,
                max_lines,
            }),
    {
        TextEntryPopup { text_field: TextEntry::new(), title, status: PopupStatus::Closed, max_lines }
    }

    fn confirm(&mut self)
        ensures
            final(self)@ == (TextEntryPopupView { status: PopupStatus::Confirmed, ..old(self)@ }),
    {
        self.status = PopupStatus::Confirmed;
    }

    fn cancel(&mut self)
        ensures
            final(self)@ == (TextEntryPopupView { status: PopupStatus::Canceled, ..old(self)@ }),
    {
        self.status = PopupStatus::Canceled;
    }

    pub fn close(&mut self)
        ensures
            final(self)@ == (TextEntryPopupView { status: PopupStatus::Closed, ..old(self)@ }),
    {
        self.status = PopupStatus::Closed;
    }

    pub fn show(&mut self)
        ensures
            final(self)@ == (TextEntryPopupView { status: PopupStatus::InUse, ..old(self)@ }),
    {
        self.status = PopupStatus::InUse;
    }

    /// Closes the prompt and throws its text away.
    pub fn reset(&mut self)
        ensures
            final(self)@ == old(self)@.reset(),
    {
        self.close();
        self.text_field.clear();
    }

    /// Hands the text out and leaves the prompt empty.
    pub fn take(&mut self) -> (r: String)
        ensures
            r@ == old(self)@.text_field.text,
            final(self)@ == (TextEntryPopupView {
                text_field: old(self)@.text_field.clear(),
                ..old(self)@
            }),
    {
        self.text_field.take()
    }
}

/// The two answers of a confirmation.
#[derive(Clone, Copy, Debug, PartialEq, Eq, Structural)]
pub enum ConfirmationField {
    Yes,
    No,
}

impl Default for ConfirmationField {
    fn default() -> (r: ConfirmationField)
        ensures
            r == ConfirmationField::No,
    {
        ConfirmationField::No
    }
}

impl ConfirmationField {
    pub open spec fn other(self) -> ConfirmationField {
        match self {
            ConfirmationField::No => ConfirmationField::Yes,
            ConfirmationField::Yes => ConfirmationField::No,
        }
    }

    /// Switches to the other answer.
    pub fn cycle_next(&mut self)
        ensures
            *final(self) == old(self).other(),
    {
        *self = match *self {
            ConfirmationField::No => ConfirmationField::Yes,
            ConfirmationField::Yes => ConfirmationField::No,
        }
    }
}

/// A yes/no question.
pub struct ConfirmationPopup {
    pub title: String,
    pub body: String,
    pub status: PopupStatus,
    selected_field: ConfirmationField,
}

/// The confirmation as a value.
pub struct ConfirmationPopupView {
    pub title: Seq<char>,
    pub body: Seq<char>,
    pub status: PopupStatus,
    /// The answer that Enter would give.
    pub selected_field: ConfirmationField,
}

impl ConfirmationPopupView {
    /// The confirmation after a key: `y` and `n` answer at once, Tab and
    /// BackTab switch the pending answer, Enter gives it, Esc cancels with
    /// the answer no.
    pub open spec fn handle_input(self, key: Key) -> ConfirmationPopupView {
        match key {
            Key::Tab => ConfirmationPopupView { selected_field: self.selected_field.other(), ..self },
            Key::BackTab => ConfirmationPopupView {
                selected_field: self.selected_field.other(),
                ..self
            },
            Key::Char(c) => if c == 'y' {
                ConfirmationPopupView {
                    selected_field: ConfirmationField::Yes,
                    status: PopupStatus::Confirmed,
                    ..self
                }
            } else if c == 'n' {
                ConfirmationPopupView {
                    selected_field: ConfirmationField::No,
                    status: PopupStatus::Confirmed,
                    ..self
                }
            } else {
                self
            },
            Key::Esc => ConfirmationPopupView {
                selected_field: ConfirmationField::No,
                status: PopupStatus::Canceled,
                ..self
            },
            Key::Enter => ConfirmationPopupView { status: PopupStatus::Confirmed, ..self },
            _ => self,
        }
    }

    /// The answer: yes or no.
    pub open spec fn decision(self) -> bool {
        self.selected_field == ConfirmationField::Yes
    }

    /// The confirmation put up, with the pending answer no.
    pub open spec fn show(self) -> ConfirmationPopupView {
        ConfirmationPopupView {
            selected_field: ConfirmationField::No,
            status: PopupStatus::InUse,
            ..self
        }
    }
}

impl View for ConfirmationPopup {
    type V = ConfirmationPopupView;

    closed spec fn view(&self) -> ConfirmationPopupView {
        ConfirmationPopupView {
            title: self.title@,
            body: self.body@,
            status: self.status,
            selected_field: self.selected_field,
        }
    }
}

impl ConfirmationPopup {
    /// Where the confirmation stands in its life.
    pub fn status(&self) -> (r: PopupStatus)
        ensures
            r == self@.status,
    {
        self.status
    }

    /// The answer that Enter would give.
    pub fn selected_field(&self) -> (r: ConfirmationField)
        ensures
            r == self@.selected_field,
    {
        self.selected_field
    }

    /// Gives one key to the confirmation. The key is always used up: `true`.
    pub fn handle_input(&mut self, key: Key) -> (consumed: bool)
        ensures
            consumed,
            final(self)@ == old(self)@.handle_input(key),
    {
        match key {
            Key::Tab => {
                self.selected_field.cycle_next();
            },
            Key::BackTab => {
                self.selected_field.cycle_next();
            },
            Key::Char(c) => {
                if c == 'y' {
                    self.selected_field = ConfirmationField::Yes;
                    self.status = PopupStatus::Confirmed;
                } else if c == 'n' {
                    self.selected_field = ConfirmationField::No;
                    self.status = PopupStatus::Confirmed;
                }
            },
            Key::Esc => {
                self.selected_field = ConfirmationField::No;
                self.status = PopupStatus::Canceled;
            },
            Key::Enter => {
                self.status = PopupStatus::Confirmed;
            },
            _ => {},
        }
        true
    }

    /// A closed confirmation with the pending answer no.
    pub fn new(new_title: String, new_body: String) -> (r: ConfirmationPopup)
        ensures
            r@ == (ConfirmationPopupView {
                title: new_title@,
                body: new_body@,
                status: PopupStatus::Closed,
                selected_field: ConfirmationField::No,
            }),
    {
        ConfirmationPopup {
            selected_field: ConfirmationField::No,
            title: new_title,
            body: new_body,
            status: PopupStatus::Closed,
        }
    }

    /// Puts the confirmation up, with the pending answer no.
    pub fn show(&mut self)
        ensures
            final(self)@ == old(self)@.show(),
    {
        self.selected_field = ConfirmationField::No;
        self.status = PopupStatus::InUse;
    }

    pub fn close(&mut self)
        ensures
            final(self)@ == (ConfirmationPopupView { status: PopupStatus::Closed, ..old(self)@ }),
    {
        self.status = PopupStatus::Closed;
    }

    /// The answer given: `true` for yes. It means something once the
    /// confirmation is confirmed.
    pub fn decision(&self) -> (r: bool)
        ensures
            r == self@.decision(),
    {
        match self.selected_field {
            ConfirmationField::No => false,
            ConfirmationField::Yes => true,
        }
    }
}

} // verus!
