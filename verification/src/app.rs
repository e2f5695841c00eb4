//! The application state: the mode it runs in, the tab that is shown, the
//! command line, the error message and the lists. Keys and ticks come in;
//! requests for work on files go out and their outcomes come back.

use crate::command::{
    same_text, split_spec, split_words, task_command_spec, word_views, CommandRequest,
    CommandRequestView, TaskCommandError,
};
use crate::compare::{lemma_lists_equal_reflexive, lists_equal, same_lists};
use crate::date::Date;
use crate::key::Key;
use crate::popup::{ConfirmationField, ConfirmationPopup, ConfirmationPopupView, PopupStatus};
use crate::tabs::{board_of, settled_lists, Board, TaskListTab, TaskListTabView};
use crate::task::{list_views, TaskList, TaskListView};
use crate::widgets::{TextEntry, TextEntryView};
use vstd::prelude::*;
use vstd::string::*;

verus! {

/// Whether the application takes keys as usual, reads a command line, or
/// is about to end.
#[derive(Clone, Copy, Debug, PartialEq, Eq, Structural)]
pub enum RunningMode {
    Running,
    Exiting,
    Command,
}

/// The tabs of the application.
#[derive(Clone, Copy, Debug, PartialEq, Eq, Structural)]
pub enum Tab {
    TaskList,
    Calendar,
    Options,
    Profile,
}

impl Tab {
    pub open spec fn next_tab(self) -> Tab {
        match self {
            Tab::TaskList => Tab::Calendar,
            Tab::Calendar => Tab::Options,
            Tab::Options => Tab::Profile,
            Tab::Profile => Tab::TaskList,
        }
    }

    pub open spec fn previous_tab(self) -> Tab {
        match self {
            Tab::TaskList => Tab::Profile,
            Tab::Calendar => Tab::TaskList,
            Tab::Options => Tab::Calendar,
            Tab::Profile => Tab::Options,
        }
    }
}

/// The calendar tab. It takes no keys.
pub struct CalendarTab {}

impl Default for CalendarTab {
    fn default() -> CalendarTab {
        CalendarTab {  }
    }
}

impl CalendarTab {
    pub fn handle_input(&mut self, key: Key) -> (consumed: bool)
        ensures
            !consumed,
            *final(self) == *old(self),
    {
        false
    }
}

/// The settings of the application.
#[derive(Clone, Copy, Debug)]
pub struct Options {
    pub delete_on_completion: bool,
    /// How long an error message stays, in seconds.
    pub error_display_time: u32,
    /// Ticks per second.
    pub refresh_rate: u32,
}

/// The options tab. It takes no keys.
pub struct OptionsTab {}

impl OptionsTab {
    pub fn handle_input(&mut self, key: Key) -> (consumed: bool)
        ensures
            !consumed,
            *final(self) == *old(self),
    {
        false
    }
}

/// Who uses the application.
#[derive(Debug)]
pub struct UserProfile {
    pub name: String,
}

/// The profile tab. It takes no keys.
pub struct ProfileTab {}

impl ProfileTab {
    pub fn handle_input(&mut self, key: Key) -> (consumed: bool)
        ensures
            !consumed,
            *final(self) == *old(self),
    {
        false
    }
}

/// What came of the work on files that a request asked for.
pub enum FileOutcome {
    /// All lists were read from a file.
    Loaded(Vec<TaskList>),
    /// One list was read from a file.
    Imported(TaskList),
    /// All lists were written.
    Saved,
    /// One list was written.
    Exported,
    Failed(TaskCommandError),
}

/// The application.
pub struct App {
    mode: RunningMode,
    current_tab: Tab,
    command_field: TextEntry,
    error_str: String,
    frames_since_error: Option<u32>,
    task_lists: Vec<TaskList>,
    saved_lists: Vec<TaskList>,
    profile: UserProfile,
    options: Options,
    task_list_tab: TaskListTab,
    calendar_tab: CalendarTab,
    options_tab: OptionsTab,
    profile_tab: ProfileTab,
    save_window: ConfirmationPopup,
}

/// The application as a value.
pub struct AppView {
    pub mode: RunningMode,
    pub current_tab: Tab,
    pub command_field: TextEntryView,
    pub error_str: Seq<char>,
    /// The ticks since the error message was posted, while it is shown.
    pub frames_since_error: Option<u32>,
    /// The task tab and the lists.
    pub board: Board,
    /// The lists as they were last read or written.
    pub saved_lists: Seq<TaskListView>,
    /// The name of who uses the application.
    pub profile_name: Seq<char>,
    pub options: Options,
    pub save_window: ConfirmationPopupView,
}

/// The message for an error of a task command given as `line`.
pub open spec fn error_message(e: TaskCommandError, line: Seq<char>) -> Seq<char> {
    match e {
        TaskCommandError::UnknownCommand => "Unknown Command: \""@ + line + "\""@,
        TaskCommandError::InvalidFilePath => "Invalid File Path"@,
        TaskCommandError::InvalidFileFormat => "Invalid File Format"@,
        TaskCommandError::MissingField => "Missing Field"@,
        TaskCommandError::NotANumber => "Not A Number"@,
    }
}

impl AppView {
    /// The lists and the cursors into them are in order, see [`Board::wf`].
    pub open spec fn wf(self) -> bool {
        self.board.wf()
    }

    /// The application as it starts: running, on the task tab, without
    /// lists, nothing typed, no message, all popups closed.
    pub open spec fn initial(profile_name: Seq<char>, options: Options) -> AppView {
        AppView {
            mode: RunningMode::Running,
            current_tab: Tab::TaskList,
            command_field: TextEntryView {
                text: Seq::empty(),
                cursor: 0,
                max_len: usize::MAX as nat,
            },
            error_str: Seq::empty(),
            frames_since_error: None,
            board: Board { tab: TaskListTabView::initial(), lists: Seq::empty() },
            saved_lists: Seq::empty(),
            profile_name,
            options,
            save_window: ConfirmationPopupView {
                title: "Confirm Save"@,
                body: "There is unsaved work. Save now?"@,
                status: PopupStatus::Closed,
                selected_field: ConfirmationField::No,
            },
        }
    }

    pub open spec fn post_error(self, message: Seq<char>) -> AppView {
        AppView { frames_since_error: Some(0u32), error_str: message, ..self }
    }

    pub open spec fn force_quit(self) -> AppView {
        AppView { mode: RunningMode::Exiting, ..self }
    }

    /// Whether the lists differ from what was last read or written, the
    /// order of lists, tasks and sub-tasks left aside.
    pub open spec fn is_dirty(self) -> bool {
        !lists_equal(self.board.lists, self.saved_lists)
    }

    /// Ends the application where nothing is unsaved, and asks whether to
    /// save where something is.
    pub open spec fn try_quit(self) -> AppView {
        if self.is_dirty() {
            AppView { save_window: self.save_window.show(), ..self }
        } else {
            AppView { mode: RunningMode::Exiting, ..self }
        }
    }

    pub open spec fn show_tab(self, tab: Tab) -> AppView {
        AppView { current_tab: tab, ..self }
    }

    /// Carries out the command line. The new state, and what is asked of
    /// the host.
    pub open spec fn process_command(self, today: Date) -> (AppView, CommandRequestView) {
        let line = self.command_field.text;
        let words = split_spec(line);
        let first = words[0];
        if first == "tasks"@ || first == "t"@ {
            let rest = words.skip(1);
            let with_tab = AppView {
                board: Board { tab: self.board.tab.after_command(rest, today), ..self.board },
                ..self
            };
            match task_command_spec(rest, self.board.lists.len()) {
                Err(e) => (with_tab.post_error(error_message(e, line)), CommandRequestView::Nothing),
                Ok(CommandRequestView::Nothing) => (with_tab, CommandRequestView::Nothing),
                Ok(CommandRequestView::SetActive) => (
                    with_tab.show_tab(Tab::TaskList),
                    CommandRequestView::Nothing,
                ),
                Ok(request) => (with_tab, request),
            }
        } else if first == "calendar"@ || first == "c"@ {
            (self.show_tab(Tab::Calendar), CommandRequestView::Nothing)
        } else if first == "options"@ || first == "o"@ {
            (self.show_tab(Tab::Options), CommandRequestView::Nothing)
        } else if first == "profile"@ || first == "p"@ {
            (self.show_tab(Tab::Profile), CommandRequestView::Nothing)
        } else if first == "quit"@ || first == "q"@ {
            (self.try_quit(), CommandRequestView::Nothing)
        } else if first == "quit!"@ || first == "q!"@ {
            (self.force_quit(), CommandRequestView::Nothing)
        } else {
            (self.post_error("Unknown Command: "@ + line), CommandRequestView::Nothing)
        }
    }

    /// Carries out `line` as if it had been typed on the command line.
    pub open spec fn run_command(self, line: Seq<char>, today: Date) -> (
        AppView,
        CommandRequestView,
    ) {
        (AppView { command_field: self.command_field.set_text(line), ..self }).process_command(
            today,
        )
    }

    /// What a key does to the command line. Enter carries the line out.
    pub open spec fn command_key(self, key: Key, today: Date) -> (AppView, CommandRequestView) {
        match key {
            Key::Char(c) => (
                AppView { command_field: self.command_field.insert(c), ..self },
                CommandRequestView::Nothing,
            ),
            Key::Backspace => (
                AppView { command_field: self.command_field.remove(), ..self },
                CommandRequestView::Nothing,
            ),
            Key::Enter => {
                let done = (AppView { mode: RunningMode::Running, ..self }).process_command(today);
                (
                    AppView { command_field: done.0.command_field.move_cursor_home(), ..done.0 },
                    done.1,
                )
            },
            Key::Esc => (
                AppView {
                    mode: RunningMode::Running,
                    command_field: self.command_field.move_cursor_home(),
                    ..self
                },
                CommandRequestView::Nothing,
            ),
            Key::Left => (
                AppView { command_field: self.command_field.move_cursor_left(), ..self },
                CommandRequestView::Nothing,
            ),
            Key::Right => (
                AppView { command_field: self.command_field.move_cursor_right(), ..self },
                CommandRequestView::Nothing,
            ),
            _ => (self, CommandRequestView::Nothing),
        }
    }

    /// Where a key goes: to the command line while a command is typed, else
    /// to the save confirmation while it is in use, else to the tab that
    /// is shown. The new state, and what is asked of the host.
    pub open spec fn dispatch_input(self, key: Key, today: Date) -> (AppView, CommandRequestView) {
        if self.mode == RunningMode::Command {
            self.command_key(key, today)
        } else if self.save_window.status == PopupStatus::InUse {
            (
                AppView { save_window: self.save_window.handle_input(key), ..self },
                CommandRequestView::Nothing,
            )
        } else if self.current_tab == Tab::TaskList {
            (
                AppView { board: self.board.handle_input(key, today), ..self },
                CommandRequestView::Nothing,
            )
        } else {
            (self, CommandRequestView::Nothing)
        }
    }

    /// Whether a key is used up where it goes, so that no hotkey fires.
    pub open spec fn consumes(self, key: Key) -> bool {
        if self.mode == RunningMode::Command {
            true
        } else if self.save_window.status == PopupStatus::InUse {
            true
        } else if self.current_tab == Tab::TaskList {
            self.board.consumes(key)
        } else {
            false
        }
    }

    /// What a key does as a hotkey: `q` quits, `n` and `N` change the tab,
    /// `:` opens the command line.
    pub open spec fn hotkey(self, key: Key) -> AppView {
        match key {
            Key::Char(c) => if c == 'q' {
                self.try_quit()
            } else if c == 'n' {
                self.show_tab(self.current_tab.next_tab())
            } else if c == 'N' {
                self.show_tab(self.current_tab.previous_tab())
            } else if c == ':' {
                AppView {
                    mode: RunningMode::Command,
                    frames_since_error: None,
                    command_field: self.command_field.clear(),
                    ..self
                }
            } else {
                self
            },
            _ => self,
        }
    }

    /// The application after a key: the key goes where `dispatch_input`
    /// says where it is used up there, and acts as a hotkey where not.
    pub open spec fn handle_key(self, key: Key, today: Date) -> (AppView, CommandRequestView) {
        if self.consumes(key) {
            self.dispatch_input(key, today)
        } else {
            (self.hotkey(key), CommandRequestView::Nothing)
        }
    }

    /// The number of ticks that an error message stays.
    pub open spec fn error_ticks(self) -> int {
        self.options.error_display_time * self.options.refresh_rate
    }

    /// The error message a tick later: gone once it has stayed its time.
    pub open spec fn age_error(self) -> AppView {
        AppView {
            frames_since_error: match self.frames_since_error {
                Some(frames) => if frames >= self.error_ticks() || frames == u32::MAX {
                    None
                } else {
                    Some((frames + 1) as u32)
                },
                None => None,
            },
            ..self
        }
    }

    /// What follows once the save confirmation has said its word:
    /// confirmed, the application ends, after saving where the answer was
    /// yes; canceled, it goes on.
    pub open spec fn settle_save(self, today: Date) -> (AppView, CommandRequestView) {
        let closed = ConfirmationPopupView { status: PopupStatus::Closed, ..self.save_window };
        match self.save_window.status {
            PopupStatus::Canceled => (
                AppView { save_window: closed, ..self },
                CommandRequestView::Nothing,
            ),
            PopupStatus::Confirmed => {
                let ending = AppView { save_window: closed, mode: RunningMode::Exiting, ..self };
                if self.save_window.decision() {
                    ending.run_command("t save"@, today)
                } else {
                    (ending, CommandRequestView::Nothing)
                }
            },
            _ => (self, CommandRequestView::Nothing),
        }
    }

    /// The application a tick later.
    pub open spec fn tick(self, today: Date) -> (AppView, CommandRequestView) {
        self.age_error().settle_save(today)
    }

    /// The lists with `lists` in place of them, as after a load.
    pub open spec fn loaded(self, lists: Seq<TaskListView>) -> AppView {
        AppView {
            board: Board {
                tab: self.board.tab.settle_cursor(lists.len()),
                lists: settled_lists(lists),
            },
            saved_lists: settled_lists(lists),
            ..self
        }
    }

    /// The application after the host has done what was asked.
    pub open spec fn file_done(self, outcome: FileOutcomeView) -> AppView {
        match outcome {
            FileOutcomeView::Loaded(lists) => self.loaded(lists),
            FileOutcomeView::Imported(list) => AppView {
                board: Board { lists: self.board.lists.push(list.settle_cursor()), ..self.board },
                ..self
            },
            FileOutcomeView::Saved => AppView { saved_lists: self.board.lists, ..self },
            FileOutcomeView::Exported => self,
            FileOutcomeView::Failed(e) => self.post_error(error_message(e, self.command_field.text)),
        }
    }
}

/// A command never asks for the export of a list that is not there: an
/// index that names no list is an error, and then nothing is asked of the
/// host.
pub proof fn lemma_export_names_a_list(app: AppView, today: Date)
    ensures
        app.process_command(today).1 matches CommandRequestView::Export(index) ==> index
            < app.process_command(today).0.board.lists.len(),
        app.process_command(today).0.board.lists == app.board.lists,
{
}

/// An outcome as a value.
pub enum FileOutcomeView {
    Loaded(Seq<TaskListView>),
    Imported(TaskListView),
    Saved,
    Exported,
    Failed(TaskCommandError),
}

impl View for FileOutcome {
    type V = FileOutcomeView;

    open spec fn view(&self) -> FileOutcomeView {
        match *self {
            FileOutcome::Loaded(lists) => FileOutcomeView::Loaded(list_views(lists@)),
            FileOutcome::Imported(list) => FileOutcomeView::Imported(list@),
            FileOutcome::Saved => FileOutcomeView::Saved,
            FileOutcome::Exported => FileOutcomeView::Exported,
            FileOutcome::Failed(e) => FileOutcomeView::Failed(e),
        }
    }
}

impl View for App {
    type V = AppView;

    closed spec fn view(&self) -> AppView {
        AppView {
            mode: self.mode,
            current_tab: self.current_tab,
            command_field: self.command_field@,
            error_str: self.error_str@,
            frames_since_error: self.frames_since_error,
            board: board_of(self.task_list_tab, self.task_lists),
            saved_lists: list_views(self.saved_lists@),
            profile_name: self.profile.name@,
            options: self.options,
            save_window: self.save_window@,
        }
    }
}

/// The message for an error of a task command given as `line`.
fn message_for(e: TaskCommandError, line: &str) -> (r: String)
    ensures
        r@ == error_message(e, line@),
{
    match e {
        TaskCommandError::UnknownCommand => String::from_str("Unknown Command: \"").concat(
            line,
        ).concat("\""),
        TaskCommandError::InvalidFilePath => String::from_str("Invalid File Path"),
        TaskCommandError::InvalidFileFormat => String::from_str("Invalid File Format"),
        TaskCommandError::MissingField => String::from_str("Missing Field"),
        TaskCommandError::NotANumber => String::from_str("Not A Number"),
    }
}

impl App {
    /// The application as it starts.
    pub fn new(profile: UserProfile, options: Options) -> (r: App)
        ensures
            r@ == AppView::initial(profile.name@, options),
            r@.wf(),
            !r@.is_dirty(),
    {
        let r = App {
            mode: RunningMode::Running,
            current_tab: Tab::TaskList,
            command_field: TextEntry::new(),
            error_str: String::new(),
            frames_since_error: None,
            task_lists: Vec::new(),
            saved_lists: Vec::new(),
            profile,
            options,
            task_list_tab: TaskListTab::new(),
            calendar_tab: CalendarTab {  },
            options_tab: OptionsTab {  },
            profile_tab: ProfileTab {  },
            save_window: ConfirmationPopup::new(
                String::from_str("Confirm Save"),
                String::from_str("There is unsaved work. Save now?"),
            ),
        };
        proof {
            assert(list_views(r.task_lists@) =~= Seq::empty());
            assert(list_views(r.saved_lists@) =~= Seq::empty());
            lemma_lists_equal_reflexive(Seq::empty());
        }
        r
    }

    pub fn mode(&self) -> (r: RunningMode)
        ensures
            r == self@.mode,
    {
        self.mode
    }

    /// The tab that is shown.
    pub fn current_tab(&self) -> (r: Tab)
        ensures
            r == self@.current_tab,
    {
        self.current_tab
    }

    /// The command line.
    pub fn command_field(&self) -> (r: &TextEntry)
        ensures
            r@ == self@.command_field,
    {
        &self.command_field
    }

    /// The error message, while one is shown.
    pub fn error_shown(&self) -> (r: Option<&str>)
        ensures
            r is Some <==> self@.frames_since_error is Some,
            r is Some ==> r->0@ == self@.error_str,
    {
        match self.frames_since_error {
            Some(_) => Some(self.error_str.as_str()),
            None => None,
        }
    }

    /// The lists.
    pub fn task_lists(&self) -> (r: &Vec<TaskList>)
        ensures
            list_views(r@) == self@.board.lists,
    {
        &self.task_lists
    }

    /// The task tab.
    pub fn task_list_tab(&self) -> (r: &TaskListTab)
        ensures
            r@ == self@.board.tab,
    {
        &self.task_list_tab
    }

    /// The confirmation that asks whether to save before the end.
    pub fn save_window(&self) -> (r: &ConfirmationPopup)
        ensures
            r@ == self@.save_window,
    {
        &self.save_window
    }

    pub fn options(&self) -> (r: &Options)
        ensures
            *r == self@.options,
    {
        &self.options
    }

    pub fn profile(&self) -> (r: &UserProfile)
        ensures
            r.name@ == self@.profile_name,
    {
        &self.profile
    }

    /// The list that an export with this index writes. There is one for
    /// every index that a request for an export holds.
    pub fn export_list(&self, index: usize) -> (r: Option<&TaskList>)
        ensures
            r is Some <==> index < self@.board.lists.len(),
            r is Some ==> r->0@ == self@.board.lists[index as int],
    {
        if index < self.task_lists.len() {
            Some(&self.task_lists[index])
        } else {
            None
        }
    }

    /// Shows `message` as the error message, from now on.
    pub fn post_error(&mut self, err_str: String)
        requires
            old(self)@.wf(),
        ensures
            final(self)@.wf(),
            final(self)@ == old(self)@.post_error(err_str@),
    {
        self.frames_since_error = Some(0);
        self.error_str = err_str;
    }

    /// Ends the application, whatever is unsaved.
    pub fn force_quit(&mut self)
        requires
            old(self)@.wf(),
        ensures
            final(self)@.wf(),
            final(self)@ == old(self)@.force_quit(),
    {
        self.mode = RunningMode::Exiting;
    }

    /// Whether the lists differ from what was last read or written.
    pub fn is_dirty(&self) -> (r: bool)
        ensures
            r == self@.is_dirty(),
    {
        !same_lists(&self.task_lists, &self.saved_lists)
    }

    /// Ends the application where nothing is unsaved, and asks whether to
    /// save where something is.
    pub fn try_quit(&mut self)
        requires
            old(self)@.wf(),
        ensures
            final(self)@.wf(),
            final(self)@ == old(self)@.try_quit(),
    {
        if self.is_dirty() {
            self.save_window.show();
        } else {
            self.mode = RunningMode::Exiting;
        }
    }

    /// Shows the next tab.
    pub fn next_tab(&mut self)
        requires
            old(self)@.wf(),
        ensures
            final(self)@.wf(),
            final(self)@ == old(self)@.show_tab(old(self)@.current_tab.next_tab()),
    {
        self.current_tab = match self.current_tab {
            Tab::TaskList => Tab::Calendar,
            Tab::Calendar => Tab::Options,
            Tab::Options => Tab::Profile,
            Tab::Profile => Tab::TaskList,
        }
    }

    /// Shows the previous tab.
    pub fn previous_tab(&mut self)
        requires
            old(self)@.wf(),
        ensures
            final(self)@.wf(),
            final(self)@ == old(self)@.show_tab(old(self)@.current_tab.previous_tab()),
    {
        self.current_tab = match self.current_tab {
            Tab::TaskList => Tab::Profile,
            Tab::Calendar => Tab::TaskList,
            Tab::Options => Tab::Calendar,
            Tab::Profile => Tab::Options,
        }
    }

    /// Carries out the command line and hands back what is asked of the
    /// host. An error is posted as the error message, and then nothing is
    /// asked of the host. An export is asked for only of a list that is
    /// there.
    pub fn process_command(&mut self, today: Date) -> (request: CommandRequest)
        requires
            old(self)@.wf(),
        ensures
            final(self)@.wf(),
            (final(self)@, request@) == old(self)@.process_command(today),
            request matches CommandRequest::Export(index) ==> index < final(self)@.board.lists.len(),
    {
        let line = String::from_str(self.command_field.get_str());
        let mut words = split_words(line.as_str());
        let ghost all = word_views(words@);
        let first = words.remove(0);
        proof {
            assert(word_views(words@) =~= all.skip(1));
            assert(first@ == all[0]);
        }
        let first = first.as_str();
        if same_text(first, "tasks") || same_text(first, "t") {
            match self.task_list_tab.process_command(&words, &self.task_lists, today) {
                Err(e) => {
                    self.post_error(message_for(e, line.as_str()));
                    CommandRequest::Nothing
                },
                Ok(CommandRequest::Nothing) => CommandRequest::Nothing,
                Ok(CommandRequest::SetActive) => {
                    self.current_tab = Tab::TaskList;
                    CommandRequest::Nothing
                },
                Ok(request) => request,
            }
        } else if same_text(first, "calendar") || same_text(first, "c") {
            self.current_tab = Tab::Calendar;
            CommandRequest::Nothing
        } else if same_text(first, "options") || same_text(first, "o") {
            self.current_tab = Tab::Options;
            CommandRequest::Nothing
        } else if same_text(first, "profile") || same_text(first, "p") {
            self.current_tab = Tab::Profile;
            CommandRequest::Nothing
        } else if same_text(first, "quit") || same_text(first, "q") {
            self.try_quit();
            CommandRequest::Nothing
        } else if same_text(first, "quit!") || same_text(first, "q!") {
            self.force_quit();
            CommandRequest::Nothing
        } else {
            self.post_error(String::from_str("Unknown Command: ").concat(line.as_str()));
            CommandRequest::Nothing
        }
    }

    /// Carries out `line` as if it had been typed on the command line.
    pub fn run_command(&mut self, line: String, today: Date) -> (request: CommandRequest)
        requires
            old(self)@.wf(),
        ensures
            final(self)@.wf(),
            (final(self)@, request@) == old(self)@.run_command(line@, today),
            request matches CommandRequest::Export(index) ==> index < final(self)@.board.lists.len(),
    {
        self.command_field.set_text(line);
        self.process_command(today)
    }

    /// Gives a key to the command line, the save confirmation or the tab
    /// that is shown. Says whether the key was used up, and what is asked
    /// of the host.
    pub fn dispatch_input(&mut self, key: Key, today: Date) -> (r: (bool, CommandRequest))
        requires
            old(self)@.wf(),
        ensures
            final(self)@.wf(),
            (final(self)@, r.1@) == old(self)@.dispatch_input(key, today),
            r.0 == old(self)@.consumes(key),
            r.1 matches CommandRequest::Export(index) ==> index < final(self)@.board.lists.len(),
    {
        if self.mode == RunningMode::Command {
            let mut request = CommandRequest::Nothing;
            match key {
                Key::Char(c) => self.command_field.insert(c),
                Key::Backspace => self.command_field.remove(),
                Key::Enter => {
                    self.mode = RunningMode::Running;
                    request = self.process_command(today);
                    self.command_field.move_cursor_home();
                },
                Key::Esc => {
                    self.mode = RunningMode::Running;
                    self.command_field.move_cursor_home();
                },
                Key::Left => self.command_field.move_cursor_left(),
                Key::Right => self.command_field.move_cursor_right(),
                _ => {},
            }
            (true, request)
        } else if self.save_window.status() == PopupStatus::InUse {
            (self.save_window.handle_input(key), CommandRequest::Nothing)
        } else {
            let consumed = match self.current_tab {
                Tab::TaskList => self.task_list_tab.handle_input(&mut self.task_lists, key, today),
                Tab::Calendar => self.calendar_tab.handle_input(key),
                Tab::Options => self.options_tab.handle_input(key),
                Tab::Profile => self.profile_tab.handle_input(key),
            };
            (consumed, CommandRequest::Nothing)
        }
    }

    /// Takes one key press. Hands back what is asked of the host.
    pub fn handle_key(&mut self, key: Key, today: Date) -> (request: CommandRequest)
        requires
            old(self)@.wf(),
        ensures
            final(self)@.wf(),
            (final(self)@, request@) == old(self)@.handle_key(key, today),
            request matches CommandRequest::Export(index) ==> index < final(self)@.board.lists.len(),
    {
        let (consumed, request) = self.dispatch_input(key, today);
        if !consumed {
            match key {
                Key::Char(c) => {
                    if c == 'q' {
                        self.try_quit();
                    } else if c == 'n' {
                        self.next_tab();
                    } else if c == 'N' {
                        self.previous_tab();
                    } else if c == ':' {
                        self.mode = RunningMode::Command;
                        self.frames_since_error = None;
                        self.command_field.clear();
                    }
                },
                _ => {},
            }
        }
        request
    }

    /// Lets one tick pass: the error message ages, and the save
    /// confirmation is acted on. Hands back what is asked of the host.
    pub fn tick(&mut self, today: Date) -> (request: CommandRequest)
        requires
            old(self)@.wf(),
        ensures
            final(self)@.wf(),
            (final(self)@, request@) == old(self)@.tick(today),
            request matches CommandRequest::Export(index) ==> index < final(self)@.board.lists.len(),
    {
        match self.frames_since_error {
            Some(frames) => {
                let time = self.options.error_display_time as u64;
                let rate = self.options.refresh_rate as u64;
                assert(time * rate <= 0xffff_ffff * 0xffff_ffff) by (nonlinear_arith)
                    requires
                        0 <= time <= 0xffff_ffff,
                        0 <= rate <= 0xffff_ffff,
                ;
                if frames as u64 >= time * rate || frames == u32::MAX {
                    self.frames_since_error = None;
                } else {
                    self.frames_since_error = Some(frames + 1);
                }
            },
            None => {},
        }
        match self.save_window.status() {
            PopupStatus::Canceled => {
                self.save_window.close();
                CommandRequest::Nothing
            },
            PopupStatus::Confirmed => {
                self.save_window.close();
                self.mode = RunningMode::Exiting;
                if self.save_window.decision() {
                    self.run_command(String::from_str("t save"), today)
                } else {
                    CommandRequest::Nothing
                }
            },
            _ => CommandRequest::Nothing,
        }
    }

    /// Takes what the host made of a request. Lists that were read come
    /// in, what was read or written in full counts as saved, and a failure
    /// is posted as the error message.
    pub fn file_done(&mut self, outcome: FileOutcome)
        requires
            old(self)@.wf(),
        ensures
            final(self)@.wf(),
            final(self)@ == old(self)@.file_done(outcome@),
            outcome is Loaded || outcome is Saved ==> !final(self)@.is_dirty(),
    {
        proof {
            lemma_lists_equal_reflexive(old(self)@.file_done(outcome@).board.lists);
        }
        match outcome {
            FileOutcome::Loaded(lists) => {
                let _ = self.task_list_tab.load_data(Ok(lists), &mut self.task_lists);
                self.saved_lists = self.task_lists.clone();
                proof {
                    assert(list_views(self.saved_lists@) =~= list_views(self.task_lists@));
                }
            },
            FileOutcome::Imported(list) => {
                let _ = self.task_list_tab.load_list(Ok(list), &mut self.task_lists);
            },
            FileOutcome::Saved => {
                self.saved_lists = self.task_lists.clone();
                proof {
                    assert(list_views(self.saved_lists@) =~= list_views(self.task_lists@));
                }
            },
            FileOutcome::Exported => {},
            FileOutcome::Failed(e) => {
                let line = String::from_str(self.command_field.get_str());
                self.post_error(message_for(e, line.as_str()));
            },
        }
    }
}

} // verus!
