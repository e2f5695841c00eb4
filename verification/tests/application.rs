use frogpad::app::{
    App, CalendarTab, FileOutcome, Options, OptionsTab, ProfileTab, RunningMode, Tab, UserProfile,
};
use frogpad::command::{CommandRequest, TaskCommandError};
use frogpad::date::Date;
use frogpad::key::Key;
use frogpad::popup::PopupStatus;
use frogpad::task::{Duration, Task, TaskList, TaskStatus};

fn today() -> Date {
    Date { year: 2024, month: 1, day: 15 }
}

fn app() -> App {
    App::new(
        UserProfile { name: String::from("Thomas") },
        Options { delete_on_completion: false, error_display_time: 2, refresh_rate: 3 },
    )
}

fn task(name: &str) -> Task {
    Task {
        name: String::from(name),
        status: TaskStatus::NotStarted,
        duration: Duration { days: 0, hours: 0, minutes: 0 },
        date: today(),
        sub_tasks: Vec::new(),
        expanded: false,
    }
}

fn lists() -> Vec<TaskList> {
    vec![
        TaskList { name: String::from("home"), tasks: vec![task("a"), task("b")], selected: 0 },
        TaskList { name: String::from("work"), tasks: vec![task("w")], selected: 0 },
    ]
}

fn loaded() -> App {
    let mut app = app();
    app.file_done(FileOutcome::Loaded(lists()));
    app
}

fn press(app: &mut App, key: Key) -> CommandRequest {
    app.handle_key(key, today())
}

fn command(app: &mut App, line: &str) -> CommandRequest {
    assert!(matches!(press(app, Key::Char(':')), CommandRequest::Nothing));
    assert_eq!(app.mode(), RunningMode::Command);
    for c in line.chars() {
        assert!(matches!(press(app, Key::Char(c)), CommandRequest::Nothing));
    }
    press(app, Key::Enter)
}

#[test]
fn starts_running_on_the_task_tab() {
    let app = app();
    assert_eq!(app.mode(), RunningMode::Running);
    assert_eq!(app.current_tab(), Tab::TaskList);
    assert!(app.task_lists().is_empty());
    assert_eq!(app.command_field().get_str(), "");
    assert_eq!(app.error_shown(), None);
    assert_eq!(app.save_window().status(), PopupStatus::Closed);
    assert_eq!(app.save_window().title, "Confirm Save");
    assert_eq!(app.options().refresh_rate, 3);
    assert_eq!(app.profile().name, "Thomas");
    assert_eq!(app.task_list_tab().selected, 0);
    assert!(!app.is_dirty());
}

#[test]
fn the_first_command_asks_for_a_load() {
    let mut app = app();
    match app.run_command(String::from("t load"), today()) {
        CommandRequest::Load(name) => assert_eq!(name, "list.json"),
        other => panic!("{:?}", other),
    }
    assert_eq!(app.command_field().get_str(), "t load");
}

#[test]
fn typing_a_save_command() {
    let mut app = loaded();
    match command(&mut app, "tasks save my.json") {
        CommandRequest::Save(name) => assert_eq!(name, "my.json"),
        other => panic!("{:?}", other),
    }
    assert_eq!(app.mode(), RunningMode::Running);
    assert_eq!(app.command_field().get_cursor_pos(), 0);
    match command(&mut app, "t import x.json") {
        CommandRequest::Import(name) => assert_eq!(name, "x.json"),
        other => panic!("{:?}", other),
    }
    assert!(matches!(command(&mut app, "t export 1"), CommandRequest::Export(1)));
    assert_eq!(app.export_list(1).map(|l| l.name.clone()), Some(String::from("work")));
    assert!(app.export_list(2).is_none());
    assert_eq!(app.error_shown(), None);
}

#[test]
fn export_of_a_list_that_is_not_there_is_an_error() {
    let mut app = loaded();
    assert!(matches!(command(&mut app, "t export 2"), CommandRequest::Nothing));
    assert_eq!(app.error_shown(), Some("Invalid File Path"));
    assert_eq!(app.mode(), RunningMode::Running);
    assert_eq!(app.task_lists().len(), 2);
    assert_eq!(app.task_lists()[0].name, "home");
    assert_eq!(app.task_lists()[1].tasks[0].name, "w");
    assert!(!app.is_dirty());
    assert!(matches!(command(&mut app, "t export 7"), CommandRequest::Nothing));
    assert_eq!(app.error_shown(), Some("Invalid File Path"));
    let mut empty = App::new(
        UserProfile { name: String::from("Thomas") },
        Options { delete_on_completion: false, error_display_time: 2, refresh_rate: 3 },
    );
    assert!(matches!(command(&mut empty, "t export 0"), CommandRequest::Nothing));
    assert_eq!(empty.error_shown(), Some("Invalid File Path"));
    assert!(matches!(
        empty.run_command(String::from("t export 0"), today()),
        CommandRequest::Nothing
    ));
}


#[test]
fn editing_the_command_line() {
    let mut app = app();
    press(&mut app, Key::Char(':'));
    for c in "cx".chars() {
        press(&mut app, Key::Char(c));
    }
    press(&mut app, Key::Backspace);
    press(&mut app, Key::Left);
    press(&mut app, Key::Char('q'));
    press(&mut app, Key::Right);
    press(&mut app, Key::Right);
    press(&mut app, Key::Tab);
    assert_eq!(app.command_field().get_str(), "qc");
    assert_eq!(app.command_field().get_cursor_pos(), 2);
    assert_eq!(app.mode(), RunningMode::Command);
    press(&mut app, Key::Esc);
    assert_eq!(app.mode(), RunningMode::Running);
    assert_eq!(app.command_field().get_str(), "qc");
    assert_eq!(app.command_field().get_cursor_pos(), 0);
    press(&mut app, Key::Char(':'));
    assert_eq!(app.command_field().get_str(), "");
}

#[test]
fn tab_commands() {
    let mut app = app();
    command(&mut app, "calendar");
    assert_eq!(app.current_tab(), Tab::Calendar);
    command(&mut app, "o");
    assert_eq!(app.current_tab(), Tab::Options);
    command(&mut app, "profile");
    assert_eq!(app.current_tab(), Tab::Profile);
    command(&mut app, "t");
    assert_eq!(app.current_tab(), Tab::TaskList);
    command(&mut app, "c");
    assert_eq!(app.current_tab(), Tab::Calendar);
    command(&mut app, "options");
    assert_eq!(app.current_tab(), Tab::Options);
    command(&mut app, "p");
    assert_eq!(app.current_tab(), Tab::Profile);
    command(&mut app, "tasks");
    assert_eq!(app.current_tab(), Tab::TaskList);
    assert_eq!(app.error_shown(), None);
}

#[test]
fn tab_hotkeys() {
    let mut app = app();
    press(&mut app, Key::Char('n'));
    assert_eq!(app.current_tab(), Tab::Calendar);
    press(&mut app, Key::Char('n'));
    assert_eq!(app.current_tab(), Tab::Options);
    press(&mut app, Key::Char('n'));
    assert_eq!(app.current_tab(), Tab::Profile);
    press(&mut app, Key::Char('n'));
    assert_eq!(app.current_tab(), Tab::TaskList);
    press(&mut app, Key::Char('N'));
    assert_eq!(app.current_tab(), Tab::Profile);
    press(&mut app, Key::Char('N'));
    assert_eq!(app.current_tab(), Tab::Options);
    press(&mut app, Key::Char('N'));
    assert_eq!(app.current_tab(), Tab::Calendar);
    press(&mut app, Key::Char('j'));
    assert_eq!(app.current_tab(), Tab::Calendar);
    app.next_tab();
    assert_eq!(app.current_tab(), Tab::Options);
    app.previous_tab();
    assert_eq!(app.current_tab(), Tab::Calendar);
}

#[test]
fn other_tabs_take_no_keys() {
    assert!(!CalendarTab {}.handle_input(Key::Char('j')));
    assert!(!OptionsTab {}.handle_input(Key::Enter));
    assert!(!ProfileTab {}.handle_input(Key::Esc));
    let mut app = loaded();
    app.next_tab();
    let (consumed, _) = app.dispatch_input(Key::Char('j'), today());
    assert!(!consumed);
    assert_eq!(app.task_lists()[0].selected, 0);
}

#[test]
fn error_messages() {
    let mut app = app();
    command(&mut app, "fly away");
    assert_eq!(app.error_shown(), Some("Unknown Command: fly away"));
    command(&mut app, "t fly");
    assert_eq!(app.error_shown(), Some("Unknown Command: \"t fly\""));
    command(&mut app, "t import");
    assert_eq!(app.error_shown(), Some("Missing Field"));
    command(&mut app, "t export x");
    assert_eq!(app.error_shown(), Some("Not A Number"));
    app.file_done(FileOutcome::Failed(TaskCommandError::InvalidFilePath));
    assert_eq!(app.error_shown(), Some("Invalid File Path"));
    app.file_done(FileOutcome::Failed(TaskCommandError::InvalidFileFormat));
    assert_eq!(app.error_shown(), Some("Invalid File Format"));
    command(&mut app, "");
    assert_eq!(app.error_shown(), Some("Unknown Command: "));
}

#[test]
fn an_error_stays_for_its_time() {
    let mut app = app();
    app.post_error(String::from("oops"));
    for _ in 0..6 {
        assert_eq!(app.error_shown(), Some("oops"));
        assert!(matches!(app.tick(today()), CommandRequest::Nothing));
    }
    assert_eq!(app.error_shown(), Some("oops"));
    app.tick(today());
    assert_eq!(app.error_shown(), None);
    app.tick(today());
    assert_eq!(app.error_shown(), None);
}

#[test]
fn opening_the_command_line_hides_the_error() {
    let mut app = app();
    app.post_error(String::from("oops"));
    press(&mut app, Key::Char(':'));
    assert_eq!(app.error_shown(), None);
}

#[test]
fn a_failed_load_keeps_the_lists() {
    let mut app = loaded();
    app.file_done(FileOutcome::Failed(TaskCommandError::InvalidFilePath));
    assert_eq!(app.task_lists().len(), 2);
    assert_eq!(app.task_lists()[0].tasks[1].name, "b");
    assert!(!app.is_dirty());
}

#[test]
fn clean_after_load_and_quit_ends_at_once() {
    let mut app = loaded();
    assert!(!app.is_dirty());
    press(&mut app, Key::Char('q'));
    assert_eq!(app.mode(), RunningMode::Exiting);
    assert_eq!(app.save_window().status(), PopupStatus::Closed);
}

#[test]
fn dirty_after_a_status_cycle() {
    let mut app = loaded();
    press(&mut app, Key::Char('m'));
    assert!(app.is_dirty());
    press(&mut app, Key::Char('m'));
    press(&mut app, Key::Char('m'));
    assert!(!app.is_dirty());
}

#[test]
fn dirty_after_adding_and_deleting() {
    let mut app = loaded();
    press(&mut app, Key::Char('a'));
    press(&mut app, Key::Char('x'));
    press(&mut app, Key::Enter);
    assert_eq!(app.task_lists()[0].tasks.len(), 3);
    assert!(app.is_dirty());
    let mut app = loaded();
    press(&mut app, Key::Char('d'));
    press(&mut app, Key::Char('y'));
    assert_eq!(app.task_lists()[0].tasks.len(), 1);
    assert!(app.is_dirty());
    let mut app = loaded();
    command(&mut app, "t newlist");
    press(&mut app, Key::Char('z'));
    press(&mut app, Key::Enter);
    assert_eq!(app.task_lists().len(), 3);
    assert!(app.is_dirty());
}

#[test]
fn clean_after_reordering() {
    let mut app = loaded();
    let mut other = lists();
    other.reverse();
    other[1].tasks.reverse();
    other[1].tasks[0].expanded = true;
    app.file_done(FileOutcome::Saved);
    assert!(!app.is_dirty());
    let mut app2 = app;
    app2.file_done(FileOutcome::Loaded(other));
    assert!(!app2.is_dirty());
    press(&mut app2, Key::Char('j'));
    press(&mut app2, Key::Char('l'));
    press(&mut app2, Key::Right);
    assert!(!app2.is_dirty());
}

#[test]
fn moving_the_cursor_is_no_change() {
    let mut app = loaded();
    press(&mut app, Key::Char('j'));
    press(&mut app, Key::Char('l'));
    press(&mut app, Key::Right);
    assert!(!app.is_dirty());
}

#[test]
fn quitting_with_changes_asks_to_save() {
    let mut app = loaded();
    press(&mut app, Key::Char('m'));
    press(&mut app, Key::Char('q'));
    assert_eq!(app.mode(), RunningMode::Running);
    assert_eq!(app.save_window().status(), PopupStatus::InUse);
    assert!(matches!(app.tick(today()), CommandRequest::Nothing));
    press(&mut app, Key::Char('m'));
    assert_eq!(app.task_lists()[0].tasks[0].status, TaskStatus::InProgress);
    press(&mut app, Key::Char('y'));
    assert_eq!(app.save_window().status(), PopupStatus::Confirmed);
    match app.tick(today()) {
        CommandRequest::Save(name) => assert_eq!(name, "list.json"),
        other => panic!("{:?}", other),
    }
    assert_eq!(app.mode(), RunningMode::Exiting);
    assert_eq!(app.save_window().status(), PopupStatus::Closed);
    app.file_done(FileOutcome::Saved);
    assert!(!app.is_dirty());
}

#[test]
fn answering_no_ends_without_saving() {
    let mut app = loaded();
    press(&mut app, Key::Char('m'));
    command(&mut app, "quit");
    assert_eq!(app.save_window().status(), PopupStatus::InUse);
    press(&mut app, Key::Char('n'));
    assert!(matches!(app.tick(today()), CommandRequest::Nothing));
    assert_eq!(app.mode(), RunningMode::Exiting);
}

#[test]
fn escape_goes_on() {
    let mut app = loaded();
    press(&mut app, Key::Char('m'));
    app.try_quit();
    press(&mut app, Key::Esc);
    assert_eq!(app.save_window().status(), PopupStatus::Canceled);
    assert!(matches!(app.tick(today()), CommandRequest::Nothing));
    assert_eq!(app.mode(), RunningMode::Running);
    assert_eq!(app.save_window().status(), PopupStatus::Closed);
}

#[test]
fn force_quit_ends_whatever_is_unsaved() {
    let mut app = loaded();
    press(&mut app, Key::Char('m'));
    command(&mut app, "q!");
    assert_eq!(app.mode(), RunningMode::Exiting);
    let mut app = loaded();
    press(&mut app, Key::Char('m'));
    command(&mut app, "quit!");
    assert_eq!(app.mode(), RunningMode::Exiting);
    let mut app = loaded();
    app.force_quit();
    assert_eq!(app.mode(), RunningMode::Exiting);
}

#[test]
fn hotkeys_wait_while_a_popup_is_in_use() {
    let mut app = loaded();
    press(&mut app, Key::Char('a'));
    press(&mut app, Key::Char('q'));
    press(&mut app, Key::Char('n'));
    press(&mut app, Key::Char(':'));
    assert_eq!(app.mode(), RunningMode::Running);
    assert_eq!(app.current_tab(), Tab::TaskList);
    assert_eq!(app.task_list_tab().new_task_window.desc_field().get_str(), "qn:");
}

#[test]
fn importing_adds_a_list() {
    let mut app = loaded();
    app.file_done(FileOutcome::Imported(TaskList {
        name: String::from("more"),
        tasks: vec![task("m")],
        selected: 9,
    }));
    assert_eq!(app.task_lists().len(), 3);
    assert_eq!(app.task_lists()[2].name, "more");
    assert_eq!(app.task_lists()[2].selected, 0);
    assert!(app.is_dirty());
    app.file_done(FileOutcome::Exported);
    assert!(app.is_dirty());
}

#[test]
fn new_task_command_opens_the_editor() {
    let mut app = loaded();
    assert!(matches!(command(&mut app, "t new"), CommandRequest::Nothing));
    assert_eq!(app.task_list_tab().new_task_window.status(), PopupStatus::InUse);
    assert_eq!(app.task_list_tab().new_task_window.task().date, today());
}
