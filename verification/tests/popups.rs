use frogpad::date::Date;
use frogpad::key::Key;
use frogpad::popup::{
    ConfirmationField, ConfirmationPopup, PopupStatus, TaskEditorField, TaskEditorPopup,
    TaskSource, TextEntryPopup,
};
use frogpad::task::{Duration, Task, TaskStatus};

fn today() -> Date {
    Date { year: 2024, month: 1, day: 15 }
}

fn type_text(editor: &mut TaskEditorPopup, text: &str) {
    for c in text.chars() {
        assert!(editor.handle_input(Key::Char(c), today()));
    }
}

fn some_task() -> Task {
    Task {
        name: String::from("water plants"),
        status: TaskStatus::InProgress,
        duration: Duration { days: 0, hours: 1, minutes: 30 },
        date: Date { year: 2024, month: 3, day: 1 },
        sub_tasks: Vec::new(),
        expanded: true,
    }
}

#[test]
fn editor_starts_closed() {
    let editor = TaskEditorPopup::default();
    assert_eq!(editor.status(), PopupStatus::Closed);
    assert_eq!(editor.task_source(), TaskSource::New);
    assert_eq!(editor.selected_field(), TaskEditorField::Description);
    assert!(!editor.editing_date());
    assert_eq!(editor.desc_field().get_str(), "");
    assert_eq!(editor.date_field().get_str(), "");
    assert_eq!(PopupStatus::default(), PopupStatus::Closed);
}

#[test]
fn new_task_is_dated_today() {
    let mut editor = TaskEditorPopup::default();
    editor.new_task(today());
    assert_eq!(editor.status(), PopupStatus::InUse);
    assert_eq!(editor.task_source(), TaskSource::New);
    assert_eq!(editor.task().date, today());
    assert_eq!(editor.task().status, TaskStatus::NotStarted);
    assert_eq!(editor.selected_field(), TaskEditorField::Description);
}

#[test]
fn typing_a_description_and_confirming() {
    let mut editor = TaskEditorPopup::default();
    editor.new_task(today());
    type_text(&mut editor, "by milk");
    editor.handle_input(Key::Left, today());
    editor.handle_input(Key::Left, today());
    editor.handle_input(Key::Left, today());
    editor.handle_input(Key::Left, today());
    editor.handle_input(Key::Left, today());
    editor.handle_input(Key::Backspace, today());
    type_text(&mut editor, "uy");
    editor.handle_input(Key::Right, today());
    assert_eq!(editor.desc_field().get_str(), "buy milk");
    assert_eq!(editor.desc_field().get_cursor_pos(), 4);
    assert!(editor.handle_input(Key::Enter, today()));
    assert_eq!(editor.status(), PopupStatus::Confirmed);
    assert_eq!(editor.desc_field().get_str(), "");
    let task = editor.take_task();
    assert_eq!(task.name, "buy milk");
    assert_eq!(task.date, today());
    assert_eq!(editor.task().name, "");
    assert_eq!(editor.task().date, Date { year: 1970, month: 1, day: 1 });
}

#[test]
fn tab_walks_the_fields() {
    let mut editor = TaskEditorPopup::default();
    editor.new_task(today());
    editor.handle_input(Key::Tab, today());
    assert_eq!(editor.selected_field(), TaskEditorField::Status);
    editor.handle_input(Key::Tab, today());
    assert_eq!(editor.selected_field(), TaskEditorField::Date);
    editor.handle_input(Key::Tab, today());
    assert_eq!(editor.selected_field(), TaskEditorField::Duration);
    editor.handle_input(Key::Tab, today());
    assert_eq!(editor.selected_field(), TaskEditorField::Description);
    editor.handle_input(Key::BackTab, today());
    assert_eq!(editor.selected_field(), TaskEditorField::Duration);
    editor.handle_input(Key::BackTab, today());
    assert_eq!(editor.selected_field(), TaskEditorField::Date);
    editor.handle_input(Key::BackTab, today());
    assert_eq!(editor.selected_field(), TaskEditorField::Status);
    editor.handle_input(Key::BackTab, today());
    assert_eq!(editor.selected_field(), TaskEditorField::Description);
}

#[test]
fn field_steps() {
    let mut field = TaskEditorField::Duration;
    field.next();
    assert_eq!(field, TaskEditorField::Description);
    field.previous();
    assert_eq!(field, TaskEditorField::Duration);
    field.previous();
    assert_eq!(field, TaskEditorField::Date);
}

#[test]
fn status_keys() {
    let mut editor = TaskEditorPopup::default();
    editor.new_task(today());
    editor.handle_input(Key::Tab, today());
    editor.handle_input(Key::Char('3'), today());
    assert_eq!(editor.task().status, TaskStatus::Finished);
    editor.handle_input(Key::Char('2'), today());
    assert_eq!(editor.task().status, TaskStatus::InProgress);
    editor.handle_input(Key::Char('1'), today());
    assert_eq!(editor.task().status, TaskStatus::NotStarted);
    editor.handle_input(Key::Char('j'), today());
    assert_eq!(editor.task().status, TaskStatus::InProgress);
    editor.handle_input(Key::Char('4'), today());
    assert_eq!(editor.task().status, TaskStatus::InProgress);
    assert_eq!(editor.desc_field().get_str(), "");
}

#[test]
fn browsing_the_date() {
    let mut editor = TaskEditorPopup::default();
    editor.new_task(Date { year: 2024, month: 2, day: 28 });
    editor.handle_input(Key::Tab, today());
    editor.handle_input(Key::Tab, today());
    editor.handle_input(Key::Char('j'), today());
    assert_eq!(editor.task().date, Date { year: 2024, month: 2, day: 29 });
    editor.handle_input(Key::Char('j'), today());
    assert_eq!(editor.task().date, Date { year: 2024, month: 3, day: 1 });
    editor.handle_input(Key::Char('k'), today());
    editor.handle_input(Key::Char('k'), today());
    editor.handle_input(Key::Char('k'), today());
    assert_eq!(editor.task().date, Date { year: 2024, month: 2, day: 27 });
    assert!(!editor.editing_date());
}

#[test]
fn browsing_stops_at_the_last_date() {
    let mut editor = TaskEditorPopup::default();
    editor.new_task(Date { year: 262142, month: 12, day: 31 });
    editor.handle_input(Key::Tab, today());
    editor.handle_input(Key::Tab, today());
    editor.handle_input(Key::Char('j'), today());
    assert_eq!(editor.task().date, Date { year: 262142, month: 12, day: 31 });
    let mut editor = TaskEditorPopup::default();
    editor.new_task(Date { year: -262143, month: 1, day: 1 });
    editor.handle_input(Key::Tab, today());
    editor.handle_input(Key::Tab, today());
    editor.handle_input(Key::Char('k'), today());
    assert_eq!(editor.task().date, Date { year: -262143, month: 1, day: 1 });
}

#[test]
fn quick_date_entry_with_enter() {
    let mut editor = TaskEditorPopup::default();
    editor.new_task(today());
    editor.handle_input(Key::Tab, today());
    editor.handle_input(Key::Tab, today());
    type_text(&mut editor, "+5");
    assert!(editor.editing_date());
    assert_eq!(editor.date_field().get_str(), "+5");
    editor.handle_input(Key::Enter, today());
    assert_eq!(editor.status(), PopupStatus::InUse);
    assert!(!editor.editing_date());
    assert_eq!(editor.date_field().get_str(), "");
    assert_eq!(editor.task().date, Date { year: 2024, month: 1, day: 20 });
    editor.handle_input(Key::Enter, today());
    assert_eq!(editor.status(), PopupStatus::Confirmed);
}

#[test]
fn quick_date_entry_with_slash_and_tab() {
    let mut editor = TaskEditorPopup::default();
    editor.new_task(today());
    editor.handle_input(Key::Tab, today());
    editor.handle_input(Key::Tab, today());
    type_text(&mut editor, "20240704/");
    assert_eq!(editor.task().date, Date { year: 2024, month: 7, day: 4 });
    assert_eq!(editor.selected_field(), TaskEditorField::Date);
    assert!(!editor.editing_date());
    type_text(&mut editor, "0301");
    editor.handle_input(Key::Tab, today());
    assert_eq!(editor.task().date, Date { year: 2024, month: 3, day: 1 });
    assert_eq!(editor.selected_field(), TaskEditorField::Duration);
}

#[test]
fn failed_quick_date_keeps_the_date() {
    let mut editor = TaskEditorPopup::default();
    editor.new_task(today());
    editor.handle_input(Key::Tab, today());
    editor.handle_input(Key::Tab, today());
    type_text(&mut editor, "1345");
    editor.handle_input(Key::Backspace, today());
    assert_eq!(editor.date_field().get_str(), "134");
    editor.handle_input(Key::Enter, today());
    assert_eq!(editor.task().date, today());
    assert!(!editor.editing_date());
    assert_eq!(editor.date_field().get_str(), "");
    editor.handle_input(Key::Char('/'), today());
    assert!(!editor.editing_date());
    assert_eq!(editor.date_field().get_str(), "");
    editor.handle_input(Key::Backspace, today());
    editor.handle_input(Key::Char('x'), today());
    assert!(!editor.editing_date());
    assert_eq!(editor.task().date, today());
}

#[test]
fn escape_cancels_the_editor() {
    let mut editor = TaskEditorPopup::default();
    editor.new_task(today());
    type_text(&mut editor, "abc");
    assert!(editor.handle_input(Key::Esc, today()));
    assert_eq!(editor.status(), PopupStatus::Canceled);
    assert_eq!(editor.desc_field().get_str(), "");
    editor.close();
    assert_eq!(editor.status(), PopupStatus::Closed);
}

#[test]
fn editing_an_existing_task() {
    let mut editor = TaskEditorPopup::default();
    editor.edit_task(some_task());
    assert_eq!(editor.status(), PopupStatus::InUse);
    assert_eq!(editor.task_source(), TaskSource::Existing);
    assert_eq!(editor.desc_field().get_str(), "water plants");
    assert_eq!(editor.desc_field().get_cursor_pos(), 12);
    type_text(&mut editor, "!");
    editor.handle_input(Key::Enter, today());
    let task = editor.take_task();
    assert_eq!(task.name, "water plants!");
    assert_eq!(task.status, TaskStatus::InProgress);
    assert_eq!(task.duration, Duration { days: 0, hours: 1, minutes: 30 });
    assert_eq!(task.date, Date { year: 2024, month: 3, day: 1 });
    assert!(task.expanded);
}

#[test]
fn duration_field_takes_no_keys() {
    let mut editor = TaskEditorPopup::default();
    editor.edit_task(some_task());
    editor.handle_input(Key::BackTab, today());
    assert_eq!(editor.selected_field(), TaskEditorField::Duration);
    type_text(&mut editor, "12j");
    editor.handle_input(Key::Backspace, today());
    assert_eq!(editor.task().duration, Duration { days: 0, hours: 1, minutes: 30 });
    assert_eq!(editor.task().status, TaskStatus::InProgress);
    assert_eq!(editor.desc_field().get_str(), "water plants");
}

#[test]
fn confirmation_answers() {
    let mut popup = ConfirmationPopup::new(String::from("t"), String::from("b"));
    assert_eq!(popup.title, "t");
    assert_eq!(popup.body, "b");
    assert_eq!(popup.status(), PopupStatus::Closed);
    assert!(!popup.decision());
    popup.show();
    assert_eq!(popup.status(), PopupStatus::InUse);
    assert!(popup.handle_input(Key::Char('y')));
    assert_eq!(popup.status(), PopupStatus::Confirmed);
    assert!(popup.decision());
    popup.close();
    assert_eq!(popup.status(), PopupStatus::Closed);
    popup.show();
    assert!(!popup.decision());
    popup.handle_input(Key::Char('n'));
    assert_eq!(popup.status(), PopupStatus::Confirmed);
    assert!(!popup.decision());
}

#[test]
fn confirmation_tab_and_enter() {
    let mut popup = ConfirmationPopup::new(String::from("t"), String::from("b"));
    popup.show();
    popup.handle_input(Key::Tab);
    assert_eq!(popup.selected_field(), ConfirmationField::Yes);
    assert_eq!(popup.status(), PopupStatus::InUse);
    popup.handle_input(Key::BackTab);
    assert_eq!(popup.selected_field(), ConfirmationField::No);
    popup.handle_input(Key::Tab);
    popup.handle_input(Key::Char('x'));
    popup.handle_input(Key::Left);
    assert_eq!(popup.status(), PopupStatus::InUse);
    popup.handle_input(Key::Enter);
    assert_eq!(popup.status(), PopupStatus::Confirmed);
    assert!(popup.decision());
}

#[test]
fn confirmation_escape_means_no() {
    let mut popup = ConfirmationPopup::new(String::from("t"), String::from("b"));
    popup.show();
    popup.handle_input(Key::Tab);
    popup.handle_input(Key::Esc);
    assert_eq!(popup.status(), PopupStatus::Canceled);
    assert!(!popup.decision());
    let mut field = ConfirmationField::default();
    assert_eq!(field, ConfirmationField::No);
    field.cycle_next();
    assert_eq!(field, ConfirmationField::Yes);
    field.cycle_next();
    assert_eq!(field, ConfirmationField::No);
}

#[test]
fn text_prompt() {
    let mut popup = TextEntryPopup::new(String::from("Name"), 3);
    assert_eq!(popup.title, "Name");
    assert_eq!(popup.max_lines, 3);
    assert_eq!(popup.status, PopupStatus::Closed);
    popup.show();
    assert_eq!(popup.status, PopupStatus::InUse);
    for c in "hom".chars() {
        assert!(popup.handle_input(Key::Char(c)));
    }
    popup.handle_input(Key::Left);
    popup.handle_input(Key::Backspace);
    popup.handle_input(Key::Char('e'));
    popup.handle_input(Key::Right);
    popup.handle_input(Key::Right);
    popup.handle_input(Key::Char('e'));
    popup.handle_input(Key::Tab);
    assert_eq!(popup.text_field.get_str(), "heme");
    popup.handle_input(Key::Enter);
    assert_eq!(popup.status, PopupStatus::Confirmed);
    assert_eq!(popup.take(), "heme");
    assert_eq!(popup.text_field.get_str(), "");
    popup.close();
    assert_eq!(popup.status, PopupStatus::Closed);
}

#[test]
fn text_prompt_cancel_and_reset() {
    let mut popup = TextEntryPopup::new(String::from("Name"), 3);
    popup.show();
    popup.handle_input(Key::Char('a'));
    popup.handle_input(Key::Esc);
    assert_eq!(popup.status, PopupStatus::Canceled);
    assert_eq!(popup.text_field.get_str(), "a");
    popup.reset();
    assert_eq!(popup.status, PopupStatus::Closed);
    assert_eq!(popup.text_field.get_str(), "");
}
