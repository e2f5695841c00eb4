use frogpad::date::Date;
use frogpad::key::Key;
use frogpad::popup::PopupStatus;
use frogpad::tabs::TaskListTab;
use frogpad::task::{Duration, Task, TaskList, TaskStatus};

fn today() -> Date {
    Date { year: 2024, month: 1, day: 15 }
}

fn task(name: &str) -> Task {
    Task {
        name: String::from(name),
        status: TaskStatus::NotStarted,
        duration: Duration { days: 0, hours: 0, minutes: 0 },
        date: today(),
        sub_tasks: Vec::new(),
        expanded: false,
    }
}

fn parent(name: &str, subs: &[&str], expanded: bool) -> Task {
    let mut t = task(name);
    t.sub_tasks = subs.iter().map(|s| task(s)).collect();
    t.expanded = expanded;
    t
}

fn sample() -> Vec<TaskList> {
    vec![
        TaskList {
            name: String::from("home"),
            tasks: vec![parent("a", &["a1", "a2"], true), task("b"), parent("c", &["c1"], false)],
            selected: 0,
        },
        TaskList { name: String::from("work"), tasks: vec![task("w")], selected: 0 },
        TaskList { name: String::from("empty"), tasks: Vec::new(), selected: 0 },
    ]
}

fn press(tab: &mut TaskListTab, lists: &mut Vec<TaskList>, key: Key) -> bool {
    tab.handle_input(lists, key, today())
}

fn type_text(tab: &mut TaskListTab, lists: &mut Vec<TaskList>, text: &str) {
    for c in text.chars() {
        assert!(press(tab, lists, Key::Char(c)));
    }
}

fn cursor(tab: &TaskListTab, lists: &Vec<TaskList>) -> (usize, usize, usize) {
    (tab.selected, lists[tab.selected].selected, tab.selected_sub_task)
}

#[test]
fn down_walks_rows_and_wraps() {
    let mut lists = sample();
    let mut tab = TaskListTab::new();
    assert_eq!(cursor(&tab, &lists), (0, 0, 0));
    assert!(press(&mut tab, &mut lists, Key::Char('j')));
    assert_eq!(cursor(&tab, &lists), (0, 0, 1));
    press(&mut tab, &mut lists, Key::Char('j'));
    assert_eq!(cursor(&tab, &lists), (0, 0, 2));
    press(&mut tab, &mut lists, Key::Char('j'));
    assert_eq!(cursor(&tab, &lists), (0, 1, 0));
    press(&mut tab, &mut lists, Key::Char('j'));
    assert_eq!(cursor(&tab, &lists), (0, 2, 0));
    press(&mut tab, &mut lists, Key::Char('j'));
    assert_eq!(cursor(&tab, &lists), (0, 0, 0));
}

#[test]
fn as_many_steps_down_as_rows_lead_back() {
    for start in 0..5 {
        let mut lists = sample();
        let mut tab = TaskListTab::new();
        for _ in 0..start {
            press(&mut tab, &mut lists, Key::Char('j'));
        }
        let from = cursor(&tab, &lists);
        for _ in 0..5 {
            press(&mut tab, &mut lists, Key::Char('j'));
        }
        assert_eq!(cursor(&tab, &lists), from);
    }
}

#[test]
fn up_is_the_mirror_of_down() {
    let mut lists = sample();
    let mut tab = TaskListTab::new();
    assert!(press(&mut tab, &mut lists, Key::Char('k')));
    assert_eq!(cursor(&tab, &lists), (0, 2, 0));
    press(&mut tab, &mut lists, Key::Char('k'));
    assert_eq!(cursor(&tab, &lists), (0, 1, 0));
    press(&mut tab, &mut lists, Key::Char('k'));
    assert_eq!(cursor(&tab, &lists), (0, 0, 2));
    press(&mut tab, &mut lists, Key::Char('k'));
    assert_eq!(cursor(&tab, &lists), (0, 0, 1));
    press(&mut tab, &mut lists, Key::Char('k'));
    assert_eq!(cursor(&tab, &lists), (0, 0, 0));
}

#[test]
fn list_level_steps() {
    let mut list = sample().remove(0);
    assert_eq!(list.next(0), 1);
    assert_eq!(list.next(1), 2);
    assert_eq!(list.next(2), 0);
    assert_eq!(list.selected, 1);
    assert_eq!(list.previous(0), 2);
    assert_eq!(list.selected, 0);
    assert_eq!(list.previous(2), 1);
    assert!(list.is_on_sub_task(1));
    assert!(list.is_on_sub_task(2));
    assert!(!list.is_on_sub_task(0));
    assert!(!list.is_on_sub_task(3));
    assert_eq!(list.selected_task(2).name, "a2");
    assert_eq!(list.selected_task(0).name, "a");
    assert_eq!(list.selected_task(9).name, "a");
}

#[test]
fn navigation_in_an_empty_list_does_nothing() {
    let mut lists = sample();
    let mut tab = TaskListTab::new();
    tab.selected = 2;
    for key in [Key::Char('j'), Key::Char('k'), Key::Right, Key::Char('m'), Key::Char('d'), Key::Char('e')] {
        assert!(press(&mut tab, &mut lists, key));
        assert_eq!(cursor(&tab, &lists), (2, 0, 0));
        assert!(lists[2].tasks.is_empty());
    }
    assert_eq!(tab.delete_conf_window.status(), PopupStatus::Closed);
    assert_eq!(tab.new_task_window.status(), PopupStatus::Closed);
}

#[test]
fn keys_without_any_list_do_nothing() {
    let mut lists: Vec<TaskList> = Vec::new();
    let mut tab = TaskListTab::new();
    for key in [
        Key::Char('j'),
        Key::Char('k'),
        Key::Char('h'),
        Key::Char('l'),
        Key::Right,
        Key::Char('m'),
        Key::Char('d'),
        Key::Char('e'),
    ] {
        assert!(press(&mut tab, &mut lists, key));
        assert!(lists.is_empty());
        assert_eq!(tab.selected, 0);
    }
}

#[test]
fn unbound_keys_are_not_consumed() {
    let mut lists = sample();
    let mut tab = TaskListTab::new();
    for key in [Key::Char('q'), Key::Char('n'), Key::Char(':'), Key::Enter, Key::Esc, Key::Left, Key::Tab, Key::Other] {
        assert!(!press(&mut tab, &mut lists, key));
        assert_eq!(cursor(&tab, &lists), (0, 0, 0));
    }
}

#[test]
fn switching_lists_wraps_and_keeps_cursors() {
    let mut lists = sample();
    let mut tab = TaskListTab::new();
    press(&mut tab, &mut lists, Key::Char('j'));
    press(&mut tab, &mut lists, Key::Char('l'));
    assert_eq!(tab.selected, 1);
    assert_eq!(tab.selected_sub_task, 1);
    press(&mut tab, &mut lists, Key::Char('l'));
    press(&mut tab, &mut lists, Key::Char('l'));
    assert_eq!(tab.selected, 0);
    press(&mut tab, &mut lists, Key::Char('h'));
    assert_eq!(tab.selected, 2);
    press(&mut tab, &mut lists, Key::Char('h'));
    assert_eq!(tab.selected, 1);
    assert_eq!(lists[0].selected, 0);
}

#[test]
fn a_stale_sub_task_cursor_means_the_task_itself() {
    let mut lists = sample();
    let mut tab = TaskListTab::new();
    press(&mut tab, &mut lists, Key::Char('j'));
    press(&mut tab, &mut lists, Key::Char('j'));
    press(&mut tab, &mut lists, Key::Char('l'));
    assert_eq!(cursor(&tab, &lists), (1, 0, 2));
    press(&mut tab, &mut lists, Key::Char('m'));
    assert_eq!(lists[1].tasks[0].status, TaskStatus::InProgress);
}

#[test]
fn collapsing_selects_the_parent() {
    let mut lists = sample();
    let mut tab = TaskListTab::new();
    press(&mut tab, &mut lists, Key::Char('j'));
    press(&mut tab, &mut lists, Key::Char('j'));
    assert_eq!(tab.selected_sub_task, 2);
    assert!(press(&mut tab, &mut lists, Key::Right));
    assert!(!lists[0].tasks[0].expanded);
    assert_eq!(tab.selected_sub_task, 0);
    press(&mut tab, &mut lists, Key::Right);
    assert!(lists[0].tasks[0].expanded);
    assert_eq!(tab.selected_sub_task, 0);
}

#[test]
fn mark_cycles_the_selected_status() {
    let mut lists = sample();
    let mut tab = TaskListTab::new();
    assert!(press(&mut tab, &mut lists, Key::Char('m')));
    assert_eq!(lists[0].tasks[0].status, TaskStatus::InProgress);
    press(&mut tab, &mut lists, Key::Char('j'));
    press(&mut tab, &mut lists, Key::Char('m'));
    press(&mut tab, &mut lists, Key::Char('m'));
    assert_eq!(lists[0].tasks[0].sub_tasks[0].status, TaskStatus::Finished);
    assert_eq!(lists[0].tasks[0].sub_tasks[1].status, TaskStatus::NotStarted);
    assert_eq!(lists[0].tasks[0].status, TaskStatus::InProgress);
    press(&mut tab, &mut lists, Key::Char('m'));
    assert_eq!(lists[0].tasks[0].sub_tasks[0].status, TaskStatus::NotStarted);
}

#[test]
fn delete_asks_first() {
    let mut lists = sample();
    let mut tab = TaskListTab::new();
    press(&mut tab, &mut lists, Key::Char('d'));
    assert_eq!(tab.delete_conf_window.status(), PopupStatus::InUse);
    assert!(press(&mut tab, &mut lists, Key::Char('j')));
    assert_eq!(cursor(&tab, &lists), (0, 0, 0));
    assert!(press(&mut tab, &mut lists, Key::Char('n')));
    assert_eq!(tab.delete_conf_window.status(), PopupStatus::Closed);
    assert_eq!(lists[0].tasks.len(), 3);
    press(&mut tab, &mut lists, Key::Char('d'));
    press(&mut tab, &mut lists, Key::Esc);
    assert_eq!(tab.delete_conf_window.status(), PopupStatus::Closed);
    assert_eq!(lists[0].tasks.len(), 3);
    press(&mut tab, &mut lists, Key::Char('d'));
    press(&mut tab, &mut lists, Key::Tab);
    press(&mut tab, &mut lists, Key::Enter);
    assert_eq!(tab.delete_conf_window.status(), PopupStatus::Closed);
    assert_eq!(lists[0].tasks.len(), 2);
    assert_eq!(lists[0].tasks[0].name, "b");
}

#[test]
fn deleting_sub_tasks_steps_back() {
    let mut lists = sample();
    let mut tab = TaskListTab::new();
    press(&mut tab, &mut lists, Key::Char('j'));
    press(&mut tab, &mut lists, Key::Char('j'));
    press(&mut tab, &mut lists, Key::Char('d'));
    press(&mut tab, &mut lists, Key::Char('y'));
    assert_eq!(lists[0].tasks[0].sub_tasks.len(), 1);
    assert_eq!(lists[0].tasks[0].sub_tasks[0].name, "a1");
    assert_eq!(cursor(&tab, &lists), (0, 0, 1));
    press(&mut tab, &mut lists, Key::Char('d'));
    press(&mut tab, &mut lists, Key::Char('y'));
    assert!(lists[0].tasks[0].sub_tasks.is_empty());
    assert_eq!(cursor(&tab, &lists), (0, 0, 0));
    assert_eq!(lists[0].tasks.len(), 3);
}

#[test]
fn deleting_the_last_task_steps_back() {
    let mut lists = sample();
    let mut tab = TaskListTab::new();
    press(&mut tab, &mut lists, Key::Char('k'));
    assert_eq!(cursor(&tab, &lists), (0, 2, 0));
    tab.delete_task(&mut lists);
    assert_eq!(lists[0].tasks.len(), 2);
    assert_eq!(cursor(&tab, &lists), (0, 1, 0));
}

#[test]
fn deleting_the_only_task_leaves_a_valid_empty_list() {
    let mut lists = sample();
    let mut tab = TaskListTab::new();
    press(&mut tab, &mut lists, Key::Char('l'));
    press(&mut tab, &mut lists, Key::Char('d'));
    press(&mut tab, &mut lists, Key::Char('y'));
    assert!(lists[1].tasks.is_empty());
    assert_eq!(cursor(&tab, &lists), (1, 0, 0));
    for key in [Key::Char('j'), Key::Char('k'), Key::Right, Key::Char('m'), Key::Char('d'), Key::Char('e')] {
        assert!(press(&mut tab, &mut lists, key));
    }
    assert_eq!(cursor(&tab, &lists), (1, 0, 0));
    let mut single = TaskList { name: String::from("s"), tasks: vec![task("only")], selected: 0 };
    assert_eq!(single.delete_selected(0), 0);
    assert!(single.tasks.is_empty());
    assert_eq!(single.selected, 0);
    assert_eq!(single.next(0), 0);
    assert_eq!(single.previous(0), 0);
}

#[test]
fn adding_a_task_through_the_editor() {
    let mut lists = sample();
    let mut tab = TaskListTab::new();
    assert!(press(&mut tab, &mut lists, Key::Char('a')));
    assert_eq!(tab.new_task_window.status(), PopupStatus::InUse);
    type_text(&mut tab, &mut lists, "jam");
    assert_eq!(cursor(&tab, &lists), (0, 0, 0));
    assert!(press(&mut tab, &mut lists, Key::Enter));
    assert_eq!(tab.new_task_window.status(), PopupStatus::Closed);
    assert_eq!(lists[0].tasks.len(), 4);
    assert_eq!(lists[0].tasks[3].name, "jam");
    assert_eq!(lists[0].tasks[3].date, today());
    assert_eq!(lists[0].tasks[3].status, TaskStatus::NotStarted);
}

#[test]
fn canceling_the_editor_adds_nothing() {
    let mut lists = sample();
    let mut tab = TaskListTab::new();
    press(&mut tab, &mut lists, Key::Char('a'));
    type_text(&mut tab, &mut lists, "jam");
    assert!(press(&mut tab, &mut lists, Key::Esc));
    assert_eq!(tab.new_task_window.status(), PopupStatus::Closed);
    assert_eq!(lists[0].tasks.len(), 3);
    press(&mut tab, &mut lists, Key::Char('a'));
    assert_eq!(tab.new_task_window.desc_field().get_str(), "");
}

#[test]
fn a_new_task_without_a_list_is_dropped() {
    let mut lists: Vec<TaskList> = Vec::new();
    let mut tab = TaskListTab::new();
    press(&mut tab, &mut lists, Key::Char('a'));
    type_text(&mut tab, &mut lists, "x");
    press(&mut tab, &mut lists, Key::Enter);
    assert!(lists.is_empty());
    assert_eq!(tab.new_task_window.status(), PopupStatus::Closed);
}

#[test]
fn editing_replaces_what_the_cursor_is_on() {
    let mut lists = sample();
    let mut tab = TaskListTab::new();
    press(&mut tab, &mut lists, Key::Char('j'));
    press(&mut tab, &mut lists, Key::Char('e'));
    assert_eq!(tab.new_task_window.desc_field().get_str(), "a1");
    type_text(&mut tab, &mut lists, "!");
    press(&mut tab, &mut lists, Key::Enter);
    assert_eq!(lists[0].tasks[0].sub_tasks[0].name, "a1!");
    assert_eq!(lists[0].tasks[0].name, "a");
    assert_eq!(lists[0].tasks.len(), 3);
    press(&mut tab, &mut lists, Key::Char('k'));
    press(&mut tab, &mut lists, Key::Char('e'));
    press(&mut tab, &mut lists, Key::Tab);
    press(&mut tab, &mut lists, Key::Char('3'));
    press(&mut tab, &mut lists, Key::Enter);
    assert_eq!(lists[0].tasks[0].status, TaskStatus::Finished);
    assert_eq!(lists[0].tasks[0].sub_tasks.len(), 2);
    assert!(lists[0].tasks[0].expanded);
}

#[test]
fn replace_and_push_directly() {
    let mut lists = sample();
    let mut tab = TaskListTab::new();
    tab.push_task(&mut lists, task("p"));
    assert_eq!(lists[0].tasks[3].name, "p");
    tab.selected_sub_task = 2;
    tab.replace_selected(&mut lists, task("r"));
    assert_eq!(lists[0].tasks[0].sub_tasks[1].name, "r");
    tab.selected_sub_task = 0;
    tab.replace_selected(&mut lists, task("s"));
    assert_eq!(lists[0].tasks[0].name, "s");
    assert!(lists[0].tasks[0].sub_tasks.is_empty());
}

#[test]
fn a_new_list_through_the_prompt() {
    let mut lists = sample();
    let mut tab = TaskListTab::new();
    tab.new_task_list();
    assert_eq!(tab.new_tasklist_window.status, PopupStatus::InUse);
    type_text(&mut tab, &mut lists, "garden");
    assert!(press(&mut tab, &mut lists, Key::Enter));
    assert_eq!(tab.new_tasklist_window.status, PopupStatus::Closed);
    assert_eq!(tab.new_tasklist_window.text_field.get_str(), "");
    assert_eq!(lists.len(), 4);
    assert_eq!(lists[3].name, "garden");
    assert!(lists[3].tasks.is_empty());
    assert_eq!(lists[3].selected, 0);
    tab.new_task_list();
    type_text(&mut tab, &mut lists, "x");
    press(&mut tab, &mut lists, Key::Esc);
    assert_eq!(tab.new_tasklist_window.status, PopupStatus::Closed);
    assert_eq!(tab.new_tasklist_window.text_field.get_str(), "");
    assert_eq!(lists.len(), 4);
}

#[test]
fn the_editor_comes_before_the_other_popups() {
    let mut lists = sample();
    let mut tab = TaskListTab::new();
    tab.new_task_list();
    tab.delete_conf_window.show();
    tab.new_task(today());
    press(&mut tab, &mut lists, Key::Char('y'));
    assert_eq!(tab.new_task_window.desc_field().get_str(), "y");
    assert_eq!(tab.delete_conf_window.status(), PopupStatus::InUse);
    press(&mut tab, &mut lists, Key::Esc);
    press(&mut tab, &mut lists, Key::Char('n'));
    assert_eq!(tab.delete_conf_window.status(), PopupStatus::Closed);
    assert_eq!(tab.new_tasklist_window.text_field.get_str(), "");
    press(&mut tab, &mut lists, Key::Char('z'));
    assert_eq!(tab.new_tasklist_window.text_field.get_str(), "z");
}

#[test]
fn new_list_directly() {
    let mut lists = sample();
    let tab = TaskListTab::new();
    tab.new_list(&mut lists, String::from("misc"));
    assert_eq!(lists.len(), 4);
    assert_eq!(lists[3].name, "misc");
    assert!(lists[3].tasks.is_empty());
    let mut none: Vec<TaskList> = Vec::new();
    tab.new_list(&mut none, String::from("first"));
    assert_eq!(none.len(), 1);
    assert_eq!(none[0].selected, 0);
}
