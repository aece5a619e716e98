use vikunja_tui::app::{
    choose_description, command_for, ActiveInput, App, Command, InputMode, Key, ListState,
    NewTask, Request, Response,
};
use vikunja_tui::models::{Label, Task, TaskDetail};
use vikunja_tui::parser::DueDate;

fn task(id: u64, title: &str, done: bool) -> Task {
    Task { id, title: title.to_string(), done }
}

fn three_tasks() -> Vec<Task> {
    vec![task(1, "one", false), task(2, "two", true), task(3, "three", false)]
}

fn detail(id: u64) -> TaskDetail {
    TaskDetail {
        id,
        title: "one".to_string(),
        done: false,
        due_date: None,
        labels: Some(vec![Label { id: 9, title: "home".to_string() }]),
        priority: Some(2),
        description: None,
    }
}

fn ids(app: &App) -> Vec<u64> {
    app.tasks.iter().map(|t| t.id).collect()
}

fn type_text(app: &mut App, text: &str) {
    for c in text.chars() {
        assert_eq!(app.handle_input(Key::Char(c)), Request::Idle);
    }
}

#[test]
fn new_app_starts_browsing_on_page_one() {
    let app = App::new(three_tasks());
    assert_eq!(ids(&app), vec![1, 2, 3]);
    assert_eq!(app.state.selected(), Some(0));
    assert!(app.task_detail.is_none());
    assert_eq!(app.input_mode, InputMode::Normal);
    assert_eq!(app.active_input, ActiveInput::Title);
    assert_eq!(app.new_task_title, "");
    assert_eq!(app.new_task_description, "");
    assert_eq!(app.page, 1);
    assert!(!app.show_done_tasks);
    assert_eq!(app.error_message, None);
}

#[test]
fn new_app_without_tasks_selects_nothing() {
    let app = App::new(Vec::new());
    assert_eq!(app.state.selected(), None);
}

#[test]
fn next_wraps_from_the_last_row_to_the_first() {
    let mut app = App::new(three_tasks());
    app.next();
    assert_eq!(app.state.selected(), Some(1));
    app.next();
    assert_eq!(app.state.selected(), Some(2));
    app.next();
    assert_eq!(app.state.selected(), Some(0));
}

#[test]
fn previous_wraps_from_the_first_row_to_the_last() {
    let mut app = App::new(three_tasks());
    app.previous();
    assert_eq!(app.state.selected(), Some(2));
    app.previous();
    assert_eq!(app.state.selected(), Some(1));
    app.previous();
    assert_eq!(app.state.selected(), Some(0));
}

#[test]
fn cursor_does_not_move_on_an_empty_list() {
    let mut app = App::new(Vec::new());
    app.next();
    assert_eq!(app.state.selected(), None);
    app.previous();
    assert_eq!(app.state.selected(), None);
}

#[test]
fn cursor_on_a_single_row_stays_there() {
    let mut app = App::new(vec![task(7, "only", false)]);
    app.next();
    assert_eq!(app.state.selected(), Some(0));
    app.previous();
    assert_eq!(app.state.selected(), Some(0));
}

#[test]
fn cursor_that_was_lost_is_brought_back_to_the_list() {
    let mut app = App::new(three_tasks());
    app.state = ListState::new(Some(17));
    app.next();
    assert_eq!(app.state.selected(), Some(0));
    app.state = ListState::new(Some(17));
    app.previous();
    assert_eq!(app.state.selected(), Some(2));
    app.state = ListState::new(None);
    app.next();
    assert_eq!(app.state.selected(), Some(0));
}

#[test]
fn previous_page_never_goes_before_page_one() {
    let mut app = App::new(three_tasks());
    for _ in 0..10 {
        app.previous_page();
        assert_eq!(app.page, 1);
    }
    app.next_page();
    app.next_page();
    assert_eq!(app.page, 3);
    app.previous_page();
    assert_eq!(app.page, 2);
    for _ in 0..5 {
        app.previous_page();
    }
    assert_eq!(app.page, 1);
}

#[test]
fn next_page_stops_at_the_largest_number() {
    let mut app = App::new(Vec::new());
    app.page = usize::MAX - 1;
    app.next_page();
    assert_eq!(app.page, usize::MAX);
    app.next_page();
    assert_eq!(app.page, usize::MAX);
}

#[test]
fn refresh_leaves_completed_tasks_out_unless_they_are_kept() {
    let mut app = App::new(Vec::new());
    app.refresh_tasks(three_tasks());
    assert_eq!(ids(&app), vec![1, 3]);
    assert_eq!(app.state.selected(), Some(0));
    app.toggle_done_filter();
    assert!(app.show_done_tasks);
    assert_eq!(ids(&app), vec![1, 3]);
    app.refresh_tasks(three_tasks());
    assert_eq!(ids(&app), vec![1, 2, 3]);
    assert_eq!(app.state.selected(), Some(0));
}

#[test]
fn refresh_with_the_same_tasks_gives_the_same_state() {
    let mut app = App::new(Vec::new());
    app.refresh_tasks(three_tasks());
    app.next();
    let first = ids(&app);
    app.refresh_tasks(three_tasks());
    assert_eq!(ids(&app), first);
    assert_eq!(app.state.selected(), Some(0));
    app.refresh_tasks(vec![task(5, "done", true)]);
    assert_eq!(ids(&app), Vec::<u64>::new());
    assert_eq!(app.state.selected(), None);
    app.refresh_tasks(vec![task(5, "done", true)]);
    assert_eq!(ids(&app), Vec::<u64>::new());
    assert_eq!(app.state.selected(), None);
}

#[test]
fn refresh_keeps_page_and_detail() {
    let mut app = App::new(three_tasks());
    app.next_page();
    app.select_task(detail(1));
    app.refresh_tasks(vec![task(4, "four", false)]);
    assert_eq!(app.page, 2);
    assert_eq!(app.task_detail.as_ref().map(|d| d.id), Some(1));
}

#[test]
fn selected_task_id_follows_the_cursor() {
    let mut app = App::new(three_tasks());
    assert_eq!(app.selected_task_id(), Some(1));
    app.previous();
    assert_eq!(app.selected_task_id(), Some(3));
    let empty = App::new(Vec::new());
    assert_eq!(empty.selected_task_id(), None);
}

#[test]
fn keys_are_bound_by_mode() {
    let normal = [
        (Key::Char('q'), Command::Quit),
        (Key::Char('j'), Command::MoveDown),
        (Key::Char('k'), Command::MoveUp),
        (Key::Char('n'), Command::NextPage),
        (Key::Char('p'), Command::PreviousPage),
        (Key::Char('t'), Command::ToggleFilter),
        (Key::Char('a'), Command::BeginCreate),
        (Key::Enter, Command::Inspect),
    ];
    for (key, command) in normal {
        assert_eq!(command_for(InputMode::Normal, key), Some(command));
    }
    let editing = [
        (Key::Char('i'), Command::EnterTextMode),
        (Key::Tab, Command::SwitchField),
        (Key::Enter, Command::Submit),
        (Key::Esc, Command::Cancel),
    ];
    for (key, command) in editing {
        assert_eq!(command_for(InputMode::Editing, key), Some(command));
    }
    let insert = [
        (Key::Char('q'), Command::Insert('q')),
        (Key::Backspace, Command::EraseBackward),
        (Key::Esc, Command::ExitTextMode),
    ];
    for (key, command) in insert {
        assert_eq!(command_for(InputMode::Insert, key), Some(command));
    }
    for key in [Key::Char('x'), Key::Tab, Key::Esc, Key::Backspace, Key::Other] {
        assert_eq!(command_for(InputMode::Normal, key), None);
    }
    for key in [Key::Char('q'), Key::Backspace, Key::Other] {
        assert_eq!(command_for(InputMode::Editing, key), None);
    }
    for key in [Key::Enter, Key::Tab, Key::Other] {
        assert_eq!(command_for(InputMode::Insert, key), None);
    }
}

#[test]
fn quit_asks_the_loop_to_end() {
    let mut app = App::new(three_tasks());
    assert_eq!(app.handle_input(Key::Char('q')), Request::Quit);
}

#[test]
fn movement_keys_move_the_cursor() {
    let mut app = App::new(three_tasks());
    assert_eq!(app.handle_input(Key::Char('j')), Request::Idle);
    assert_eq!(app.state.selected(), Some(1));
    assert_eq!(app.handle_input(Key::Char('k')), Request::Idle);
    assert_eq!(app.handle_input(Key::Char('k')), Request::Idle);
    assert_eq!(app.state.selected(), Some(2));
}

#[test]
fn paging_and_filter_keys_ask_for_a_refresh() {
    let mut app = App::new(three_tasks());
    assert_eq!(app.handle_input(Key::Char('n')), Request::FetchTasks { page: 2 });
    assert_eq!(app.page, 2);
    assert_eq!(app.handle_input(Key::Char('p')), Request::FetchTasks { page: 1 });
    assert_eq!(app.handle_input(Key::Char('p')), Request::FetchTasks { page: 1 });
    assert_eq!(app.page, 1);
    assert_eq!(app.handle_input(Key::Char('t')), Request::FetchTasks { page: 1 });
    assert!(app.show_done_tasks);
    assert_eq!(ids(&app), vec![1, 2, 3]);
}

#[test]
fn enter_asks_for_the_selected_task() {
    let mut app = App::new(three_tasks());
    app.next();
    assert_eq!(app.handle_input(Key::Enter), Request::FetchDetail { id: 2 });
    let mut empty = App::new(Vec::new());
    assert_eq!(empty.handle_input(Key::Enter), Request::Idle);
}

#[test]
fn fetched_detail_replaces_the_earlier_one() {
    let mut app = App::new(three_tasks());
    assert_eq!(app.handle_response(Response::Detail(Ok(detail(1)))), Request::Idle);
    assert_eq!(app.task_detail.as_ref().map(|d| d.id), Some(1));
    assert_eq!(app.handle_response(Response::Detail(Ok(detail(3)))), Request::Idle);
    assert_eq!(app.task_detail.as_ref().map(|d| d.id), Some(3));
    assert_eq!(
        app.handle_response(Response::Detail(Err("not found".to_string()))),
        Request::Idle
    );
    assert_eq!(app.task_detail.as_ref().map(|d| d.id), Some(3));
    assert_eq!(app.error_message, Some("Error fetching task details: not found".to_string()));
}

#[test]
fn failed_refresh_leaves_a_message_and_the_list() {
    let mut app = App::new(three_tasks());
    app.next();
    assert_eq!(app.handle_response(Response::Tasks(Err("offline".to_string()))), Request::Idle);
    assert_eq!(app.error_message, Some("Error fetching tasks: offline".to_string()));
    assert_eq!(ids(&app), vec![1, 2, 3]);
    assert_eq!(app.state.selected(), Some(1));
    assert_eq!(app.handle_input(Key::Char('j')), Request::Idle);
    assert_eq!(app.error_message, None);
}

#[test]
fn unbound_key_changes_nothing() {
    let mut app = App::new(three_tasks());
    app.handle_response(Response::Tasks(Err("offline".to_string())));
    assert_eq!(app.handle_input(Key::Char('x')), Request::Idle);
    assert_eq!(app.error_message, Some("Error fetching tasks: offline".to_string()));
    assert_eq!(app.input_mode, InputMode::Normal);
}

#[test]
fn begin_create_clears_the_buffers_and_selects_the_title() {
    let mut app = App::new(three_tasks());
    app.new_task_title = "old".to_string();
    app.new_task_description = "older".to_string();
    app.active_input = ActiveInput::Description;
    assert_eq!(app.handle_input(Key::Char('a')), Request::Idle);
    assert_eq!(app.input_mode, InputMode::Editing);
    assert_eq!(app.active_input, ActiveInput::Title);
    assert_eq!(app.new_task_title, "");
    assert_eq!(app.new_task_description, "");
}

#[test]
fn typing_goes_to_the_selected_field() {
    let mut app = App::new(Vec::new());
    app.handle_input(Key::Char('a'));
    assert_eq!(app.handle_input(Key::Char('i')), Request::Idle);
    assert_eq!(app.input_mode, InputMode::Insert);
    type_text(&mut app, "Buy milkk");
    assert_eq!(app.handle_input(Key::Backspace), Request::Idle);
    assert_eq!(app.new_task_title, "Buy milk");
    assert_eq!(app.handle_input(Key::Esc), Request::Idle);
    assert_eq!(app.input_mode, InputMode::Editing);
    assert_eq!(app.handle_input(Key::Tab), Request::Idle);
    assert_eq!(app.active_input, ActiveInput::Description);
    app.handle_input(Key::Char('i'));
    type_text(&mut app, "whole");
    assert_eq!(app.new_task_description, "whole");
    assert_eq!(app.new_task_title, "Buy milk");
    app.handle_input(Key::Esc);
    assert_eq!(app.handle_input(Key::Tab), Request::Idle);
    assert_eq!(app.active_input, ActiveInput::Title);
}

#[test]
fn erasing_an_empty_field_does_nothing() {
    let mut app = App::new(Vec::new());
    app.handle_input(Key::Char('a'));
    app.handle_input(Key::Char('i'));
    assert_eq!(app.handle_input(Key::Backspace), Request::Idle);
    assert_eq!(app.new_task_title, "");
    type_text(&mut app, "é");
    assert_eq!(app.handle_input(Key::Backspace), Request::Idle);
    assert_eq!(app.new_task_title, "");
}

#[test]
fn cancel_clears_the_buffers_and_goes_back_to_browsing() {
    let mut app = App::new(Vec::new());
    app.handle_input(Key::Char('a'));
    app.handle_input(Key::Char('i'));
    type_text(&mut app, "draft");
    app.handle_input(Key::Esc);
    assert_eq!(app.handle_input(Key::Esc), Request::Idle);
    assert_eq!(app.input_mode, InputMode::Normal);
    assert_eq!(app.new_task_title, "");
    assert_eq!(app.new_task_description, "");
}

#[test]
fn submitting_a_blank_title_leaves_an_error() {
    let mut app = App::new(Vec::new());
    app.handle_input(Key::Char('a'));
    app.handle_input(Key::Char('i'));
    type_text(&mut app, "   ");
    app.handle_input(Key::Esc);
    assert_eq!(app.handle_input(Key::Enter), Request::Idle);
    assert_eq!(app.input_mode, InputMode::Editing);
    assert_eq!(app.error_message, Some("Task title cannot be empty.".to_string()));
    assert_eq!(app.new_task_title, "   ");
}

#[test]
fn submitting_a_title_that_cannot_be_read_leaves_its_error() {
    let mut app = App::new(Vec::new());
    app.handle_input(Key::Char('a'));
    app.handle_input(Key::Char('i'));
    type_text(&mut app, "Buy milk !8");
    app.handle_input(Key::Esc);
    assert_eq!(app.handle_input(Key::Enter), Request::Idle);
    assert_eq!(app.input_mode, InputMode::Editing);
    assert_eq!(app.error_message, Some("Input Error: Invalid priority format: 8".to_string()));
    assert_eq!(app.new_task_title, "Buy milk !8");
    app.new_task_title = "Buy milk due:2024-02-30".to_string();
    assert_eq!(app.handle_input(Key::Enter), Request::Idle);
    assert_eq!(
        app.error_message,
        Some("Input Error: Invalid due date format: 2024-02-30".to_string())
    );
}

#[test]
fn submitting_creates_refreshes_and_returns_to_browsing() {
    let mut app = App::new(Vec::new());
    assert_eq!(app.handle_input(Key::Char('a')), Request::Idle);
    assert_eq!(app.input_mode, InputMode::Editing);
    assert_eq!(app.handle_input(Key::Char('i')), Request::Idle);
    type_text(&mut app, "Buy milk !2 due:2024-01-15 {Get whole milk}");
    assert_eq!(app.handle_input(Key::Esc), Request::Idle);
    let request = app.handle_input(Key::Enter);
    assert_eq!(
        request,
        Request::CreateTask(NewTask {
            title: "Buy milk".to_string(),
            description: Some("Get whole milk".to_string()),
            priority: Some(2),
            due_date: Some(DueDate {
                year: 2024,
                month: 1,
                day: 15,
                hour: 23,
                minute: 59,
                second: 59
            }),
        })
    );
    assert_eq!(app.input_mode, InputMode::Editing);
    assert_eq!(app.error_message, None);
    assert_eq!(app.handle_response(Response::Created(Ok(()))), Request::FetchTasks { page: 1 });
    assert_eq!(app.input_mode, InputMode::Editing);
    let fetched = vec![task(1, "one", false), task(8, "Buy milk", false), task(9, "old", true)];
    assert_eq!(app.handle_response(Response::Tasks(Ok(fetched))), Request::Idle);
    assert_eq!(app.input_mode, InputMode::Normal);
    assert_eq!(ids(&app), vec![1, 8]);
    assert_eq!(app.state.selected(), Some(0));
    assert_eq!(app.new_task_title, "");
    assert_eq!(app.new_task_description, "");
    assert_eq!(app.error_message, None);
}

#[test]
fn description_field_goes_out_unread() {
    let mut app = App::new(Vec::new());
    app.handle_input(Key::Char('a'));
    app.new_task_title = "Call {inline} !1".to_string();
    app.new_task_description = " !5 {as typed} ".to_string();
    assert_eq!(
        app.handle_input(Key::Enter),
        Request::CreateTask(NewTask {
            title: "Call".to_string(),
            description: Some(" !5 {as typed} ".to_string()),
            priority: Some(1),
            due_date: None,
        })
    );
}

#[test]
fn blank_description_is_not_sent() {
    let mut app = App::new(Vec::new());
    app.handle_input(Key::Char('a'));
    app.new_task_title = "Call".to_string();
    app.new_task_description = "  ".to_string();
    assert_eq!(
        app.handle_input(Key::Enter),
        Request::CreateTask(NewTask {
            title: "Call".to_string(),
            description: None,
            priority: None,
            due_date: None,
        })
    );
}

#[test]
fn description_is_chosen_from_field_then_inline() {
    assert_eq!(choose_description("typed", Some("inline".to_string())), Some("typed".to_string()));
    assert_eq!(choose_description(" ", Some("inline".to_string())), Some("inline".to_string()));
    assert_eq!(choose_description("", Some("".to_string())), None);
    assert_eq!(choose_description("", None), None);
}

#[test]
fn failed_creation_keeps_the_buffers() {
    let mut app = App::new(Vec::new());
    app.handle_input(Key::Char('a'));
    app.new_task_title = "Call".to_string();
    app.new_task_description = "soon".to_string();
    app.handle_input(Key::Enter);
    assert_eq!(
        app.handle_response(Response::Created(Err("API Error: denied".to_string()))),
        Request::Idle
    );
    assert_eq!(
        app.error_message,
        Some("Error creating new task: API Error: denied".to_string())
    );
    assert_eq!(app.input_mode, InputMode::Editing);
    assert_eq!(app.new_task_title, "Call");
    assert_eq!(app.new_task_description, "soon");
}

#[test]
fn failed_refresh_after_creation_keeps_the_buffers() {
    let mut app = App::new(Vec::new());
    app.handle_input(Key::Char('a'));
    app.new_task_title = "Call".to_string();
    app.handle_input(Key::Enter);
    assert_eq!(app.handle_response(Response::Created(Ok(()))), Request::FetchTasks { page: 1 });
    assert_eq!(app.handle_response(Response::Tasks(Err("offline".to_string()))), Request::Idle);
    assert_eq!(app.error_message, Some("Error fetching tasks: offline".to_string()));
    assert_eq!(app.input_mode, InputMode::Editing);
    assert_eq!(app.new_task_title, "Call");
}

#[test]
fn refresh_while_browsing_keeps_the_mode() {
    let mut app = App::new(Vec::new());
    app.new_task_title = "left over".to_string();
    assert_eq!(app.handle_response(Response::Tasks(Ok(three_tasks()))), Request::Idle);
    assert_eq!(app.input_mode, InputMode::Normal);
    assert_eq!(ids(&app), vec![1, 3]);
    assert_eq!(app.new_task_title, "left over");
}
