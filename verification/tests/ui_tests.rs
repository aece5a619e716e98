use vikunja_tui::app::{ActiveInput, App, InputMode, Key, Response};
use vikunja_tui::models::{Label, Task, TaskDetail};
use vikunja_tui::ui::{
    ansi_to_text, calculate_wrapped_lines, centered_constraints, centered_rect_absolute,
    converted_lines, cut, description_lines, detail_lines, due_date_value, field_line,
    fills_exactly, get_cursor_position, get_legend, labels_line, list_rows, plan_browse,
    plan_compose, plan_error, plan_frame, popup_size, priority_value, same_text, settle_parts,
    task_row, text_spans, Body, Constraint, Direction, Line, PopupSize, Rect, Style,
};

fn rect(x: u16, y: u16, width: u16, height: u16) -> Rect {
    Rect { x, y, width, height }
}

fn spans(line: &Line) -> Vec<(String, Style)> {
    line.spans.iter().map(|s| (s.content.clone(), s.style)).collect()
}

fn plain(text: &str) -> (String, Style) {
    (text.to_string(), Style::Plain)
}

fn all_spans(lines: &[Line]) -> Vec<Vec<(String, Style)>> {
    lines.iter().map(spans).collect()
}

fn task(id: u64, title: &str, done: bool) -> Task {
    Task { id, title: title.to_string(), done }
}

fn detail() -> TaskDetail {
    TaskDetail {
        id: 1,
        title: "one".to_string(),
        done: false,
        due_date: Some("2024-01-15T23:59:59Z".to_string()),
        labels: Some(vec![
            Label { id: 1, title: "home".to_string() },
            Label { id: 2, title: "shop".to_string() },
        ]),
        priority: Some(2),
        description: Some("<p>Get whole milk</p>".to_string()),
    }
}

#[test]
fn wrapped_lines_round_up_per_line() {
    assert_eq!(calculate_wrapped_lines("", 10), 0);
    assert_eq!(calculate_wrapped_lines("a", 10), 1);
    assert_eq!(calculate_wrapped_lines("abcdefghij", 10), 1);
    assert_eq!(calculate_wrapped_lines("abcdefghijk", 10), 2);
    assert_eq!(calculate_wrapped_lines("abcdefghijklmnopqrstu", 10), 3);
    assert_eq!(calculate_wrapped_lines("abc\ndefghijklmnop\n\nq", 5), 1 + 3 + 0 + 1);
    assert_eq!(calculate_wrapped_lines("ééééé", 2), 3);
    assert_eq!(calculate_wrapped_lines("abc", 1), 3);
    assert_eq!(calculate_wrapped_lines("abc", u16::MAX), 1);
}

#[test]
fn wrapped_lines_without_width_are_none() {
    assert_eq!(calculate_wrapped_lines("abc\ndef", 0), 0);
}

#[test]
fn cursor_stands_after_the_last_line() {
    let area = rect(21, 10, 58, 3);
    assert_eq!(get_cursor_position("", area), (22, 10));
    assert_eq!(get_cursor_position("abc", area), (25, 11));
    assert_eq!(get_cursor_position("abc\nde", area), (24, 12));
    assert_eq!(get_cursor_position("abc\n", area), (25, 11));
    assert_eq!(get_cursor_position("é", area), (23, 11));
}

#[test]
fn cursor_stops_at_the_largest_number() {
    let area = rect(u16::MAX - 2, u16::MAX, 5, 5);
    assert_eq!(get_cursor_position("abc", area), (u16::MAX, u16::MAX));
    assert_eq!(get_cursor_position("a", area), (u16::MAX, u16::MAX));
    assert_eq!(get_cursor_position("", area), (u16::MAX - 1, u16::MAX));
}

#[test]
fn inner_takes_the_margin_off_each_side() {
    assert_eq!(rect(20, 9, 60, 9).inner(1, 1), rect(21, 10, 58, 7));
    assert_eq!(rect(20, 9, 60, 9).inner(0, 0), rect(20, 9, 60, 9));
    assert_eq!(rect(20, 9, 2, 2).inner(1, 1), rect(21, 10, 0, 0));
    assert_eq!(rect(20, 9, 1, 9).inner(1, 1), rect(0, 0, 0, 0));
    assert_eq!(rect(20, 9, 60, 9).inner(40000, 0), rect(0, 0, 0, 0));
}

#[test]
fn centered_constraints_share_what_is_over() {
    assert_eq!(
        centered_constraints(5, 30),
        vec![Constraint::Length(12), Constraint::Length(5), Constraint::Length(13)]
    );
    assert_eq!(
        centered_constraints(60, 100),
        vec![Constraint::Length(20), Constraint::Length(60), Constraint::Length(20)]
    );
    assert_eq!(
        centered_constraints(40, 30),
        vec![Constraint::Length(0), Constraint::Length(40), Constraint::Length(0)]
    );
    assert_eq!(
        centered_constraints(0, u16::MAX),
        vec![Constraint::Length(32767), Constraint::Length(0), Constraint::Length(32768)]
    );
}

#[test]
fn centered_rect_is_in_the_middle() {
    assert_eq!(centered_rect_absolute(60, 5, rect(0, 0, 100, 30)), rect(20, 12, 60, 5));
    assert_eq!(centered_rect_absolute(60, 9, rect(0, 0, 100, 28)), rect(20, 9, 60, 9));
    assert_eq!(centered_rect_absolute(10, 4, rect(5, 3, 10, 4)), rect(5, 3, 10, 4));
}

#[test]
fn centered_rect_stays_in_a_small_area() {
    let outer = rect(2, 1, 20, 3);
    let popup = centered_rect_absolute(60, 5, outer);
    assert!(popup.x >= outer.x && popup.x + popup.width <= outer.x + outer.width);
    assert!(popup.y >= outer.y && popup.y + popup.height <= outer.y + outer.height);
}

#[test]
fn legend_lists_the_keys_of_each_mode() {
    let key = |text: &str| (text.to_string(), Style::Key);
    assert_eq!(
        spans(&get_legend(&InputMode::Normal)),
        vec![
            key(" q "),
            plain(": Quit "),
            key(" j "),
            plain(": Down "),
            key(" k "),
            plain(": Up "),
            key(" n "),
            plain(": Next Page "),
            key(" p "),
            plain(": Previous Page "),
            key(" t "),
            plain(": Toggle Done "),
            key(" Enter "),
            plain(": View Details "),
            key(" a "),
            plain(": Add Task "),
        ]
    );
    assert_eq!(
        spans(&get_legend(&InputMode::Editing)),
        vec![
            key(" i "),
            plain(": Insert "),
            key(" Tab "),
            plain(": Switch Input "),
            key(" Enter "),
            plain(": Submit "),
            key(" Esc "),
            plain(": Cancel "),
        ]
    );
    assert_eq!(
        spans(&get_legend(&InputMode::Insert)),
        vec![key(" Esc "), plain(": Exit Insert Mode ")]
    );
}

#[test]
fn ansi_text_loses_its_escape_sequences() {
    let lines = ansi_to_text("\u{1b}[1mBold\u{1b}[0m and plain\nsecond\n\nfourth");
    assert_eq!(
        all_spans(&lines),
        vec![
            vec![plain("Bold"), plain(" and plain")],
            vec![plain("second")],
            vec![],
            vec![plain("fourth")],
        ]
    );
}

#[test]
fn ansi_text_without_escape_sequences_is_kept() {
    assert_eq!(all_spans(&ansi_to_text("just text")), vec![vec![plain("just text")]]);
    assert_eq!(all_spans(&ansi_to_text("")), Vec::<Vec<(String, Style)>>::new());
}

#[test]
fn text_spans_keeps_the_texts_in_order() {
    let line = text_spans(vec![Some("a".to_string()), None, Some("b".to_string()), None]);
    assert_eq!(spans(&line), vec![plain("a"), plain("b")]);
    assert_eq!(spans(&text_spans(vec![None])), vec![]);
}

#[test]
fn same_text_compares_characters() {
    assert!(same_text("abc", "abc"));
    assert!(!same_text("abc", "abd"));
    assert!(!same_text("abc", "ab"));
}

#[test]
fn due_date_value_falls_back_for_none_and_zero() {
    assert_eq!(due_date_value(&Some("2024-01-15T23:59:59Z".to_string())), "2024-01-15T23:59:59Z");
    assert_eq!(due_date_value(&Some("0001-01-01T00:00:00Z".to_string())), "No due date");
    assert_eq!(due_date_value(&None), "No due date");
}

#[test]
fn priority_value_writes_the_number() {
    assert_eq!(priority_value(Some(3)), "3");
    assert_eq!(priority_value(Some(0)), "0");
    assert_eq!(priority_value(Some(-12)), "-12");
    assert_eq!(priority_value(None), "No priority");
}

#[test]
fn labels_line_tags_each_label() {
    let labels = Some(vec![
        Label { id: 1, title: "home".to_string() },
        Label { id: 2, title: "shop".to_string() },
        Label { id: 3, title: "x".to_string() },
    ]);
    assert_eq!(
        spans(&labels_line(&labels)),
        vec![
            (" home ".to_string(), Style::Label),
            plain(" "),
            (" shop ".to_string(), Style::Label),
            plain(" "),
            (" x ".to_string(), Style::Label),
        ]
    );
    assert_eq!(spans(&labels_line(&Some(Vec::new()))), vec![plain("No labels")]);
    assert_eq!(spans(&labels_line(&None)), vec![plain("No labels")]);
}

#[test]
fn field_line_has_heading_and_value() {
    assert_eq!(
        spans(&field_line("Priority: ", "3")),
        vec![("Priority: ".to_string(), Style::Heading), plain("3")]
    );
}

#[test]
fn description_falls_back_for_none_and_empty_markup() {
    assert_eq!(all_spans(&description_lines(&None, 30)), vec![vec![plain("No description")]]);
    assert_eq!(
        all_spans(&description_lines(&Some("  <p></p>\n".to_string()), 30)),
        vec![vec![plain("No description")]]
    );
}

#[test]
fn description_markup_becomes_wrapped_plain_text() {
    let markup = Some("<p>Get whole milk</p>".to_string());
    assert_eq!(all_spans(&description_lines(&markup, 30)), vec![vec![plain("Get whole milk")]]);
    assert_eq!(
        all_spans(&description_lines(&markup, 10)),
        vec![vec![plain("Get whole")], vec![plain("milk")]]
    );
}

#[test]
fn description_that_cannot_be_converted_is_shown_as_sent() {
    let markup = Some("<p>Get whole milk</p>".to_string());
    assert_eq!(
        all_spans(&description_lines(&markup, 0)),
        vec![vec![plain("<p>Get whole milk</p>")]]
    );
    assert_eq!(
        all_spans(&converted_lines("<b>x</b>", Some("x\ny".to_string()))),
        vec![vec![plain("x")], vec![plain("y")]]
    );
    assert_eq!(all_spans(&converted_lines("<b>x</b>", None)), vec![vec![plain("<b>x</b>")]]);
}

#[test]
fn detail_lines_come_in_a_fixed_order() {
    let heading = |text: &str| (text.to_string(), Style::Heading);
    assert_eq!(
        all_spans(&detail_lines(&detail(), 30)),
        vec![
            vec![heading("Due Date: "), plain("2024-01-15T23:59:59Z")],
            vec![heading("Priority: "), plain("2")],
            vec![heading("Labels: ")],
            vec![(" home ".to_string(), Style::Label), plain(" "), (" shop ".to_string(), Style::Label)],
            vec![heading("Description: ")],
            vec![plain("Get whole milk")],
        ]
    );
    let bare = TaskDetail {
        id: 2,
        title: "two".to_string(),
        done: true,
        due_date: None,
        labels: None,
        priority: None,
        description: None,
    };
    assert_eq!(
        all_spans(&detail_lines(&bare, 30)),
        vec![
            vec![heading("Due Date: "), plain("No due date")],
            vec![heading("Priority: "), plain("No priority")],
            vec![heading("Labels: ")],
            vec![plain("No labels")],
            vec![heading("Description: ")],
            vec![plain("No description")],
        ]
    );
}

#[test]
fn task_rows_mark_completed_tasks() {
    assert_eq!(spans(&task_row(&task(1, "one", false))), vec![plain("one")]);
    assert_eq!(
        spans(&task_row(&task(2, "two", true))),
        vec![("DONE ".to_string(), Style::Done), plain("two")]
    );
    assert_eq!(
        all_spans(&list_rows(&vec![task(1, "one", false), task(2, "two", true)])),
        vec![vec![plain("one")], vec![("DONE ".to_string(), Style::Done), plain("two")]]
    );
    assert_eq!(all_spans(&list_rows(&Vec::new())), vec![vec![plain("No tasks available")]]);
}

#[test]
fn popup_grows_with_its_texts() {
    let viewport = rect(0, 0, 100, 30);
    assert_eq!(
        popup_size("", "", viewport),
        PopupSize { width: 60, height: 9, title_box: 3, description_box: 4 }
    );
    let long = "x".repeat(59);
    assert_eq!(
        popup_size(&long, "a\nb\nc", viewport),
        PopupSize { width: 60, height: 11, title_box: 4, description_box: 5 }
    );
}

#[test]
fn popup_height_leaves_the_margin_free() {
    let long = "x".repeat(58 * 40);
    assert_eq!(
        popup_size(&long, "", rect(0, 0, 100, 30)),
        PopupSize { width: 60, height: 28, title_box: 42, description_box: 4 }
    );
    assert_eq!(
        popup_size("", "", rect(0, 0, 100, 1)),
        PopupSize { width: 60, height: 0, title_box: 3, description_box: 4 }
    );
}

#[test]
fn popup_on_a_terminal_without_width_has_the_least_rows() {
    assert_eq!(
        popup_size("some title", "some text", rect(0, 0, 3, 30)),
        PopupSize { width: 2, height: 9, title_box: 3, description_box: 4 }
    );
}

#[test]
fn popup_width_is_its_share_of_a_wide_terminal() {
    assert_eq!(popup_size("", "", rect(0, 0, u16::MAX, 30)).width, 39321);
}

#[test]
fn browsing_frame_has_list_details_and_legend() {
    let mut app = App::new(vec![task(1, "one", false), task(2, "two", true)]);
    app.next();
    let viewport = rect(0, 0, 100, 30);
    let frame = plan_frame(&app, viewport);
    assert_eq!(frame.main, rect(0, 0, 100, 28));
    assert_eq!(frame.footer, rect(0, 28, 100, 2));
    assert_eq!(spans(&frame.legend), spans(&get_legend(&InputMode::Normal)));
    assert!(frame.error.is_none());
    match frame.body {
        Body::Browse { list, detail } => {
            assert_eq!(list.area, rect(0, 0, 65, 28));
            assert_eq!(list.title, "Tasks (Undone)");
            assert_eq!(list.selected, Some(1));
            assert_eq!(
                all_spans(&list.rows),
                vec![vec![plain("one")], vec![("DONE ".to_string(), Style::Done), plain("two")]]
            );
            assert_eq!(detail.area, rect(65, 0, 35, 28));
            assert_eq!(detail.title, "Task Details");
            assert_eq!(
                all_spans(&detail.lines),
                vec![vec![plain("Press Enter to view task details")]]
            );
        }
        other => panic!("unexpected body {:?}", other),
    }
}

#[test]
fn browsing_frame_shows_the_fetched_task_at_the_width_of_its_pane() {
    let mut app = App::new(vec![task(1, "one", false)]);
    app.show_done_tasks = true;
    let mut fetched = detail();
    fetched.description =
        Some("<p>Get whole milk from the shop around the corner today</p>".to_string());
    app.handle_response(Response::Detail(Ok(fetched)));
    let (list, panel) = plan_browse(&app, rect(0, 0, 100, 28));
    assert_eq!(list.title, "Tasks (All)");
    assert_eq!(panel.area, rect(65, 0, 35, 28));
    let lines = all_spans(&panel.lines);
    assert_eq!(lines[4], vec![("Description: ".to_string(), Style::Heading)]);
    assert_eq!(
        lines[5..].to_vec(),
        vec![vec![plain("Get whole milk from the shop")], vec![plain("around the corner today")]]
    );
}

#[test]
fn composing_frame_has_the_popup_and_the_cursor() {
    let mut app = App::new(Vec::new());
    app.handle_input(Key::Char('a'));
    let viewport = rect(0, 0, 100, 30);
    let frame = plan_frame(&app, viewport);
    assert_eq!(frame.footer, rect(0, 28, 100, 2));
    assert_eq!(spans(&frame.legend), spans(&get_legend(&InputMode::Editing)));
    match frame.body {
        Body::Compose { popup } => {
            assert_eq!(popup.area, rect(20, 9, 60, 9));
            assert_eq!(popup.title, "Enter New Task (Press Enter to Submit, Tab to Switch)");
            assert_eq!(popup.title_box.area, rect(21, 10, 58, 3));
            assert_eq!(popup.title_box.title, "Title");
            assert_eq!(popup.title_box.text, "");
            assert!(popup.title_box.active);
            assert_eq!(popup.description_box.area, rect(21, 13, 58, 4));
            assert_eq!(popup.description_box.title, "Description");
            assert!(!popup.description_box.active);
            assert_eq!(popup.cursor, (22, 10));
        }
        other => panic!("unexpected body {:?}", other),
    }
}

#[test]
fn composing_popup_follows_the_selected_field() {
    let mut app = App::new(Vec::new());
    app.handle_input(Key::Char('a'));
    app.new_task_title = "Buy milk".to_string();
    app.new_task_description = "Get whole milk".to_string();
    app.handle_input(Key::Tab);
    app.handle_input(Key::Char('i'));
    assert_eq!(app.active_input, ActiveInput::Description);
    let popup = plan_compose(&app, rect(0, 0, 100, 30), rect(0, 0, 100, 28));
    assert_eq!(popup.title_box.text, "Buy milk");
    assert_eq!(popup.description_box.text, "Get whole milk");
    assert!(!popup.title_box.active);
    assert!(popup.description_box.active);
    assert_eq!(popup.description_box.area, rect(21, 13, 58, 4));
    assert_eq!(popup.cursor, (21 + 14 + 1, 13 + 1));
    let frame = plan_frame(&app, rect(0, 0, 100, 30));
    assert_eq!(spans(&frame.legend), spans(&get_legend(&InputMode::Insert)));
}

#[test]
fn error_message_is_laid_over_the_frame() {
    let mut app = App::new(Vec::new());
    app.handle_input(Key::Char('a'));
    app.handle_input(Key::Enter);
    let frame = plan_frame(&app, rect(0, 0, 100, 30));
    let panel = frame.error.unwrap();
    assert_eq!(panel.area, rect(20, 12, 60, 5));
    assert_eq!(panel.title, "Error");
    assert_eq!(all_spans(&panel.lines), vec![vec![plain("Task title cannot be empty.")]]);
    let panel = plan_error("offline", rect(0, 0, 80, 24));
    assert_eq!(panel.area, rect(10, 9, 60, 5));
    assert_eq!(all_spans(&panel.lines), vec![vec![plain("offline")]]);
}

#[test]
fn frame_on_a_terminal_without_cells_has_empty_regions() {
    let app = App::new(vec![task(1, "one", false)]);
    let frame = plan_frame(&app, rect(0, 0, 0, 0));
    assert_eq!(frame.footer.width, 0);
    assert_eq!(frame.footer.height, 0);
    let mut composing = App::new(Vec::new());
    composing.handle_input(Key::Char('a'));
    composing.new_task_title = "title".to_string();
    let frame = plan_frame(&composing, rect(0, 0, 2, 1));
    match frame.body {
        Body::Compose { popup } => {
            assert!(popup.area.width <= 2 && popup.area.height <= 1);
            assert_eq!(popup.title_box.text, "title");
        }
        other => panic!("unexpected body {:?}", other),
    }
}

#[test]
fn inner_agrees_with_the_terminal_library() {
    let numbers = [0u16, 1, 2, 3, 10, 100, 32767, 32768, 65534, 65535];
    for &x in &numbers {
        for &width in &numbers {
            for &margin in &numbers {
                let ours = rect(x, 7, width, 9).inner(margin, 1);
                let theirs = ratatui::layout::Rect { x, y: 7, width, height: 9 }
                    .inner(ratatui::layout::Margin { horizontal: margin, vertical: 1 });
                assert_eq!(
                    (ours.x, ours.y, ours.width, ours.height),
                    (theirs.x, theirs.y, theirs.width, theirs.height)
                );
                let ours = rect(7, x, 9, width).inner(1, margin);
                let theirs = ratatui::layout::Rect { x: 7, y: x, width: 9, height: width }
                    .inner(ratatui::layout::Margin { horizontal: 1, vertical: margin });
                assert_eq!(
                    (ours.x, ours.y, ours.width, ours.height),
                    (theirs.x, theirs.y, theirs.width, theirs.height)
                );
            }
        }
    }
}

#[test]
fn regions_lie_on_the_terminal_whatever_its_size() {
    let mut browsing = App::new(vec![task(1, "one", false)]);
    browsing.handle_response(Response::Tasks(Err("offline".to_string())));
    let mut composing = App::new(Vec::new());
    composing.handle_input(Key::Char('a'));
    composing.new_task_title = "x".repeat(500);
    composing.handle_input(Key::Enter);
    let inside = |area: Rect, outer: Rect| {
        area.width == 0
            || area.height == 0
            || (area.x >= outer.x
                && area.y >= outer.y
                && area.x as u32 + area.width as u32 <= outer.x as u32 + outer.width as u32
                && area.y as u32 + area.height as u32 <= outer.y as u32 + outer.height as u32)
    };
    for (width, height) in [(0, 0), (1, 1), (2, 5), (5, 2), (10, 3), (59, 4), (80, 24), (200, 60)] {
        let viewport = rect(0, 0, width, height);
        for app in [&browsing, &composing] {
            let frame = plan_frame(app, viewport);
            assert!(inside(frame.footer, viewport));
            if let Some(panel) = &frame.error {
                assert!(inside(panel.area, viewport));
            }
            match &frame.body {
                Body::Browse { list, detail } => {
                    assert!(inside(list.area, viewport));
                    assert!(inside(detail.area, viewport));
                }
                Body::Compose { popup } => {
                    assert!(inside(popup.area, viewport));
                    assert!(inside(popup.title_box.area, viewport));
                    assert!(inside(popup.description_box.area, viewport));
                }
            }
        }
    }
}

#[test]
fn lengths_that_fill_an_area_are_told_apart() {
    let lengths = vec![Constraint::Length(3), Constraint::Length(4)];
    assert!(fills_exactly(Direction::Vertical, &lengths, rect(21, 10, 58, 7)));
    assert!(!fills_exactly(Direction::Vertical, &lengths, rect(21, 10, 58, 8)));
    assert!(!fills_exactly(Direction::Vertical, &lengths, rect(21, 10, 58, 6)));
    assert!(!fills_exactly(Direction::Horizontal, &lengths, rect(21, 10, 58, 7)));
    assert!(fills_exactly(Direction::Horizontal, &lengths, rect(21, 10, 7, 58)));
    assert!(!fills_exactly(Direction::Vertical, &lengths, rect(21, u16::MAX - 6, 58, 7)));
    assert!(fills_exactly(Direction::Vertical, &lengths, rect(21, u16::MAX - 7, 58, 7)));
    let mixed = vec![Constraint::Min(3), Constraint::Length(4)];
    assert!(!fills_exactly(Direction::Vertical, &mixed, rect(21, 10, 58, 7)));
    let shares = vec![Constraint::Percentage(50), Constraint::Percentage(50)];
    assert!(!fills_exactly(Direction::Vertical, &shares, rect(0, 0, 100, 100)));
    assert!(fills_exactly(Direction::Vertical, &Vec::new(), rect(3, 4, 5, 0)));
    assert!(!fills_exactly(Direction::Vertical, &Vec::new(), rect(3, 4, 5, 1)));
    let many = vec![Constraint::Length(u16::MAX); 70000];
    assert!(!fills_exactly(Direction::Vertical, &many, rect(0, 0, 1, u16::MAX)));
}

#[test]
fn cut_gives_each_length_its_cells() {
    let heights = vec![Constraint::Length(3), Constraint::Length(4)];
    assert_eq!(
        cut(Direction::Vertical, &heights, rect(21, 10, 58, 7)),
        vec![rect(21, 10, 58, 3), rect(21, 13, 58, 4)]
    );
    let widths = vec![Constraint::Length(20), Constraint::Length(60), Constraint::Length(20)];
    assert_eq!(
        cut(Direction::Horizontal, &widths, rect(0, 12, 100, 5)),
        vec![rect(0, 12, 20, 5), rect(20, 12, 60, 5), rect(80, 12, 20, 5)]
    );
    let empty = vec![Constraint::Length(0), Constraint::Length(5), Constraint::Length(0)];
    assert_eq!(
        cut(Direction::Vertical, &empty, rect(2, 3, 4, 5)),
        vec![rect(2, 3, 4, 0), rect(2, 3, 4, 5), rect(2, 8, 4, 0)]
    );
}

#[test]
fn cut_by_other_constraints_is_what_the_layout_gives() {
    let rows = vec![Constraint::Min(0), Constraint::Length(2)];
    assert_eq!(
        cut(Direction::Vertical, &rows, rect(0, 0, 100, 30)),
        vec![rect(0, 0, 100, 28), rect(0, 28, 100, 2)]
    );
    let shares = vec![Constraint::Percentage(65), Constraint::Percentage(35)];
    assert_eq!(
        cut(Direction::Horizontal, &shares, rect(0, 0, 100, 28)),
        vec![rect(0, 0, 65, 28), rect(65, 0, 35, 28)]
    );
}

#[test]
fn settled_parts_have_the_cells_of_lengths_that_fill() {
    let heights = vec![Constraint::Length(3), Constraint::Length(4)];
    let area = rect(21, 10, 58, 7);
    let wanted = vec![rect(21, 10, 58, 3), rect(21, 13, 58, 4)];
    assert_eq!(settle_parts(Direction::Vertical, &heights, area, wanted.clone()), wanted);
    let elsewhere = vec![rect(21, 10, 58, 7), rect(21, 17, 58, 0)];
    assert_eq!(settle_parts(Direction::Vertical, &heights, area, elsewhere), wanted);
    let swapped = vec![rect(21, 13, 58, 4), rect(21, 10, 58, 3)];
    assert_eq!(settle_parts(Direction::Vertical, &heights, area, swapped), wanted);
}

#[test]
fn settled_parts_are_left_alone_where_nothing_is_owed() {
    let heights = vec![Constraint::Length(3), Constraint::Length(4)];
    let given = vec![rect(21, 10, 58, 3), rect(21, 13, 58, 5)];
    assert_eq!(
        settle_parts(Direction::Vertical, &heights, rect(21, 10, 58, 8), given.clone()),
        given
    );
    assert_eq!(
        settle_parts(Direction::Vertical, &heights, rect(21, 10, 58, 7), vec![rect(1, 2, 3, 4)]),
        vec![rect(1, 2, 3, 4)]
    );
    let rows = vec![Constraint::Min(0), Constraint::Length(2)];
    let parts = vec![rect(0, 0, 100, 20), rect(0, 20, 100, 10)];
    assert_eq!(
        settle_parts(Direction::Vertical, &rows, rect(0, 0, 100, 30), parts.clone()),
        parts
    );
}

#[test]
fn layout_gives_lengths_that_fill_their_cells() {
    for (start, lengths) in [
        (0u16, vec![12u16, 5, 13]),
        (7, vec![0, 9, 0]),
        (3, vec![1, 1, 1, 1]),
        (100, vec![20, 60, 20]),
        (0, vec![3, 4]),
        (65000, vec![200, 100, 235]),
        (9, vec![40]),
    ] {
        let extent: u16 = lengths.iter().sum();
        for vertical in [true, false] {
            let (area, direction, way) = if vertical {
                (rect(4, start, 11, extent), Direction::Vertical, ratatui::layout::Direction::Vertical)
            } else {
                (
                    rect(start, 4, extent, 11),
                    Direction::Horizontal,
                    ratatui::layout::Direction::Horizontal,
                )
            };
            let ours = cut(
                direction,
                &lengths.iter().map(|n| Constraint::Length(*n)).collect(),
                area,
            );
            let theirs: Vec<Rect> = ratatui::layout::Layout::default()
                .direction(way)
                .constraints(lengths.iter().map(|n| ratatui::layout::Constraint::Length(*n)))
                .split(ratatui::layout::Rect {
                    x: area.x,
                    y: area.y,
                    width: area.width,
                    height: area.height,
                })
                .iter()
                .map(|r| rect(r.x, r.y, r.width, r.height))
                .collect();
            assert_eq!(ours, theirs, "{:?} at {}", lengths, start);
        }
    }
}

#[test]
fn centered_rect_is_pinned_where_it_fits() {
    for (width, height, outer) in [
        (60u16, 5u16, rect(0, 0, 100, 30)),
        (60, 9, rect(0, 0, 100, 28)),
        (1, 1, rect(9, 9, 4, 4)),
        (0, 0, rect(9, 9, 5, 5)),
        (7, 3, rect(65000, 65000, 535, 535)),
        (10, 4, rect(5, 3, 10, 4)),
    ] {
        let popup = centered_rect_absolute(width, height, outer);
        assert_eq!(
            popup,
            rect(
                outer.x + (outer.width - width) / 2,
                outer.y + (outer.height - height) / 2,
                width,
                height
            )
        );
    }
}

#[test]
fn centered_rect_is_pinned_each_way_on_its_own() {
    let popup = centered_rect_absolute(60, 5, rect(2, 1, 20, 30));
    assert_eq!((popup.y, popup.height), (13, 5));
    assert!(popup.x >= 2 && popup.x + popup.width <= 22);
    let popup = centered_rect_absolute(10, 50, rect(2, 1, 20, 30));
    assert_eq!((popup.x, popup.width), (7, 10));
    assert!(popup.y >= 1 && popup.y + popup.height <= 31);
}
