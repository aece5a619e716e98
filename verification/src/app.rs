//! The interaction state of the client: the page of tasks on show, the
//! cursor, the edit buffers and the mode, and how a key or an answer of the
//! task service changes them.

use crate::models::{Task, TaskDetail};
use crate::parser::{
    parse_outcome, parse_task_input, text_of, DueDate, ParseError, ParsedTask,
};
use crate::text::{chars_of, is_blank, is_blank_text};
use vstd::prelude::*;

verus! {

/// `String::pop` takes the last character off the string and returns it, or
/// returns `None` and leaves the string alone where it is empty.
pub assume_specification[ String::pop ](s: &mut String) -> (c: Option<char>)
    ensures
        old(s)@.len() > 0 ==> c == Some(old(s)@.last()) && final(s)@ == old(s)@.drop_last(),
        old(s)@.len() == 0 ==> c is None && final(s)@ == old(s)@,
;

/// What the keys do at the moment.
#[derive(Clone, Copy, Debug, PartialEq, Eq, Structural)]
pub enum InputMode {
    /// Moving through the list and looking at tasks.
    Normal,
    /// Working on a new task's two fields, without typing into them.
    Editing,
    /// Typing into the field that is selected.
    Insert,
}

/// The field of a new task that typing goes to.
#[derive(Clone, Copy, Debug, PartialEq, Eq, Structural)]
pub enum ActiveInput {
    Title,
    Description,
}

/// A key of the keyboard, as far as the client tells keys apart.
#[derive(Clone, Copy, Debug, PartialEq, Eq, Structural)]
pub enum Key {
    Char(char),
    Enter,
    Tab,
    Esc,
    Backspace,
    Other,
}

/// What the user asks for, whichever key it is bound to.
#[derive(Clone, Copy, Debug, PartialEq, Eq, Structural)]
pub enum Command {
    Quit,
    MoveDown,
    MoveUp,
    NextPage,
    PreviousPage,
    ToggleFilter,
    BeginCreate,
    Inspect,
    EnterTextMode,
    SwitchField,
    Submit,
    Cancel,
    ExitTextMode,
    Insert(char),
    EraseBackward,
}

/// The cursor of the task list: the index of the selected row, if any.
#[derive(Clone, Copy, Debug, PartialEq, Eq, Structural)]
pub struct ListState {
    selected: Option<usize>,
}

impl ListState {
    /// The index of the selected row.
    pub closed spec fn selection(&self) -> Option<usize> {
        self.selected
    }

    /// A cursor that selects `index`.
    pub fn new(index: Option<usize>) -> (state: ListState)
        ensures
            state.selection() == index,
    {
        ListState { selected: index }
    }

    /// The index of the selected row.
    pub fn selected(&self) -> (index: Option<usize>)
        ensures
            index == self.selection(),
    {
        self.selected
    }

    /// Moves the cursor to `index`.
    pub fn select(&mut self, index: Option<usize>)
        ensures
            final(self).selection() == index,
    {
        self.selected = index;
    }
}

/// A task to be created.
#[derive(Debug, PartialEq)]
pub struct NewTask {
    pub title: String,
    pub description: Option<String>,
    pub priority: Option<u8>,
    pub due_date: Option<DueDate>,
}

/// A `NewTask` as values.
pub struct NewTaskView {
    pub title: Seq<char>,
    pub description: Option<Seq<char>>,
    pub priority: Option<u8>,
    pub due_date: Option<DueDate>,
}

impl View for NewTask {
    type V = NewTaskView;

    open spec fn view(&self) -> NewTaskView {
        NewTaskView {
            title: self.title@,
            description: text_of(self.description),
            priority: self.priority,
            due_date: self.due_date,
        }
    }
}

/// What the event loop has to do next for the state machine.
#[derive(Debug, PartialEq)]
pub enum Request {
    /// Nothing: wait for the next key.
    Idle,
    /// End the program.
    Quit,
    /// Fetch this page of the task list and answer with `Response::Tasks`.
    FetchTasks { page: usize },
    /// Fetch the whole record of one task and answer with `Response::Detail`.
    FetchDetail { id: u64 },
    /// Create the task that is given and answer with `Response::Created`.
    CreateTask(NewTask),
}

/// A `Request` as a value.
pub enum RequestView {
    Idle,
    Quit,
    FetchTasks { page: usize },
    FetchDetail { id: u64 },
    CreateTask(NewTaskView),
}

impl View for Request {
    type V = RequestView;

    open spec fn view(&self) -> RequestView {
        match self {
            Request::Idle => RequestView::Idle,
            Request::Quit => RequestView::Quit,
            Request::FetchTasks { page } => RequestView::FetchTasks { page: *page },
            Request::FetchDetail { id } => RequestView::FetchDetail { id: *id },
            Request::CreateTask(task) => RequestView::CreateTask(task@),
        }
    }
}

/// How the task service answered a request; an error is its text.
#[derive(Debug)]
pub enum Response {
    Tasks(Result<Vec<Task>, String>),
    Detail(Result<TaskDetail, String>),
    Created(Result<(), String>),
}

/// The whole state of the client.
pub struct App {
    pub tasks: Vec<Task>,
    pub state: ListState,
    pub task_detail: Option<TaskDetail>,
    pub input_mode: InputMode,
    pub active_input: ActiveInput,
    pub new_task_title: String,
    pub new_task_description: String,
    pub page: usize,
    pub show_done_tasks: bool,
    pub error_message: Option<String>,
}

/// The state of the client as values: its texts as sequences of characters.
pub struct AppView {
    pub tasks: Seq<Task>,
    pub selected: Option<usize>,
    pub task_detail: Option<TaskDetail>,
    pub input_mode: InputMode,
    pub active_input: ActiveInput,
    pub new_task_title: Seq<char>,
    pub new_task_description: Seq<char>,
    pub page: usize,
    pub show_done_tasks: bool,
    pub error_message: Option<Seq<char>>,
}

impl View for App {
    type V = AppView;

    open spec fn view(&self) -> AppView {
        AppView {
            tasks: self.tasks@,
            selected: self.state.selection(),
            task_detail: self.task_detail,
            input_mode: self.input_mode,
            active_input: self.active_input,
            new_task_title: self.new_task_title@,
            new_task_description: self.new_task_description@,
            page: self.page,
            show_done_tasks: self.show_done_tasks,
            error_message: text_of(self.error_message),
        }
    }
}

/// Shown when a task is submitted without a title.
pub const EMPTY_TITLE_MESSAGE: &'static str = "Task title cannot be empty.";

/// Stands before the message of a title that could not be read.
pub const INPUT_ERROR_PREFIX: &'static str = "Input Error: ";

/// Stands before the task service's words when a task could not be created.
pub const CREATE_ERROR_PREFIX: &'static str = "Error creating new task: ";

/// Stands before the task service's words when the list could not be fetched.
pub const FETCH_TASKS_ERROR_PREFIX: &'static str = "Error fetching tasks: ";

/// Stands before the task service's words when a task could not be fetched.
pub const FETCH_DETAIL_ERROR_PREFIX: &'static str = "Error fetching task details: ";

/// The command that `key` gives in `mode`, if it is bound to one there.
pub open spec fn key_command(mode: InputMode, key: Key) -> Option<Command> {
    match mode {
        InputMode::Normal => match key {
            Key::Char(c) => if c == 'q' {
                Some(Command::Quit)
            } else if c == 'j' {
                Some(Command::MoveDown)
            } else if c == 'k' {
                Some(Command::MoveUp)
            } else if c == 'n' {
                Some(Command::NextPage)
            } else if c == 'p' {
                Some(Command::PreviousPage)
            } else if c == 't' {
                Some(Command::ToggleFilter)
            } else if c == 'a' {
                Some(Command::BeginCreate)
            } else {
                None
            },
            Key::Enter => Some(Command::Inspect),
            _ => None,
        },
        InputMode::Editing => match key {
            Key::Char(c) => if c == 'i' {
                Some(Command::EnterTextMode)
            } else {
                None
            },
            Key::Tab => Some(Command::SwitchField),
            Key::Enter => Some(Command::Submit),
            Key::Esc => Some(Command::Cancel),
            _ => None,
        },
        InputMode::Insert => match key {
            Key::Char(c) => Some(Command::Insert(c)),
            Key::Backspace => Some(Command::EraseBackward),
            Key::Esc => Some(Command::ExitTextMode),
            _ => None,
        },
    }
}

/// The command that `key` gives in `mode`, if it is bound to one there.
pub fn command_for(mode: InputMode, key: Key) -> (command: Option<Command>)
    ensures
        command == key_command(mode, key),
{
    match mode {
        InputMode::Normal => match key {
            Key::Char(c) => if c == 'q' {
                Some(Command::Quit)
            } else if c == 'j' {
                Some(Command::MoveDown)
            } else if c == 'k' {
                Some(Command::MoveUp)
            } else if c == 'n' {
                Some(Command::NextPage)
            } else if c == 'p' {
                Some(Command::PreviousPage)
            } else if c == 't' {
                Some(Command::ToggleFilter)
            } else if c == 'a' {
                Some(Command::BeginCreate)
            } else {
                None
            },
            Key::Enter => Some(Command::Inspect),
            _ => None,
        },
        InputMode::Editing => match key {
            Key::Char(c) => if c == 'i' {
                Some(Command::EnterTextMode)
            } else {
                None
            },
            Key::Tab => Some(Command::SwitchField),
            Key::Enter => Some(Command::Submit),
            Key::Esc => Some(Command::Cancel),
            _ => None,
        },
        InputMode::Insert => match key {
            Key::Char(c) => Some(Command::Insert(c)),
            Key::Backspace => Some(Command::EraseBackward),
            Key::Esc => Some(Command::ExitTextMode),
            _ => None,
        },
    }
}

/// The cursor on a fresh list of `len` rows: the first row, or none.
pub open spec fn first_index(len: nat) -> Option<usize> {
    if len > 0 {
        Some(0)
    } else {
        None
    }
}

/// The cursor one row down from `selected` in a list of `len` rows: from the
/// last row it goes to the first. Without rows there is no cursor.
pub open spec fn next_index(selected: Option<usize>, len: nat) -> Option<usize> {
    if len == 0 {
        None
    } else {
        match selected {
            Some(i) => if i + 1 >= len {
                Some(0)
            } else {
                Some((i + 1) as usize)
            },
            None => Some(0),
        }
    }
}

/// The cursor one row up from `selected` in a list of `len` rows: from the
/// first row it goes to the last. Without rows there is no cursor.
pub open spec fn previous_index(selected: Option<usize>, len: nat) -> Option<usize> {
    if len == 0 {
        None
    } else {
        match selected {
            Some(i) => if i == 0 || i >= len {
                Some((len - 1) as usize)
            } else {
                Some((i - 1) as usize)
            },
            None => Some(0),
        }
    }
}

/// The page after `page`. The number stops at the largest that the machine holds.
pub open spec fn page_after(page: usize) -> usize {
    if page < usize::MAX {
        (page + 1) as usize
    } else {
        page
    }
}

/// The page before `page`, and page 1 where there is none.
pub open spec fn page_before(page: usize) -> usize {
    if page > 1 {
        (page - 1) as usize
    } else {
        1
    }
}

/// The tasks of `items` that are listed: all of them where completed tasks
/// are kept, else those that are not completed, in their order.
pub open spec fn visible(items: Seq<Task>, keep_done: bool) -> Seq<Task> {
    if keep_done {
        items
    } else {
        items.filter(|t: Task| !t.done)
    }
}

/// The description that goes out with a new task: what the description field
/// holds, unless that is blank; then the inline description of the title,
/// unless that is missing or blank too.
pub open spec fn chosen_description(field: Seq<char>, inline: Option<Seq<char>>) -> Option<
    Seq<char>,
> {
    if !is_blank(field) {
        Some(field)
    } else {
        match inline {
            Some(d) => if is_blank(d) {
                None
            } else {
                Some(d)
            },
            None => None,
        }
    }
}

impl AppView {
    /// The cursor is on a row of the list, and on none only where the list is
    /// empty; pages count from 1.
    pub open spec fn wf(self) -> bool {
        &&& self.selected matches Some(i) ==> i < self.tasks.len()
        &&& self.selected is None ==> self.tasks.len() == 0
        &&& self.page >= 1
    }

    /// The state with these tasks listed and the cursor on the first of them.
    pub open spec fn listing(self, shown: Seq<Task>) -> AppView {
        AppView { tasks: shown, selected: first_index(shown.len()), ..self }
    }

    /// The state without an error message.
    pub open spec fn cleared(self) -> AppView {
        AppView { error_message: None, ..self }
    }

    /// The state with the error message `text`.
    pub open spec fn failed(self, text: Seq<char>) -> AppView {
        AppView { error_message: Some(text), ..self }
    }

    /// The state with both edit buffers empty, in the mode `mode`.
    pub open spec fn emptied(self, mode: InputMode) -> AppView {
        AppView {
            new_task_title: Seq::empty(),
            new_task_description: Seq::empty(),
            input_mode: mode,
            ..self
        }
    }

    /// The state with the character `c` at the end of the selected field.
    pub open spec fn typed(self, c: char) -> AppView {
        match self.active_input {
            ActiveInput::Title => AppView { new_task_title: self.new_task_title.push(c), ..self },
            ActiveInput::Description => AppView {
                new_task_description: self.new_task_description.push(c),
                ..self
            },
        }
    }

    /// The state without the last character of the selected field.
    pub open spec fn erased(self) -> AppView {
        match self.active_input {
            ActiveInput::Title => if self.new_task_title.len() > 0 {
                AppView { new_task_title: self.new_task_title.drop_last(), ..self }
            } else {
                self
            },
            ActiveInput::Description => if self.new_task_description.len() > 0 {
                AppView { new_task_description: self.new_task_description.drop_last(), ..self }
            } else {
                self
            },
        }
    }

    /// What submitting the new task does: a blank title and a title that
    /// cannot be read leave their error message and ask for nothing; a title
    /// that can be read asks for the task to be created.
    pub open spec fn submitted(self) -> (AppView, RequestView) {
        if is_blank(self.new_task_title) {
            (self.failed(EMPTY_TITLE_MESSAGE@), RequestView::Idle)
        } else {
            match parse_outcome(self.new_task_title) {
                Err(e) => (
                    self.failed(INPUT_ERROR_PREFIX@ + ParseError::message_text(e)),
                    RequestView::Idle,
                ),
                Ok(task) => (
                    self.cleared(),
                    RequestView::CreateTask(
                        NewTaskView {
                            title: task.title,
                            description: chosen_description(
                                self.new_task_description,
                                task.description,
                            ),
                            priority: task.priority,
                            due_date: task.due_date,
                        },
                    ),
                ),
            }
        }
    }

    /// The state after `command`, and what it asks of the event loop. Every
    /// command but quitting takes the error message away, unless it leaves one
    /// itself.
    pub open spec fn apply(self, command: Command) -> (AppView, RequestView) {
        match command {
            Command::Quit => (self, RequestView::Quit),
            Command::MoveDown => (
                AppView {
                    selected: next_index(self.selected, self.tasks.len()),
                    ..self
                }.cleared(),
                RequestView::Idle,
            ),
            Command::MoveUp => (
                AppView {
                    selected: previous_index(self.selected, self.tasks.len()),
                    ..self
                }.cleared(),
                RequestView::Idle,
            ),
            Command::NextPage => (
                AppView { page: page_after(self.page), ..self }.cleared(),
                RequestView::FetchTasks { page: page_after(self.page) },
            ),
            Command::PreviousPage => (
                AppView { page: page_before(self.page), ..self }.cleared(),
                RequestView::FetchTasks { page: page_before(self.page) },
            ),
            Command::ToggleFilter => (
                AppView { show_done_tasks: !self.show_done_tasks, ..self }.cleared(),
                RequestView::FetchTasks { page: self.page },
            ),
            Command::BeginCreate => (
                AppView { active_input: ActiveInput::Title, ..self }.emptied(
                    InputMode::Editing,
                ).cleared(),
                RequestView::Idle,
            ),
            Command::Inspect => (
                self.cleared(),
                match self.selected {
                    Some(i) => if i < self.tasks.len() {
                        RequestView::FetchDetail { id: self.tasks[i as int].id }
                    } else {
                        RequestView::Idle
                    },
                    None => RequestView::Idle,
                },
            ),
            Command::EnterTextMode => (
                AppView { input_mode: InputMode::Insert, ..self }.cleared(),
                RequestView::Idle,
            ),
            Command::SwitchField => (
                AppView {
                    active_input: match self.active_input {
                        ActiveInput::Title => ActiveInput::Description,
                        ActiveInput::Description => ActiveInput::Title,
                    },
                    ..self
                }.cleared(),
                RequestView::Idle,
            ),
            Command::Submit => self.submitted(),
            Command::Cancel => (self.emptied(InputMode::Normal).cleared(), RequestView::Idle),
            Command::ExitTextMode => (
                AppView { input_mode: InputMode::Editing, ..self }.cleared(),
                RequestView::Idle,
            ),
            Command::Insert(c) => (self.typed(c).cleared(), RequestView::Idle),
            Command::EraseBackward => (self.erased().cleared(), RequestView::Idle),
        }
    }

    /// The state after the key `key`, and what it asks of the event loop. A key
    /// that is bound to nothing in the current mode changes nothing.
    pub open spec fn step(self, key: Key) -> (AppView, RequestView) {
        match key_command(self.input_mode, key) {
            Some(command) => self.apply(command),
            None => (self, RequestView::Idle),
        }
    }

    /// The state after the task service's answer `response`, and what it asks
    /// of the event loop. A failure leaves its message and changes nothing
    /// else. A fetched list is shown; where it was fetched for a task just
    /// created, the edit buffers are emptied and browsing goes on. A created
    /// task asks for the list to be fetched again.
    pub open spec fn respond(self, response: Response) -> (AppView, RequestView) {
        match response {
            Response::Tasks(Ok(items)) => {
                let listed = self.listing(visible(items@, self.show_done_tasks)).cleared();
                if self.input_mode == InputMode::Normal {
                    (listed, RequestView::Idle)
                } else {
                    (listed.emptied(InputMode::Normal), RequestView::Idle)
                }
            },
            Response::Tasks(Err(e)) => (
                self.failed(FETCH_TASKS_ERROR_PREFIX@ + e@),
                RequestView::Idle,
            ),
            Response::Detail(Ok(detail)) => (
                AppView { task_detail: Some(detail), ..self }.cleared(),
                RequestView::Idle,
            ),
            Response::Detail(Err(e)) => (
                self.failed(FETCH_DETAIL_ERROR_PREFIX@ + e@),
                RequestView::Idle,
            ),
            Response::Created(Ok(_)) => (self, RequestView::FetchTasks { page: self.page }),
            Response::Created(Err(e)) => (
                self.failed(CREATE_ERROR_PREFIX@ + e@),
                RequestView::Idle,
            ),
        }
    }
}

/// `field` unless it is blank, else `inline` unless it is missing or blank.
pub fn choose_description(field: &str, inline: Option<String>) -> (chosen: Option<String>)
    ensures
        text_of(chosen) == chosen_description(field@, text_of(inline)),
{
    if !is_blank_text(&chars_of(field)) {
        Some(field.to_owned())
    } else {
        match inline {
            Some(d) => if is_blank_text(&chars_of(d.as_str())) {
                None
            } else {
                Some(d)
            },
            None => None,
        }
    }
}

impl App {
    /// The state at the start: these tasks listed with the cursor on the
    /// first, page 1, completed tasks left out, nothing else on show.
    pub fn new(tasks: Vec<Task>) -> (app: App)
        ensures
            app@ == (AppView {
                tasks: tasks@,
                selected: first_index(tasks@.len()),
                task_detail: None,
                input_mode: InputMode::Normal,
                active_input: ActiveInput::Title,
                new_task_title: Seq::empty(),
                new_task_description: Seq::empty(),
                page: 1,
                show_done_tasks: false,
                error_message: None,
            }),
            app@.wf(),
    {
        let first = if tasks.len() > 0 {
            Some(0)
        } else {
            None
        };
        App {
            tasks,
            state: ListState::new(first),
            task_detail: None,
            input_mode: InputMode::Normal,
            active_input: ActiveInput::Title,
            new_task_title: String::new(),
            new_task_description: String::new(),
            page: 1,
            show_done_tasks: false,
            error_message: None,
        }
    }

    /// Shows the freshly fetched `new_tasks`: all of them, or those that are
    /// not completed, as the filter says; the cursor goes to the first.
    pub fn refresh_tasks(&mut self, new_tasks: Vec<Task>)
        ensures
            final(self)@ == old(self)@.listing(visible(new_tasks@, old(self).show_done_tasks)),
            old(self)@.page >= 1 ==> final(self)@.wf(),
    {
        if self.show_done_tasks {
            self.tasks = new_tasks;
        } else {
            let ghost all = new_tasks@;
            let ghost undone = |t: Task| !t.done;
            let mut kept: Vec<Task> = Vec::new();
            proof {
                reveal(Seq::filter);
            }
            for task in it: new_tasks
                invariant
                    it.seq() == all,
                    undone == (|t: Task| !t.done),
                    kept@ == all.take(it.index()).filter(undone),
            {
                proof {
                    reveal(Seq::filter);
                    let next = all.take(it.index() + 1);
                    assert(next.drop_last() =~= all.take(it.index()));
                    assert(next.last() == task);
                }
                if !task.done {
                    kept.push(task);
                }
            }
            assert(all.take(all.len() as int) =~= all);
            self.tasks = kept;
        }
        let first = if self.tasks.len() > 0 {
            Some(0)
        } else {
            None
        };
        self.state.select(first);
    }

    /// Goes one page on.
    pub fn next_page(&mut self)
        ensures
            final(self)@ == (AppView { page: page_after(old(self).page), ..old(self)@ }),
    {
        if self.page < usize::MAX {
            self.page += 1;
        }
    }

    /// Goes one page back, but not before page 1.
    pub fn previous_page(&mut self)
        ensures
            final(self)@ == (AppView { page: page_before(old(self).page), ..old(self)@ }),
            final(self).page >= 1,
    {
        if self.page > 1 {
            self.page -= 1;
        } else {
            self.page = 1;
        }
    }

    /// Moves the cursor one row down; from the last row it goes to the first.
    pub fn next(&mut self)
        ensures
            final(self)@ == (AppView {
                selected: next_index(old(self)@.selected, old(self)@.tasks.len()),
                ..old(self)@
            }),
            old(self)@.page >= 1 ==> final(self)@.wf(),
    {
        let len = self.tasks.len();
        let i = if len == 0 {
            None
        } else {
            match self.state.selected() {
                Some(i) => if i >= len - 1 {
                    Some(0)
                } else {
                    Some(i + 1)
                },
                None => Some(0),
            }
        };
        self.state.select(i);
    }

    /// Moves the cursor one row up; from the first row it goes to the last.
    pub fn previous(&mut self)
        ensures
            final(self)@ == (AppView {
                selected: previous_index(old(self)@.selected, old(self)@.tasks.len()),
                ..old(self)@
            }),
            old(self)@.page >= 1 ==> final(self)@.wf(),
    {
        let len = self.tasks.len();
        let i = if len == 0 {
            None
        } else {
            match self.state.selected() {
                Some(i) => if i == 0 || i >= len {
                    Some(len - 1)
                } else {
                    Some(i - 1)
                },
                None => Some(0),
            }
        };
        self.state.select(i);
    }

    /// The identifier of the task under the cursor, if the cursor is on one.
    pub fn selected_task_id(&self) -> (id: Option<u64>)
        ensures
            id == match self@.selected {
                Some(i) => if i < self@.tasks.len() {
                    Some(self@.tasks[i as int].id)
                } else {
                    None
                },
                None => None,
            },
    {
        match self.state.selected() {
            Some(i) => if i < self.tasks.len() {
                Some(self.tasks[i].id)
            } else {
                None
            },
            None => None,
        }
    }

    /// Keeps `detail`, the task that was fetched in full, in place of any
    /// earlier one.
    pub fn select_task(&mut self, detail: TaskDetail)
        ensures
            final(self)@ == (AppView { task_detail: Some(detail), ..old(self)@ }),
    {
        self.task_detail = Some(detail);
    }

    /// Flips whether completed tasks are listed. The list on show changes
    /// with the next refresh.
    pub fn toggle_done_filter(&mut self)
        ensures
            final(self)@ == (AppView {
                show_done_tasks: !old(self).show_done_tasks,
                ..old(self)@
            }),
    {
        self.show_done_tasks = !self.show_done_tasks;
    }

    fn set_error(&mut self, prefix: &str, detail: &str)
        ensures
            final(self)@ == old(self)@.failed(prefix@ + detail@),
    {
        self.error_message = Some(String::from_str(prefix).concat(detail));
    }

    fn clear_buffers(&mut self, mode: InputMode)
        ensures
            final(self)@ == old(self)@.emptied(mode),
    {
        self.new_task_title = String::new();
        self.new_task_description = String::new();
        self.input_mode = mode;
    }

    fn submit(&mut self) -> (request: Request)
        ensures
            final(self)@ == old(self)@.submitted().0,
            request@ == old(self)@.submitted().1,
    {
        if is_blank_text(&chars_of(self.new_task_title.as_str())) {
            self.error_message = Some(String::from_str(EMPTY_TITLE_MESSAGE));
            Request::Idle
        } else {
            match parse_task_input(self.new_task_title.as_str()) {
                Ok(parsed) => {
                    let ParsedTask { title, priority, due_date, description } = parsed;
                    let description = choose_description(
                        self.new_task_description.as_str(),
                        description,
                    );
                    self.error_message = None;
                    Request::CreateTask(NewTask { title, description, priority, due_date })
                },
                Err(e) => {
                    let message = e.message();
                    self.set_error(INPUT_ERROR_PREFIX, message.as_str());
                    Request::Idle
                },
            }
        }
    }

    /// Carries out `command`.
    pub fn apply(&mut self, command: Command) -> (request: Request)
        ensures
            final(self)@ == old(self)@.apply(command).0,
            request@ == old(self)@.apply(command).1,
            old(self)@.wf() ==> final(self)@.wf(),
    {
        let request = match command {
            Command::Quit => {
                return Request::Quit;
            },
            Command::MoveDown => {
                self.next();
                Request::Idle
            },
            Command::MoveUp => {
                self.previous();
                Request::Idle
            },
            Command::NextPage => {
                self.next_page();
                Request::FetchTasks { page: self.page }
            },
            Command::PreviousPage => {
                self.previous_page();
                Request::FetchTasks { page: self.page }
            },
            Command::ToggleFilter => {
                self.toggle_done_filter();
                Request::FetchTasks { page: self.page }
            },
            Command::BeginCreate => {
                self.clear_buffers(InputMode::Editing);
                self.active_input = ActiveInput::Title;
                Request::Idle
            },
            Command::Inspect => match self.selected_task_id() {
                Some(id) => Request::FetchDetail { id },
                None => Request::Idle,
            },
            Command::EnterTextMode => {
                self.input_mode = InputMode::Insert;
                Request::Idle
            },
            Command::SwitchField => {
                self.active_input = match self.active_input {
                    ActiveInput::Title => ActiveInput::Description,
                    ActiveInput::Description => ActiveInput::Title,
                };
                Request::Idle
            },
            Command::Submit => {
                return self.submit();
            },
            Command::Cancel => {
                self.clear_buffers(InputMode::Normal);
                Request::Idle
            },
            Command::ExitTextMode => {
                self.input_mode = InputMode::Editing;
                Request::Idle
            },
            Command::Insert(c) => {
                match self.active_input {
                    ActiveInput::Title => self.new_task_title.push(c),
                    ActiveInput::Description => self.new_task_description.push(c),
                }
                Request::Idle
            },
            Command::EraseBackward => {
                match self.active_input {
                    ActiveInput::Title => {
                        self.new_task_title.pop();
                    },
                    ActiveInput::Description => {
                        self.new_task_description.pop();
                    },
                }
                Request::Idle
            },
        };
        self.error_message = None;
        request
    }

    /// Takes the key `key`: carries out the command that it is bound to in
    /// the current mode, if any, and says what the event loop has to do next.
    pub fn handle_input(&mut self, key: Key) -> (request: Request)
        ensures
            final(self)@ == old(self)@.step(key).0,
            request@ == old(self)@.step(key).1,
            old(self)@.wf() ==> final(self)@.wf(),
    {
        match command_for(self.input_mode, key) {
            Some(command) => self.apply(command),
            None => Request::Idle,
        }
    }

    /// Takes the task service's answer to the last request and says what the
    /// event loop has to do next.
    pub fn handle_response(&mut self, response: Response) -> (request: Request)
        ensures
            final(self)@ == old(self)@.respond(response).0,
            request@ == old(self)@.respond(response).1,
            old(self)@.wf() ==> final(self)@.wf(),
    {
        match response {
            Response::Tasks(Ok(items)) => {
                self.refresh_tasks(items);
                self.error_message = None;
                match self.input_mode {
                    InputMode::Normal => {},
                    _ => {
                        self.clear_buffers(InputMode::Normal);
                    },
                }
                Request::Idle
            },
            Response::Tasks(Err(e)) => {
                self.set_error(FETCH_TASKS_ERROR_PREFIX, e.as_str());
                Request::Idle
            },
            Response::Detail(Ok(detail)) => {
                self.select_task(detail);
                self.error_message = None;
                Request::Idle
            },
            Response::Detail(Err(e)) => {
                self.set_error(FETCH_DETAIL_ERROR_PREFIX, e.as_str());
                Request::Idle
            },
            Response::Created(Ok(_)) => Request::FetchTasks { page: self.page },
            Response::Created(Err(e)) => {
                self.set_error(CREATE_ERROR_PREFIX, e.as_str());
                Request::Idle
            },
        }
    }
}

/// The page reached from `page` by going back `times` times.
pub open spec fn page_before_times(page: usize, times: nat) -> usize
    decreases times,
{
    if times == 0 {
        page
    } else {
        page_before(page_before_times(page, (times - 1) as nat))
    }
}

/// The cursor wraps: one row down from the last row is the first row, and
/// one row up from the first row is the last.
pub proof fn lemma_selection_wraps(len: usize)
    requires
        len > 0,
    ensures
        next_index(Some((len - 1) as usize), len as nat) == Some(0usize),
        previous_index(Some(0usize), len as nat) == Some((len - 1) as usize),
{
}

/// The cursor stays on the list: from a row of a list with rows, one row down
/// and one row up are rows of the list again, and going down and then up
/// comes back to where it was.
pub proof fn lemma_selection_stays(selected: usize, len: usize)
    requires
        selected < len,
    ensures
        next_index(Some(selected), len as nat) matches Some(i) && i < len,
        previous_index(Some(selected), len as nat) matches Some(i) && i < len,
        previous_index(next_index(Some(selected), len as nat), len as nat) == Some(selected),
        next_index(previous_index(Some(selected), len as nat), len as nat) == Some(selected),
{
}

/// Going back never leaves page 1: from page 1, any number of steps back ends
/// on page 1, and from any later page it ends on page 1 or after it.
pub proof fn lemma_page_floor(page: usize, times: nat)
    requires
        page >= 1,
    ensures
        page_before_times(page, times) >= 1,
        page_before_times(page, times) <= page,
        page == 1 ==> page_before_times(page, times) == 1,
    decreases times,
{
    if times > 0 {
        lemma_page_floor(page, (times - 1) as nat);
    }
}

/// Showing the same fetched tasks again, under the same filter, gives the
/// same state: the same tasks listed, and the cursor on the first of them, or
/// on none where none is listed.
pub proof fn lemma_refresh_again(state: AppView, items: Seq<Task>)
    ensures
        ({
            let shown = visible(items, state.show_done_tasks);
            let once = state.listing(shown);
            &&& once.listing(visible(items, once.show_done_tasks)) == once
            &&& once.tasks == shown
            &&& once.selected == if shown.len() > 0 {
                Some(0usize)
            } else {
                None
            }
            &&& once.page == state.page
            &&& once.task_detail == state.task_detail
        }),
{
}

/// The task that was fetched in full stays until another one is fetched: no
/// key changes it, and of the task service's answers only a task fetched in
/// full, which takes its place.
pub proof fn lemma_detail_is_kept(state: AppView, key: Key, response: Response)
    ensures
        state.step(key).0.task_detail == state.task_detail,
        state.respond(response).0.task_detail == match response {
            Response::Detail(Ok(detail)) => Some(detail),
            _ => state.task_detail,
        },
{
}

/// While completed tasks are left out, no listed task is completed, and every
/// fetched task that is not completed is listed; while they are kept, the
/// fetched tasks are listed as they came.
pub proof fn lemma_visible(items: Seq<Task>)
    ensures
        visible(items, true) == items,
        forall|i: int|
            0 <= i < visible(items, false).len() ==> !(#[trigger] visible(items, false)[i]).done,
        forall|i: int|
            0 <= i < items.len() && !(#[trigger] items[i]).done ==> visible(
                items,
                false,
            ).contains(items[i]),
        visible(items, false).len() <= items.len(),
{
    broadcast use vstd::seq_lib::group_filter_ensures;

}

/// No key and no answer of the task service takes a well-formed state to one
/// that is not: the cursor stays on the list and the page stays at 1 or after.
pub proof fn lemma_wf_is_kept(state: AppView, key: Key, response: Response)
    requires
        state.wf(),
    ensures
        state.step(key).0.wf(),
        state.respond(response).0.wf(),
{
    match response {
        Response::Tasks(Ok(items)) => {
            let shown = visible(items@, state.show_done_tasks);
            assert(state.listing(shown).wf());
        },
        _ => {},
    }
}

} // verus!
