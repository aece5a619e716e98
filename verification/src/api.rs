//! What is sent to the task service: the addresses of its endpoints, the
//! authorization header, and the fields of a task to be created.

use crate::app::{NewTask, NewTaskView};
use crate::parser::{text_of, DueDate};
use crate::text::{decimal_digits, format_unsigned, string_of};
use vstd::prelude::*;

verus! {

/// The path of the task list, up to the page number.
pub const TASKS_PATH: &'static str = "/api/v1/tasks/all?page=";

/// The path of one task, up to its identifier.
pub const TASK_PATH: &'static str = "/api/v1/tasks/";

/// The path to which new tasks are sent.
pub const NEW_TASK_PATH: &'static str = "/api/v1/projects/1/tasks";

/// Stands before the key in the authorization header.
pub const BEARER: &'static str = "Bearer ";

/// Stands before the task service's words when it refused a new task.
pub const API_ERROR_PREFIX: &'static str = "API Error: ";

/// Stands before the task service's words when it refused to show a task.
pub const DETAIL_ERROR_PREFIX: &'static str = "Error fetching task detail: ";

/// The date and time of the given numbers in UTC, written by RFC 3339 with
/// whole seconds and `Z` for the offset; `None` where the numbers name no
/// moment of the calendar.
pub uninterp spec fn rfc3339_text(
    year: i32,
    month: u32,
    day: u32,
    hour: u32,
    minute: u32,
    second: u32,
) -> Option<Seq<char>>;

/// Makes the date with `chrono::NaiveDate::from_ymd_opt`, adds the time with
/// `and_hms_opt`, takes both as UTC and writes them with `to_rfc3339_opts`,
/// whole seconds and `Z`. The result is by definition `rfc3339_text`.
#[verifier::external_body]
fn format_utc(year: i32, month: u32, day: u32, hour: u32, minute: u32, second: u32) -> (text:
    Option<String>)
    ensures
        text_of(text) == rfc3339_text(year, month, day, hour, minute, second),
{
    let date = chrono::NaiveDate::from_ymd_opt(year, month, day)?;
    let moment = date.and_hms_opt(hour, minute, second)?;
    Some(moment.and_utc().to_rfc3339_opts(chrono::SecondsFormat::Secs, true))
}

/// The value of a field that is sent.
#[derive(Debug, PartialEq)]
pub enum FieldValue {
    Text(String),
    Number(u8),
}

/// A field that is sent: its name and its value.
#[derive(Debug, PartialEq)]
pub struct Field {
    pub name: String,
    pub value: FieldValue,
}

/// A `FieldValue` as a value.
pub enum FieldValueView {
    Text(Seq<char>),
    Number(u8),
}

/// A `Field` as a value.
pub struct FieldView {
    pub name: Seq<char>,
    pub value: FieldValueView,
}

impl View for Field {
    type V = FieldView;

    open spec fn view(&self) -> FieldView {
        FieldView {
            name: self.name@,
            value: match self.value {
                FieldValue::Text(s) => FieldValueView::Text(s@),
                FieldValue::Number(n) => FieldValueView::Number(n),
            },
        }
    }
}

/// The fields `fields` as values.
pub open spec fn fields_view(fields: Seq<Field>) -> Seq<FieldView> {
    Seq::new(fields.len(), |i: int| fields[i]@)
}

/// The field `name` with the text `value`.
pub open spec fn text_field(name: Seq<char>, value: Seq<char>) -> FieldView {
    FieldView { name, value: FieldValueView::Text(value) }
}

/// The due date `due` as it is sent, where it names a moment of the calendar.
pub open spec fn due_date_text_of(due: DueDate) -> Option<Seq<char>> {
    rfc3339_text(due.year, due.month, due.day, due.hour, due.minute, due.second)
}

/// The fields that are sent for the new task `task`: its title, and of its
/// description, its priority and its due date those that it has, in this order.
pub open spec fn creation_fields_of(task: NewTaskView) -> Seq<FieldView> {
    seq![text_field("title"@, task.title)] + (match task.description {
        Some(d) => seq![text_field("description"@, d)],
        None => Seq::empty(),
    }) + (match task.priority {
        Some(p) => seq![FieldView { name: "priority"@, value: FieldValueView::Number(p) }],
        None => Seq::empty(),
    }) + (match task.due_date {
        Some(due) => match due_date_text_of(due) {
            Some(text) => seq![text_field("due_date"@, text)],
            None => Seq::empty(),
        },
        None => Seq::empty(),
    })
}

/// The due date `due` as it is sent.
pub fn due_date_rfc3339(due: &DueDate) -> (text: Option<String>)
    ensures
        text_of(text) == due_date_text_of(*due),
{
    format_utc(due.year, due.month, due.day, due.hour, due.minute, due.second)
}

/// The fields that are sent for the new task `task`.
pub fn creation_fields(task: &NewTask) -> (fields: Vec<Field>)
    ensures
        fields_view(fields@) == creation_fields_of(task@),
{
    let mut fields: Vec<Field> = Vec::new();
    fields.push(
        Field { name: String::from_str("title"), value: FieldValue::Text(task.title.clone()) },
    );
    match &task.description {
        Some(d) => {
            fields.push(
                Field { name: String::from_str("description"), value: FieldValue::Text(d.clone()) },
            );
        },
        None => {},
    }
    match task.priority {
        Some(p) => {
            fields.push(Field { name: String::from_str("priority"), value: FieldValue::Number(p) });
        },
        None => {},
    }
    match &task.due_date {
        Some(due) => match due_date_rfc3339(due) {
            Some(text) => {
                fields.push(
                    Field { name: String::from_str("due_date"), value: FieldValue::Text(text) },
                );
            },
            None => {},
        },
        None => {},
    }
    assert(fields_view(fields@) =~= creation_fields_of(task@));
    fields
}

/// The address of page `page` of the task list at the instance `instance_url`.
pub fn tasks_url(instance_url: &str, page: usize) -> (url: String)
    ensures
        url@ == instance_url@ + TASKS_PATH@ + decimal_digits(page as nat),
{
    let number = string_of(&format_unsigned(page as u64));
    instance_url.to_owned().concat(TASKS_PATH).concat(number.as_str())
}

/// The address of the task `task_id` at the instance `instance_url`.
pub fn task_url(instance_url: &str, task_id: u64) -> (url: String)
    ensures
        url@ == instance_url@ + TASK_PATH@ + decimal_digits(task_id as nat),
{
    let number = string_of(&format_unsigned(task_id));
    instance_url.to_owned().concat(TASK_PATH).concat(number.as_str())
}

/// The address to which new tasks are sent at the instance `instance_url`.
pub fn new_task_url(instance_url: &str) -> (url: String)
    ensures
        url@ == instance_url@ + NEW_TASK_PATH@,
{
    instance_url.to_owned().concat(NEW_TASK_PATH)
}

/// The authorization header for the key `api_key`.
pub fn bearer(api_key: &str) -> (header: String)
    ensures
        header@ == BEARER@ + api_key@,
{
    String::from_str(BEARER).concat(api_key)
}

/// What is reported when the task service refused a new task with the words
/// `body`.
pub fn creation_error(body: &str) -> (message: String)
    ensures
        message@ == API_ERROR_PREFIX@ + body@,
{
    String::from_str(API_ERROR_PREFIX).concat(body)
}

/// What is reported when the task service refused to show a task with the
/// words `body`.
pub fn detail_error(body: &str) -> (message: String)
    ensures
        message@ == DETAIL_ERROR_PREFIX@ + body@,
{
    String::from_str(DETAIL_ERROR_PREFIX).concat(body)
}

} // verus!
