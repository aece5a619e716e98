//! Annotations in a line of free text: a priority (`!3`), a due date
//! (`due:2024-01-15`) and an inline description (`{...}`), and the title that
//! is left when they are taken out.

use crate::text::{
    chars_of, normalize, normalized, parse_u8, string_of, trim, trimmed, u8_of_text,
};
use vstd::prelude::*;

verus! {

/// A priority marker: `!`, optional white space, digits. Group 1 holds the digits.
pub const PRIORITY_PATTERN: &'static str = r"!\s*(\d+)";

/// A due-date marker: the word `due:`, optional white space and a date written
/// as four, two and two digits with hyphens between. Group 1 holds the date.
pub const DUE_DATE_PATTERN: &'static str = r"\b(?:due):\s*(\d{4}-\d{2}-\d{2})\b";

/// An inline description: from `{` to the next `}`. Group 1 holds what stands
/// between them.
pub const DESCRIPTION_PATTERN: &'static str = r"\{([^}]*)\}";

/// How a due date is written: year, month and day.
pub const DATE_FORMAT: &'static str = "%Y-%m-%d";

/// The hour, minute and second at which a due day ends.
pub const END_OF_DAY: (u32, u32, u32) = (23, 59, 59);

/// A date and a time of day, as plain numbers.
#[derive(Clone, Copy, Debug, PartialEq, Eq, Structural)]
pub struct DueDate {
    pub year: i32,
    pub month: u32,
    pub day: u32,
    pub hour: u32,
    pub minute: u32,
    pub second: u32,
}

impl DueDate {
    /// The month, the day and the time of day are each within their range.
    pub open spec fn wf(&self) -> bool {
        &&& 1 <= self.month <= 12
        &&& 1 <= self.day <= 31
        &&& self.hour < 24
        &&& self.minute < 60
        &&& self.second < 60
    }
}

/// The fields that a line of text was read into.
#[derive(Debug, PartialEq)]
pub struct ParsedTask {
    pub title: String,
    pub priority: Option<u8>,
    pub due_date: Option<DueDate>,
    pub description: Option<String>,
}

/// Why a line of text was refused. Each carries the text that was at fault.
#[derive(Debug, Clone)]
pub enum ParseError {
    InvalidDueDate(String),
    InvalidPriority(String),
}

/// A `ParsedTask` as values: its texts as sequences of characters.
pub struct ParsedTaskView {
    pub title: Seq<char>,
    pub priority: Option<u8>,
    pub due_date: Option<DueDate>,
    pub description: Option<Seq<char>>,
}

/// A `ParseError` as a value.
pub enum ParseErrorView {
    InvalidDueDate(Seq<char>),
    InvalidPriority(Seq<char>),
}

/// The characters of the string in `text`, if there is one.
pub open spec fn text_of(text: Option<String>) -> Option<Seq<char>> {
    match text {
        Some(s) => Some(s@),
        None => None,
    }
}

impl View for ParsedTask {
    type V = ParsedTaskView;

    open spec fn view(&self) -> ParsedTaskView {
        ParsedTaskView {
            title: self.title@,
            priority: self.priority,
            due_date: self.due_date,
            description: text_of(self.description),
        }
    }
}

impl View for ParseError {
    type V = ParseErrorView;

    open spec fn view(&self) -> ParseErrorView {
        match self {
            ParseError::InvalidDueDate(s) => ParseErrorView::InvalidDueDate(s@),
            ParseError::InvalidPriority(s) => ParseErrorView::InvalidPriority(s@),
        }
    }
}

impl ParseError {
    /// What the error says to the user.
    pub open spec fn message_text(e: ParseErrorView) -> Seq<char> {
        match e {
            ParseErrorView::InvalidDueDate(s) => "Invalid due date format: "@ + s,
            ParseErrorView::InvalidPriority(s) => "Invalid priority format: "@ + s,
        }
    }

    /// What the error says to the user: its kind, then the text at fault.
    pub fn message(&self) -> (text: String)
        ensures
            text@ == Self::message_text(self@),
    {
        match self {
            ParseError::InvalidDueDate(s) => String::from_str("Invalid due date format: ").concat(
                s.as_str(),
            ),
            ParseError::InvalidPriority(s) => String::from_str("Invalid priority format: ").concat(
                s.as_str(),
            ),
        }
    }
}

/// The error with which `regex` refuses a pattern.
#[verifier::external_type_specification]
#[verifier::external_body]
pub struct ExRegexError(regex::Error);

/// What `pattern` matches first in `text`: for the leftmost match the text of
/// each of its groups, in order and beginning with the whole match as group 0,
/// a group that took no part being `None`. `None` where nothing matches or the
/// pattern is refused.
pub uninterp spec fn first_match(pattern: Seq<char>, text: Seq<char>) -> Option<
    Seq<Option<Seq<char>>>,
>;

/// `text` with each match of `pattern` replaced, going from left to right
/// over matches that do not overlap. What takes the place of a match is
/// `replacement` after `regex` has expanded the references to groups in it
/// (`$1`, `${name}`); a replacement without `$` stands as it is. `text` itself
/// where the pattern is refused.
pub uninterp spec fn replaced(pattern: Seq<char>, text: Seq<char>, replacement: Seq<char>) -> Seq<
    char,
>;

/// The year, month and day that `text` writes when read by `format`; `None`
/// where `text` does not follow the format or names no day of the calendar.
pub uninterp spec fn calendar_date(text: Seq<char>, format: Seq<char>) -> Option<(i32, u32, u32)>;

/// The texts held by `groups`.
pub open spec fn group_texts(groups: Seq<Option<String>>) -> Seq<Option<Seq<char>>> {
    Seq::new(groups.len(), |i: int| text_of(groups[i]))
}

/// Compiles `pattern` with `regex::Regex::new` and searches `text` with
/// `Regex::captures`. The result is by definition `first_match`: the groups
/// of the leftmost match as owned strings. An error is the pattern's refusal.
#[verifier::external_body]
fn find_groups(pattern: &str, text: &str) -> (found: Result<
    Option<Vec<Option<String>>>,
    regex::Error,
>)
    ensures
        match found {
            Ok(Some(groups)) => first_match(pattern@, text@) == Some(group_texts(groups@)),
            Ok(None) => first_match(pattern@, text@) is None,
            Err(_) => first_match(pattern@, text@) is None,
        },
{
    let re = regex::Regex::new(pattern)?;
    Ok(
        re.captures(text).map(
            |found| found.iter().map(|group| group.map(|m| m.as_str().to_string())).collect(),
        ),
    )
}

/// Compiles `pattern` with `regex::Regex::new` and replaces its matches in
/// `text` with `Regex::replace_all`. The result is by definition `replaced`. An error is
/// the pattern's refusal.
#[verifier::external_body]
fn replace_matches(pattern: &str, text: &str, replacement: &str) -> (out: Result<
    String,
    regex::Error,
>)
    ensures
        match out {
            Ok(s) => s@ == replaced(pattern@, text@, replacement@),
            Err(_) => replaced(pattern@, text@, replacement@) == text@,
        },
{
    let re = regex::Regex::new(pattern)?;
    Ok(re.replace_all(text, replacement).into_owned())
}

/// Reads `text` with `chrono::NaiveDate::parse_from_str` and hands out the
/// date's year, month and day, or `None` where `chrono` refuses the text. The
/// result is by definition `calendar_date`.
#[verifier::external_body]
fn read_date(text: &str, format: &str) -> (date: Option<(i32, u32, u32)>)
    ensures
        match date {
            Some(d) => calendar_date(text@, format@) == Some(d),
            None => calendar_date(text@, format@) is None,
        },
{
    match chrono::NaiveDate::parse_from_str(text, format) {
        Ok(date) => Some(
            (chrono::Datelike::year(&date), chrono::Datelike::month(&date), chrono::Datelike::day(&date)),
        ),
        Err(_) => None,
    }
}

/// What group 1 of a match holds; nothing where the match has no such group.
pub open spec fn captured(groups: Seq<Option<Seq<char>>>) -> Seq<char> {
    if groups.len() > 1 && groups[1] is Some {
        groups[1]->0
    } else {
        Seq::empty()
    }
}

/// What the first marker of the kind `pattern` in `text` carries, if `text`
/// has such a marker.
pub open spec fn marker_text(pattern: Seq<char>, text: Seq<char>) -> Option<Seq<char>> {
    match first_match(pattern, text) {
        Some(groups) => Some(captured(groups)),
        None => None,
    }
}

/// `text` with every marker of the kind `pattern` taken out.
pub open spec fn without_markers(pattern: Seq<char>, text: Seq<char>) -> Seq<char> {
    if first_match(pattern, text) is None {
        text
    } else {
        replaced(pattern, text, Seq::empty())
    }
}

/// The priority that `digits` write: their number where it lies in 1 to 5,
/// else the error that carries them.
pub open spec fn priority_outcome(digits: Seq<char>) -> Result<u8, ParseErrorView> {
    match u8_of_text(digits) {
        Some(p) => if 1 <= p <= 5 {
            Ok(p)
        } else {
            Err(ParseErrorView::InvalidPriority(digits))
        },
        None => Err(ParseErrorView::InvalidPriority(digits)),
    }
}

/// The last second of the day `date`.
pub open spec fn end_of_day(date: (i32, u32, u32)) -> DueDate {
    DueDate {
        year: date.0,
        month: date.1,
        day: date.2,
        hour: END_OF_DAY.0,
        minute: END_OF_DAY.1,
        second: END_OF_DAY.2,
    }
}

/// The due date for the marker text `text`, which the calendar read as `date`:
/// the end of that day, or the error that carries `text` where there is no
/// such day.
pub open spec fn due_date_outcome(text: Seq<char>, date: Option<(i32, u32, u32)>) -> Result<
    DueDate,
    ParseErrorView,
> {
    match date {
        Some(d) => if 1 <= d.1 <= 12 && 1 <= d.2 <= 31 {
            Ok(end_of_day(d))
        } else {
            Err(ParseErrorView::InvalidDueDate(text))
        },
        None => Err(ParseErrorView::InvalidDueDate(text)),
    }
}

/// The priority field for what a priority marker carries, if there is one.
pub open spec fn priority_field(marker: Option<Seq<char>>) -> Result<Option<u8>, ParseErrorView> {
    match marker {
        Some(digits) => match priority_outcome(digits) {
            Ok(p) => Ok(Some(p)),
            Err(e) => Err(e),
        },
        None => Ok(None),
    }
}

/// The due-date field for what a due-date marker carries, if there is one.
pub open spec fn due_date_field(marker: Option<Seq<char>>) -> Result<
    Option<DueDate>,
    ParseErrorView,
> {
    match marker {
        Some(text) => match due_date_outcome(text, calendar_date(text, DATE_FORMAT@)) {
            Ok(d) => Ok(Some(d)),
            Err(e) => Err(e),
        },
        None => Ok(None),
    }
}

/// The description field for what an inline description holds, if there is one.
pub open spec fn description_field(marker: Option<Seq<char>>) -> Option<Seq<char>> {
    match marker {
        Some(inner) => Some(trimmed(inner)),
        None => None,
    }
}

/// What reading `input` gives. The markers are looked for in a fixed order:
/// priority, then due date in what is left, then description in what is left of
/// that. The first priority marker and the first due-date marker decide their
/// fields, and a priority at fault is reported before a due date at fault. The
/// title is what is left at the end, its white space put in order.
pub open spec fn parse_outcome(input: Seq<char>) -> Result<ParsedTaskView, ParseErrorView> {
    let after_priority = without_markers(PRIORITY_PATTERN@, input);
    let after_due_date = without_markers(DUE_DATE_PATTERN@, after_priority);
    let residue = without_markers(DESCRIPTION_PATTERN@, after_due_date);
    match priority_field(marker_text(PRIORITY_PATTERN@, input)) {
        Err(e) => Err(e),
        Ok(priority) => match due_date_field(marker_text(DUE_DATE_PATTERN@, after_priority)) {
            Err(e) => Err(e),
            Ok(due_date) => Ok(
                ParsedTaskView {
                    title: normalized(residue),
                    priority,
                    due_date,
                    description: description_field(
                        marker_text(DESCRIPTION_PATTERN@, after_due_date),
                    ),
                },
            ),
        },
    }
}

/// A result of parsing as values.
pub open spec fn outcome_view(result: Result<ParsedTask, ParseError>) -> Result<
    ParsedTaskView,
    ParseErrorView,
> {
    match result {
        Ok(task) => Ok(task@),
        Err(e) => Err(e@),
    }
}

/// Looks for markers of the kind `pattern` in `text`: what the first one
/// carries, and `text` without any of them.
pub fn take_marker(pattern: &str, text: &str) -> (found: (Option<String>, String))
    ensures
        text_of(found.0) == marker_text(pattern@, text@),
        found.1@ == without_markers(pattern@, text@),
{
    match find_groups(pattern, text) {
        Ok(Some(groups)) => {
            let carried = if groups.len() > 1 {
                match &groups[1] {
                    Some(s) => s.clone(),
                    None => String::new(),
                }
            } else {
                String::new()
            };
            proof {
                reveal_strlit("");
                assert(""@ =~= Seq::<char>::empty());
            }
            let rest = match replace_matches(pattern, text, "") {
                Ok(s) => s,
                Err(_) => text.to_owned(),
            };
            (Some(carried), rest)
        },
        Ok(None) => (None, text.to_owned()),
        Err(_) => (None, text.to_owned()),
    }
}

/// Reads the digits of a priority marker.
pub fn read_priority(digits: &str) -> (priority: Result<u8, ParseError>)
    ensures
        match priority {
            Ok(p) => priority_outcome(digits@) == Ok::<u8, ParseErrorView>(p),
            Err(e) => priority_outcome(digits@) == Err::<u8, ParseErrorView>(e@),
        },
{
    let chars = chars_of(digits);
    match parse_u8(&chars) {
        Some(p) => if 1 <= p && p <= 5 {
            Ok(p)
        } else {
            Err(ParseError::InvalidPriority(digits.to_owned()))
        },
        None => Err(ParseError::InvalidPriority(digits.to_owned())),
    }
}

/// Turns the date that the calendar read from a due-date marker into the end
/// of that day.
pub fn read_due_date(text: &str, date: Option<(i32, u32, u32)>) -> (due: Result<
    DueDate,
    ParseError,
>)
    ensures
        match due {
            Ok(d) => due_date_outcome(text@, date) == Ok::<DueDate, ParseErrorView>(d) && d.wf(),
            Err(e) => due_date_outcome(text@, date) == Err::<DueDate, ParseErrorView>(e@),
        },
{
    match date {
        Some(d) => if 1 <= d.1 && d.1 <= 12 && 1 <= d.2 && d.2 <= 31 {
            Ok(
                DueDate {
                    year: d.0,
                    month: d.1,
                    day: d.2,
                    hour: END_OF_DAY.0,
                    minute: END_OF_DAY.1,
                    second: END_OF_DAY.2,
                },
            )
        } else {
            Err(ParseError::InvalidDueDate(text.to_owned()))
        },
        None => Err(ParseError::InvalidDueDate(text.to_owned())),
    }
}

/// The description that stands between the braces around `inner`.
pub fn read_description(inner: &str) -> (description: String)
    ensures
        description@ == trimmed(inner@),
{
    string_of(&trim(&chars_of(inner)))
}

/// The title that `residue` leaves: its words with one space between them.
pub fn clean_title(residue: &str) -> (title: String)
    ensures
        title@ == normalized(residue@),
{
    string_of(&normalize(&chars_of(residue)))
}

/// Reads a line of text into a title, a priority, a due date and a description.
pub fn parse_task_input(input: &str) -> (result: Result<ParsedTask, ParseError>)
    ensures
        outcome_view(result) == parse_outcome(input@),
        result matches Ok(task) ==> (task.priority matches Some(p) ==> 1 <= p <= 5),
        result matches Ok(task) ==> (task.due_date matches Some(d) ==> d.wf()),
{
    let (priority_marker, after_priority) = take_marker(PRIORITY_PATTERN, input);
    let priority = match priority_marker {
        Some(digits) => match read_priority(digits.as_str()) {
            Ok(p) => Some(p),
            Err(e) => {
                return Err(e);
            },
        },
        None => None,
    };
    let (due_marker, after_due_date) = take_marker(DUE_DATE_PATTERN, after_priority.as_str());
    let due_date = match due_marker {
        Some(text) => {
            let date = read_date(text.as_str(), DATE_FORMAT);
            match read_due_date(text.as_str(), date) {
                Ok(d) => Some(d),
                Err(e) => {
                    return Err(e);
                },
            }
        },
        None => None,
    };
    let (description_marker, residue) = take_marker(DESCRIPTION_PATTERN, after_due_date.as_str());
    let description = match description_marker {
        Some(inner) => Some(read_description(inner.as_str())),
        None => None,
    };
    let title = clean_title(residue.as_str());
    Ok(ParsedTask { title, priority, due_date, description })
}

/// A line without any marker is its own title: its white space put in order,
/// and no priority, no due date and no description.
pub proof fn lemma_plain_text_is_title(input: Seq<char>)
    requires
        first_match(PRIORITY_PATTERN@, input) is None,
        first_match(DUE_DATE_PATTERN@, input) is None,
        first_match(DESCRIPTION_PATTERN@, input) is None,
    ensures
        parse_outcome(input) == Ok::<ParsedTaskView, ParseErrorView>(
            ParsedTaskView {
                title: normalized(input),
                priority: None,
                due_date: None,
                description: None,
            },
        ),
{
}

/// The digits of a number are a priority exactly when the number lies in 1 to
/// 5; the digits of any other number are refused, and the error carries them.
pub proof fn lemma_priority_of_number(n: nat)
    ensures
        1 <= n <= 5 ==> priority_outcome(crate::text::decimal_digits(n)) == Ok::<
            u8,
            ParseErrorView,
        >(n as u8),
        !(1 <= n <= 5) ==> priority_outcome(crate::text::decimal_digits(n)) == Err::<
            u8,
            ParseErrorView,
        >(ParseErrorView::InvalidPriority(crate::text::decimal_digits(n))),
{
    crate::text::lemma_u8_of_decimal(n);
}

/// Text that writes no number is refused as a priority, and the error carries
/// the text.
pub proof fn lemma_priority_of_other_text(digits: Seq<char>)
    requires
        !crate::text::is_unsigned_text(digits),
    ensures
        priority_outcome(digits) == Err::<u8, ParseErrorView>(
            ParseErrorView::InvalidPriority(digits),
        ),
{
}

/// Where a line has a priority marker, its digits decide: digits that are no
/// priority fail the whole line with the error that carries them; digits that
/// are one become the priority of every successful result, whose title is read
/// from the line without its priority markers.
pub proof fn lemma_priority_marker_decides(input: Seq<char>, digits: Seq<char>)
    requires
        marker_text(PRIORITY_PATTERN@, input) == Some(digits),
    ensures
        match priority_outcome(digits) {
            Ok(p) => parse_outcome(input) matches Ok(task) ==> {
                &&& task.priority == Some(p)
                &&& 1 <= p <= 5
                &&& task.title == normalized(
                    without_markers(
                        DESCRIPTION_PATTERN@,
                        without_markers(
                            DUE_DATE_PATTERN@,
                            replaced(PRIORITY_PATTERN@, input, Seq::empty()),
                        ),
                    ),
                )
            },
            Err(e) => parse_outcome(input) == Err::<ParsedTaskView, ParseErrorView>(e),
        },
{
}

} // verus!
