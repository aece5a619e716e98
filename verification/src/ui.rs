//! What a frame shows: the regions of the screen and the text in each of
//! them, worked out from the state of the client and the size of the terminal.

use crate::app::{ActiveInput, App, InputMode};
use crate::models::{Label, Task, TaskDetail};
use crate::parser::{group_texts, text_of};
use crate::text::{
    chars_of, decimal_text, format_decimal, lemma_total_len_take, lines_of, split_lines,
    string_of, texts, total_len, trim, trimmed,
};
use ansi_parser::{AnsiParser, Output};
use ratatui::layout as tui;
use vstd::prelude::*;

verus! {

/// A rectangle of terminal cells.
#[derive(Clone, Copy, Debug, PartialEq, Eq, Structural)]
pub struct Rect {
    pub x: u16,
    pub y: u16,
    pub width: u16,
    pub height: u16,
}

/// The way in which an area is cut into parts.
#[derive(Clone, Copy, Debug, PartialEq, Eq, Structural)]
pub enum Direction {
    Horizontal,
    Vertical,
}

/// What is asked of one part when an area is cut up.
#[derive(Clone, Copy, Debug, PartialEq, Eq, Structural)]
pub enum Constraint {
    /// So many cells.
    Length(u16),
    /// At least so many cells.
    Min(u16),
    /// So many hundredths of the area.
    Percentage(u16),
}

impl Rect {
    /// Whether `self` has no cell.
    pub open spec fn is_empty(self) -> bool {
        self.width == 0 || self.height == 0
    }

    /// Whether every cell of `self` is a cell of `outer`: neither edge of
    /// `self` lies outside the edges of `outer`.
    pub open spec fn within(self, outer: Rect) -> bool {
        &&& outer.x <= self.x
        &&& self.x + self.width <= outer.x + outer.width
        &&& outer.y <= self.y
        &&& self.y + self.height <= outer.y + outer.height
    }

    /// Whether `self` can be drawn on `outer`: it has no cell, or all its
    /// cells are cells of `outer`.
    pub open spec fn fits(self, outer: Rect) -> bool {
        self.is_empty() || self.within(outer)
    }
}

/// Cuts `area` along `direction` with `ratatui`'s `Layout::split`, under its
/// default margin, spacing and flex. A solver places the parts, and where
/// they fall is not stated here. Stated is what holds of every answer: the
/// solver keeps every edge between the two ends of `area`, and the answer is
/// turned into one rectangle for each constraint, as wide as `area` and at its
/// left edge when cut vertically, as high as `area` and at its top edge when
/// cut horizontally.
#[verifier::external_body]
fn split(direction: Direction, constraints: &Vec<Constraint>, area: Rect) -> (parts: Vec<Rect>)
    ensures
        parts@.len() == constraints@.len(),
        forall|i: int| 0 <= i < parts@.len() ==> (#[trigger] parts@[i]).within(area),
        forall|i: int|
            0 <= i < parts@.len() ==> match direction {
                Direction::Vertical => (#[trigger] parts@[i]).x == area.x && parts@[i].width
                    == area.width,
                Direction::Horizontal => parts@[i].y == area.y && parts@[i].height == area.height,
            },
{
    let way = match direction {
        Direction::Horizontal => tui::Direction::Horizontal,
        Direction::Vertical => tui::Direction::Vertical,
    };
    let limits = constraints.iter().map(|c| match c {
        Constraint::Length(n) => tui::Constraint::Length(*n),
        Constraint::Min(n) => tui::Constraint::Min(*n),
        Constraint::Percentage(n) => tui::Constraint::Percentage(*n),
    });
    let outer = tui::Rect { x: area.x, y: area.y, width: area.width, height: area.height };
    let parts = tui::Layout::default().direction(way).constraints(limits).split(outer);
    parts.iter().map(|r| Rect { x: r.x, y: r.y, width: r.width, height: r.height }).collect()
}

/// The smaller of two numbers.
pub open spec fn least(a: int, b: int) -> int {
    if a <= b {
        a
    } else {
        b
    }
}

/// The larger of two numbers.
pub open spec fn most(a: int, b: int) -> int {
    if a >= b {
        a
    } else {
        b
    }
}

impl Rect {
    /// The rectangle that lies in `self` with a margin of `horizontal` cells
    /// left and right and of `vertical` cells above and below; a rectangle
    /// without cells or place where `self` is too small for the margins.
    pub open spec fn inner_of(self, horizontal: u16, vertical: u16) -> Rect {
        let across = least(2 * horizontal, u16::MAX as int);
        let down = least(2 * vertical, u16::MAX as int);
        if self.width < across || self.height < down {
            Rect { x: 0, y: 0, width: 0, height: 0 }
        } else {
            Rect {
                x: least(self.x + horizontal, u16::MAX as int) as u16,
                y: least(self.y + vertical, u16::MAX as int) as u16,
                width: (self.width - across) as u16,
                height: (self.height - down) as u16,
            }
        }
    }

    /// The rectangle that lies in `self` with the given margins around it.
    pub fn inner(self, horizontal: u16, vertical: u16) -> (inside: Rect)
        ensures
            inside == self.inner_of(horizontal, vertical),
            inside.fits(self),
    {
        let across: u16 = if horizontal > u16::MAX / 2 {
            u16::MAX
        } else {
            2 * horizontal
        };
        let down: u16 = if vertical > u16::MAX / 2 {
            u16::MAX
        } else {
            2 * vertical
        };
        if self.width < across || self.height < down {
            Rect { x: 0, y: 0, width: 0, height: 0 }
        } else {
            Rect {
                x: if self.x > u16::MAX - horizontal {
                    u16::MAX
                } else {
                    self.x + horizontal
                },
                y: if self.y > u16::MAX - vertical {
                    u16::MAX
                } else {
                    self.y + vertical
                },
                width: self.width - across,
                height: self.height - down,
            }
        }
    }
}

/// The cells that `c` asks for, where it asks for so many cells and no others.
pub open spec fn length_of(c: Constraint) -> int {
    match c {
        Constraint::Length(n) => n as int,
        _ => 0,
    }
}

/// Whether each of `constraints` asks for a number of cells.
pub open spec fn all_lengths(constraints: Seq<Constraint>) -> bool {
    forall|i: int| 0 <= i < constraints.len() ==> #[trigger] constraints[i] is Length
}

/// The cells that `constraints` ask for together.
pub open spec fn total_length(constraints: Seq<Constraint>) -> int
    decreases constraints.len(),
{
    if constraints.len() == 0 {
        0
    } else {
        total_length(constraints.drop_last()) + length_of(constraints.last())
    }
}

/// Where `area` begins along `direction`.
pub open spec fn start_of(direction: Direction, area: Rect) -> u16 {
    match direction {
        Direction::Vertical => area.y,
        Direction::Horizontal => area.x,
    }
}

/// How many cells `area` has along `direction`.
pub open spec fn extent_of(direction: Direction, area: Rect) -> u16 {
    match direction {
        Direction::Vertical => area.height,
        Direction::Horizontal => area.width,
    }
}

/// Whether `constraints` ask for numbers of cells that fill `area` exactly
/// along `direction`, where `area` ends on a cell that the terminal can number.
pub open spec fn fills(direction: Direction, constraints: Seq<Constraint>, area: Rect) -> bool {
    &&& all_lengths(constraints)
    &&& total_length(constraints) == extent_of(direction, area)
    &&& start_of(direction, area) + extent_of(direction, area) <= u16::MAX
}

/// The part of `area` that begins `offset` cells after its start along
/// `direction` and goes on for `length` cells.
pub open spec fn part_at(direction: Direction, area: Rect, offset: int, length: int) -> Rect {
    match direction {
        Direction::Vertical => Rect {
            x: area.x,
            y: (area.y + offset) as u16,
            width: area.width,
            height: length as u16,
        },
        Direction::Horizontal => Rect {
            x: (area.x + offset) as u16,
            y: area.y,
            width: length as u16,
            height: area.height,
        },
    }
}

/// The parts of `area` that `constraints` ask for when each is given its
/// cells and they follow one another from the start of `area`.
pub open spec fn stacked(direction: Direction, constraints: Seq<Constraint>, area: Rect) -> Seq<
    Rect,
> {
    Seq::new(
        constraints.len(),
        |i: int| part_at(direction, area, total_length(constraints.take(i)), length_of(constraints[i])),
    )
}

/// What is made of the parts `parts` that the layout gave for `constraints`:
/// where the constraints fill `area` exactly, the parts that they ask for, one
/// after the other; else the parts as the layout gave them.
pub open spec fn settled(
    direction: Direction,
    constraints: Seq<Constraint>,
    area: Rect,
    parts: Seq<Rect>,
) -> Seq<Rect> {
    if parts.len() == constraints.len() && fills(direction, constraints, area) {
        stacked(direction, constraints, area)
    } else {
        parts
    }
}

/// Whether `parts` lie across `area` as parts for `constraints` do when `area`
/// is cut along `direction`: there is one part for each constraint; each lies
/// within `area`; each is as wide as `area` and begins at its left edge when
/// the cut is vertical, and is as high as `area` and begins at its top edge
/// when it is horizontal; and where the constraints fill `area` exactly, each
/// part has its cells, one part after the other from the start of `area`.
/// Where they do not, nothing is said of the order of the parts or of how far
/// each goes along `direction`.
pub open spec fn parts_lie_across(
    direction: Direction,
    constraints: Seq<Constraint>,
    area: Rect,
    parts: Seq<Rect>,
) -> bool {
    &&& parts.len() == constraints.len()
    &&& forall|i: int| 0 <= i < parts.len() ==> (#[trigger] parts[i]).within(area)
    &&& forall|i: int|
        0 <= i < parts.len() ==> match direction {
            Direction::Vertical => (#[trigger] parts[i]).x == area.x && parts[i].width
                == area.width,
            Direction::Horizontal => parts[i].y == area.y && parts[i].height == area.height,
        }
    &&& fills(direction, constraints, area) ==> parts == stacked(direction, constraints, area)
}

/// Constraints ask for no fewer cells than none.
pub proof fn lemma_total_length_nonnegative(constraints: Seq<Constraint>)
    ensures
        0 <= total_length(constraints),
    decreases constraints.len(),
{
    if constraints.len() > 0 {
        lemma_total_length_nonnegative(constraints.drop_last());
    }
}

/// The first constraints ask for no more cells than all of them.
pub proof fn lemma_total_length_take(constraints: Seq<Constraint>, k: int)
    requires
        0 <= k <= constraints.len(),
    ensures
        0 <= total_length(constraints.take(k)) <= total_length(constraints),
    decreases constraints.len() - k,
{
    if k == constraints.len() {
        assert(constraints.take(k) =~= constraints);
        lemma_total_length_nonnegative(constraints);
    } else {
        lemma_total_length_take(constraints.drop_last(), k);
        assert(constraints.drop_last().take(k) =~= constraints.take(k));
    }
}

/// Where constraints fill an area exactly, the parts that they ask for lie
/// within the area and reach across it.
pub proof fn lemma_stacked_within(direction: Direction, constraints: Seq<Constraint>, area: Rect)
    requires
        fills(direction, constraints, area),
    ensures
        parts_lie_across(direction, constraints, area, stacked(direction, constraints, area)),
{
    let parts = stacked(direction, constraints, area);
    assert forall|i: int| 0 <= i < parts.len() implies (#[trigger] parts[i]).within(area) && (
    match direction {
        Direction::Vertical => parts[i].x == area.x && parts[i].width == area.width,
        Direction::Horizontal => parts[i].y == area.y && parts[i].height == area.height,
    }) by {
        lemma_total_length_take(constraints, i);
        lemma_total_length_take(constraints, i + 1);
        assert(constraints.take(i + 1).drop_last() =~= constraints.take(i));
        assert(constraints.take(i + 1).last() == constraints[i]);
        assert(constraints[i] is Length);
    }
}

/// Whether `constraints` fill `area` exactly along `direction`.
pub fn fills_exactly(direction: Direction, constraints: &Vec<Constraint>, area: Rect) -> (exact:
    bool)
    ensures
        exact == fills(direction, constraints@, area),
{
    let (start, extent) = match direction {
        Direction::Vertical => (area.y, area.height),
        Direction::Horizontal => (area.x, area.width),
    };
    let mut total: u32 = 0;
    let mut i: usize = 0;
    while i < constraints.len()
        invariant
            i <= constraints.len(),
            all_lengths(constraints@.take(i as int)),
            total == total_length(constraints@.take(i as int)),
            total <= extent,
            extent == extent_of(direction, area),
        decreases constraints.len() - i,
    {
        proof {
            assert(constraints@.take(i + 1).drop_last() =~= constraints@.take(i as int));
            assert(constraints@.take(i + 1).last() == constraints@[i as int]);
            lemma_total_length_take(constraints@, i + 1);
        }
        match constraints[i] {
            Constraint::Length(n) => {
                total = total + n as u32;
                assert(total == total_length(constraints@.take(i + 1)));
                if total > extent as u32 {
                    assert(total_length(constraints@) > extent);
                    return false;
                }
            },
            _ => {
                assert(!(constraints@[i as int] is Length));
                return false;
            },
        }
        assert forall|j: int| 0 <= j < i + 1 implies #[trigger] constraints@.take(i + 1)[j]
            is Length by {
            if j < i {
                assert(constraints@.take(i as int)[j] == constraints@.take(i + 1)[j]);
            }
        }
        i += 1;
    }
    assert(constraints@.take(constraints.len() as int) =~= constraints@);
    total == extent as u32 && extent <= u16::MAX - start
}

/// What is made of the parts `parts` that the layout gave when it cut `area`
/// along `direction` by `constraints`. Where the constraints ask for numbers
/// of cells that fill `area` exactly, each part is to have its cells, one part
/// after the other from the start of `area`: a part that the layout gave
/// otherwise is put there. In every other case the parts are left as they are.
pub fn settle_parts(
    direction: Direction,
    constraints: &Vec<Constraint>,
    area: Rect,
    parts: Vec<Rect>,
) -> (settled_parts: Vec<Rect>)
    ensures
        settled_parts@ == settled(direction, constraints@, area, parts@),
{
    if parts.len() != constraints.len() || !fills_exactly(direction, constraints, area) {
        return parts;
    }
    let ghost wanted = stacked(direction, constraints@, area);
    let mut out: Vec<Rect> = Vec::new();
    let mut offset: u16 = 0;
    let mut i: usize = 0;
    while i < constraints.len()
        invariant
            i <= constraints.len(),
            parts.len() == constraints.len(),
            fills(direction, constraints@, area),
            wanted == stacked(direction, constraints@, area),
            offset == total_length(constraints@.take(i as int)),
            out@ == wanted.take(i as int),
        decreases constraints.len() - i,
    {
        proof {
            assert(constraints@.take(i + 1).drop_last() =~= constraints@.take(i as int));
            assert(constraints@.take(i + 1).last() == constraints@[i as int]);
            lemma_total_length_take(constraints@, i + 1);
            assert(constraints@[i as int] is Length);
        }
        let length: u16 = match constraints[i] {
            Constraint::Length(n) => n,
            _ => 0,
        };
        let place = match direction {
            Direction::Vertical => Rect {
                x: area.x,
                y: area.y + offset,
                width: area.width,
                height: length,
            },
            Direction::Horizontal => Rect {
                x: area.x + offset,
                y: area.y,
                width: length,
                height: area.height,
            },
        };
        assert(place == wanted[i as int]);
        let given = parts[i];
        if given == place {
            out.push(given);
        } else {
            out.push(place);
        }
        assert(out@ =~= wanted.take(i + 1));
        offset = offset + length;
        i += 1;
    }
    assert(wanted.take(constraints.len() as int) =~= wanted);
    out
}

/// Cuts `area` along `direction` into one part for each of `constraints`, as
/// the layout places them. Where the constraints ask for numbers of cells that
/// fill `area` exactly, each part has its cells, one after the other.
pub fn cut(direction: Direction, constraints: &Vec<Constraint>, area: Rect) -> (parts: Vec<Rect>)
    ensures
        parts_lie_across(direction, constraints@, area, parts@),
{
    let given = split(direction, constraints, area);
    let parts = settle_parts(direction, constraints, area, given);
    proof {
        if fills(direction, constraints@, area) {
            lemma_stacked_within(direction, constraints@, area);
        }
    }
    parts
}

/// The three lengths that put `size` cells in the middle of `outer` cells:
/// half of what is over before them, and the other half, rounded up, after.
pub open spec fn centered_lengths(size: u16, outer: u16) -> Seq<Constraint> {
    let over = most(outer - size, 0);
    seq![
        Constraint::Length((over / 2) as u16),
        Constraint::Length(size),
        Constraint::Length(((over + 1) / 2) as u16),
    ]
}

/// The three lengths that put `size` cells in the middle of `outer` cells.
pub fn centered_constraints(size: u16, outer: u16) -> (constraints: Vec<Constraint>)
    ensures
        constraints@ == centered_lengths(size, outer),
{
    let over: u16 = if outer > size {
        outer - size
    } else {
        0
    };
    let after: u16 = if over == u16::MAX {
        over / 2 + 1
    } else {
        (over + 1) / 2
    };
    let mut constraints: Vec<Constraint> = Vec::new();
    constraints.push(Constraint::Length(over / 2));
    constraints.push(Constraint::Length(size));
    constraints.push(Constraint::Length(after));
    assert(constraints@ =~= centered_lengths(size, outer));
    constraints
}

/// Whether `popup` lies in `r` and is, each way in which `r` has room for it,
/// `width` by `height` cells in the middle of `r`. Where `r` is at least
/// `width` cells wide, `popup` is `width` cells wide, and of the columns that
/// are over, half stand before it and the other half, rounded up, after it;
/// where `r` is at least `height` cells high, the same holds of its rows. This
/// is said of either way only where `r` ends on a cell that the terminal can
/// number. A way in which `r` is too small is left to the layout: of that way
/// only that `popup` lies in `r` is said.
pub open spec fn centered_where_it_fits(popup: Rect, width: u16, height: u16, r: Rect) -> bool {
    &&& popup.within(r)
    &&& width <= r.width && r.x + r.width <= u16::MAX ==> popup.x == r.x + (r.width - width) / 2
        && popup.width == width
    &&& height <= r.height && r.y + r.height <= u16::MAX ==> popup.y == r.y + (r.height - height)
        / 2 && popup.height == height
}

/// The rectangle of `width` by `height` cells in the middle of `r`: the
/// middle one of three rows of `r`, and of that row the middle one of three
/// columns. Where `r` is too small for it one way, it is what the layout
/// gives of `r` that way.
pub fn centered_rect_absolute(width: u16, height: u16, r: Rect) -> (popup: Rect)
    ensures
        centered_where_it_fits(popup, width, height, r),
{
    let across = centered_constraints(height, r.height);
    let rows = cut(Direction::Vertical, &across, r);
    let row = rows[1];
    let along = centered_constraints(width, r.width);
    let columns = cut(Direction::Horizontal, &along, row);
    proof {
        lemma_centered_fills(Direction::Vertical, height, r);
        lemma_centered_fills(Direction::Horizontal, width, row);
    }
    columns[1]
}

/// Three lengths that put `size` cells in the middle of `area` fill it
/// exactly where it has at least `size` cells, and the middle one of the parts
/// that they ask for begins after half of what is over.
pub proof fn lemma_centered_fills(direction: Direction, size: u16, area: Rect)
    ensures
        ({
            let lengths = centered_lengths(size, extent_of(direction, area));
            let over = extent_of(direction, area) - size;
            size <= extent_of(direction, area) && start_of(direction, area) + extent_of(
                direction,
                area,
            ) <= u16::MAX ==> fills(direction, lengths, area) && stacked(
                direction,
                lengths,
                area,
            )[1] == part_at(direction, area, over / 2, size as int)
        }),
{
    let lengths = centered_lengths(size, extent_of(direction, area));
    assert(lengths.drop_last().drop_last().drop_last() =~= Seq::<Constraint>::empty());
    assert(lengths.take(1) =~= lengths.drop_last().drop_last());
    assert(lengths.take(1).drop_last() =~= Seq::<Constraint>::empty());
    reveal_with_fuel(total_length, 4);
}

/// The rows that a line of `chars` characters takes when it is wrapped at
/// `width` cells: `chars / width`, rounded up. No rows where there is no width.
pub open spec fn wrapped_rows(chars: nat, width: nat) -> nat {
    if width == 0 {
        0
    } else {
        ((chars + width - 1) / width as int) as nat
    }
}

/// The rows that `lines` take together when each is wrapped at `width` cells.
pub open spec fn wrapped_total(lines: Seq<Seq<char>>, width: nat) -> nat
    decreases lines.len(),
{
    if lines.len() == 0 {
        0
    } else {
        wrapped_total(lines.drop_last(), width) + wrapped_rows(lines.last().len(), width)
    }
}

/// A line wrapped at a width takes no more rows than it has characters, and
/// for a line that is not empty one row more than a line one character shorter
/// needs whole rows.
pub proof fn lemma_wrapped_rows(chars: nat, width: nat)
    requires
        width > 0,
    ensures
        wrapped_rows(chars, width) <= chars,
        chars > 0 ==> wrapped_rows(chars, width) == (chars - 1) / width as int + 1,
{
    if chars > 0 {
        let q = (chars - 1) / width as int;
        assert((chars - 1 + width) / width as int == q + 1) by (nonlinear_arith)
            requires
                width > 0,
                chars >= 1,
                q == (chars - 1) / width as int,
        ;
        assert(q <= chars - 1) by (nonlinear_arith)
            requires
                width > 0,
                chars >= 1,
                q == (chars - 1) / width as int,
        ;
    } else {
        assert((width - 1) / width as int == 0) by (nonlinear_arith)
            requires
                width > 0,
        ;
    }
}

/// The number of rows that `text` takes in a field `max_width` cells wide:
/// each of its lines wrapped at that width, all added up.
pub fn calculate_wrapped_lines(text: &str, max_width: u16) -> (line_count: usize)
    ensures
        line_count == wrapped_total(lines_of(text@), max_width as nat),
{
    let chars = chars_of(text);
    assert(text@.len() == chars.len());
    let lines = split_lines(&chars);
    let mut line_count: usize = 0;
    let mut i: usize = 0;
    while i < lines.len()
        invariant
            i <= lines.len(),
            texts(lines@) == lines_of(text@),
            total_len(lines_of(text@)) <= text@.len(),
            text@.len() <= usize::MAX,
            line_count == wrapped_total(lines_of(text@).take(i as int), max_width as nat),
            line_count <= total_len(lines_of(text@).take(i as int)),
            total_len(lines_of(text@).take(i as int)) <= total_len(lines_of(text@)),
        decreases lines.len() - i,
    {
        let chars = lines[i].len();
        proof {
            let all = lines_of(text@);
            let next = all.take(i + 1);
            assert(next.drop_last() =~= all.take(i as int));
            assert(next.last() == lines@[i as int]@);
            lemma_total_len_take(all, i + 1);
            if max_width > 0 {
                lemma_wrapped_rows(chars as nat, max_width as nat);
            }
        }
        if max_width > 0 && chars > 0 {
            line_count = line_count + ((chars - 1) / (max_width as usize) + 1);
        }
        i += 1;
    }
    assert(lines_of(text@).take(lines.len() as int) =~= lines_of(text@));
    line_count
}

/// Where the cursor stands after `input` in a field at `area`: one column
/// after the end of the last line, and as many rows down as `input` has lines,
/// counted from the field's corner. A place that the terminal cannot number is
/// put at the largest number it can.
pub open spec fn cursor_position(input: Seq<char>, area: Rect) -> (u16, u16) {
    let lines = lines_of(input);
    let last = if lines.len() > 0 {
        lines.last().len()
    } else {
        0
    };
    (
        least(area.x + last + 1, u16::MAX as int) as u16,
        least(area.y + lines.len(), u16::MAX as int) as u16,
    )
}

/// Where the cursor stands after `input` in a field at `area`.
pub fn get_cursor_position(input: &str, area: Rect) -> (position: (u16, u16))
    ensures
        position == cursor_position(input@, area),
{
    let lines = split_lines(&chars_of(input));
    let count = lines.len();
    let last: usize = if count > 0 {
        assert(lines_of(input@).last() == lines@[count - 1]@);
        lines[count - 1].len()
    } else {
        0
    };
    let room_x: u16 = u16::MAX - area.x;
    let x: u16 = if last >= room_x as usize {
        u16::MAX
    } else {
        area.x + (last as u16) + 1
    };
    let room_y: u16 = u16::MAX - area.y;
    let y: u16 = if count > room_y as usize {
        u16::MAX
    } else {
        area.y + (count as u16)
    };
    (x, y)
}

/// How a piece of text is set off from the text around it.
#[derive(Clone, Copy, Debug, PartialEq, Eq, Structural)]
pub enum Style {
    /// Like the text around it.
    Plain,
    /// A key of the keyboard, in the legend.
    Key,
    /// The name of a field.
    Heading,
    /// A label of a task.
    Label,
    /// The mark of a completed task.
    Done,
}

/// A piece of text in one style.
#[derive(Debug)]
pub struct Span {
    pub content: String,
    pub style: Style,
}

/// A line of text: its pieces from left to right.
#[derive(Debug)]
pub struct Line {
    pub spans: Vec<Span>,
}

/// A `Span` as a value.
pub struct SpanView {
    pub content: Seq<char>,
    pub style: Style,
}

impl View for Span {
    type V = SpanView;

    open spec fn view(&self) -> SpanView {
        SpanView { content: self.content@, style: self.style }
    }
}

impl View for Line {
    type V = Seq<SpanView>;

    open spec fn view(&self) -> Seq<SpanView> {
        Seq::new(self.spans@.len(), |i: int| self.spans@[i]@)
    }
}

/// The lines `lines` as values.
pub open spec fn lines_view(lines: Seq<Line>) -> Seq<Seq<SpanView>> {
    Seq::new(lines.len(), |i: int| lines[i]@)
}

/// The text `content` in the style `style`.
pub open spec fn styled(content: Seq<char>, style: Style) -> SpanView {
    SpanView { content, style }
}

/// The text `content` in the style `style`.
pub fn span(content: &str, style: Style) -> (piece: Span)
    ensures
        piece@ == styled(content@, style),
{
    Span { content: content.to_owned(), style }
}

/// The line with the one piece `piece`.
pub fn line_of(piece: Span) -> (line: Line)
    ensures
        line@ == seq![piece@],
{
    let mut spans: Vec<Span> = Vec::new();
    spans.push(piece);
    let line = Line { spans };
    assert(line@ =~= seq![piece@]);
    line
}

/// The legend of the keys that act in `mode`: each key, then what it does.
pub open spec fn legend_of(mode: InputMode) -> Seq<SpanView> {
    match mode {
        InputMode::Normal => seq![
            styled(" q "@, Style::Key),
            styled(": Quit "@, Style::Plain),
            styled(" j "@, Style::Key),
            styled(": Down "@, Style::Plain),
            styled(" k "@, Style::Key),
            styled(": Up "@, Style::Plain),
            styled(" n "@, Style::Key),
            styled(": Next Page "@, Style::Plain),
            styled(" p "@, Style::Key),
            styled(": Previous Page "@, Style::Plain),
            styled(" t "@, Style::Key),
            styled(": Toggle Done "@, Style::Plain),
            styled(" Enter "@, Style::Key),
            styled(": View Details "@, Style::Plain),
            styled(" a "@, Style::Key),
            styled(": Add Task "@, Style::Plain),
        ],
        InputMode::Editing => seq![
            styled(" i "@, Style::Key),
            styled(": Insert "@, Style::Plain),
            styled(" Tab "@, Style::Key),
            styled(": Switch Input "@, Style::Plain),
            styled(" Enter "@, Style::Key),
            styled(": Submit "@, Style::Plain),
            styled(" Esc "@, Style::Key),
            styled(": Cancel "@, Style::Plain),
        ],
        InputMode::Insert => seq![
            styled(" Esc "@, Style::Key),
            styled(": Exit Insert Mode "@, Style::Plain),
        ],
    }
}

fn push_entry(line: &mut Line, key: &str, does: &str)
    ensures
        final(line)@ == old(line)@.push(styled(key@, Style::Key)).push(styled(does@, Style::Plain)),
{
    line.spans.push(span(key, Style::Key));
    line.spans.push(span(does, Style::Plain));
    assert(line@ =~= old(line)@.push(styled(key@, Style::Key)).push(
        styled(does@, Style::Plain),
    ));
}

/// The legend of the keys that act in `input_mode`.
pub fn get_legend(input_mode: &InputMode) -> (legend: Line)
    ensures
        legend@ == legend_of(*input_mode),
{
    let mut legend = Line { spans: Vec::new() };
    assert(legend@ =~= Seq::<SpanView>::empty());
    match input_mode {
        InputMode::Normal => {
            push_entry(&mut legend, " q ", ": Quit ");
            push_entry(&mut legend, " j ", ": Down ");
            push_entry(&mut legend, " k ", ": Up ");
            push_entry(&mut legend, " n ", ": Next Page ");
            push_entry(&mut legend, " p ", ": Previous Page ");
            push_entry(&mut legend, " t ", ": Toggle Done ");
            push_entry(&mut legend, " Enter ", ": View Details ");
            push_entry(&mut legend, " a ", ": Add Task ");
        },
        InputMode::Editing => {
            push_entry(&mut legend, " i ", ": Insert ");
            push_entry(&mut legend, " Tab ", ": Switch Input ");
            push_entry(&mut legend, " Enter ", ": Submit ");
            push_entry(&mut legend, " Esc ", ": Cancel ");
        },
        InputMode::Insert => {
            push_entry(&mut legend, " Esc ", ": Exit Insert Mode ");
        },
    }
    assert(legend@ =~= legend_of(*input_mode));
    legend
}

/// The pieces into which `ansi_parser` cuts `line`: each run of text, and
/// `None` in the place of each escape sequence.
pub uninterp spec fn ansi_blocks(line: Seq<char>) -> Seq<Option<Seq<char>>>;

/// Walks `line` with `ansi_parser`'s `ansi_parse` and hands out each piece: a
/// text block as its text, an escape sequence as `None`. The result is by
/// definition `ansi_blocks`.
#[verifier::external_body]
fn ansi_pieces(line: &str) -> (pieces: Vec<Option<String>>)
    ensures
        group_texts(pieces@) == ansi_blocks(line@),
{
    line.ansi_parse().map(|piece| match piece {
        Output::TextBlock(text) => Some(text.to_string()),
        Output::Escape(_) => None,
    }).collect()
}

/// The texts among `blocks` as plain pieces of a line, in their order.
pub open spec fn plain_spans(blocks: Seq<Option<Seq<char>>>) -> Seq<SpanView>
    decreases blocks.len(),
{
    if blocks.len() == 0 {
        Seq::empty()
    } else {
        match blocks.last() {
            Some(text) => plain_spans(blocks.drop_last()).push(styled(text, Style::Plain)),
            None => plain_spans(blocks.drop_last()),
        }
    }
}

/// What is shown of text that holds escape sequences: line by line the runs
/// of text between them, the escape sequences left out.
pub open spec fn ansi_lines(text: Seq<char>) -> Seq<Seq<SpanView>> {
    Seq::new(lines_of(text).len(), |i: int| plain_spans(ansi_blocks(lines_of(text)[i])))
}

/// The line made of the texts among `pieces`.
pub fn text_spans(pieces: Vec<Option<String>>) -> (line: Line)
    ensures
        line@ == plain_spans(group_texts(pieces@)),
{
    let ghost blocks = group_texts(pieces@);
    let mut spans: Vec<Span> = Vec::new();
    let mut line = Line { spans };
    assert(line@ =~= plain_spans(blocks.take(0)));
    let mut i: usize = 0;
    while i < pieces.len()
        invariant
            i <= pieces.len(),
            blocks == group_texts(pieces@),
            line@ == plain_spans(blocks.take(i as int)),
        decreases pieces.len() - i,
    {
        proof {
            let next = blocks.take(i + 1);
            assert(next.drop_last() =~= blocks.take(i as int));
            assert(next.last() == text_of(pieces@[i as int]));
        }
        let ghost before = line@;
        match &pieces[i] {
            Some(text) => {
                line.spans.push(span(text.as_str(), Style::Plain));
                assert(line@ =~= before.push(styled(text@, Style::Plain)));
            },
            None => {},
        }
        i += 1;
    }
    assert(blocks.take(pieces.len() as int) =~= blocks);
    line
}

/// What is shown of `ansi_str`: its lines, each without its escape sequences.
pub fn ansi_to_text(ansi_str: &str) -> (lines: Vec<Line>)
    ensures
        lines_view(lines@) == ansi_lines(ansi_str@),
{
    let raw = split_lines(&chars_of(ansi_str));
    let mut lines: Vec<Line> = Vec::new();
    let mut i: usize = 0;
    while i < raw.len()
        invariant
            i <= raw.len(),
            texts(raw@) == lines_of(ansi_str@),
            lines@.len() == i,
            lines_view(lines@) == ansi_lines(ansi_str@).take(i as int),
        decreases raw.len() - i,
    {
        let text = string_of(&raw[i]);
        let line = text_spans(ansi_pieces(text.as_str()));
        assert(text@ == lines_of(ansi_str@)[i as int]) by {
            assert(texts(raw@)[i as int] == raw@[i as int]@);
        }
        let ghost before = lines_view(lines@);
        let ghost shown = line@;
        lines.push(line);
        proof {
            let all = ansi_lines(ansi_str@);
            assert(texts(raw@).len() == raw@.len());
            assert(all.len() == raw@.len());
            assert(all[i as int] == shown);
            assert forall|j: int| 0 <= j < i + 1 implies lines_view(lines@)[j] == all.take(
                i + 1,
            )[j] by {
                if j < i {
                    assert(lines_view(lines@)[j] == before[j]);
                    assert(before[j] == all.take(i as int)[j]);
                }
            }
            assert(lines_view(lines@) =~= all.take(i + 1));
        }
        i += 1;
    }
    assert(ansi_lines(ansi_str@).take(raw.len() as int) =~= ansi_lines(ansi_str@));
    lines
}

/// The error with which `html2text` gives up on a text.
#[verifier::external_type_specification]
#[verifier::external_body]
pub struct ExHtmlError(html2text::Error);

/// The plain text that `html2text` makes of the markup `html` for a column
/// `width` cells wide; `None` where it gives up.
pub uninterp spec fn html_text(html: Seq<char>, width: usize) -> Option<Seq<char>>;

/// Renders `html` with `html2text`'s plain renderer, `string_from_read`, on
/// the bytes of the text. The result is by definition `html_text`.
#[verifier::external_body]
fn html_to_text(html: &str, width: usize) -> (text: Result<String, html2text::Error>)
    ensures
        match text {
            Ok(s) => html_text(html@, width) == Some(s@),
            Err(_) => html_text(html@, width) is None,
        },
{
    html2text::config::plain().string_from_read(html.as_bytes(), width)
}

/// The due date that the task service sends for a task without one.
pub const ZERO_DATE: &'static str = "0001-01-01T00:00:00Z";

/// The description that the task service sends for a task without one.
pub const EMPTY_MARKUP: &'static str = "<p></p>";

/// Stands before a task's due date.
pub const DUE_DATE_HEADING: &'static str = "Due Date: ";

/// Stands before a task's priority.
pub const PRIORITY_HEADING: &'static str = "Priority: ";

/// Stands above a task's labels.
pub const LABELS_HEADING: &'static str = "Labels: ";

/// Stands above a task's description.
pub const DESCRIPTION_HEADING: &'static str = "Description: ";

/// Shown for a task without a due date.
pub const NO_DUE_DATE: &'static str = "No due date";

/// Shown for a task without a priority.
pub const NO_PRIORITY: &'static str = "No priority";

/// Shown for a task without labels.
pub const NO_LABELS: &'static str = "No labels";

/// Shown for a task without a description.
pub const NO_DESCRIPTION: &'static str = "No description";

/// Shown in place of a task's details before any task was looked at.
pub const DETAIL_PROMPT: &'static str = "Press Enter to view task details";

/// Whether two texts hold the same characters.
pub fn same_text(a: &str, b: &str) -> (same: bool)
    ensures
        same == (a@ == b@),
{
    let x = a.to_owned();
    let y = b.to_owned();
    x == y
}

/// What is shown as a task's due date: the date as it was sent, or that there
/// is none where none was sent or the date that stands for none.
pub open spec fn due_date_text(due: Option<Seq<char>>) -> Seq<char> {
    match due {
        Some(date) => if date != ZERO_DATE@ {
            date
        } else {
            NO_DUE_DATE@
        },
        None => NO_DUE_DATE@,
    }
}

/// What is shown as a task's priority: the number, or that there is none.
pub open spec fn priority_text(priority: Option<i32>) -> Seq<char> {
    match priority {
        Some(p) => decimal_text(p as int),
        None => NO_PRIORITY@,
    }
}

/// The tag of a label: its text with a space on either side.
pub open spec fn label_tag(label: Label) -> SpanView {
    styled(" "@ + label.title@ + " "@, Style::Label)
}

/// The tags of `labels` in their order, a plain space between neighbours.
pub open spec fn label_spans(labels: Seq<Label>) -> Seq<SpanView>
    decreases labels.len(),
{
    if labels.len() == 0 {
        Seq::empty()
    } else if labels.len() == 1 {
        seq![label_tag(labels[0])]
    } else {
        label_spans(labels.drop_last()).push(styled(" "@, Style::Plain)).push(
            label_tag(labels.last()),
        )
    }
}

/// The line of a task's labels: their tags, or that there are none.
pub open spec fn labels_line_of(labels: Option<Vec<Label>>) -> Seq<SpanView> {
    match labels {
        Some(list) => if list@.len() > 0 {
            label_spans(list@)
        } else {
            seq![styled(NO_LABELS@, Style::Plain)]
        },
        None => seq![styled(NO_LABELS@, Style::Plain)],
    }
}

/// The lines of a task's description in a column `width` cells wide: that
/// there is none where none was sent or only the markup that stands for none;
/// else the markup as plain text, and the markup itself where it cannot be
/// made into plain text.
pub open spec fn description_lines_of(description: Option<Seq<char>>, width: usize) -> Seq<
    Seq<SpanView>,
> {
    match description {
        Some(markup) => if trimmed(markup) == EMPTY_MARKUP@ {
            seq![seq![styled(NO_DESCRIPTION@, Style::Plain)]]
        } else {
            match html_text(markup, width) {
                Some(text) => ansi_lines(text),
                None => ansi_lines(markup),
            }
        },
        None => seq![seq![styled(NO_DESCRIPTION@, Style::Plain)]],
    }
}

/// The lines that show a task in full, in a column `width` cells wide: due
/// date, priority, labels and description, each under its heading or after it.
pub open spec fn detail_lines_of(detail: TaskDetail, width: usize) -> Seq<Seq<SpanView>> {
    seq![
        seq![
            styled(DUE_DATE_HEADING@, Style::Heading),
            styled(due_date_text(text_of(detail.due_date)), Style::Plain),
        ],
        seq![
            styled(PRIORITY_HEADING@, Style::Heading),
            styled(priority_text(detail.priority), Style::Plain),
        ],
        seq![styled(LABELS_HEADING@, Style::Heading)],
        labels_line_of(detail.labels),
        seq![styled(DESCRIPTION_HEADING@, Style::Heading)],
    ] + description_lines_of(text_of(detail.description), width)
}

/// The line with the heading `heading` and the plain text `value` after it.
pub fn field_line(heading: &str, value: &str) -> (line: Line)
    ensures
        line@ == seq![styled(heading@, Style::Heading), styled(value@, Style::Plain)],
{
    let mut spans: Vec<Span> = Vec::new();
    spans.push(span(heading, Style::Heading));
    spans.push(span(value, Style::Plain));
    let line = Line { spans };
    assert(line@ =~= seq![styled(heading@, Style::Heading), styled(value@, Style::Plain)]);
    line
}

/// What is shown as a task's due date.
pub fn due_date_value(due: &Option<String>) -> (value: String)
    ensures
        value@ == due_date_text(text_of(*due)),
{
    match due {
        Some(date) => if !same_text(date.as_str(), ZERO_DATE) {
            date.clone()
        } else {
            String::from_str(NO_DUE_DATE)
        },
        None => String::from_str(NO_DUE_DATE),
    }
}

/// What is shown as a task's priority.
pub fn priority_value(priority: Option<i32>) -> (value: String)
    ensures
        value@ == priority_text(priority),
{
    match priority {
        Some(p) => string_of(&format_decimal(p)),
        None => String::from_str(NO_PRIORITY),
    }
}

/// The line of a task's labels.
pub fn labels_line(labels: &Option<Vec<Label>>) -> (line: Line)
    ensures
        line@ == labels_line_of(*labels),
{
    match labels {
        Some(list) => if list.len() > 0 {
            let mut line = Line { spans: Vec::new() };
            assert(line@ =~= label_spans(list@.take(0)));
            let mut i: usize = 0;
            while i < list.len()
                invariant
                    i <= list.len(),
                    line@ == label_spans(list@.take(i as int)),
                decreases list.len() - i,
            {
                let ghost before = line@;
                proof {
                    let next = list@.take(i + 1);
                    assert(next.drop_last() =~= list@.take(i as int));
                    assert(next.last() == list@[i as int]);
                    assert(next[0] == list@[0]);
                }
                if i > 0 {
                    line.spans.push(span(" ", Style::Plain));
                }
                let tag = String::from_str(" ").concat(list[i].title.as_str()).concat(" ");
                line.spans.push(Span { content: tag, style: Style::Label });
                assert(line@ =~= label_spans(list@.take(i + 1)));
                i += 1;
            }
            assert(list@.take(list.len() as int) =~= list@);
            line
        } else {
            line_of(span(NO_LABELS, Style::Plain))
        },
        None => line_of(span(NO_LABELS, Style::Plain)),
    }
}

/// The lines that show the markup `markup`, which was made into the plain
/// text `converted` unless that is `None`.
pub fn converted_lines(markup: &str, converted: Option<String>) -> (lines: Vec<Line>)
    ensures
        lines_view(lines@) == match converted {
            Some(text) => ansi_lines(text@),
            None => ansi_lines(markup@),
        },
{
    match converted {
        Some(text) => ansi_to_text(text.as_str()),
        None => ansi_to_text(markup),
    }
}

/// The lines of a task's description in a column `width` cells wide.
pub fn description_lines(description: &Option<String>, width: usize) -> (lines: Vec<Line>)
    ensures
        lines_view(lines@) == description_lines_of(text_of(*description), width),
{
    let absent = match description {
        Some(markup) => {
            let inner = string_of(&trim(&chars_of(markup.as_str())));
            same_text(inner.as_str(), EMPTY_MARKUP)
        },
        None => true,
    };
    if absent {
        let mut lines: Vec<Line> = Vec::new();
        lines.push(line_of(span(NO_DESCRIPTION, Style::Plain)));
        assert(lines_view(lines@) =~= seq![seq![styled(NO_DESCRIPTION@, Style::Plain)]]);
        lines
    } else {
        match description {
            Some(markup) => {
                let converted = match html_to_text(markup.as_str(), width) {
                    Ok(text) => Some(text),
                    Err(_) => None,
                };
                converted_lines(markup.as_str(), converted)
            },
            None => Vec::new(),
        }
    }
}

/// The lines that show the task `detail` in full, in a column `width` cells
/// wide.
pub fn detail_lines(detail: &TaskDetail, width: usize) -> (lines: Vec<Line>)
    ensures
        lines_view(lines@) == detail_lines_of(*detail, width),
{
    let mut lines: Vec<Line> = Vec::new();
    lines.push(field_line(DUE_DATE_HEADING, due_date_value(&detail.due_date).as_str()));
    lines.push(field_line(PRIORITY_HEADING, priority_value(detail.priority).as_str()));
    lines.push(line_of(span(LABELS_HEADING, Style::Heading)));
    lines.push(labels_line(&detail.labels));
    lines.push(line_of(span(DESCRIPTION_HEADING, Style::Heading)));
    let mut rest = description_lines(&detail.description, width);
    let ghost head = lines_view(lines@);
    let ghost tail = lines_view(rest@);
    lines.append(&mut rest);
    assert(lines_view(lines@) =~= head + tail);
    assert(lines_view(lines@) =~= detail_lines_of(*detail, width));
    lines
}

/// The title of the task list while completed tasks are shown too.
pub const LIST_TITLE_ALL: &'static str = "Tasks (All)";

/// The title of the task list while completed tasks are left out.
pub const LIST_TITLE_UNDONE: &'static str = "Tasks (Undone)";

/// The one row of a task list without tasks.
pub const NO_TASKS: &'static str = "No tasks available";

/// Stands before the title of a completed task.
pub const DONE_MARK: &'static str = "DONE ";

/// The title over a task's details.
pub const DETAIL_TITLE: &'static str = "Task Details";

/// The title over an error message.
pub const ERROR_TITLE: &'static str = "Error";

/// The title over the popup for a new task.
pub const POPUP_TITLE: &'static str = "Enter New Task (Press Enter to Submit, Tab to Switch)";

/// The title over the field for a new task's title.
pub const TITLE_BOX_TITLE: &'static str = "Title";

/// The title over the field for a new task's description.
pub const DESCRIPTION_BOX_TITLE: &'static str = "Description";

/// The width and the height that are asked for the error message.
pub const ERROR_SIZE: (u16, u16) = (60, 5);

/// The rows of the footer.
pub const FOOTER_HEIGHT: u16 = 2;

/// The hundredths of the body's width that go to the list and to the details.
pub const PANE_SHARES: (u16, u16) = (65, 35);

/// The hundredths of the terminal's width that the popup takes, borders and all.
pub const POPUP_SHARE: u16 = 60;

/// The rows that the borders and titles of the popup and its two fields take.
pub const POPUP_CHROME: u16 = 6;

/// The rows that the popup leaves free of the terminal's height.
pub const POPUP_MARGIN: u16 = 2;

/// The rows that the title field has at least, and the description field.
pub const LEAST_ROWS: (u16, u16) = (1, 2);

/// The task list: where it stands, its title, its rows and the selected row.
#[derive(Debug)]
pub struct ListPanel {
    pub area: Rect,
    pub title: String,
    pub rows: Vec<Line>,
    pub selected: Option<usize>,
}

/// A bordered block of text: where it stands, its title and its lines.
#[derive(Debug)]
pub struct TextPanel {
    pub area: Rect,
    pub title: String,
    pub lines: Vec<Line>,
}

/// One field of the popup: where it stands, its title, its text, and whether
/// typing goes to it.
#[derive(Debug)]
pub struct InputBox {
    pub area: Rect,
    pub title: String,
    pub text: String,
    pub active: bool,
}

/// The popup in which a new task is written: where it stands, its title, its
/// two fields, and the place of the cursor.
#[derive(Debug)]
pub struct ComposePopup {
    pub area: Rect,
    pub title: String,
    pub title_box: InputBox,
    pub description_box: InputBox,
    pub cursor: (u16, u16),
}

/// What fills the screen above the footer.
#[derive(Debug)]
pub enum Body {
    Browse { list: ListPanel, detail: TextPanel },
    Compose { popup: ComposePopup },
}

/// Everything that one frame shows.
#[derive(Debug)]
pub struct Frame {
    /// The area above the footer.
    pub main: Rect,
    /// What fills the main area.
    pub body: Body,
    /// The error message, laid over the rest.
    pub error: Option<TextPanel>,
    /// The area of the legend.
    pub footer: Rect,
    /// The legend of the keys.
    pub legend: Line,
}

/// The sizes of the popup and of its two fields, borders counted in.
#[derive(Clone, Copy, Debug, PartialEq, Eq, Structural)]
pub struct PopupSize {
    pub width: u16,
    pub height: u16,
    pub title_box: u16,
    pub description_box: u16,
}

/// The title over the task list.
pub open spec fn list_title_of(show_done: bool) -> Seq<char> {
    if show_done {
        LIST_TITLE_ALL@
    } else {
        LIST_TITLE_UNDONE@
    }
}

/// The row of `task` in the list: its title, after the mark of completed
/// tasks where it is completed.
pub open spec fn task_row_of(task: Task) -> Seq<SpanView> {
    if task.done {
        seq![styled(DONE_MARK@, Style::Done), styled(task.title@, Style::Plain)]
    } else {
        seq![styled(task.title@, Style::Plain)]
    }
}

/// The rows of the list: one for each task, or the one that says there are none.
pub open spec fn list_rows_of(tasks: Seq<Task>) -> Seq<Seq<SpanView>> {
    if tasks.len() > 0 {
        Seq::new(tasks.len(), |i: int| task_row_of(tasks[i]))
    } else {
        seq![seq![styled(NO_TASKS@, Style::Plain)]]
    }
}

/// The cells in which the popup's fields hold text, for a terminal
/// `viewport_width` cells wide: its share of the width without the borders.
pub open spec fn popup_width_of(viewport_width: u16) -> u16 {
    most(viewport_width * POPUP_SHARE / 100 - 2, 0) as u16
}

/// The rows that a field gives to `text` at `width` cells: those that the
/// wrapped text takes, and `at_least` where it takes fewer.
pub open spec fn field_rows(text: Seq<char>, width: u16, at_least: u16) -> int {
    most(wrapped_total(lines_of(text), width as nat) as int, at_least as int)
}

/// The popup for the two texts on a terminal of the size of `viewport`: as
/// high as both fields and the borders and titles together, but leaving the
/// margin free of the terminal's height; each field as high as its rows and
/// its two borders, as far as the terminal can number rows.
pub open spec fn popup_size_of(title: Seq<char>, description: Seq<char>, viewport: Rect)
    -> PopupSize {
    let width = popup_width_of(viewport.width);
    let title_rows = field_rows(title, width, LEAST_ROWS.0);
    let description_rows = field_rows(description, width, LEAST_ROWS.1);
    PopupSize {
        width: (width + 2) as u16,
        height: least(
            title_rows + description_rows + POPUP_CHROME,
            most(viewport.height - POPUP_MARGIN, 0),
        ) as u16,
        title_box: least(title_rows + 2, u16::MAX as int) as u16,
        description_box: least(description_rows + 2, u16::MAX as int) as u16,
    }
}

fn clamped_rows(text: &str, width: u16, at_least: u16) -> (rows: u16)
    ensures
        rows == least(field_rows(text@, width, at_least), u16::MAX as int),
{
    let wrapped = calculate_wrapped_lines(text, width);
    if wrapped >= u16::MAX as usize {
        u16::MAX
    } else if wrapped < at_least as usize {
        at_least
    } else {
        wrapped as u16
    }
}

/// The sizes of the popup for the two texts on a terminal of the size of
/// `viewport`.
pub fn popup_size(title: &str, description: &str, viewport: Rect) -> (size: PopupSize)
    ensures
        size == popup_size_of(title@, description@, viewport),
{
    let share: u32 = (viewport.width as u32) * (POPUP_SHARE as u32) / 100;
    assert(share == viewport.width * 60 / 100);
    assert(viewport.width * 60 / 100 <= viewport.width) by (nonlinear_arith);
    let width: u16 = if share >= 2 {
        (share - 2) as u16
    } else {
        0
    };
    assert(width == popup_width_of(viewport.width));
    assert(width <= u16::MAX - 2);
    let title_rows = clamped_rows(title, width, LEAST_ROWS.0);
    let description_rows = clamped_rows(description, width, LEAST_ROWS.1);
    let wanted: u32 = (title_rows as u32) + (description_rows as u32) + (POPUP_CHROME as u32);
    let room: u16 = if viewport.height >= POPUP_MARGIN {
        viewport.height - POPUP_MARGIN
    } else {
        0
    };
    PopupSize {
        width: width + 2,
        height: if wanted >= room as u32 {
            room
        } else {
            wanted as u16
        },
        title_box: if title_rows >= u16::MAX - 1 {
            u16::MAX
        } else {
            title_rows + 2
        },
        description_box: if description_rows >= u16::MAX - 1 {
            u16::MAX
        } else {
            description_rows + 2
        },
    }
}

/// The row of `task` in the list.
pub fn task_row(task: &Task) -> (row: Line)
    ensures
        row@ == task_row_of(*task),
{
    let mut spans: Vec<Span> = Vec::new();
    if task.done {
        spans.push(span(DONE_MARK, Style::Done));
    }
    spans.push(span(task.title.as_str(), Style::Plain));
    let row = Line { spans };
    assert(row@ =~= task_row_of(*task));
    row
}

/// The rows of the list of `tasks`.
pub fn list_rows(tasks: &Vec<Task>) -> (rows: Vec<Line>)
    ensures
        lines_view(rows@) == list_rows_of(tasks@),
{
    let mut rows: Vec<Line> = Vec::new();
    if tasks.len() == 0 {
        rows.push(line_of(span(NO_TASKS, Style::Plain)));
        assert(lines_view(rows@) =~= list_rows_of(tasks@));
        return rows;
    }
    let mut i: usize = 0;
    while i < tasks.len()
        invariant
            i <= tasks.len(),
            rows@.len() == i,
            forall|j: int| 0 <= j < i ==> (#[trigger] rows@[j])@ == task_row_of(tasks@[j]),
        decreases tasks.len() - i,
    {
        rows.push(task_row(&tasks[i]));
        i += 1;
    }
    assert(lines_view(rows@) =~= list_rows_of(tasks@));
    rows
}

/// The cells across in which a bordered block at `area` holds text.
pub open spec fn content_width(area: Rect) -> usize {
    most(area.width - 2, 0) as usize
}

impl ListPanel {
    /// The panel shows the task list of `app`: its title by the filter, a row
    /// for each task, and the cursor of `app`.
    pub open spec fn shows(&self, app: &App) -> bool {
        &&& self.title@ == list_title_of(app.show_done_tasks)
        &&& lines_view(self.rows@) == list_rows_of(app.tasks@)
        &&& self.selected == app@.selected
    }
}

impl TextPanel {
    /// The panel shows the task that `app` last fetched in full, in the
    /// width that the panel has within its borders, or the prompt to fetch one.
    pub open spec fn shows_detail(&self, app: &App) -> bool {
        &&& self.title@ == DETAIL_TITLE@
        &&& lines_view(self.lines@) == match app.task_detail {
            Some(detail) => detail_lines_of(detail, content_width(self.area)),
            None => seq![seq![styled(DETAIL_PROMPT@, Style::Plain)]],
        }
    }

    /// The panel shows the error message `message`.
    pub open spec fn shows_error(&self, message: Seq<char>) -> bool {
        &&& self.title@ == ERROR_TITLE@
        &&& lines_view(self.lines@) == seq![seq![styled(message, Style::Plain)]]
    }
}

impl ComposePopup {
    /// The popup shows the two edit buffers of `app`, each in its field, marks
    /// the field that typing goes to, and has the cursor after the text of
    /// that field.
    pub open spec fn shows(&self, app: &App) -> bool {
        &&& self.title@ == POPUP_TITLE@
        &&& self.title_box.title@ == TITLE_BOX_TITLE@
        &&& self.title_box.text@ == app.new_task_title@
        &&& self.title_box.active == (app.active_input == ActiveInput::Title)
        &&& self.description_box.title@ == DESCRIPTION_BOX_TITLE@
        &&& self.description_box.text@ == app.new_task_description@
        &&& self.description_box.active == (app.active_input == ActiveInput::Description)
        &&& self.cursor == match app.active_input {
            ActiveInput::Title => cursor_position(app.new_task_title@, self.title_box.area),
            ActiveInput::Description => cursor_position(
                app.new_task_description@,
                self.description_box.area,
            ),
        }
    }

    /// The popup and its fields can be drawn on `outer`, and the fields on
    /// the popup.
    pub open spec fn fits(&self, outer: Rect) -> bool {
        &&& self.area.fits(outer)
        &&& self.title_box.area.fits(outer)
        &&& self.description_box.area.fits(outer)
        &&& self.title_box.area.fits(self.area)
        &&& self.description_box.area.fits(self.area)
    }

    /// The popup is laid out for the sizes `size` in `body`: it is the
    /// rectangle of the popup's width and height in the middle of `body`, and
    /// within its border its two fields lie across it as parts of the heights
    /// of the two fields do.
    pub open spec fn laid_out(&self, size: PopupSize, body: Rect) -> bool {
        &&& centered_where_it_fits(self.area, size.width, size.height, body)
        &&& parts_lie_across(
            Direction::Vertical,
            field_heights(size),
            self.area.inner_of(1, 1),
            seq![self.title_box.area, self.description_box.area],
        )
    }
}

/// What is asked of the layout for the two fields of a popup of the sizes
/// `size`: the height of the title field, then that of the description field.
pub open spec fn field_heights(size: PopupSize) -> Seq<Constraint> {
    seq![Constraint::Length(size.title_box), Constraint::Length(size.description_box)]
}

/// What is asked of the layout for the frame: what is left above the
/// footer, then the rows of the footer.
pub open spec fn frame_rows() -> Seq<Constraint> {
    seq![Constraint::Min(0), Constraint::Length(FOOTER_HEIGHT)]
}

/// What is asked of the layout for the task list and the details: the share
/// of the width of each.
pub open spec fn pane_shares() -> Seq<Constraint> {
    seq![Constraint::Percentage(PANE_SHARES.0), Constraint::Percentage(PANE_SHARES.1)]
}

/// Where the two fields of a popup take all the rows within its border, the
/// title field stands at the top with its height, and the description field
/// directly under it with its own.
pub proof fn lemma_fields_in_order(popup: ComposePopup, size: PopupSize, body: Rect)
    requires
        popup.laid_out(size, body),
        size.title_box + size.description_box == popup.area.inner_of(1, 1).height,
        popup.area.inner_of(1, 1).y + popup.area.inner_of(1, 1).height <= u16::MAX,
    ensures
        ({
            let inside = popup.area.inner_of(1, 1);
            &&& popup.title_box.area == Rect {
                x: inside.x,
                y: inside.y,
                width: inside.width,
                height: size.title_box,
            }
            &&& popup.description_box.area == Rect {
                x: inside.x,
                y: (inside.y + size.title_box) as u16,
                width: inside.width,
                height: size.description_box,
            }
        }),
{
    let heights = field_heights(size);
    let inside = popup.area.inner_of(1, 1);
    reveal_with_fuel(total_length, 3);
    assert(heights.drop_last().drop_last() =~= Seq::<Constraint>::empty());
    assert(heights.take(0) =~= Seq::<Constraint>::empty());
    assert(heights.take(1) =~= heights.drop_last());
    let parts = stacked(Direction::Vertical, heights, inside);
    assert(parts[0] == popup.title_box.area);
    assert(parts[1] == popup.description_box.area);
}

impl Frame {
    /// The frame shows the state `app` on a terminal of the size of
    /// `viewport`. The terminal is cut into the main area and the footer,
    /// which holds the legend of the mode. While browsing, the main area is
    /// cut into the task list and the task that was looked at; else the popup
    /// for a new task is laid out in it, in the sizes that the two edit
    /// buffers ask for on this terminal. The error message, if there is one,
    /// is in the middle of the terminal, in the size of error messages. Every
    /// region can be drawn on `viewport`.
    pub open spec fn shows(&self, app: &App, viewport: Rect) -> bool {
        &&& self.legend@ == legend_of(app.input_mode)
        &&& parts_lie_across(
            Direction::Vertical,
            frame_rows(),
            viewport,
            seq![self.main, self.footer],
        )
        &&& match self.body {
            Body::Browse { list, detail } => {
                &&& app.input_mode == InputMode::Normal
                &&& list.shows(app)
                &&& detail.shows_detail(app)
                &&& parts_lie_across(
                    Direction::Horizontal,
                    pane_shares(),
                    self.main,
                    seq![list.area, detail.area],
                )
                &&& list.area.within(viewport)
                &&& detail.area.within(viewport)
            },
            Body::Compose { popup } => {
                &&& app.input_mode != InputMode::Normal
                &&& popup.shows(app)
                &&& popup.laid_out(
                    popup_size_of(app.new_task_title@, app.new_task_description@, viewport),
                    self.main,
                )
                &&& popup.fits(viewport)
            },
        }
        &&& match self.error {
            Some(panel) => {
                &&& app.error_message matches Some(message)
                &&& panel.shows_error(message@)
                &&& centered_where_it_fits(panel.area, ERROR_SIZE.0, ERROR_SIZE.1, viewport)
            },
            None => app.error_message is None,
        }
    }
}

/// The task list and the details of `app`, each in its share of the width
/// of `body`.
pub fn plan_browse(app: &App, body: Rect) -> (panels: (ListPanel, TextPanel))
    ensures
        panels.0.shows(app),
        panels.1.shows_detail(app),
        parts_lie_across(
            Direction::Horizontal,
            pane_shares(),
            body,
            seq![panels.0.area, panels.1.area],
        ),
{
    let shares = vec![Constraint::Percentage(PANE_SHARES.0), Constraint::Percentage(PANE_SHARES.1)];
    assert(shares@ =~= pane_shares());
    let panes = cut(Direction::Horizontal, &shares, body);
    assert(panes@ =~= seq![panes@[0], panes@[1]]);
    let title = if app.show_done_tasks {
        LIST_TITLE_ALL
    } else {
        LIST_TITLE_UNDONE
    };
    let list = ListPanel {
        area: panes[0],
        title: String::from_str(title),
        rows: list_rows(&app.tasks),
        selected: app.state.selected(),
    };
    let area = panes[1];
    let width: usize = if area.width >= 2 {
        (area.width - 2) as usize
    } else {
        0
    };
    let lines = match &app.task_detail {
        Some(detail) => detail_lines(detail, width),
        None => {
            let mut lines: Vec<Line> = Vec::new();
            lines.push(line_of(span(DETAIL_PROMPT, Style::Plain)));
            assert(lines_view(lines@) =~= seq![seq![styled(DETAIL_PROMPT@, Style::Plain)]]);
            lines
        },
    };
    (list, TextPanel { area, title: String::from_str(DETAIL_TITLE), lines })
}

/// The popup for the new task of `app`, in the middle of `body`, sized for a
/// terminal of the size of `viewport`.
pub fn plan_compose(app: &App, viewport: Rect, body: Rect) -> (popup: ComposePopup)
    ensures
        popup.shows(app),
        popup.laid_out(
            popup_size_of(app.new_task_title@, app.new_task_description@, viewport),
            body,
        ),
        popup.fits(body),
{
    let size = popup_size(
        app.new_task_title.as_str(),
        app.new_task_description.as_str(),
        viewport,
    );
    let area = centered_rect_absolute(size.width, size.height, body);
    let inside = area.inner(1, 1);
    let heights = vec![Constraint::Length(size.title_box), Constraint::Length(size.description_box)];
    assert(heights@ =~= field_heights(size));
    let boxes = cut(Direction::Vertical, &heights, inside);
    assert(boxes@ =~= seq![boxes@[0], boxes@[1]]);
    let title_area = boxes[0];
    let description_area = boxes[1];
    let cursor = match app.active_input {
        ActiveInput::Title => get_cursor_position(app.new_task_title.as_str(), title_area),
        ActiveInput::Description => get_cursor_position(
            app.new_task_description.as_str(),
            description_area,
        ),
    };
    let title_active = match app.active_input {
        ActiveInput::Title => true,
        ActiveInput::Description => false,
    };
    ComposePopup {
        area,
        title: String::from_str(POPUP_TITLE),
        title_box: InputBox {
            area: title_area,
            title: String::from_str(TITLE_BOX_TITLE),
            text: app.new_task_title.clone(),
            active: title_active,
        },
        description_box: InputBox {
            area: description_area,
            title: String::from_str(DESCRIPTION_BOX_TITLE),
            text: app.new_task_description.clone(),
            active: !title_active,
        },
        cursor,
    }
}

/// The panel for the error message `message`, in the middle of `viewport`.
pub fn plan_error(message: &str, viewport: Rect) -> (panel: TextPanel)
    ensures
        panel.shows_error(message@),
        centered_where_it_fits(panel.area, ERROR_SIZE.0, ERROR_SIZE.1, viewport),
{
    let mut lines: Vec<Line> = Vec::new();
    lines.push(line_of(span(message, Style::Plain)));
    assert(lines_view(lines@) =~= seq![seq![styled(message@, Style::Plain)]]);
    TextPanel {
        area: centered_rect_absolute(ERROR_SIZE.0, ERROR_SIZE.1, viewport),
        title: String::from_str(ERROR_TITLE),
        lines,
    }
}

/// What the frame shows for the state `app` on a terminal of the size of
/// `viewport`.
pub fn plan_frame(app: &App, viewport: Rect) -> (frame: Frame)
    ensures
        frame.shows(app, viewport),
{
    let rows = vec![Constraint::Min(0), Constraint::Length(FOOTER_HEIGHT)];
    assert(rows@ =~= frame_rows());
    let chunks = cut(Direction::Vertical, &rows, viewport);
    assert(chunks@ =~= seq![chunks@[0], chunks@[1]]);
    let body_chunk = chunks[0];
    let footer = chunks[1];
    let body = match app.input_mode {
        InputMode::Normal => {
            let (list, detail) = plan_browse(app, body_chunk);
            Body::Browse { list, detail }
        },
        _ => Body::Compose { popup: plan_compose(app, viewport, body_chunk) },
    };
    let error = match &app.error_message {
        Some(message) => Some(plan_error(message.as_str(), viewport)),
        None => None,
    };
    Frame { body, error, main: body_chunk, footer, legend: get_legend(&app.input_mode) }
}

} // verus!
