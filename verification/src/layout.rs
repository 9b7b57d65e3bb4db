//! Where things go on the screen: the rectangles of the panels, the popup and
//! the bars of the chart.
//!
//! The rectangles come from a constraint solver, which this module calls with
//! the constraints of each panel. Where a list of constraints can be met in
//! full, the solver's answer is the one that meets it, and the contracts here
//! give each rectangle edge by edge. Where it cannot, they say what holds of
//! every layout the solver may return.

use vstd::prelude::*;
use rand::rngs::ThreadRng;
use rand::Rng;
use ratatui::layout::{Constraint as SolverConstraint, Direction as SolverDirection, Layout, Rect};

verus! {

/// The share of the screen's width that a popup takes, in percent.
pub const POPUP_WIDTH_PERCENT: u16 = 60;

/// The share of the screen's height that a popup takes, in percent.
pub const POPUP_HEIGHT_PERCENT: u16 = 25;

/// The height of the title bar and of the footers, in cells.
pub const BAR_HEIGHT: u16 = 3;

/// The least height of the middle row, in cells.
pub const BODY_MIN_HEIGHT: u16 = 1;

/// The share of the middle row's width that the list takes, in percent.
pub const LIST_PERCENT: u16 = 15;

/// The share of the middle row's width that the chart takes, in percent.
pub const CHART_PERCENT: u16 = 85;

/// The number of bars in the chart.
pub const BAR_COUNT: usize = 10;

/// The share of the chart's width that the column of one bar takes, in
/// percent.
pub const BAR_COLUMN_PERCENT: u16 = 10;

/// The least height of a bar, in percent of the chart's height.
pub const BAR_MIN_PERCENT: u16 = 10;

/// The greatest height of a bar, in percent of the chart's height.
pub const BAR_MAX_PERCENT: u16 = 100;

/// A rectangle of screen cells: its top left corner and its size.
#[derive(Clone, Copy, Debug, PartialEq, Eq, Structural)]
pub struct Area {
    /// The column of the top left corner.
    pub x: u16,
    /// The row of the top left corner.
    pub y: u16,
    /// The number of columns.
    pub width: u16,
    /// The number of rows.
    pub height: u16,
}

/// The axis along which an area is split.
#[derive(Clone, Copy, Debug, PartialEq, Eq, Structural)]
pub enum Direction {
    /// Side by side: the segments share the area's rows.
    Horizontal,
    /// One above the other: the segments share the area's columns.
    Vertical,
}

/// What is asked of one segment of a split.
#[derive(Clone, Copy, Debug, PartialEq, Eq, Structural)]
pub enum Constraint {
    /// Exactly this many cells.
    Length(u16),
    /// At least this many cells.
    Min(u16),
    /// This share of the area, in percent.
    Percentage(u16),
}

/// The smaller of `a` and `b`.
pub open spec fn least(a: int, b: int) -> int {
    if a <= b {
        a
    } else {
        b
    }
}

/// The rectangle at `x`, `y` with the given size, cut back so that neither its
/// right nor its bottom edge lies beyond the last coordinate.
pub open spec fn clamped(x: u16, y: u16, width: u16, height: u16) -> Area {
    Area {
        x,
        y,
        width: least(width as int, u16::MAX - x) as u16,
        height: least(height as int, u16::MAX - y) as u16,
    }
}

impl Area {
    /// The first column to the right of the area.
    pub open spec fn right(self) -> int {
        self.x + self.width
    }

    /// The first row below the area.
    pub open spec fn bottom(self) -> int {
        self.y + self.height
    }

    /// The coordinate at which the area begins along `direction`.
    pub open spec fn start(self, direction: Direction) -> int {
        match direction {
            Direction::Horizontal => self.x as int,
            Direction::Vertical => self.y as int,
        }
    }

    /// The first coordinate beyond the area along `direction`.
    pub open spec fn end(self, direction: Direction) -> int {
        match direction {
            Direction::Horizontal => self.right(),
            Direction::Vertical => self.bottom(),
        }
    }

    /// The number of cells that the area offers to a split along `direction`:
    /// its size, as far as it lies before the last coordinate.
    pub open spec fn extent(self, direction: Direction) -> int {
        match direction {
            Direction::Horizontal => least(self.width as int, u16::MAX - self.x),
            Direction::Vertical => least(self.height as int, u16::MAX - self.y),
        }
    }

    /// Whether every cell of `other` is a cell of `self`.
    pub open spec fn encloses(self, other: Area) -> bool {
        &&& self.x <= other.x
        &&& other.right() <= self.right()
        &&& self.y <= other.y
        &&& other.bottom() <= self.bottom()
    }

    /// The area without a border of `margin` cells on each side. An area too
    /// small to hold the border shrinks to the empty area at the origin.
    pub open spec fn shrunk(self, margin: u16) -> Area {
        let doubled: int = least(2 * margin, u16::MAX as int);
        if self.width < doubled || self.height < doubled {
            Area { x: 0, y: 0, width: 0, height: 0 }
        } else {
            Area {
                x: least(self.x + margin, u16::MAX as int) as u16,
                y: least(self.y + margin, u16::MAX as int) as u16,
                width: (self.width - doubled) as u16,
                height: (self.height - doubled) as u16,
            }
        }
    }

    /// The rectangle at `x`, `y` with the given size, cut back so that neither
    /// its right nor its bottom edge lies beyond the last coordinate.
    pub fn new(x: u16, y: u16, width: u16, height: u16) -> (area: Area)
        ensures
            area == clamped(x, y, width, height),
            area.right() <= u16::MAX,
            area.bottom() <= u16::MAX,
    {
        let max_width: u16 = u16::MAX - x;
        let max_height: u16 = u16::MAX - y;
        Area {
            x,
            y,
            width: if width > max_width {
                max_width
            } else {
                width
            },
            height: if height > max_height {
                max_height
            } else {
                height
            },
        }
    }

    /// The area without a border of `margin` cells on each side.
    pub fn inner(self, margin: u16) -> (inner: Area)
        ensures
            inner == self.shrunk(margin),
    {
        let doubled: u16 = if margin > u16::MAX / 2 {
            u16::MAX
        } else {
            margin * 2
        };
        if self.width < doubled || self.height < doubled {
            Area { x: 0, y: 0, width: 0, height: 0 }
        } else {
            Area {
                x: self.x.saturating_add(margin),
                y: self.y.saturating_add(margin),
                width: self.width - doubled,
                height: self.height - doubled,
            }
        }
    }
}

/// What holds of every segment `chunk` that splitting `area` along
/// `direction` may give: across the axis it spans the area, along the axis it
/// lies within the area.
pub open spec fn is_segment(direction: Direction, area: Area, chunk: Area) -> bool {
    match direction {
        Direction::Horizontal => {
            &&& chunk.y == area.y
            &&& chunk.height == area.height
            &&& area.x <= chunk.x
            &&& chunk.right() <= area.right()
            &&& chunk.right() <= u16::MAX
        },
        Direction::Vertical => {
            &&& chunk.x == area.x
            &&& chunk.width == area.width
            &&& area.y <= chunk.y
            &&& chunk.bottom() <= area.bottom()
            &&& chunk.bottom() <= u16::MAX
        },
    }
}

/// `percent` percent of `length`, rounded to the nearest whole number, a half
/// upwards.
pub open spec fn share(length: int, percent: int) -> int {
    (length * percent + 50) / 100
}

/// The percentage that `c` asks for; nothing where it asks for cells.
pub open spec fn percent_of(c: Constraint) -> int {
    match c {
        Constraint::Percentage(p) => p as int,
        _ => 0,
    }
}

/// The sum of the percentages that the first `n` constraints ask for.
pub open spec fn percent_before(cs: Seq<Constraint>, n: int) -> int
    decreases n,
{
    if n <= 0 {
        0
    } else {
        percent_before(cs, n - 1) + percent_of(cs[n - 1])
    }
}

/// Whether every constraint asks for a percentage.
pub open spec fn only_shares(cs: Seq<Constraint>) -> bool {
    forall|i: int| 0 <= i < cs.len() ==> #[trigger] cs[i] is Percentage
}

/// Whether the percentages of `cs` can all be had at once: every constraint
/// asks for a percentage, and together they ask for no more than a hundred.
pub open spec fn shares_fit(cs: Seq<Constraint>) -> bool {
    only_shares(cs) && percent_before(cs, cs.len() as int) <= 100
}

/// Each chunk lies where the rounded shares put it: it starts where the
/// percentages before it end, and ends where its own percentage ends.
pub open spec fn at_shares(
    direction: Direction,
    cs: Seq<Constraint>,
    area: Area,
    chunks: Seq<Area>,
) -> bool {
    forall|i: int|
        0 <= i < chunks.len() ==> {
            &&& (#[trigger] chunks[i]).start(direction) == area.start(direction) + share(
                area.extent(direction),
                percent_before(cs, i),
            )
            &&& chunks[i].end(direction) == area.start(direction) + share(
                area.extent(direction),
                percent_before(cs, i + 1),
            )
        }
}

/// The sum of the lengths that the first `n` constraints ask for.
pub open spec fn lengths_before(cs: Seq<Constraint>, n: int) -> int
    decreases n,
{
    if n <= 0 {
        0
    } else {
        lengths_before(cs, n - 1) + match cs[n - 1] {
            Constraint::Length(cells) => cells as int,
            _ => 0,
        }
    }
}

/// The sum of the minimums that the first `n` constraints ask for.
pub open spec fn minimums_before(cs: Seq<Constraint>, n: int) -> int
    decreases n,
{
    if n <= 0 {
        0
    } else {
        minimums_before(cs, n - 1) + match cs[n - 1] {
            Constraint::Min(cells) => cells as int,
            _ => 0,
        }
    }
}

/// The number of constraints among the first `n` that ask for a minimum.
pub open spec fn minimum_count(cs: Seq<Constraint>, n: int) -> int
    decreases n,
{
    if n <= 0 {
        0
    } else {
        minimum_count(cs, n - 1) + if cs[n - 1] is Min {
            1int
        } else {
            0int
        }
    }
}

/// Whether the cells of `cs` can all be had at once in `extent` cells: the
/// constraints are lengths and one minimum, and the lengths leave at least
/// the minimum.
pub open spec fn lengths_fit(cs: Seq<Constraint>, extent: int) -> bool {
    &&& forall|i: int| 0 <= i < cs.len() ==> !(#[trigger] cs[i] is Percentage)
    &&& minimum_count(cs, cs.len() as int) == 1
    &&& lengths_before(cs, cs.len() as int) + minimums_before(cs, cs.len() as int) <= extent
}

/// The cells that the first `n` segments take where each length has its cells
/// and the minimum has the `spare` cells that the lengths leave.
pub open spec fn cells_before(cs: Seq<Constraint>, n: int, spare: int) -> int
    decreases n,
{
    if n <= 0 {
        0
    } else {
        cells_before(cs, n - 1, spare) + match cs[n - 1] {
            Constraint::Length(cells) => cells as int,
            Constraint::Min(_) => spare,
            Constraint::Percentage(_) => 0,
        }
    }
}

/// Each chunk lies where the lengths put it: a length has its cells, the
/// minimum has what the lengths leave of the area, and each chunk starts
/// where the one before it ends.
pub open spec fn at_lengths(
    direction: Direction,
    cs: Seq<Constraint>,
    area: Area,
    chunks: Seq<Area>,
) -> bool {
    let spare = area.extent(direction) - lengths_before(cs, cs.len() as int);
    forall|i: int|
        0 <= i < chunks.len() ==> {
            &&& (#[trigger] chunks[i]).start(direction) == area.start(direction) + cells_before(
                cs,
                i,
                spare,
            )
            &&& chunks[i].end(direction) == area.start(direction) + cells_before(cs, i + 1, spare)
        }
}

/// Calls `ratatui::layout::Layout::split` on a layout with the given
/// direction and constraints, no margin and the default flex and spacing.
///
/// The contract claims three things of every answer. There is one rectangle
/// for each constraint. Across the axis each one has the position and the size
/// of `area`. Along the axis each one starts at or after the start of `area`
/// and ends at or before its end, which the solver is given as required
/// constraints on every edge; a segment's end is a `u16`.
///
/// How the space is shared is open where the constraints cannot all be met.
/// Two kinds of list can always be met, and of those the contract claims the
/// answer. The layout gives the solver each constraint as a weighted wish for
/// a size, packs the segments from the start of the area without gaps, and
/// weighs the wishes to fill what is left far below the constraints; so where
/// every constraint can have its size, that is the one best answer. The sizes
/// are handed over in hundredths of a cell and each edge is rounded to a whole
/// hundredth and then to a whole cell, a half upwards.
/// - Percentages that total at most a hundred: each segment starts at the
///   rounded share of the percentages before it and ends at the rounded share
///   of those and its own.
/// - Lengths and one minimum, where the lengths leave the minimum at least
///   what it asks for: each length has its cells, the minimum has all that the
///   lengths leave, and each segment starts where the one before it ends.
#[verifier::external_body]
fn split(direction: Direction, constraints: &Vec<Constraint>, area: Area) -> (chunks: Vec<Area>)
    ensures
        chunks@.len() == constraints@.len(),
        forall|i: int| 0 <= i < chunks@.len() ==> is_segment(direction, area, #[trigger] chunks@[i]),
        shares_fit(constraints@) ==> at_shares(direction, constraints@, area, chunks@),
        lengths_fit(constraints@, area.extent(direction)) ==> at_lengths(
            direction,
            constraints@,
            area,
            chunks@,
        ),
{
    let direction = match direction {
        Direction::Horizontal => SolverDirection::Horizontal,
        Direction::Vertical => SolverDirection::Vertical,
    };
    let constraints = constraints.iter().map(|c| match *c {
        Constraint::Length(n) => SolverConstraint::Length(n),
        Constraint::Min(n) => SolverConstraint::Min(n),
        Constraint::Percentage(p) => SolverConstraint::Percentage(p),
    });
    let rect = Rect { x: area.x, y: area.y, width: area.width, height: area.height };
    let rects = Layout::default().direction(direction).constraints(constraints).split(rect);
    rects.iter().map(|r| Area { x: r.x, y: r.y, width: r.width, height: r.height }).collect()
}

/// The random number generator of `rand` that belongs to the calling thread.
/// Verus sees nothing inside it.
#[verifier::external_type_specification]
#[verifier::external_body]
pub struct ExThreadRng(rand::rngs::ThreadRng);

/// `rand::thread_rng` hands out the calling thread's random number generator.
/// Nothing is claimed of it.
pub assume_specification[ rand::thread_rng ]() -> (rng: ThreadRng)
;

/// Calls `rand::Rng::gen_range` on the inclusive range from `low` to `high`.
/// The contract claims that the number drawn lies in that range; which number
/// it is differs from call to call. The range must not be empty.
#[verifier::external_body]
fn draw(rng: &mut ThreadRng, low: u16, high: u16) -> (value: u16)
    requires
        low <= high,
    ensures
        low <= value <= high,
{
    rng.gen_range(low..=high)
}

/// The panels of the main screen.
#[derive(Clone, Copy, Debug)]
pub struct ScreenLayout {
    /// The title bar, across the top.
    pub title: Area,
    /// The list of entries, on the left of the middle row.
    pub list: Area,
    /// The chart, on the right of the middle row.
    pub chart: Area,
    /// The mode line, on the left of the bottom row.
    pub mode_footer: Area,
    /// The key hints, on the right of the bottom row.
    pub keys_footer: Area,
}

/// The parts of the popup in which a pair is entered.
#[derive(Clone, Copy, Debug)]
pub struct PopupLayout {
    /// The whole popup.
    pub frame: Area,
    /// The box that shows the key draft.
    pub key_field: Area,
    /// The box that shows the value draft.
    pub value_field: Area,
}

/// The percentage that stands before and after a centred segment of
/// `percent` percent: half of what is left of the hundred, rounded down.
pub open spec fn side_of(percent: u16) -> int {
    (100 - percent) / 2
}

/// The constraints that centre a segment of `percent` percent: what is left of
/// the hundred is halved, rounding down, and put before and after it.
pub open spec fn centering_of(percent: u16) -> Seq<Constraint> {
    seq![
        Constraint::Percentage(side_of(percent) as u16),
        Constraint::Percentage(percent),
        Constraint::Percentage(side_of(percent) as u16),
    ]
}

/// The constraints of the screen's three rows: the title bar, the middle row
/// with its least height, the footers.
pub open spec fn screen_rows_of() -> Seq<Constraint> {
    seq![
        Constraint::Length(BAR_HEIGHT),
        Constraint::Min(BODY_MIN_HEIGHT),
        Constraint::Length(BAR_HEIGHT),
    ]
}

/// Two percentages side by side.
pub open spec fn two_shares_of(first: u16, second: u16) -> Seq<Constraint> {
    seq![Constraint::Percentage(first), Constraint::Percentage(second)]
}

/// `count` times the constraint `c`.
pub open spec fn repeated(c: Constraint, count: nat) -> Seq<Constraint> {
    Seq::new(count, |i: int| c)
}

/// The rectangle centred in `r` that takes `percent_x` percent of its width
/// and `percent_y` percent of its height, each edge at its rounded share.
pub open spec fn centred(percent_x: u16, percent_y: u16, r: Area, centre: Area) -> bool {
    let across = r.extent(Direction::Horizontal);
    let down = r.extent(Direction::Vertical);
    &&& centre.x == r.x + share(across, side_of(percent_x))
    &&& centre.right() == r.x + share(across, side_of(percent_x) + percent_x)
    &&& centre.y == r.y + share(down, side_of(percent_y))
    &&& centre.bottom() == r.y + share(down, side_of(percent_y) + percent_y)
}

/// `left` and `right` share the columns of `row` at `percent` percent: `left`
/// begins where the row begins, `right` begins where `left` ends, at the
/// rounded share, and ends where the row's columns end; both span the row's
/// rows.
pub open spec fn side_by_side(row: Area, percent: u16, left: Area, right: Area) -> bool {
    let across = row.extent(Direction::Horizontal);
    &&& left.x == row.x
    &&& left.right() == row.x + share(across, percent as int)
    &&& right.x == left.right()
    &&& right.right() == row.x + across
    &&& left.y == row.y && left.height == row.height
    &&& right.y == row.y && right.height == row.height
}

/// The constraints that centre a segment of `percent` percent.
pub fn centering(percent: u16) -> (constraints: Vec<Constraint>)
    requires
        percent <= 100,
    ensures
        constraints@ == centering_of(percent),
{
    let side: u16 = (100 - percent) / 2;
    vec![Constraint::Percentage(side), Constraint::Percentage(percent), Constraint::Percentage(side)]
}

/// The constraints of the screen's three rows.
pub fn screen_rows() -> (constraints: Vec<Constraint>)
    ensures
        constraints@ == screen_rows_of(),
{
    vec![
        Constraint::Length(BAR_HEIGHT),
        Constraint::Min(BODY_MIN_HEIGHT),
        Constraint::Length(BAR_HEIGHT),
    ]
}

/// The constraints of two segments side by side that take `first` and
/// `second` percent.
pub fn two_shares(first: u16, second: u16) -> (constraints: Vec<Constraint>)
    ensures
        constraints@ == two_shares_of(first, second),
{
    vec![Constraint::Percentage(first), Constraint::Percentage(second)]
}

/// The constraints of the chart's columns: for each bar one column of the
/// same share.
pub fn bar_shares() -> (constraints: Vec<Constraint>)
    ensures
        constraints@ == repeated(Constraint::Percentage(BAR_COLUMN_PERCENT), BAR_COUNT as nat),
{
    let mut shares: Vec<Constraint> = Vec::new();
    while shares.len() < BAR_COUNT
        invariant
            shares@.len() <= BAR_COUNT,
            forall|i: int|
                0 <= i < shares@.len() ==> shares@[i] == Constraint::Percentage(BAR_COLUMN_PERCENT),
        decreases BAR_COUNT - shares@.len(),
    {
        shares.push(Constraint::Percentage(BAR_COLUMN_PERCENT));
    }
    assert(shares@ =~= repeated(Constraint::Percentage(BAR_COLUMN_PERCENT), BAR_COUNT as nat));
    shares
}

/// The middle one of three chunks.
pub fn middle_of(chunks: &Vec<Area>) -> (middle: Area)
    requires
        chunks@.len() == 3,
    ensures
        middle == chunks@[1],
{
    chunks[1]
}

/// The panels of the main screen, picked from its three rows, the two
/// columns of the middle row and the two columns of the bottom row: the first
/// row is the title bar, the middle row holds the list before the chart, the
/// bottom row the mode line before the key hints.
pub fn screen_panels(rows: &Vec<Area>, middle: &Vec<Area>, bottom: &Vec<Area>) -> (panels:
    ScreenLayout)
    requires
        rows@.len() == 3,
        middle@.len() == 2,
        bottom@.len() == 2,
    ensures
        panels.title == rows@[0],
        panels.list == middle@[0],
        panels.chart == middle@[1],
        panels.mode_footer == bottom@[0],
        panels.keys_footer == bottom@[1],
{
    ScreenLayout {
        title: rows[0],
        list: middle[0],
        chart: middle[1],
        mode_footer: bottom[0],
        keys_footer: bottom[1],
    }
}

/// The parts of the entry popup, picked from its rectangle and the two columns
/// of its inside: the key's box stands before the value's.
pub fn popup_parts(frame: Area, fields: &Vec<Area>) -> (popup: PopupLayout)
    requires
        fields@.len() == 2,
    ensures
        popup.frame == frame,
        popup.key_field == fields@[0],
        popup.value_field == fields@[1],
{
    PopupLayout { frame, key_field: fields[0], value_field: fields[1] }
}

/// The percentages of a centring list add up as written, and never pass a
/// hundred.
pub proof fn lemma_centering_fits(percent: u16)
    requires
        percent <= 100,
    ensures
        shares_fit(centering_of(percent)),
        percent_before(centering_of(percent), 1) == side_of(percent),
        percent_before(centering_of(percent), 2) == side_of(percent) + percent,
{
    reveal_with_fuel(percent_before, 4);
}

/// The percentages of two segments side by side add up as written.
pub proof fn lemma_two_shares_fit(first: u16, second: u16)
    requires
        first + second <= 100,
    ensures
        shares_fit(two_shares_of(first, second)),
        percent_before(two_shares_of(first, second), 0) == 0,
        percent_before(two_shares_of(first, second), 1) == first,
        percent_before(two_shares_of(first, second), 2) == first + second,
{
    reveal_with_fuel(percent_before, 3);
}

/// The percentages before the `n`th of equal shares are `n` times the share.
pub proof fn lemma_repeated_shares(percent: u16, count: nat, n: int)
    requires
        0 <= n <= count,
    ensures
        percent_before(repeated(Constraint::Percentage(percent), count), n) == percent * n,
        only_shares(repeated(Constraint::Percentage(percent), count)),
    decreases n,
{
    let shares = repeated(Constraint::Percentage(percent), count);
    if n > 0 {
        lemma_repeated_shares(percent, count, n - 1);
        assert(shares[n - 1] == Constraint::Percentage(percent));
        assert(percent * (n - 1) + percent == percent * n) by (nonlinear_arith);
    } else {
        assert(percent * n == 0) by (nonlinear_arith)
            requires
                n == 0,
        ;
    }
}

/// The rows of the screen fit where it offers seven rows or more: then the
/// bars have their height and the middle row has the rest.
pub proof fn lemma_screen_rows_fit(extent: int)
    requires
        extent >= BAR_HEIGHT + BODY_MIN_HEIGHT + BAR_HEIGHT,
    ensures
        lengths_fit(screen_rows_of(), extent),
        lengths_before(screen_rows_of(), 3) == 2 * BAR_HEIGHT,
        forall|spare: int| cells_before(screen_rows_of(), 1, spare) == BAR_HEIGHT,
        forall|spare: int| cells_before(screen_rows_of(), 2, spare) == BAR_HEIGHT + spare,
        forall|spare: int| cells_before(screen_rows_of(), 3, spare) == 2 * BAR_HEIGHT + spare,
{
    reveal_with_fuel(lengths_before, 4);
    reveal_with_fuel(minimums_before, 4);
    reveal_with_fuel(minimum_count, 4);
    reveal_with_fuel(cells_before, 4);
}

/// A share grows with its percentage, from nothing at zero percent to the
/// whole length at a hundred, and differs from the exact percentage by half a
/// cell at most.
pub proof fn lemma_share_bounds(length: int, lower: int, higher: int)
    requires
        0 <= length,
        0 <= lower <= higher <= 100,
    ensures
        share(length, 0) == 0,
        share(length, 100) == length,
        0 <= share(length, lower) <= share(length, higher) <= length,
        length * higher - 49 <= 100 * share(length, higher) <= length * higher + 50,
{
    assert(length * 0 == 0 && length * 100 == 100 * length);
    assert(0 <= length * lower <= length * higher <= length * 100) by (nonlinear_arith)
        requires
            0 <= length,
            0 <= lower <= higher <= 100,
    ;
}

/// A centred rectangle lies within the cells that `r` offers, and its width
/// and height are within a cell of their percentages of them.
pub proof fn lemma_centred_within(percent_x: u16, percent_y: u16, r: Area, centre: Area)
    requires
        percent_x <= 100,
        percent_y <= 100,
        centred(percent_x, percent_y, r, centre),
    ensures
        r.x <= centre.x <= centre.right() <= r.x + r.extent(Direction::Horizontal),
        r.y <= centre.y <= centre.bottom() <= r.y + r.extent(Direction::Vertical),
        r.extent(Direction::Horizontal) * percent_x - 99 <= 100 * centre.width
            <= r.extent(Direction::Horizontal) * percent_x + 99,
        r.extent(Direction::Vertical) * percent_y - 99 <= 100 * centre.height
            <= r.extent(Direction::Vertical) * percent_y + 99,
{
    let across = r.extent(Direction::Horizontal);
    let down = r.extent(Direction::Vertical);
    lemma_share_bounds(across, 0, side_of(percent_x));
    lemma_share_bounds(across, side_of(percent_x), side_of(percent_x) + percent_x);
    lemma_share_bounds(down, 0, side_of(percent_y));
    lemma_share_bounds(down, side_of(percent_y), side_of(percent_y) + percent_y);
    assert(across * (side_of(percent_x) + percent_x) == across * side_of(percent_x) + across
        * percent_x) by (nonlinear_arith);
    assert(down * (side_of(percent_y) + percent_y) == down * side_of(percent_y) + down * percent_y)
        by (nonlinear_arith);
}

/// A rectangle centred at a hundred percent each way is all that `r` offers.
pub proof fn lemma_centred_whole(r: Area, centre: Area)
    requires
        centred(100, 100, r, centre),
    ensures
        centre.x == r.x,
        centre.y == r.y,
        centre.width == r.extent(Direction::Horizontal),
        centre.height == r.extent(Direction::Vertical),
{
    lemma_share_bounds(r.extent(Direction::Horizontal), 0, 100);
    lemma_share_bounds(r.extent(Direction::Vertical), 0, 100);
}

/// A centred rectangle never stands off centre towards the end: its left
/// margin is at most one cell wider than its right one, and its top margin at
/// most one cell higher than its bottom one.
pub proof fn lemma_centred_margins(percent_x: u16, percent_y: u16, r: Area, centre: Area)
    requires
        percent_x <= 100,
        percent_y <= 100,
        centred(percent_x, percent_y, r, centre),
    ensures
        centre.x - r.x <= r.x + r.extent(Direction::Horizontal) - centre.right() + 1,
        centre.y - r.y <= r.y + r.extent(Direction::Vertical) - centre.bottom() + 1,
{
    let across = r.extent(Direction::Horizontal);
    let down = r.extent(Direction::Vertical);
    lemma_share_bounds(across, 0, side_of(percent_x));
    lemma_share_bounds(across, side_of(percent_x), side_of(percent_x) + percent_x);
    lemma_share_bounds(down, 0, side_of(percent_y));
    lemma_share_bounds(down, side_of(percent_y), side_of(percent_y) + percent_y);
    assert(across * (side_of(percent_x) + percent_x) + across * side_of(percent_x) <= across * 100)
        by (nonlinear_arith)
        requires
            0 <= across,
            2 * side_of(percent_x) + percent_x <= 100,
    ;
    assert(down * (side_of(percent_y) + percent_y) + down * side_of(percent_y) <= down * 100)
        by (nonlinear_arith)
        requires
            0 <= down,
            2 * side_of(percent_y) + percent_y <= 100,
    ;
}

/// A rectangle centred in `r`: the middle one of three rows split by
/// `centering(percent_y)`, and of that row the middle one of three columns
/// split by `centering(percent_x)`. Each of its edges lies at the rounded
/// share of the cells that `r` offers.
pub fn centered_rect(percent_x: u16, percent_y: u16, r: Area) -> (centre: Area)
    requires
        percent_x <= 100,
        percent_y <= 100,
    ensures
        centred(percent_x, percent_y, r, centre),
        r.encloses(centre),
        centre.right() <= u16::MAX,
        centre.bottom() <= u16::MAX,
{
    proof {
        lemma_centering_fits(percent_x);
        lemma_centering_fits(percent_y);
    }
    let rows = split(Direction::Vertical, &centering(percent_y), r);
    let row = middle_of(&rows);
    assert(is_segment(Direction::Vertical, r, row));
    let columns = split(Direction::Horizontal, &centering(percent_x), row);
    let centre = middle_of(&columns);
    assert(is_segment(Direction::Horizontal, row, centre));
    centre
}

/// The rectangle of a popup on `screen`: centred, of the popup's share of the
/// width and the height.
pub fn popup_area(screen: Area) -> (popup: Area)
    ensures
        centred(POPUP_WIDTH_PERCENT, POPUP_HEIGHT_PERCENT, screen, popup),
        screen.encloses(popup),
        popup.right() <= u16::MAX,
        popup.bottom() <= u16::MAX,
{
    centered_rect(POPUP_WIDTH_PERCENT, POPUP_HEIGHT_PERCENT, screen)
}

/// The rows of the main screen where it offers room for them: the title bar
/// at the top and the footer at the bottom have the height of a bar, and the
/// middle row has what is between them.
pub open spec fn rows_in_place(screen: Area, title: Area, middle: Area, footer: Area) -> bool {
    let down = screen.extent(Direction::Vertical);
    &&& title.y == screen.y
    &&& title.bottom() == screen.y + BAR_HEIGHT
    &&& middle.y == title.bottom()
    &&& middle.bottom() == screen.y + down - BAR_HEIGHT
    &&& footer.y == middle.bottom()
    &&& footer.bottom() == screen.y + down
}

/// The panels of the main screen: three rows split by `screen_rows()`, the
/// middle row shared between list and chart, the bottom row halved between the
/// two footers.
///
/// The columns lie at their rounded shares on every screen. The rows lie in
/// place on every screen of seven rows or more; on a lower one the solver
/// shares the rows as it sees fit, and every panel still lies within `screen`,
/// spans it as its row does and stands beside its neighbour.
pub fn screen_layout(screen: Area) -> (panels: ScreenLayout)
    ensures
        side_by_side(
            Area { y: panels.list.y, height: panels.list.height, ..screen },
            LIST_PERCENT,
            panels.list,
            panels.chart,
        ),
        side_by_side(
            Area { y: panels.mode_footer.y, height: panels.mode_footer.height, ..screen },
            50,
            panels.mode_footer,
            panels.keys_footer,
        ),
        screen.extent(Direction::Vertical) >= BAR_HEIGHT + BODY_MIN_HEIGHT + BAR_HEIGHT
            ==> rows_in_place(screen, panels.title, panels.list, panels.mode_footer),
        screen.encloses(panels.title),
        screen.encloses(panels.list),
        screen.encloses(panels.chart),
        screen.encloses(panels.mode_footer),
        screen.encloses(panels.keys_footer),
        panels.title.x == screen.x && panels.title.width == screen.width,
{
    proof {
        if screen.extent(Direction::Vertical) >= BAR_HEIGHT + BODY_MIN_HEIGHT + BAR_HEIGHT {
            lemma_screen_rows_fit(screen.extent(Direction::Vertical));
        }
        lemma_two_shares_fit(LIST_PERCENT, CHART_PERCENT);
        lemma_two_shares_fit(50, 50);
    }
    let rows = split(Direction::Vertical, &screen_rows(), screen);
    assert(is_segment(Direction::Vertical, screen, rows@[0]));
    assert(is_segment(Direction::Vertical, screen, rows@[1]));
    assert(is_segment(Direction::Vertical, screen, rows@[2]));
    let middle = split(Direction::Horizontal, &two_shares(LIST_PERCENT, CHART_PERCENT), rows[1]);
    assert(is_segment(Direction::Horizontal, rows@[1], middle@[0]));
    assert(is_segment(Direction::Horizontal, rows@[1], middle@[1]));
    let bottom = split(Direction::Horizontal, &two_shares(50, 50), rows[2]);
    assert(is_segment(Direction::Horizontal, rows@[2], bottom@[0]));
    assert(is_segment(Direction::Horizontal, rows@[2], bottom@[1]));
    screen_panels(&rows, &middle, &bottom)
}

/// The popup in which a pair is entered: the popup's rectangle on `screen`
/// and, inside a border of one cell, the key's box beside the value's, each
/// with half of the columns.
pub fn popup_layout(screen: Area) -> (popup: PopupLayout)
    ensures
        centred(POPUP_WIDTH_PERCENT, POPUP_HEIGHT_PERCENT, screen, popup.frame),
        side_by_side(popup.frame.shrunk(1), 50, popup.key_field, popup.value_field),
        screen.encloses(popup.frame),
        popup.frame.shrunk(1).encloses(popup.key_field),
        popup.frame.shrunk(1).encloses(popup.value_field),
{
    proof {
        lemma_two_shares_fit(50, 50);
    }
    let frame = popup_area(screen);
    let inside = frame.inner(1);
    let fields = split(Direction::Horizontal, &two_shares(50, 50), inside);
    assert(is_segment(Direction::Horizontal, inside, fields@[0]));
    assert(is_segment(Direction::Horizontal, inside, fields@[1]));
    popup_parts(frame, &fields)
}

/// The columns of the chart: `area` split side by side by `bar_shares()`. The
/// column of each bar spans the rows of `area`; it starts at the rounded share
/// of the columns before it and ends at the rounded share of those and its
/// own.
pub fn bar_columns(area: Area) -> (columns: Vec<Area>)
    ensures
        columns@.len() == BAR_COUNT,
        forall|i: int|
            0 <= i < columns@.len() ==> {
                &&& (#[trigger] columns@[i]).x == area.x + share(
                    area.extent(Direction::Horizontal),
                    BAR_COLUMN_PERCENT * i,
                )
                &&& columns@[i].right() == area.x + share(
                    area.extent(Direction::Horizontal),
                    BAR_COLUMN_PERCENT * (i + 1),
                )
                &&& columns@[i].y == area.y
                &&& columns@[i].height == area.height
            },
        forall|i: int|
            0 <= i < columns@.len() ==> is_segment(Direction::Horizontal, area, #[trigger] columns@[i]),
{
    let shares = bar_shares();
    proof {
        lemma_repeated_shares(BAR_COLUMN_PERCENT, BAR_COUNT as nat, BAR_COUNT as int);
    }
    let columns = split(Direction::Horizontal, &shares, area);
    proof {
        assert forall|i: int| 0 <= i < columns@.len() implies {
            &&& (#[trigger] columns@[i]).x == area.x + share(
                area.extent(Direction::Horizontal),
                BAR_COLUMN_PERCENT * i,
            )
            &&& columns@[i].right() == area.x + share(
                area.extent(Direction::Horizontal),
                BAR_COLUMN_PERCENT * (i + 1),
            )
            &&& columns@[i].y == area.y
            &&& columns@[i].height == area.height
        } by {
            lemma_repeated_shares(BAR_COLUMN_PERCENT, BAR_COUNT as nat, i);
            lemma_repeated_shares(BAR_COLUMN_PERCENT, BAR_COUNT as nat, i + 1);
            assert(is_segment(Direction::Horizontal, area, columns@[i]));
        }
    }
    columns
}

/// The heights of `count` bars, in percent of the chart's height: each one
/// drawn at random between the least and the greatest height of a bar.
pub fn bar_percentages(count: usize) -> (percentages: Vec<u16>)
    ensures
        percentages@.len() == count,
        forall|i: int|
            0 <= i < count ==> BAR_MIN_PERCENT <= #[trigger] percentages@[i] <= BAR_MAX_PERCENT,
{
    let mut rng = rand::thread_rng();
    let mut percentages: Vec<u16> = Vec::new();
    while percentages.len() < count
        invariant
            percentages@.len() <= count,
            forall|i: int|
                0 <= i < percentages@.len() ==> BAR_MIN_PERCENT <= #[trigger] percentages@[i]
                    <= BAR_MAX_PERCENT,
        decreases count - percentages@.len(),
    {
        let percent: u16 = draw(&mut rng, BAR_MIN_PERCENT, BAR_MAX_PERCENT);
        percentages.push(percent);
    }
    percentages
}

/// The part of a chart column that its bar may fill: the column without one
/// cell on the left and one on the right.
pub fn bar_slot(column: Area) -> (slot: Area)
    requires
        column.width >= 2,
        column.x < u16::MAX,
    ensures
        slot == clamped((column.x + 1) as u16, column.y, (column.width - 2) as u16, column.height),
        slot.bottom() <= u16::MAX,
{
    Area::new(column.x + 1, column.y, column.width - 2, column.height)
}

/// The bar of height `bar_height` in `slot`: as wide as the slot, standing on
/// its bottom edge.
pub fn bar_rect(slot: Area, bar_height: u16) -> (bar: Area)
    requires
        bar_height <= slot.height,
        slot.bottom() <= u16::MAX,
    ensures
        bar == clamped(slot.x, (slot.y + slot.height - bar_height) as u16, slot.width, bar_height),
        bar.height == bar_height,
        bar.bottom() == slot.bottom(),
{
    let bar_y: u16 = slot.y + (slot.height - bar_height);
    Area::new(slot.x, bar_y, slot.width, bar_height)
}

} // verus!
