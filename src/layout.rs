use tui::layout::{Constraint, Direction, Layout, Rect};
use vstd::prelude::*;

verus! {

/// Widest the dashboard is drawn, in terminal columns.
pub const MAX_WIDTH: u16 = 133;

/// Height of the strip that holds the tab titles and the status panel.
pub const TITLE_HEIGHT: u16 = 3;

/// A rectangle of terminal cells.
#[derive(PartialEq, Eq, Structural, Clone, Copy, Debug)]
pub struct Area {
    pub x: u16,
    pub y: u16,
    pub width: u16,
    pub height: u16,
}

/// The axis along which an area is cut into parts.
#[derive(PartialEq, Eq, Structural, Clone, Copy, Debug)]
pub enum Split {
    Horizontal,
    Vertical,
}

/// How large one part of a split should be.
#[derive(PartialEq, Eq, Structural, Clone, Copy, Debug)]
pub enum SizeRule {
    /// Exactly this many cells.
    Length(u16),
    /// At least this many cells.
    Min(u16),
    /// This share of the whole, in percent.
    Percentage(u16),
}

/// Start of `a` along the axis that `split` cuts.
pub open spec fn start_along(a: Area, split: Split) -> int {
    match split {
        Split::Horizontal => a.x as int,
        Split::Vertical => a.y as int,
    }
}

/// Size of `a` along the axis that `split` cuts.
pub open spec fn extent_along(a: Area, split: Split) -> int {
    match split {
        Split::Horizontal => a.width as int,
        Split::Vertical => a.height as int,
    }
}

/// The other axis.
pub open spec fn across(split: Split) -> Split {
    match split {
        Split::Horizontal => Split::Vertical,
        Split::Vertical => Split::Horizontal,
    }
}

/// The right and bottom edges of `a` are cell coordinates.
pub open spec fn fits(a: Area) -> bool {
    a.x + a.width <= u16::MAX && a.y + a.height <= u16::MAX
}

/// The rule lists this library splits by, each of which has a single best
/// layout: a fixed length then the rest, or two even halves of an area small
/// enough that the halving does not overflow.
pub open spec fn admitted_rules(area: Area, split: Split, rules: Seq<SizeRule>) -> bool {
    let fixed_then_rest = rules[0] is Length && rules[1] == SizeRule::Min(0);
    let halves = rules[0] == SizeRule::Percentage(50) && rules[1] == SizeRule::Percentage(50)
        && 50 * extent_along(area, split) <= u16::MAX;
    rules.len() == 2 && (fixed_then_rest || halves)
}

/// The parts that the terminal layout solver cuts `area` into along `split`,
/// one for each rule, in order.
pub uninterp spec fn layout_split(area: Area, split: Split, rules: Seq<SizeRule>) -> Seq<Area>;

/// Relies on tui's `Layout::split` (default layout: no margin, last part
/// stretched to the far edge): one rectangle per constraint; each keeps the
/// area's position and size across the cut; the first starts at the near
/// edge, each next one where the one before ends, and the last ends at the
/// far edge. A `Length(n)` part is `n` long, or the whole extent where that
/// is shorter (the solver's weak `width == n` is met as closely as the
/// required bounds allow); the first of two 50% parts is half the extent,
/// rounded down (`50 * extent / 100` is exact and truncated to `u16`). The
/// edge bounds keep
/// the solver's required constraints satisfiable, and the halving bound
/// keeps its percentage product in range. On the admitted rule lists the
/// best layout is unique, so the parts depend on the arguments alone.
#[verifier::external_body]
fn split_area(area: Area, split: Split, rules: &Vec<SizeRule>) -> (r: Vec<Area>)
    requires
        fits(area),
        admitted_rules(area, split, rules@),
    ensures
        r@ == layout_split(area, split, rules@),
        r@.len() == 2,
        start_along(r@[0], across(split)) == start_along(area, across(split)),
        extent_along(r@[0], across(split)) == extent_along(area, across(split)),
        start_along(r@[1], across(split)) == start_along(area, across(split)),
        extent_along(r@[1], across(split)) == extent_along(area, across(split)),
        start_along(r@[0], split) == start_along(area, split),
        start_along(r@[0], split) + extent_along(r@[0], split) <= start_along(area, split)
            + extent_along(area, split),
        start_along(r@[0], split) + extent_along(r@[0], split) == start_along(r@[1], split),
        start_along(r@[1], split) + extent_along(r@[1], split) == start_along(area, split)
            + extent_along(area, split),
        rules@[0] matches SizeRule::Length(n) ==> extent_along(r@[0], split) == (if n
            <= extent_along(area, split) {
            n as int
        } else {
            extent_along(area, split)
        }),
        rules@[0] == SizeRule::Percentage(50) ==> extent_along(r@[0], split) == extent_along(
            area,
            split,
        ) / 2,
{
    let direction = match split {
        Split::Horizontal => Direction::Horizontal,
        Split::Vertical => Direction::Vertical,
    };
    let constraints: Vec<Constraint> = rules.iter().map(|r| match *r {
        SizeRule::Length(n) => Constraint::Length(n),
        SizeRule::Min(n) => Constraint::Min(n),
        SizeRule::Percentage(n) => Constraint::Percentage(n),
    }).collect();
    let rect = Rect { x: area.x, y: area.y, width: area.width, height: area.height };
    let parts = Layout::default().direction(direction).constraints(constraints).split(rect);
    parts.iter().map(|p| Area { x: p.x, y: p.y, width: p.width, height: p.height }).collect()
}

/// Where each part of the dashboard is drawn.
#[derive(PartialEq, Eq, Structural, Clone, Copy, Debug)]
pub struct ScreenLayout {
    /// The tab titles: left half of the title strip.
    pub titles: Area,
    /// The base node status panel: right half of the title strip.
    pub status: Area,
    /// The active tab's content, below the title strip.
    pub content: Area,
}

/// The dashboard layout of `area`: a frame capped at `MAX_WIDTH` columns on
/// the left, cut into a title strip of `TITLE_HEIGHT` rows above the content,
/// the strip halved between the tab titles and the status panel.
pub open spec fn screen_layout_of(area: Area) -> ScreenLayout {
    let frame = layout_split(area, Split::Horizontal, seq![SizeRule::Length(MAX_WIDTH), SizeRule::Min(0)])[0];
    let rows = layout_split(frame, Split::Vertical, seq![SizeRule::Length(TITLE_HEIGHT), SizeRule::Min(0)]);
    let halves = layout_split(rows[0], Split::Horizontal, seq![SizeRule::Percentage(50), SizeRule::Percentage(50)]);
    ScreenLayout { titles: halves[0], status: halves[1], content: rows[1] }
}

/// Computes where the tab titles, the status panel and the tab content are
/// drawn within `area`: the title strip at the top left, the status panel to
/// its right, the content below both, reaching the bottom edge. The frame is
/// as wide as the area but at most `MAX_WIDTH`; the strip is `TITLE_HEIGHT`
/// rows high, or the whole area where that is shorter, and the titles take
/// its left half, rounded down. Reads no session state.
pub fn screen_layout(area: Area) -> (r: ScreenLayout)
    requires
        fits(area),
    ensures
        r == screen_layout_of(area),
        r.titles.x == area.x && r.titles.y == area.y,
        r.status.y == area.y && r.status.height == r.titles.height,
        r.titles.x + r.titles.width == r.status.x,
        r.titles.height == (if area.height <= TITLE_HEIGHT { area.height } else { TITLE_HEIGHT }),
        r.content.x == area.x,
        r.content.width == (if area.width <= MAX_WIDTH { area.width } else { MAX_WIDTH }),
        r.titles.width == r.content.width / 2,
        r.titles.width + r.status.width == r.content.width,
        r.status.x + r.status.width == r.content.x + r.content.width,
        r.titles.y + r.titles.height <= r.content.y,
        r.content.y + r.content.height == area.y + area.height,
{
    let columns = vec![SizeRule::Length(MAX_WIDTH), SizeRule::Min(0)];
    let frame = split_area(area, Split::Horizontal, &columns);
    assert(columns@ == seq![SizeRule::Length(MAX_WIDTH), SizeRule::Min(0)]);
    let rows_rules = vec![SizeRule::Length(TITLE_HEIGHT), SizeRule::Min(0)];
    let rows = split_area(frame[0], Split::Vertical, &rows_rules);
    assert(rows_rules@ == seq![SizeRule::Length(TITLE_HEIGHT), SizeRule::Min(0)]);
    let halves_rules = vec![SizeRule::Percentage(50), SizeRule::Percentage(50)];
    let halves = split_area(rows[0], Split::Horizontal, &halves_rules);
    assert(halves_rules@ == seq![SizeRule::Percentage(50), SizeRule::Percentage(50)]);
    ScreenLayout { titles: halves[0], status: halves[1], content: rows[1] }
}

} // verus!
