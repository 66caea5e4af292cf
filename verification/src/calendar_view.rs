//! The nodes of a calendar: month navigation with month and year selects, hidden
//! headings for assistive technology, a row of weekday headers, and a grid of six
//! weeks of day cells that show what the calendar's state says of each day.

use vstd::prelude::*;
use crate::button::{button_node, style_variant, styled, ButtonVariant};
use crate::calendar::{get_day_result, spec_weekday_from_monday_index, weekday_index, Calendar, CalendarCell, Date, Weekday};
use crate::label::{label_node, Label};
use crate::select::{shown_text, texts, trigger_nodes, Select};
use crate::text::{decimal, decimal_string};
use crate::ui::{Class, Context, Handle, Icon, NodeView, Role, Tag};
use crate::weekday_names::weekday_key_text;

verus! {

/// The keys of the month names, January first.
pub open spec fn month_keys() -> Seq<Seq<char>> {
    seq!["January"@, "February"@, "March"@, "April"@, "May"@, "June"@, "July"@, "August"@,
        "September"@, "October"@, "November"@, "December"@]
}

/// The years a calendar for a date in year `y` offers: fifty before it to fifty after.
pub open spec fn year_texts(y: int) -> Seq<Seq<char>> {
    Seq::new(101, |i: int| decimal(y - 50 + i))
}

/// A month navigation button under `parent` drawing `icon`.
pub open spec fn nav_nodes(s: Seq<NodeView>, parent: nat, icon: Icon) -> Seq<NodeView> {
    s.push(styled(button_node(parent), ButtonVariant::Text).class(Class::MonthNav))
        .push(NodeView::fresh(Tag::Svg, s.len()).with_icon(icon))
}

/// A stack node under `parent` with class `c`.
pub open spec fn stack(tag: Tag, parent: nat, c: Class) -> NodeView {
    NodeView::fresh(tag, parent).with_role(Role::GenericContainer).class(c)
}

/// A hidden label under `parent` with class `c`.
pub open spec fn hidden_label(parent: nat, c: Class) -> NodeView {
    label_node(parent, Seq::empty()).class(c).with_displayed(false)
}

/// The header of weekday column `x` under `parent`, for weeks starting on `ws`.
pub open spec fn dow_node(parent: nat, ws: Weekday, x: int) -> NodeView {
    label_node(parent, weekday_key_text(spec_weekday_from_monday_index(weekday_index(ws) + x)) + "-short"@)
        .with_role(Role::ColumnHeader).class(Class::CalendarDow)
}

/// A blank day cell under `parent`.
pub open spec fn blank_cell(parent: nat) -> NodeView {
    label_node(parent, Seq::empty()).with_role(Role::GridCell).class(Class::CalendarDay)
}

/// The first `y` weeks of the grid under `grid`: each a row followed by its seven cells.
pub open spec fn weeks(s: Seq<NodeView>, grid: nat, y: nat) -> Seq<NodeView>
    decreases y,
{
    if y == 0 {
        s
    } else {
        let t = weeks(s, grid, (y - 1) as nat);
        t.push(NodeView::fresh(Tag::HStack, grid).with_role(Role::GenericContainer)) + Seq::new(7, |x: int| blank_cell(t.len()))
    }
}

/// The node of day cell `k` (row `k / 7`, column `k % 7`) when the grid's first row is
/// node `first_row`.
pub open spec fn cell_entity(first_row: int, k: int) -> int {
    first_row + 8 * (k / 7) + 1 + k % 7
}

/// The nodes of a calendar for `date`, with weeks starting on `ws`, built at the end of
/// `s0` under `p`.
pub open spec fn calendar_nodes(s0: Seq<NodeView>, p: nat, date: Date, ws: Weekday) -> Seq<NodeView> {
    let e = s0.len();
    let s1 = s0.push(NodeView::fresh(Tag::Calendar, p));
    let controls = s1.len();
    let s2 = s1.push(stack(Tag::HStack, e, Class::CalendarControls));
    let s3 = nav_nodes(s2, controls, Icon::ChevronLeft);
    let sel_row = s3.len();
    let s4 = s3.push(stack(Tag::HStack, controls, Class::CalendarControlsSelect));
    let m = s4.len();
    let s5 = trigger_nodes(s4.push(NodeView::fresh(Tag::Select, sel_row)), m,
        shown_text(month_keys(), Some((date.month - 1) as usize), Seq::empty()), true);
    let y = s5.len();
    let s6 = trigger_nodes(s5.push(NodeView::fresh(Tag::Select, sel_row)), y,
        shown_text(year_texts(date.year as int), Some(50), Seq::empty()), true);
    let s7 = nav_nodes(s6, controls, Icon::ChevronRight);
    let body = s7.len();
    let s8 = s7.push(NodeView::fresh(Tag::VStack, e).with_role(Role::GenericContainer));
    let s9 = s8.push(hidden_label(body, Class::CalendarMonthYearHeading)).push(hidden_label(body, Class::CalendarKeyboardHelp));
    let header = s9.len();
    let s10 = s9.push(NodeView::fresh(Tag::HStack, body).with_role(Role::Row).class(Class::CalendarHeader))
        + Seq::new(7, |x: int| dow_node(header, ws, x));
    let grid = s10.len();
    weeks(s10.push(NodeView::fresh(Tag::VStack, body).with_role(Role::GenericContainer)), grid, 6)
}

/// Builds a month navigation button drawing `icon` under the current node.
fn nav_button(cx: &mut Context, icon: Icon) -> (b: usize)
    requires
        old(cx)@.len() + 2 < usize::MAX,
    ensures
        b == old(cx)@.len(),
        final(cx).cur() == old(cx).cur(),
        final(cx)@ == nav_nodes(old(cx)@, old(cx).cur() as nat, icon),
{
    let b = cx.add_with_role(Tag::Button, Role::Button);
    cx.set_navigable(b, true);
    style_variant(cx, b, ButtonVariant::Text);
    cx.add_class(b, Class::MonthNav);
    let _i = cx.add_icon(b, icon);
    assert(cx@ =~= nav_nodes(old(cx)@, old(cx).cur() as nat, icon));
    b
}

/// The month name keys.
fn month_names() -> (v: Vec<String>)
    ensures
        texts(v@) == month_keys(),
{
    let mut v: Vec<String> = Vec::new();
    v.push(String::from_str("January"));
    v.push(String::from_str("February"));
    v.push(String::from_str("March"));
    v.push(String::from_str("April"));
    v.push(String::from_str("May"));
    v.push(String::from_str("June"));
    v.push(String::from_str("July"));
    v.push(String::from_str("August"));
    v.push(String::from_str("September"));
    v.push(String::from_str("October"));
    v.push(String::from_str("November"));
    v.push(String::from_str("December"));
    assert(texts(v@) =~= month_keys());
    v
}

/// The years offered for a date in year `y`.
fn year_names(y: i32) -> (v: Vec<String>)
    ensures
        texts(v@) == year_texts(y as int),
{
    let mut v: Vec<String> = Vec::new();
    let mut i: i64 = 0;
    while i < 101
        invariant
            0 <= i <= 101,
            v@.len() == i,
            texts(v@) == Seq::new(i as nat, |j: int| decimal(y - 50 + j)),
        decreases 101 - i,
    {
        let t = decimal_string(y as i64 - 50 + i);
        let ghost before = v@;
        v.push(t);
        assert forall|j: int| 0 <= j < i + 1 implies #[trigger] texts(v@)[j] == decimal(y - 50 + j) by {
            if j < i {
                assert(v@[j] == before[j]);
                assert(texts(before)[j] == decimal(y - 50 + j));
            } else {
                assert(v@[j] == t);
            }
        }
        assert(texts(v@) =~= Seq::new((i + 1) as nat, |j: int| decimal(y - 50 + j)));
        i = i + 1;
    }
    v
}

/// Builds the weekday header row under the current node.
fn weekday_headers(cx: &mut Context, ws: Weekday)
    requires
        old(cx)@.len() + 9 < usize::MAX,
    ensures
        final(cx).cur() == old(cx).cur(),
        final(cx)@ == old(cx)@.push(NodeView::fresh(Tag::HStack, old(cx).cur() as nat).with_role(Role::Row).class(Class::CalendarHeader))
            + Seq::new(7, |x: int| dow_node(old(cx)@.len() as nat, ws, x)),
{
    let here = cx.current();
    let row = cx.add_with_role(Tag::HStack, Role::Row);
    cx.add_class(row, Class::CalendarHeader);
    cx.set_current(row);
    let ghost base = cx@;
    let mut x: u32 = 0;
    while x < 7
        invariant
            0 <= x <= 7,
            cx.cur() == row,
            row == old(cx)@.len(),
            base.len() == row + 1,
            base.len() + 8 < usize::MAX,
            cx@ == base + Seq::new(x as nat, |j: int| dow_node(row as nat, ws, j)),
        decreases 7 - x,
    {
        let w = Calendar::column_weekday_of(ws, x);
        let key = Calendar::weekday_short_key(w);
        let l = Label::new(cx, key.to_string());
        cx.set_role(l.entity, Role::ColumnHeader);
        cx.add_class(l.entity, Class::CalendarDow);
        assert(cx@ =~= base + Seq::new((x + 1) as nat, |j: int| dow_node(row as nat, ws, j)));
        x = x + 1;
    }
    cx.set_current(here);
}

/// Builds the six weeks of blank day cells under the grid node `grid`, which is
/// current; the result holds the node of each cell, row by row.
fn day_grid(cx: &mut Context, grid: usize) -> (cells: Vec<Option<usize>>)
    requires
        cx.cur() == grid,
        (grid as int) == old(cx)@.len() - 1,
        old(cx)@.len() + 50 < usize::MAX,
    ensures
        final(cx).cur() == grid,
        final(cx)@ == weeks(old(cx)@, grid as nat, 6),
        final(cx)@.len() == old(cx)@.len() + 48,
        cells@ == Seq::new(42, |k: int| Some(cell_entity(grid + 1, k) as usize)),
{
    let mut cells: Vec<Option<usize>> = Vec::new();
    let mut y: usize = 0;
    while y < 6
        invariant
            0 <= y <= 6,
            cx.cur() == grid,
            grid == old(cx)@.len() - 1,
            old(cx)@.len() + 50 < usize::MAX,
            cx@ == weeks(old(cx)@, grid as nat, y as nat),
            cx@.len() == old(cx)@.len() + 8 * y,
            cells@ == Seq::new(7 * y as nat, |k: int| Some(cell_entity(grid + 1, k) as usize)),
        decreases 6 - y,
    {
        let ghost t = cx@;
        let row = cx.add_with_role(Tag::HStack, Role::GenericContainer);
        cx.set_current(row);
        let ghost base = cx@;
        let mut x: usize = 0;
        while x < 7
            invariant
                0 <= x <= 7,
                0 <= y < 6,
                cx.cur() == row,
                row == t.len(),
                t.len() == old(cx)@.len() + 8 * y,
                grid == old(cx)@.len() - 1,
                old(cx)@.len() + 50 < usize::MAX,
                base == t.push(NodeView::fresh(Tag::HStack, grid as nat).with_role(Role::GenericContainer)),
                cx@ == base + Seq::new(x as nat, |j: int| blank_cell(row as nat)),
                cells@ == Seq::new((7 * y + x) as nat, |k: int| Some(cell_entity(grid + 1, k) as usize)),
            decreases 7 - x,
        {
            let l = Label::new(cx, String::new());
            cx.set_role(l.entity, Role::GridCell);
            cx.add_class(l.entity, Class::CalendarDay);
            proof {
                let k = 7 * y + x;
                assert(k / 7 == y as int && k % 7 == x as int) by (nonlinear_arith)
                    requires k == 7 * y + x, 0 <= x < 7, 0 <= y;
                assert(l.entity == cell_entity(grid + 1, k as int));
            }
            cells.push(Some(l.entity));
            assert(cx@ =~= base + Seq::new((x + 1) as nat, |j: int| blank_cell(row as nat)));
            assert(cells@ =~= Seq::new((7 * y + x + 1) as nat, |k: int| Some(cell_entity(grid + 1, k) as usize)));
            x = x + 1;
        }
        cx.set_current(grid);
        assert(cx@ =~= weeks(old(cx)@, grid as nat, (y + 1) as nat));
        y = y + 1;
    }
    cells
}

/// A day cell's node showing what `c` says of its day.
pub open spec fn shown_cell(n: NodeView, c: CalendarCell) -> NodeView {
    n.with_text(decimal(c.date.day as int))
        .with_disabled(c.disabled)
        .with_navigable(c.navigable)
        .toggled(Class::CalendarDayDisabled, c.disabled)
        .toggled(Class::CalendarDayFocused, c.focused)
        .toggled(Class::CalendarDaySelected, c.selected)
}

/// The tree after the first `k` cells were shown: cell `j` at node `dc[j]` shows
/// `cs[j]` when both are known, and is left as it was otherwise.
pub open spec fn cells_shown(s: Seq<NodeView>, dc: Seq<Option<usize>>, cs: Seq<Option<CalendarCell>>, k: nat) -> Seq<NodeView>
    decreases k,
{
    if k == 0 {
        s
    } else {
        let t = cells_shown(s, dc, cs, (k - 1) as nat);
        let j = k - 1;
        match (dc[j], cs[j]) {
            (Some(e), Some(c)) => if (e as int) < t.len() { t.update(e as int, shown_cell(t[e as int], c)) } else { t },
            _ => t,
        }
    }
}

/// Shows `c` on node `e`.
fn show_cell(cx: &mut Context, e: usize, c: CalendarCell)
    requires
        (e as int) < old(cx)@.len(),
    ensures
        final(cx).cur() == old(cx).cur(),
        final(cx)@ == old(cx)@.update(e as int, shown_cell(old(cx)@[e as int], c)),
{
    cx.set_text(e, decimal_string(c.date.day as i64));
    cx.set_disabled(e, c.disabled);
    cx.set_navigable(e, c.navigable);
    cx.toggle_class(e, Class::CalendarDayDisabled, c.disabled);
    cx.toggle_class(e, Class::CalendarDayFocused, c.focused);
    cx.toggle_class(e, Class::CalendarDaySelected, c.selected);
    assert(cx@ =~= old(cx)@.update(e as int, shown_cell(old(cx)@[e as int], c)));
}

impl Calendar {
    /// The weekday heading column `x` for weeks starting on `ws`.
    pub fn column_weekday_of(ws: Weekday, x: u32) -> (w: Weekday)
        requires
            x < 7,
        ensures
            w == spec_weekday_from_monday_index(weekday_index(ws) + x),
    {
        crate::calendar::weekday_from_monday_index(ws.num_days_from_monday() + x)
    }

    /// What each of the grid's 42 cells shows, row by row, while `selected` is the
    /// selected date.
    pub fn cells(&self, selected: Date) -> (r: Vec<Option<CalendarCell>>)
        requires
            self.wf(),
        ensures
            r@.len() == 42,
            forall|k: int| 0 <= k < 42 ==> self.cell_ok((k / 7) as u32, (k % 7) as u32, selected, #[trigger] r@[k]),
    {
        let mut r: Vec<Option<CalendarCell>> = Vec::new();
        let mut y: u32 = 0;
        while y < 6
            invariant
                0 <= y <= 6,
                self.wf(),
                r@.len() == 7 * y,
                forall|k: int| 0 <= k < r@.len() ==> self.cell_ok((k / 7) as u32, (k % 7) as u32, selected, #[trigger] r@[k]),
            decreases 6 - y,
        {
            let mut x: u32 = 0;
            while x < 7
                invariant
                    0 <= x <= 7,
                    0 <= y < 6,
                    self.wf(),
                    r@.len() == 7 * y + x,
                    forall|k: int| 0 <= k < r@.len() ==> self.cell_ok((k / 7) as u32, (k % 7) as u32, selected, #[trigger] r@[k]),
                decreases 7 - x,
            {
                let c = self.day_cell(y, x, selected);
                proof {
                    let k = 7 * y + x;
                    assert(k / 7 == y as int && k % 7 == x as int) by (nonlinear_arith)
                        requires k == 7 * y + x, 0 <= x < 7, 0 <= y;
                }
                r.push(c);
                x = x + 1;
            }
            y = y + 1;
        }
        r
    }

    /// Builds a calendar for `date` with weeks starting on `ws` under the current node:
    /// the month navigation (previous button, month and year selects, next button),
    /// the hidden month heading and keyboard help, the weekday headers, and six weeks of
    /// day cells, each registered as the calendar's cell. The cells are blank until
    /// refreshed. `None` when the date does not exist.
    pub fn build(cx: &mut Context, date: Date, ws: Weekday) -> (r: Option<Handle<Calendar>>)
        requires
            old(cx)@.len() + 200 < usize::MAX,
        ensures
            r is None <==> !date.valid(),
            r is None ==> final(cx)@ == old(cx)@ && final(cx).cur() == old(cx).cur(),
            r matches Some(h) ==> {
                &&& h.entity == old(cx)@.len()
                &&& final(cx).cur() == old(cx).cur()
                &&& final(cx)@ == calendar_nodes(old(cx)@, old(cx).cur() as nat, date, ws)
                &&& h.view.wf()
                &&& h.view.view_date == (Date { year: date.year, month: date.month, day: 1 })
                &&& h.view.focused_date == date
                &&& h.view.week_starts_on == ws
                &&& !h.view.has_on_select
                &&& h.view.day_cells@ == Seq::new(42, |k: int| Some(cell_entity(final(cx)@.len() - 48, k) as usize))
            },
    {
        let mut cal = match Calendar::new(date, ws) {
            Some(c) => c,
            None => {
                return None;
            },
        };
        let here = cx.current();
        let ghost s0 = cx@;
        let e = cx.add(Tag::Calendar);
        cx.set_current(e);
        let controls = cx.add_with_role(Tag::HStack, Role::GenericContainer);
        cx.add_class(controls, Class::CalendarControls);
        let ghost s2 = cx@;
        assert(s2 =~= s0.push(NodeView::fresh(Tag::Calendar, here as nat)).push(stack(Tag::HStack, e as nat, Class::CalendarControls)));
        cx.set_current(controls);
        let _prev = nav_button(cx, Icon::ChevronLeft);
        let sel_row = cx.add_with_role(Tag::HStack, Role::GenericContainer);
        cx.add_class(sel_row, Class::CalendarControlsSelect);
        let ghost s4 = cx@;
        assert(s4 =~= nav_nodes(s2, controls as nat, Icon::ChevronLeft).push(stack(Tag::HStack, controls as nat, Class::CalendarControlsSelect)));
        cx.set_current(sel_row);
        let month_items = month_names();
        let _months = Select::new(cx, month_items, Some((date.month - 1) as usize), true);
        let ghost s5 = cx@;
        let year_items = year_names(date.year);
        let _years = Select::new(cx, year_items, Some(50), true);
        let ghost s6 = cx@;
        cx.set_current(controls);
        let _next = nav_button(cx, Icon::ChevronRight);
        let ghost s7 = cx@;
        cx.set_current(e);
        let body = cx.add_with_role(Tag::VStack, Role::GenericContainer);
        cx.set_current(body);
        let heading = Label::new(cx, String::new());
        cx.add_class(heading.entity, Class::CalendarMonthYearHeading);
        cx.set_displayed(heading.entity, false);
        let help = Label::new(cx, String::new());
        cx.add_class(help.entity, Class::CalendarKeyboardHelp);
        cx.set_displayed(help.entity, false);
        let ghost s9 = cx@;
        assert(s9 =~= s7.push(NodeView::fresh(Tag::VStack, e as nat).with_role(Role::GenericContainer))
            .push(hidden_label(body as nat, Class::CalendarMonthYearHeading))
            .push(hidden_label(body as nat, Class::CalendarKeyboardHelp)));
        weekday_headers(cx, ws);
        let ghost s10 = cx@;
        let grid = cx.add_with_role(Tag::VStack, Role::GenericContainer);
        let ghost s11 = cx@;
        assert(s11 == s10.push(NodeView::fresh(Tag::VStack, body as nat).with_role(Role::GenericContainer)));
        cx.set_current(grid);
        let cells = day_grid(cx, grid);
        assert(cx@ == weeks(s11, grid as nat, 6));
        cx.set_current(here);
        cal.day_cells = cells;
        proof {
            assert(cx@ =~= calendar_nodes(old(cx)@, here as nat, date, ws));
        }
        Some(Handle { entity: e, view: cal })
    }
}

/// Refreshing the day cells of a built calendar.
impl Handle<Calendar> {
    /// Shows on each registered day cell what `cells` says of it.
    pub fn refresh_cells(&self, cx: &mut Context, cells: &Vec<Option<CalendarCell>>)
        requires
            cells@.len() == 42,
            self.view.day_cells@.len() == 42,
        ensures
            final(cx).cur() == old(cx).cur(),
            final(cx)@ == cells_shown(old(cx)@, self.view.day_cells@, cells@, 42),
    {
        let mut k: usize = 0;
        while k < 42
            invariant
                0 <= k <= 42,
                cells@.len() == 42,
                self.view.day_cells@.len() == 42,
                cx.cur() == old(cx).cur(),
                cx@ == cells_shown(old(cx)@, self.view.day_cells@, cells@, k as nat),
                cx@.len() == old(cx)@.len(),
            decreases 42 - k,
        {
            match (self.view.day_cells[k], cells[k]) {
                (Some(e), Some(c)) => {
                    if e < cx.len() {
                        show_cell(cx, e, c);
                    }
                },
                _ => {},
            }
            k = k + 1;
        }
    }
}

} // verus!
