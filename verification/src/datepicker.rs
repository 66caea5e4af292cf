//! A date picker: a month shown as six weeks of day cells starting on Monday, moved
//! by month and by year; and a picker of a date and a time of day in two tabs.

use vstd::prelude::*;
use crate::calendar::{month_info, neighbour_month, view_month_info, weekday_index, Date, MAX_YEAR, MIN_YEAR, Weekday};
use crate::label::label_node;
use crate::tabview::{built_tab, TabPair, TabView};
use crate::timepicker::Time;
use crate::ui::{Class, Context, Handle, NodeView, Tag};

verus! {

/// The value of a string of decimal digits.
pub open spec fn digits_value(s: Seq<char>) -> int
    decreases s.len(),
{
    if s.len() == 0 {
        0
    } else {
        digits_value(s.drop_last()) * 10 + (s.last() as int - '0' as int)
    }
}

/// The integer a string writes in decimal, as `str::parse::<i32>` reads it: an
/// optional `+` or `-` followed by at least one digit and nothing else, whose value
/// fits in an `i32`.
pub open spec fn parsed_i32(s: Seq<char>) -> Option<int> {
    let signed = s.len() > 0 && (s[0] == '-' || s[0] == '+');
    let body = if signed { s.skip(1) } else { s };
    let v = if signed && s[0] == '-' { -digits_value(body) } else { digits_value(body) };
    if body.len() == 0 || !(forall|i: int| 0 <= i < body.len() ==> '0' <= #[trigger] body[i] <= '9') {
        None
    } else if i32::MIN <= v <= i32::MAX {
        Some(v)
    } else {
        None
    }
}

/// Reads a year typed as text, with `str::parse::<i32>`: as documented for
/// `i32::from_str`, an optional sign followed by decimal digits whose value fits.
#[verifier::external_body]
fn parse_i32(s: &String) -> (r: Option<i32>)
    ensures
        r matches Some(v) ==> parsed_i32(s@) == Some(v as int),
        r is None ==> parsed_i32(s@) is None,
{
    s.parse::<i32>().ok()
}

/// Requests handled by a date picker.
#[derive(Clone, Debug)]
pub enum DatepickerEvent {
    IncrementMonth,
    DecrementMonth,
    /// Show a month, counted from 0 for January.
    SelectMonth(usize),
    IncrementYear,
    DecrementYear,
    /// Show the year typed as text.
    SelectYear(String),
    /// A day cell was pressed.
    SelectDate(Date),
}

/// What a day cell shows: its day number, whether it belongs to a neighbouring month
/// (and cannot be chosen), and whether it is the selected date.
#[derive(Clone, Copy, PartialEq, Eq, Structural, Debug)]
pub struct DayCell {
    pub day: u32,
    pub disabled: bool,
    pub checked: bool,
}

/// A control used to select a date.
pub struct Datepicker {
    /// The first day of the month shown.
    pub view_date: Date,
    pub has_on_select: bool,
}

/// The day number in the cell at row `y`, column `x`, when the first of the month is
/// shown at column `first` (1 to 7, so that a month starting on a Monday starts on
/// the second row), and whether it belongs to a neighbouring month.
pub open spec fn picker_cell(y: int, x: int, first: int, prev_len: int, this_len: int) -> (int, bool) {
    if y == 0 {
        if x < first { (prev_len - (first - x - 1), true) } else { (x - first + 1, false) }
    } else {
        let n = y * 7 + x - first + 1;
        if n > this_len { (n - this_len, true) } else { (n, false) }
    }
}

/// The column of the first of a month: its weekday counted from Monday, with Monday
/// counted as 7.
pub open spec fn first_cell(weekday: int) -> int {
    if weekday == 0 { 7 } else { weekday }
}

/// The grid of a month can be laid out: the month before and the month itself are
/// known, and the first row asks no more days of the month before than it has.
pub open spec fn grid_ok(view_date: Date) -> bool {
    &&& month_info(view_date, -1) is Some
    &&& month_info(view_date, 0) is Some
    &&& (month_info(view_date, -1)->0).1 >= 6
}

/// What the cell at row `y`, column `x` shows for the month of `view_date`.
pub open spec fn cell_spec(y: int, x: int, view_date: Date) -> (int, bool) {
    let prev = month_info(view_date, -1)->0;
    let this = month_info(view_date, 0)->0;
    picker_cell(y, x, first_cell(this.0), prev.1, this.1)
}

/// The first day of the month a valid date lies in.
pub open spec fn first_of_month(d: Date) -> Date {
    Date { year: d.year, month: d.month, day: 1 }
}

impl Datepicker {
    /// The month shown is a real month, given by its first day.
    pub open spec fn wf(&self) -> bool {
        self.view_date.valid() && self.view_date.day == 1
    }

    /// The first day of the month shown after an event.
    pub open spec fn view_after(&self, event: DatepickerEvent) -> Date {
        let (y, m) = (self.view_date.year as int, self.view_date.month as int);
        match event {
            DatepickerEvent::IncrementMonth => {
                let (ny, nm) = neighbour_month(y, m, 1);
                Date { year: ny as i32, month: nm as u32, day: 1 }
            },
            DatepickerEvent::DecrementMonth => {
                let (ny, nm) = neighbour_month(y, m, -1);
                Date { year: ny as i32, month: nm as u32, day: 1 }
            },
            DatepickerEvent::SelectMonth(k) => Date { year: self.view_date.year, month: (k + 1) as u32, day: 1 },
            DatepickerEvent::IncrementYear => Date { year: (y + 1) as i32, month: self.view_date.month, day: 1 },
            DatepickerEvent::DecrementYear => Date { year: (y - 1) as i32, month: self.view_date.month, day: 1 },
            DatepickerEvent::SelectYear(s) => match parsed_i32(s@) {
                Some(v) => Date { year: v as i32, month: self.view_date.month, day: 1 },
                None => self.view_date,
            },
            DatepickerEvent::SelectDate(_) => self.view_date,
        }
    }

    /// The month an event moves to exists: the year stays in range, and a month is
    /// picked among twelve.
    pub open spec fn event_ok(&self, event: DatepickerEvent) -> bool {
        let (y, m) = (self.view_date.year as int, self.view_date.month as int);
        match event {
            DatepickerEvent::IncrementMonth => neighbour_month(y, m, 1).0 <= MAX_YEAR,
            DatepickerEvent::DecrementMonth => neighbour_month(y, m, -1).0 >= MIN_YEAR,
            DatepickerEvent::SelectMonth(k) => k < 12,
            DatepickerEvent::IncrementYear => y + 1 <= MAX_YEAR,
            DatepickerEvent::DecrementYear => y - 1 >= MIN_YEAR,
            DatepickerEvent::SelectYear(s) => match parsed_i32(s@) {
                Some(v) => MIN_YEAR <= v <= MAX_YEAR,
                None => true,
            },
            DatepickerEvent::SelectDate(_) => true,
        }
    }

    /// A picker for `selected`, showing its month.
    pub fn new(selected: Date) -> (d: Datepicker)
        requires
            selected.valid(),
        ensures
            d.wf(),
            d.view_date == first_of_month(selected),
            !d.has_on_select,
    {
        Datepicker { view_date: Date { year: selected.year, month: selected.month, day: 1 }, has_on_select: false }
    }

    /// Attaches the callback that receives a chosen date.
    pub fn on_select(&mut self)
        ensures
            final(self).view_date == old(self).view_date,
            final(self).has_on_select,
    {
        self.has_on_select = true;
    }

    /// The day number in the cell at row `y`, column `x` of the grid for the month of
    /// `view_date`, and whether it belongs to a neighbouring month.
    pub fn get_day_number(y: u32, x: u32, view_date: Date) -> (r: (u32, bool))
        requires
            view_date.valid(),
            grid_ok(view_date),
            y < 6,
            x < 7,
        ensures
            (r.0 as int, r.1) == cell_spec(y as int, x as int, view_date),
    {
        let (_, days_prev_month) = match view_month_info(view_date, -1) {
            Some(info) => info,
            None => (Weekday::Mon, 0),
        };
        let (first_day_this_month, days_this_month) = match view_month_info(view_date, 0) {
            Some(info) => info,
            None => (Weekday::Mon, 0),
        };
        let mut fdtm_i = first_day_this_month.num_days_from_monday();
        if fdtm_i == 0 {
            fdtm_i = 7;
        }
        if y == 0 {
            if x < fdtm_i {
                (days_prev_month - (fdtm_i - x - 1), true)
            } else {
                (x - fdtm_i + 1, false)
            }
        } else {
            let day_number = y * 7 + x - fdtm_i + 1;
            if day_number > days_this_month {
                (day_number - days_this_month, true)
            } else {
                (day_number, false)
            }
        }
    }

    /// What the cell at row `y`, column `x` shows while `selected` is the selected date:
    /// it is checked when it is a day of the month shown and that day is `selected`.
    pub fn day_cell(&self, y: u32, x: u32, selected: Date) -> (c: DayCell)
        requires
            self.wf(),
            grid_ok(self.view_date),
            y < 6,
            x < 7,
        ensures
            (c.day as int, c.disabled) == cell_spec(y as int, x as int, self.view_date),
            c.checked == (!c.disabled && selected.day == c.day && selected.month == self.view_date.month
                && selected.year == self.view_date.year),
    {
        let (day, disabled) = Datepicker::get_day_number(y, x, self.view_date);
        let checked = !disabled && selected.day == day && selected.month == self.view_date.month
            && selected.year == self.view_date.year;
        DayCell { day, disabled, checked }
    }

    /// The 42 cells of the grid for the month shown, row by row, while `selected` is the
    /// selected date; `None` when the grid of that month cannot be laid out (the month
    /// before it, or the month itself, lies outside the dates the library knows).
    pub fn cells(&self, selected: Date) -> (r: Option<Vec<DayCell>>)
        requires
            self.wf(),
        ensures
            r is Some <==> grid_ok(self.view_date),
            r matches Some(v) ==> v@.len() == 42 && forall|k: int| 0 <= k < 42 ==> {
                let c = #[trigger] v@[k];
                &&& (c.day as int, c.disabled) == cell_spec(k / 7, k % 7, self.view_date)
                &&& c.checked == (!c.disabled && selected.day == c.day && selected.month == self.view_date.month
                    && selected.year == self.view_date.year)
            },
    {
        let prev = view_month_info(self.view_date, -1);
        let this = view_month_info(self.view_date, 0);
        match (prev, this) {
            (Some((_, prev_len)), Some(_)) => {
                if prev_len < 6 {
                    return None;
                }
            },
            _ => {
                return None;
            },
        }
        let mut v: Vec<DayCell> = Vec::new();
        let mut y: u32 = 0;
        while y < 6
            invariant
                0 <= y <= 6,
                self.wf(),
                grid_ok(self.view_date),
                v@.len() == 7 * y,
                forall|k: int| 0 <= k < v@.len() ==> {
                    let c = #[trigger] v@[k];
                    &&& (c.day as int, c.disabled) == cell_spec(k / 7, k % 7, self.view_date)
                    &&& c.checked == (!c.disabled && selected.day == c.day && selected.month == self.view_date.month
                        && selected.year == self.view_date.year)
                },
            decreases 6 - y,
        {
            let mut x: u32 = 0;
            while x < 7
                invariant
                    0 <= x <= 7,
                    0 <= y < 6,
                    self.wf(),
                    grid_ok(self.view_date),
                    v@.len() == 7 * y + x,
                    forall|k: int| 0 <= k < v@.len() ==> {
                        let c = #[trigger] v@[k];
                        &&& (c.day as int, c.disabled) == cell_spec(k / 7, k % 7, self.view_date)
                        &&& c.checked == (!c.disabled && selected.day == c.day && selected.month == self.view_date.month
                            && selected.year == self.view_date.year)
                    },
                decreases 7 - x,
            {
                let c = self.day_cell(y, x, selected);
                proof {
                    let k = 7 * y + x;
                    assert(k / 7 == y as int && k % 7 == x as int) by (nonlinear_arith)
                        requires k == 7 * y + x, 0 <= x < 7, 0 <= y;
                }
                v.push(c);
                x = x + 1;
            }
            y = y + 1;
        }
        Some(v)
    }

    /// The date a press on the cell at row `y`, column `x` chooses: none for a day of a
    /// neighbouring month.
    pub fn cell_press(&self, y: u32, x: u32) -> (r: Option<DatepickerEvent>)
        requires
            self.wf(),
            grid_ok(self.view_date),
            y < 6,
            x < 7,
        ensures
            cell_spec(y as int, x as int, self.view_date).1 ==> r is None,
            !cell_spec(y as int, x as int, self.view_date).1 ==> (r matches Some(DatepickerEvent::SelectDate(d))
                && d == (Date { year: self.view_date.year, month: self.view_date.month, day: cell_spec(y as int, x as int, self.view_date).0 as u32 })),
    {
        let (day, disabled) = Datepicker::get_day_number(y, x, self.view_date);
        if disabled {
            None
        } else {
            Some(DatepickerEvent::SelectDate(Date { year: self.view_date.year, month: self.view_date.month, day }))
        }
    }

    /// Handles an event: moves the month shown, or hands a chosen date to the callback.
    pub fn event(&mut self, event: DatepickerEvent) -> (r: Option<Date>)
        requires
            old(self).wf(),
            old(self).event_ok(event),
        ensures
            final(self).wf(),
            final(self).has_on_select == old(self).has_on_select,
            final(self).view_date == old(self).view_after(event),
            r == match event {
                DatepickerEvent::SelectDate(d) => if old(self).has_on_select { Some(d) } else { None },
                _ => None,
            },
    {
        let year = self.view_date.year;
        let month = self.view_date.month;
        match event {
            DatepickerEvent::IncrementMonth => {
                self.view_date = if month == 12 {
                    Date { year: year + 1, month: 1, day: 1 }
                } else {
                    Date { year, month: month + 1, day: 1 }
                };
                None
            },
            DatepickerEvent::DecrementMonth => {
                self.view_date = if month == 1 {
                    Date { year: year - 1, month: 12, day: 1 }
                } else {
                    Date { year, month: month - 1, day: 1 }
                };
                None
            },
            DatepickerEvent::SelectMonth(k) => {
                self.view_date = Date { year, month: k as u32 + 1, day: 1 };
                None
            },
            DatepickerEvent::IncrementYear => {
                self.view_date = Date { year: year + 1, month, day: 1 };
                None
            },
            DatepickerEvent::DecrementYear => {
                self.view_date = Date { year: year - 1, month, day: 1 };
                None
            },
            DatepickerEvent::SelectYear(s) => {
                if let Some(v) = parse_i32(&s) {
                    self.view_date = Date { year: v, month, day: 1 };
                }
                None
            },
            DatepickerEvent::SelectDate(d) => {
                if self.has_on_select { Some(d) } else { None }
            },
        }
    }
}

/// A date and a time of day.
#[derive(Clone, Copy, PartialEq, Eq, Structural, Debug)]
pub struct DateTime {
    pub date: Date,
    pub time: Time,
}

/// Requests handled by a date and time picker.
#[derive(Clone, Copy, PartialEq, Eq, Structural, Debug)]
pub enum DatetimePickerEvent {
    SetDate(Date),
    SetTime(Time),
}

/// A picker of a date and a time of day, in a calendar tab and a clock tab.
pub struct DatetimePicker {
    pub has_on_change: bool,
}

/// The tab at `t` sits in list slot `slot`, is selected when `first`, and its label
/// reads `text`.
pub open spec fn tab_with(s: Seq<NodeView>, t: int, slot: nat, first: bool, text: Seq<char>) -> bool {
    &&& 0 <= t && t + 1 < s.len()
    &&& s[t] == built_tab(slot, false, first)
    &&& s[t + 1] == label_node(t as nat, text)
}

/// The tab panel at `p` is shown (or hidden) and holds a label reading `text`.
pub open spec fn panel_with(s: Seq<NodeView>, p: int, shown: bool, text: Seq<char>) -> bool {
    &&& 0 <= p && p + 1 < s.len()
    &&& s[p].element == Tag::TabPanel
    &&& s[p].displayed == shown
    &&& s[p].hidden == !shown
    &&& s[p + 1] == label_node(p as nat, text)
}

impl DatetimePicker {
    /// Builds the picker: its node, and below it a tab view with the calendar tab
    /// (selected, its panel showing the date picker) and the clock tab (its panel
    /// showing the time picker).
    pub fn new(cx: &mut Context) -> (h: Handle<DatetimePicker>)
        requires
            old(cx)@.len() + 40 < usize::MAX,
        ensures
            h.entity == old(cx)@.len(),
            !h.view.has_on_change,
            final(cx).cur() == old(cx).cur(),
            final(cx)@.len() > h.entity + 1,
            final(cx)@.subrange(0, old(cx)@.len() as int) == old(cx)@,
            final(cx)@[h.entity as int] == NodeView::fresh(Tag::DatetimePicker, old(cx).cur() as nat),
            final(cx)@[h.entity + 1] == NodeView::fresh(Tag::TabView, h.entity as nat).toggled(Class::Vertical, false),
            exists|t: int| #[trigger] tab_with(final(cx)@, t, (h.entity + 5) as nat, true, "\u{1f4c5}"@),
            exists|t: int| #[trigger] tab_with(final(cx)@, t, (h.entity + 6) as nat, false, "\u{1f554}"@),
            exists|p: int| #[trigger] panel_with(final(cx)@, p, true, "calendar"@),
            exists|p: int| #[trigger] panel_with(final(cx)@, p, false, "clock"@),
    {
        let here = cx.current();
        let e = cx.add(Tag::DatetimePicker);
        cx.set_current(e);
        let calendar_icon = String::from_str("\u{1f4c5}");
        let clock_icon = String::from_str("\u{1f554}");
        let calendar = String::from_str("calendar");
        let clock = String::from_str("clock");
        let mut pairs: Vec<TabPair> = Vec::new();
        pairs.push(TabPair::new(calendar_icon, calendar));
        pairs.push(TabPair::new(clock_icon, clock));
        let ghost built = cx@;
        let tabs = TabView::new(cx, &pairs);
        cx.set_current(here);
        proof {
            assert(cx@[e as int] == built.subrange(0, (e + 1) as int)[e as int]);
            assert(cx@.subrange(0, old(cx)@.len() as int) =~= built.subrange(0, e as int));
            let t0 = tabs.view.tabs@[0] as int;
            let t1 = tabs.view.tabs@[1] as int;
            let p0 = tabs.view.panels@[0] as int;
            let p1 = tabs.view.panels@[1] as int;
            assert(tab_with(cx@, t0, (e + 5) as nat, true, "\u{1f4c5}"@));
            assert(tab_with(cx@, t1, (e + 6) as nat, false, "\u{1f554}"@));
            assert(panel_with(cx@, p0, true, "calendar"@));
            assert(panel_with(cx@, p1, false, "clock"@));
        }
        Handle { entity: e, view: DatetimePicker { has_on_change: false } }
    }

    /// Attaches the callback that receives the changed date and time.
    pub fn on_change(&mut self)
        ensures
            final(self).has_on_change,
    {
        self.has_on_change = true;
    }

    /// Handles an event while `current` is shown: the callback receives `current` with
    /// its date, or its time, replaced.
    pub fn event(&self, current: DateTime, event: DatetimePickerEvent) -> (r: Option<DateTime>)
        ensures
            !self.has_on_change ==> r is None,
            self.has_on_change ==> r == Some(match event {
                DatetimePickerEvent::SetDate(d) => DateTime { date: d, time: current.time },
                DatetimePickerEvent::SetTime(t) => DateTime { date: current.date, time: t },
            }),
    {
        if !self.has_on_change {
            return None;
        }
        match event {
            DatetimePickerEvent::SetDate(d) => Some(DateTime { date: d, time: current.time }),
            DatetimePickerEvent::SetTime(t) => Some(DateTime { date: current.date, time: t }),
        }
    }
}

/// Moving a month forward and back, or a year forward and back, shows the month shown
/// before.
pub proof fn law_moves_undo_each_other(d: Datepicker)
    requires
        d.wf(),
        d.event_ok(DatepickerEvent::IncrementMonth),
        d.event_ok(DatepickerEvent::IncrementYear),
    ensures
        (Datepicker { view_date: d.view_after(DatepickerEvent::IncrementMonth), ..d })
            .view_after(DatepickerEvent::DecrementMonth) == d.view_date,
        (Datepicker { view_date: d.view_after(DatepickerEvent::IncrementYear), ..d })
            .view_after(DatepickerEvent::DecrementYear) == d.view_date,
{
}

} // verus!
