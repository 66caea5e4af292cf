//! A month calendar: the month shown, the day with keyboard focus, and the grid of
//! six weeks of day cells that shows a month with the ends of its neighbours.

use vstd::prelude::*;
use chrono::Datelike;

verus! {

/// The first year a date can have.
pub const MIN_YEAR: i32 = -262143;
/// The last year a date can have.
pub const MAX_YEAR: i32 = 262142;

/// A calendar date of the proleptic Gregorian calendar.
#[derive(Clone, Copy, PartialEq, Eq, Structural, Debug)]
pub struct Date {
    pub year: i32,
    pub month: u32,
    pub day: u32,
}

/// Whether a year has a 29th of February.
pub open spec fn is_leap_year(y: int) -> bool {
    (y % 4 == 0 && y % 100 != 0) || y % 400 == 0
}

/// The number of days of a month of a year.
pub open spec fn days_in_month(y: int, m: int) -> int {
    if m == 2 {
        if is_leap_year(y) { 29 } else { 28 }
    } else if m == 4 || m == 6 || m == 9 || m == 11 {
        30
    } else {
        31
    }
}

/// Whether a year, month and day name a date that exists and lies in the supported range.
pub open spec fn valid_ymd(y: int, m: int, d: int) -> bool {
    &&& MIN_YEAR <= y <= MAX_YEAR
    &&& 1 <= m <= 12
    &&& 1 <= d <= days_in_month(y, m)
}

impl Date {
    pub open spec fn valid(self) -> bool {
        valid_ymd(self.year as int, self.month as int, self.day as int)
    }
}

/// A day of the week.
#[derive(Clone, Copy, PartialEq, Eq, Structural, Debug)]
pub enum Weekday {
    Mon,
    Tue,
    Wed,
    Thu,
    Fri,
    Sat,
    Sun,
}

/// The number of days a weekday comes after Monday.
pub open spec fn weekday_index(w: Weekday) -> int {
    match w {
        Weekday::Mon => 0,
        Weekday::Tue => 1,
        Weekday::Wed => 2,
        Weekday::Thu => 3,
        Weekday::Fri => 4,
        Weekday::Sat => 5,
        Weekday::Sun => 6,
    }
}

/// The weekday of a date, counted in days after Monday, as the date library computes it.
pub uninterp spec fn chrono_weekday(y: i32, m: u32, d: u32) -> int;

/// The number of days from the second date to the first, as the date library computes it.
pub uninterp spec fn chrono_days_between(y1: i32, m1: u32, d1: u32, y2: i32, m2: u32, d2: u32) -> int;

/// The date a number of days after a date, as the date library computes it; `None`
/// when it falls outside the supported range.
pub uninterp spec fn chrono_add_days(y: i32, m: u32, d: u32, days: i64) -> Option<(i32, u32, u32)>;

/// Whether the date library accepts a year, month and day: `NaiveDate::from_ymd_opt`
/// returns a date exactly when the day exists in the proleptic Gregorian calendar and
/// the year lies between -262143 and 262142.
#[verifier::external_body]
fn ymd_exists(y: i32, m: u32, d: u32) -> (r: bool)
    ensures
        r == valid_ymd(y as int, m as int, d as int),
{
    chrono::NaiveDate::from_ymd_opt(y, m, d).is_some()
}

/// The weekday of a valid date, from `Datelike::weekday` and
/// `Weekday::num_days_from_monday`: a number below 7, named `chrono_weekday`.
#[verifier::external_body]
fn weekday_of(date: Date) -> (r: u32)
    requires
        date.valid(),
    ensures
        r as int == chrono_weekday(date.year, date.month, date.day),
        r < 7,
{
    match chrono::NaiveDate::from_ymd_opt(date.year, date.month, date.day) {
        Some(d) => d.weekday().num_days_from_monday(),
        None => 0,
    }
}

/// The number of days from `b` to `a`, from `NaiveDate::signed_duration_since` and
/// `TimeDelta::num_days`, named `chrono_days_between`.
#[verifier::external_body]
fn days_between(a: Date, b: Date) -> (r: i64)
    requires
        a.valid(),
        b.valid(),
    ensures
        r as int == chrono_days_between(a.year, a.month, a.day, b.year, b.month, b.day),
{
    match (chrono::NaiveDate::from_ymd_opt(a.year, a.month, a.day), chrono::NaiveDate::from_ymd_opt(b.year, b.month, b.day)) {
        (Some(x), Some(y)) => x.signed_duration_since(y).num_days(),
        _ => 0,
    }
}

/// The date `days` days after a valid date, from `NaiveDate::checked_add_signed` with
/// `TimeDelta::try_days`, named `chrono_add_days`; every date it returns is valid.
/// When it returns `None` nothing is stated of why.
#[verifier::external_body]
fn add_days(date: Date, days: i64) -> (r: Option<Date>)
    requires
        date.valid(),
    ensures
        r matches Some(x) ==> x.valid() && chrono_add_days(date.year, date.month, date.day, days) == Some((x.year, x.month, x.day)),
        r is None ==> chrono_add_days(date.year, date.month, date.day, days) is None,
{
    let start = match chrono::NaiveDate::from_ymd_opt(date.year, date.month, date.day) {
        Some(d) => d,
        None => return None,
    };
    match chrono::TimeDelta::try_days(days).and_then(|delta| start.checked_add_signed(delta)) {
        Some(d) => Some(Date { year: d.year(), month: d.month(), day: d.day() }),
        None => None,
    }
}

/// The weekday `index` days after Monday, counted modulo 7.
pub open spec fn spec_weekday_from_monday_index(index: int) -> Weekday {
    let r = index % 7;
    if r == 0 { Weekday::Mon }
    else if r == 1 { Weekday::Tue }
    else if r == 2 { Weekday::Wed }
    else if r == 3 { Weekday::Thu }
    else if r == 4 { Weekday::Fri }
    else if r == 5 { Weekday::Sat }
    else { Weekday::Sun }
}

/// The year and month `delta` months after a year and month.
pub open spec fn shifted_month(year: int, month: int, delta: int) -> (int, int) {
    let total = year * 12 + (month - 1) + delta;
    (total / 12, total % 12 + 1)
}

/// The month before or after a year and month, when `delta` is -1 or 1.
pub open spec fn neighbour_month(year: int, month: int, delta: int) -> (int, int) {
    let m = month + delta;
    if m < 1 { (year - 1, m + 12) } else if m > 12 { (year + 1, m - 12) } else { (year, m) }
}

/// The weekday of the first of a month.
pub open spec fn first_weekday(year: i32, month: u32) -> int {
    chrono_weekday(year, month, 1)
}

/// The length of a month as the date library counts it: the days from its first
/// day to the first day of the next month.
pub open spec fn month_length(year: i32, month: u32) -> int {
    if month == 12 {
        chrono_days_between((year + 1) as i32, 1, 1, year, month, 1)
    } else {
        chrono_days_between(year, (month + 1) as u32, 1, year, month, 1)
    }
}

/// The column of the first day of a month in a week that starts on `week_start`.
pub open spec fn first_column(first_day: int, week_start: int) -> int {
    (7 + first_day - week_start) % 7
}

/// The day number shown in the grid cell at row `y`, column `x`, and whether it
/// belongs to a neighbouring month.
pub open spec fn cell_day(y: int, x: int, column: int, prev_len: int, this_len: int) -> (int, bool) {
    if y == 0 {
        if x < column { (prev_len - (column - x - 1), true) } else { (x - column + 1, false) }
    } else {
        let n = y * 7 + x - column + 1;
        if n > this_len { (n - this_len, true) } else { (n, false) }
    }
}

impl Weekday {
    /// The number of days this weekday comes after Monday.
    pub fn num_days_from_monday(&self) -> (r: u32)
        ensures
            r as int == weekday_index(*self),
    {
        match self {
            Weekday::Mon => 0,
            Weekday::Tue => 1,
            Weekday::Wed => 2,
            Weekday::Thu => 3,
            Weekday::Fri => 4,
            Weekday::Sat => 5,
            Weekday::Sun => 6,
        }
    }
}

/// The weekday `index` days after Monday.
pub fn weekday_from_monday_index(index: u32) -> (w: Weekday)
    ensures
        w == spec_weekday_from_monday_index(index as int),
        weekday_index(w) == index as int % 7,
{
    match index % 7 {
        0 => Weekday::Mon,
        1 => Weekday::Tue,
        2 => Weekday::Wed,
        3 => Weekday::Thu,
        4 => Weekday::Fri,
        5 => Weekday::Sat,
        _ => Weekday::Sun,
    }
}

/// The column, in a week starting on `week_starts_on`, of a day falling on `first_day`.
pub fn first_day_column(first_day: Weekday, week_starts_on: Weekday) -> (c: u32)
    ensures
        c as int == first_column(weekday_index(first_day), weekday_index(week_starts_on)),
        c < 7,
{
    let first = first_day.num_days_from_monday() as i32;
    let start = week_starts_on.num_days_from_monday() as i32;
    ((7 + first - start) % 7) as u32
}

/// Whether a year, month and day name a date the calendar can show.
pub fn is_valid_date(year: i32, month: u32, day: u32) -> (r: bool)
    ensures
        r == valid_ymd(year as int, month as int, day as int),
{
    ymd_exists(year, month, day)
}

/// The year and month `delta` months after `year` and `month`, the month counted from
/// 1 for January (a month past 12 carries into later years); defined where the
/// arithmetic stays within `i32`.
pub fn shift_year_month(year: i32, month: u32, delta: i32) -> (r: (i32, u32))
    requires
        month <= i32::MAX,
        i32::MIN <= month + delta <= i32::MAX,
        i32::MIN <= shifted_month(year as int, month as int, delta as int).0 <= i32::MAX,
    ensures
        (r.0 as int, r.1 as int) == shifted_month(year as int, month as int, delta as int),
        1 <= r.1 <= 12,
{
    let ghost t: int = year as int * 12 + (month as int - 1) + delta as int;
    let ghost fy: int = t / 12;
    assert(fy * 12 <= t < fy * 12 + 12);
    let m0 = month as i32 + delta;
    let mut y = year;
    let mut m = m0;
    while m < 1
        invariant
            y <= year,
            y as int * 12 + m - 1 == t,
            m0 <= m,
            m0 < 1 ==> m <= 12 && fy <= y,
            m0 >= 1 ==> m == m0 && y == year,
            fy * 12 <= t < fy * 12 + 12,
            i32::MIN <= fy <= i32::MAX,
        decreases 12 - m,
    {
        y = y - 1;
        m = m + 12;
    }
    while m > 12
        invariant
            1 <= m,
            m <= 12 || m <= m0,
            y as int * 12 + m - 1 == t,
            y <= fy,
            fy * 12 <= t < fy * 12 + 12,
            i32::MIN <= fy <= i32::MAX,
        decreases m,
    {
        y = y + 1;
        m = m - 12;
    }
    proof {
        assert(y == fy);
        assert(t % 12 == m - 1);
    }
    (y, m as u32)
}

/// The number of days of a month, when its first day and the first day of the next
/// month exist.
pub fn last_day_of_month(year: i32, month: u32) -> (r: Option<u32>)
    requires
        1 <= month < u32::MAX,
        month == 12 ==> year < i32::MAX,
        (if month == 12 { valid_ymd(year + 1, 1, 1) } else { valid_ymd(year as int, month + 1, 1) })
            ==> valid_ymd(year as int, month as int, 1),
    ensures
        r matches Some(n) ==> n as int == month_length(year, month),
        r is Some <== (if month == 12 { valid_ymd(year + 1, 1, 1) } else { valid_ymd(year as int, month + 1, 1) })
            && 0 <= month_length(year, month) <= u32::MAX,
        r is Some ==> (if month == 12 { valid_ymd(year + 1, 1, 1) } else { valid_ymd(year as int, month + 1, 1) }),
{
    let next = if month == 12 { Date { year: year + 1, month: 1, day: 1 } } else { Date { year, month: month + 1, day: 1 } };
    if !ymd_exists(next.year, next.month, next.day) {
        return None;
    }
    let first = Date { year, month, day: 1 };
    assert(first.valid());
    let n = days_between(next, first);
    if n < 0 || n > u32::MAX as i64 {
        return None;
    }
    Some(n as u32)
}

/// The cell index of row `y`, column `x` of the day grid.
pub fn day_cell_index(y: usize, x: usize) -> (i: usize)
    requires
        y * 7 + x <= usize::MAX,
    ensures
        i == y * 7 + x,
{
    y * 7 + x
}

/// The date `set_view_date` moves to: the given day of the given month, brought down
/// to the month's last day; `None` when the month, its first day or the first day of
/// the next month lies outside the supported range.
pub open spec fn view_date_target(y: int, m: int, day: int) -> Option<Date> {
    if !(MIN_YEAR <= y <= MAX_YEAR && 1 <= m <= 12) {
        None
    } else if !(if m == 12 { valid_ymd(y + 1, 1, 1) } else { valid_ymd(y, m + 1, 1) }) {
        None
    } else {
        let len = month_length(y as i32, m as u32);
        if !(0 <= len <= u32::MAX) {
            None
        } else {
            let d = if day < len { day } else { len };
            if valid_ymd(y, m, d) { Some(Date { year: y as i32, month: m as u32, day: d as u32 }) } else { None }
        }
    }
}

/// The date a number of days after `d`, when it lies in the supported range.
pub open spec fn days_later(d: Date, delta: int) -> Option<Date> {
    if i64::MIN <= delta <= i64::MAX {
        match chrono_add_days(d.year, d.month, d.day, delta as i64) {
            Some((y, m, dd)) => Some(Date { year: y, month: m, day: dd }),
            None => None,
        }
    } else {
        None
    }
}

/// The date a number of months after `d`, the day brought down to the month's last day.
pub open spec fn months_later(d: Date, delta: int) -> Option<Date> {
    let (y, m) = shifted_month(d.year as int, d.month as int, delta);
    view_date_target(y, m, d.day as int)
}

/// The date a number of years after `d`, the day brought down to the month's last day.
pub open spec fn years_later(d: Date, delta: int) -> Option<Date> {
    view_date_target(d.year + delta, d.month as int, d.day as int)
}

/// How far a date lies after the start of its week.
pub open spec fn offset_in_week(d: Date, week_start: Weekday) -> int {
    (7 + chrono_weekday(d.year, d.month, d.day) - weekday_index(week_start)) % 7
}

/// Requests handled by a calendar.
#[derive(Debug)]
pub enum CalendarEvent {
    IncrementMonth,
    DecrementMonth,
    SelectMonth(usize),
    IncrementYear,
    DecrementYear,
    SelectYear(i32),
    MoveFocusDays(i64),
    MoveFocusLeft,
    MoveFocusRight,
    MoveFocusWeeks(i64),
    MoveFocusWeekStart,
    MoveFocusWeekEnd,
    MoveFocusMonth(i32),
    MoveFocusYear(i32),
    ActivateFocusedDate,
    /// A day cell at a row and column was built as an entity.
    RegisterDayCell(usize, usize, usize),
    /// Show the keyboard help, with its localized text.
    AnnounceKeyboardHelp(String),
    /// The locale changed; carries the first day of the week it uses.
    RefreshLocalization(Weekday),
    SelectDate(Date),
}

/// What a calendar asks of its surroundings after an event.
#[derive(Clone, Copy, PartialEq, Eq, Structural, Debug)]
pub enum CalendarAction {
    /// Focus an entity, with or without a visible focus ring.
    Focus(usize, bool),
    /// Run the selection callback with a date.
    OnSelect(Date),
}

/// A month calendar.
pub struct Calendar {
    /// The month shown (its day is not used for display).
    pub view_date: Date,
    /// The day with keyboard focus.
    pub focused_date: Date,
    pub week_starts_on: Weekday,
    pub keyboard_help: String,
    pub keyboard_help_announced: bool,
    /// The entities of the 42 day cells, once built.
    pub day_cells: Vec<Option<usize>>,
    pub has_on_select: bool,
}

impl Calendar {
    /// Both dates exist and there are 42 day cells.
    pub open spec fn wf(&self) -> bool {
        &&& self.view_date.valid()
        &&& self.focused_date.valid()
        &&& self.day_cells@.len() == 42
    }

    /// The grid cell of the focused day, when the focused day lies in the month shown.
    pub open spec fn spec_focused_cell(&self) -> Option<int> {
        if self.focused_date.year != self.view_date.year || self.focused_date.month != self.view_date.month {
            None
        } else {
            Some(first_column(first_weekday(self.view_date.year, self.view_date.month), weekday_index(self.week_starts_on))
                + self.focused_date.day - 1)
        }
    }

    /// Focusing the focused day: its cell's entity, when the day is shown and the cell built.
    pub open spec fn focus_action(&self, visible: bool) -> Seq<CalendarAction> {
        match self.spec_focused_cell() {
            Some(i) => if 0 <= i < self.day_cells@.len() {
                match self.day_cells@[i] {
                    Some(e) => seq![CalendarAction::Focus(e, visible)],
                    None => Seq::empty(),
                }
            } else {
                Seq::empty()
            },
            None => Seq::empty(),
        }
    }

    /// A calendar showing the month of `date`, with `date` focused.
    pub fn new(date: Date, week_starts_on: Weekday) -> (c: Option<Calendar>)
        ensures
            c is Some <==> date.valid(),
            c matches Some(c) ==> {
                &&& c.wf()
                &&& c.view_date == Date { year: date.year, month: date.month, day: 1 }
                &&& c.focused_date == date
                &&& c.week_starts_on == week_starts_on
                &&& c.keyboard_help@ == Seq::<char>::empty()
                &&& !c.keyboard_help_announced
                &&& c.day_cells@ == Seq::new(42, |i: int| None::<usize>)
                &&& !c.has_on_select
            },
    {
        if !ymd_exists(date.year, date.month, date.day) {
            return None;
        }
        let mut cells: Vec<Option<usize>> = Vec::new();
        let mut i: usize = 0;
        while i < 42
            invariant
                0 <= i <= 42,
                cells@ == Seq::new(i as nat, |k: int| None::<usize>),
            decreases 42 - i,
        {
            cells.push(None);
            assert(cells@ =~= Seq::new((i + 1) as nat, |k: int| None::<usize>));
            i = i + 1;
        }
        Some(Calendar {
            view_date: Date { year: date.year, month: date.month, day: 1 },
            focused_date: date,
            week_starts_on,
            keyboard_help: String::new(),
            keyboard_help_announced: false,
            day_cells: cells,
            has_on_select: false,
        })
    }

    /// Attaches the callback that runs when a date is selected.
    pub fn on_select(&mut self)
        ensures
            final(self).has_on_select,
            final(self).view_date == old(self).view_date,
            final(self).focused_date == old(self).focused_date,
            final(self).week_starts_on == old(self).week_starts_on,
            final(self).day_cells@ == old(self).day_cells@,
    {
        self.has_on_select = true;
    }

    /// Shows the month of the given day and focuses that day, brought down to the
    /// month's last day; returns whether the date exists. When it does not, nothing changes.
    pub fn set_view_date(&mut self, year: i32, month: u32, day: u32) -> (moved: bool)
        requires
            old(self).wf(),
        ensures
            final(self).wf(),
            moved == view_date_target(year as int, month as int, day as int) is Some,
            view_date_target(year as int, month as int, day as int) matches Some(d) ==>
                final(self).view_date == d && final(self).focused_date == d,
            view_date_target(year as int, month as int, day as int) is None ==>
                final(self).view_date == old(self).view_date && final(self).focused_date == old(self).focused_date,
            final(self).week_starts_on == old(self).week_starts_on,
            final(self).day_cells@ == old(self).day_cells@,
            final(self).has_on_select == old(self).has_on_select,
            final(self).keyboard_help@ == old(self).keyboard_help@,
            final(self).keyboard_help_announced == old(self).keyboard_help_announced,
    {
        if year < MIN_YEAR || year > MAX_YEAR || month < 1 || month > 12 {
            return false;
        }
        let last = match last_day_of_month(year, month) {
            Some(n) => n,
            None => return false,
        };
        let clamped_day = if day < last { day } else { last };
        if !ymd_exists(year, month, clamped_day) {
            return false;
        }
        let date = Date { year, month, day: clamped_day };
        self.view_date = date;
        self.focused_date = date;
        true
    }

    /// Moves the focused day, and the month shown with it, by a number of days; returns
    /// whether the new day lies in the supported range. When it does not, nothing changes.
    pub fn move_focused_by_days(&mut self, delta_days: i64) -> (moved: bool)
        requires
            old(self).wf(),
        ensures
            final(self).wf(),
            moved == days_later(old(self).focused_date, delta_days as int) is Some,
            days_later(old(self).focused_date, delta_days as int) matches Some(d) ==>
                final(self).view_date == d && final(self).focused_date == d,
            !moved ==> final(self).view_date == old(self).view_date && final(self).focused_date == old(self).focused_date,
            final(self).week_starts_on == old(self).week_starts_on,
            final(self).day_cells@ == old(self).day_cells@,
            final(self).has_on_select == old(self).has_on_select,
            final(self).keyboard_help@ == old(self).keyboard_help@,
            final(self).keyboard_help_announced == old(self).keyboard_help_announced,
    {
        match add_days(self.focused_date, delta_days) {
            Some(next) => {
                self.view_date = next;
                self.focused_date = next;
                true
            }
            None => false,
        }
    }

    /// Moves the focused day by a number of months, keeping its day where the month has it.
    pub fn move_focused_by_months(&mut self, delta_months: i32) -> (moved: bool)
        requires
            old(self).wf(),
        ensures
            final(self).wf(),
            moved == months_later(old(self).focused_date, delta_months as int) is Some,
            months_later(old(self).focused_date, delta_months as int) matches Some(d) ==>
                final(self).view_date == d && final(self).focused_date == d,
            !moved ==> final(self).view_date == old(self).view_date && final(self).focused_date == old(self).focused_date,
            final(self).week_starts_on == old(self).week_starts_on,
            final(self).day_cells@ == old(self).day_cells@,
            final(self).has_on_select == old(self).has_on_select,
            final(self).keyboard_help@ == old(self).keyboard_help@,
            final(self).keyboard_help_announced == old(self).keyboard_help_announced,
    {
        let focused = self.focused_date;
        proof {
            let t: int = focused.year as int * 12 + (focused.month as int - 1) + delta_months as int;
            assert(t / 12 * 12 <= t < t / 12 * 12 + 12);
        }
        if delta_months < -7200000 || delta_months > 7200000 {
            // Seven million months move any supported date out of the supported years.
            return false;
        }
        let (year, month) = shift_year_month(focused.year, focused.month, delta_months);
        self.set_view_date(year, month, focused.day)
    }

    /// Moves the focused day by a number of years, keeping its month and day where it can.
    pub fn move_focused_by_years(&mut self, delta_years: i32) -> (moved: bool)
        requires
            old(self).wf(),
        ensures
            final(self).wf(),
            moved == years_later(old(self).focused_date, delta_years as int) is Some,
            years_later(old(self).focused_date, delta_years as int) matches Some(d) ==>
                final(self).view_date == d && final(self).focused_date == d,
            !moved ==> final(self).view_date == old(self).view_date && final(self).focused_date == old(self).focused_date,
            final(self).week_starts_on == old(self).week_starts_on,
            final(self).day_cells@ == old(self).day_cells@,
            final(self).has_on_select == old(self).has_on_select,
            final(self).keyboard_help@ == old(self).keyboard_help@,
            final(self).keyboard_help_announced == old(self).keyboard_help_announced,
    {
        let focused = self.focused_date;
        if delta_years < -1000000 || delta_years > 1000000 {
            // A million years move any supported date out of the supported years.
            return false;
        }
        let year = focused.year + delta_years;
        self.set_view_date(year, focused.month, focused.day)
    }

    /// The grid cell of the focused day, when it lies in the month shown.
    pub fn focused_day_cell_index(&self) -> (r: Option<usize>)
        requires
            self.wf(),
        ensures
            r matches Some(i) ==> self.spec_focused_cell() == Some(i as int),
            r is None ==> self.spec_focused_cell() is None,
    {
        let focused = self.focused_date;
        let view = self.view_date;
        if focused.year != view.year || focused.month != view.month {
            return None;
        }
        let first_day = weekday_from_monday_index(weekday_of(Date { year: view.year, month: view.month, day: 1 }));
        let col = first_day_column(first_day, self.week_starts_on);
        proof {
            assert(weekday_index(first_day) == first_weekday(view.year, view.month));
        }
        Some(col as usize + focused.day as usize - 1)
    }

    /// Focuses the cell of the focused day.
    fn focus_focused_day(&self, visible: bool, actions: &mut Vec<CalendarAction>)
        requires
            self.wf(),
        ensures
            final(actions)@ == old(actions)@ + self.focus_action(visible),
    {
        if let Some(i) = self.focused_day_cell_index() {
            if i < self.day_cells.len() {
                if let Some(e) = self.day_cells[i] {
                    actions.push(CalendarAction::Focus(e, visible));
                    return;
                }
            }
        }
        assert(old(actions)@ + self.focus_action(visible) =~= old(actions)@);
    }
}

impl Calendar {
    /// Handles a calendar event. `focus_on_day` tells whether keyboard focus is on one of
    /// the day cells, `right_to_left` whether the text direction runs right to left.
    /// Moves that would leave the supported range of dates change nothing.
    pub fn event(&mut self, event: CalendarEvent, focus_on_day: bool, right_to_left: bool) -> (actions: Vec<CalendarAction>)
        requires
            old(self).wf(),
        ensures
            final(self).wf(),
            final(self).has_on_select == old(self).has_on_select,
            final(self).day_cells@.len() == 42,
            match event {
                CalendarEvent::IncrementMonth => moved_to(old(self), final(self), months_later(old(self).focused_date, 1)) && actions@ == Seq::<CalendarAction>::empty(),
                CalendarEvent::DecrementMonth => moved_to(old(self), final(self), months_later(old(self).focused_date, -1)) && actions@ == Seq::<CalendarAction>::empty(),
                CalendarEvent::SelectMonth(m) => moved_to(old(self), final(self),
                    view_date_target(old(self).focused_date.year as int, m + 1, old(self).focused_date.day as int)) && actions@ == Seq::<CalendarAction>::empty(),
                CalendarEvent::IncrementYear => moved_to(old(self), final(self), years_later(old(self).focused_date, 1)) && actions@ == Seq::<CalendarAction>::empty(),
                CalendarEvent::DecrementYear => moved_to(old(self), final(self), years_later(old(self).focused_date, -1)) && actions@ == Seq::<CalendarAction>::empty(),
                CalendarEvent::SelectYear(y) => moved_to(old(self), final(self),
                    view_date_target(y as int, old(self).focused_date.month as int, old(self).focused_date.day as int)) && actions@ == Seq::<CalendarAction>::empty(),
                CalendarEvent::MoveFocusDays(d) => focus_moved(old(self), final(self), focus_on_day, days_later(old(self).focused_date, d as int), actions@),
                CalendarEvent::MoveFocusLeft => focus_moved(old(self), final(self), focus_on_day,
                    days_later(old(self).focused_date, if right_to_left { 1 } else { -1 }), actions@),
                CalendarEvent::MoveFocusRight => focus_moved(old(self), final(self), focus_on_day,
                    days_later(old(self).focused_date, if right_to_left { -1 } else { 1 }), actions@),
                CalendarEvent::MoveFocusWeeks(w) => focus_moved(old(self), final(self), focus_on_day, days_later(old(self).focused_date, w * 7), actions@),
                CalendarEvent::MoveFocusWeekStart => focus_moved(old(self), final(self), focus_on_day,
                    days_later(old(self).focused_date, -offset_in_week(old(self).focused_date, old(self).week_starts_on)), actions@),
                CalendarEvent::MoveFocusWeekEnd => focus_moved(old(self), final(self), focus_on_day,
                    days_later(old(self).focused_date, 6 - offset_in_week(old(self).focused_date, old(self).week_starts_on)), actions@),
                CalendarEvent::MoveFocusMonth(d) => focus_moved(old(self), final(self), focus_on_day, months_later(old(self).focused_date, d as int), actions@),
                CalendarEvent::MoveFocusYear(d) => focus_moved(old(self), final(self), focus_on_day, years_later(old(self).focused_date, d as int), actions@),
                CalendarEvent::ActivateFocusedDate => {
                    &&& unchanged_dates(old(self), final(self))
                    &&& actions@ == if focus_on_day && old(self).has_on_select
                            && old(self).focused_date.month == old(self).view_date.month
                            && old(self).focused_date.year == old(self).view_date.year {
                            seq![CalendarAction::OnSelect(old(self).focused_date)]
                        } else {
                            Seq::empty()
                        }
                },
                CalendarEvent::RegisterDayCell(y, x, e) => {
                    &&& unchanged_dates(old(self), final(self))
                    &&& final(self).day_cells@ == if y * 7 + x < 42 { old(self).day_cells@.update(y * 7 + x, Some(e)) } else { old(self).day_cells@ }
                    &&& actions@ == Seq::<CalendarAction>::empty()
                },
                CalendarEvent::AnnounceKeyboardHelp(text) => {
                    &&& unchanged_dates(old(self), final(self))
                    &&& final(self).keyboard_help_announced
                    &&& final(self).keyboard_help@ == if old(self).keyboard_help_announced { old(self).keyboard_help@ } else { text@ }
                    &&& actions@ == Seq::<CalendarAction>::empty()
                },
                CalendarEvent::RefreshLocalization(w) => {
                    &&& final(self).view_date == old(self).view_date
                    &&& final(self).focused_date == old(self).focused_date
                    &&& final(self).week_starts_on == w
                    &&& final(self).keyboard_help@ == Seq::<char>::empty()
                    &&& !final(self).keyboard_help_announced
                    &&& actions@ == Seq::<CalendarAction>::empty()
                },
                CalendarEvent::SelectDate(d) => if d.valid() {
                    &&& final(self).view_date == d
                    &&& final(self).focused_date == d
                    &&& final(self).week_starts_on == old(self).week_starts_on
                    &&& final(self).day_cells@ == old(self).day_cells@
                    &&& actions@ == final(self).focus_action(false)
                        + if old(self).has_on_select { seq![CalendarAction::OnSelect(d)] } else { Seq::empty() }
                } else {
                    unchanged_dates(old(self), final(self)) && actions@ == Seq::<CalendarAction>::empty()
                },
            },
    {
        let mut actions: Vec<CalendarAction> = Vec::new();
        match event {
            CalendarEvent::IncrementMonth => {
                self.move_focused_by_months(1);
            }
            CalendarEvent::DecrementMonth => {
                self.move_focused_by_months(-1);
            }
            CalendarEvent::SelectMonth(month) => {
                let focused = self.focused_date;
                if month < 12 {
                    self.set_view_date(focused.year, month as u32 + 1, focused.day);
                }
            }
            CalendarEvent::IncrementYear => {
                self.move_focused_by_years(1);
            }
            CalendarEvent::DecrementYear => {
                self.move_focused_by_years(-1);
            }
            CalendarEvent::SelectYear(year) => {
                let focused = self.focused_date;
                self.set_view_date(year, focused.month, focused.day);
            }
            CalendarEvent::MoveFocusDays(delta) => {
                if focus_on_day {
                    self.move_focused_by_days(delta);
                    self.focus_focused_day(true, &mut actions);
                }
            }
            CalendarEvent::MoveFocusLeft => {
                if focus_on_day {
                    let delta: i64 = if right_to_left { 1 } else { -1 };
                    self.move_focused_by_days(delta);
                    self.focus_focused_day(true, &mut actions);
                }
            }
            CalendarEvent::MoveFocusRight => {
                if focus_on_day {
                    let delta: i64 = if right_to_left { -1 } else { 1 };
                    self.move_focused_by_days(delta);
                    self.focus_focused_day(true, &mut actions);
                }
            }
            CalendarEvent::MoveFocusWeeks(weeks) => {
                if focus_on_day {
                    if let Some(delta) = weeks.checked_mul(7) {
                        self.move_focused_by_days(delta);
                    }
                    self.focus_focused_day(true, &mut actions);
                }
            }
            CalendarEvent::MoveFocusWeekStart => {
                if focus_on_day {
                    let wd = weekday_of(self.focused_date) as i64;
                    let start = self.week_starts_on.num_days_from_monday() as i64;
                    let offset = (7 + wd - start) % 7;
                    self.move_focused_by_days(-offset);
                    self.focus_focused_day(true, &mut actions);
                }
            }
            CalendarEvent::MoveFocusWeekEnd => {
                if focus_on_day {
                    let wd = weekday_of(self.focused_date) as i64;
                    let start = self.week_starts_on.num_days_from_monday() as i64;
                    let offset = 6 - (7 + wd - start) % 7;
                    self.move_focused_by_days(offset);
                    self.focus_focused_day(true, &mut actions);
                }
            }
            CalendarEvent::MoveFocusMonth(delta) => {
                if focus_on_day {
                    self.move_focused_by_months(delta);
                    self.focus_focused_day(true, &mut actions);
                }
            }
            CalendarEvent::MoveFocusYear(delta) => {
                if focus_on_day {
                    self.move_focused_by_years(delta);
                    self.focus_focused_day(true, &mut actions);
                }
            }
            CalendarEvent::ActivateFocusedDate => {
                if focus_on_day {
                    let focused = self.focused_date;
                    if focused.month == self.view_date.month && focused.year == self.view_date.year && self.has_on_select {
                        actions.push(CalendarAction::OnSelect(focused));
                    }
                }
            }
            CalendarEvent::RegisterDayCell(y, x, entity) => {
                if y < 42 && x < 42 {
                    let index = day_cell_index(y, x);
                    if index < self.day_cells.len() {
                        self.day_cells.set(index, Some(entity));
                    }
                }
            }
            CalendarEvent::AnnounceKeyboardHelp(text) => {
                if !self.keyboard_help_announced {
                    self.keyboard_help = text;
                    self.keyboard_help_announced = true;
                }
            }
            CalendarEvent::RefreshLocalization(week_start) => {
                self.week_starts_on = week_start;
                self.keyboard_help = String::new();
                self.keyboard_help_announced = false;
            }
            CalendarEvent::SelectDate(date) => {
                if is_valid_date(date.year, date.month, date.day) {
                    self.focused_date = date;
                    self.view_date = date;
                    self.focus_focused_day(false, &mut actions);
                    if self.has_on_select {
                        actions.push(CalendarAction::OnSelect(date));
                    }
                }
            }
        }
        actions
    }
}

/// The dates and settings of a calendar stay as they were.
pub open spec fn unchanged_dates(a: &Calendar, b: &Calendar) -> bool {
    &&& b.view_date == a.view_date
    &&& b.focused_date == a.focused_date
    &&& b.week_starts_on == a.week_starts_on
}

/// The focused day and the month shown move to `target` when it exists, and stay otherwise.
pub open spec fn moved_to(a: &Calendar, b: &Calendar, target: Option<Date>) -> bool {
    &&& b.week_starts_on == a.week_starts_on
    &&& b.day_cells@ == a.day_cells@
    &&& match target {
        Some(d) => b.view_date == d && b.focused_date == d,
        None => b.view_date == a.view_date && b.focused_date == a.focused_date,
    }
}

/// With focus on a day cell, the focused day moves to `target` and the new focused day's
/// cell receives focus with a visible focus ring; otherwise nothing happens.
pub open spec fn focus_moved(a: &Calendar, b: &Calendar, focus_on_day: bool, target: Option<Date>, actions: Seq<CalendarAction>) -> bool {
    if focus_on_day {
        moved_to(a, b, target) && actions == b.focus_action(true)
    } else {
        unchanged_dates(a, b) && b.day_cells@ == a.day_cells@ && actions == Seq::<CalendarAction>::empty()
    }
}

/// The weekday of the first day and the length of the month `offset` months (-1, 0 or 1)
/// after the month of `view_date`, when both can be determined.
pub open spec fn month_info(view_date: Date, offset: int) -> Option<(int, int)> {
    let (y, m) = neighbour_month(view_date.year as int, view_date.month as int, offset);
    if !(MIN_YEAR <= y <= MAX_YEAR && 1 <= m <= 12) {
        None
    } else if !(if m == 12 { valid_ymd(y + 1, 1, 1) } else { valid_ymd(y, m + 1, 1) }) {
        None
    } else if !(0 <= month_length(y as i32, m as u32) <= u32::MAX) {
        None
    } else {
        Some((first_weekday(y as i32, m as u32), month_length(y as i32, m as u32)))
    }
}

/// The weekday of the first day and the number of days of the month `month_offset`
/// months (-1, 0 or 1) after the month of `view_date`.
pub fn view_month_info(view_date: Date, month_offset: i32) -> (r: Option<(Weekday, u32)>)
    requires
        view_date.valid(),
        -1 <= month_offset <= 1,
    ensures
        r is Some <==> month_info(view_date, month_offset as int) is Some,
        r matches Some((w, n)) ==> month_info(view_date, month_offset as int) == Some((weekday_index(w), n as int)),
{
    let mut year = view_date.year;
    let mut month = view_date.month as i32 + month_offset;
    if month < 1 {
        year = year - 1;
        month = month + 12;
    } else if month > 12 {
        year = year + 1;
        month = month - 12;
    }
    if year < MIN_YEAR || year > MAX_YEAR {
        return None;
    }
    let month = month as u32;
    let days = match last_day_of_month(year, month) {
        Some(n) => n,
        None => return None,
    };
    let first = weekday_from_monday_index(weekday_of(Date { year, month, day: 1 }));
    Some((first, days))
}

/// The day number shown in the cell at row `y`, column `x` of the grid for the month of
/// `view_date`, and whether it belongs to a neighbouring month.
pub fn get_day_number(y: u32, x: u32, view_date: Date, week_starts_on: Weekday) -> (r: Option<(u32, bool)>)
    requires
        view_date.valid(),
        y < 6,
        x < 7,
    ensures
        r is Some <==> month_info(view_date, -1) is Some && month_info(view_date, 0) is Some
            && cell_fits(y as int, x as int, view_date, week_starts_on),
        r matches Some((d, dis)) ==> {
            let prev = month_info(view_date, -1)->0;
            let this = month_info(view_date, 0)->0;
            (d as int, dis) == cell_day(y as int, x as int, first_column(this.0, weekday_index(week_starts_on)), prev.1, this.1)
        },
{
    let (_, days_prev_month) = match view_month_info(view_date, -1) {
        Some(info) => info,
        None => return None,
    };
    let (first_day_this_month, days_this_month) = match view_month_info(view_date, 0) {
        Some(info) => info,
        None => return None,
    };
    let fdtm_i = first_day_column(first_day_this_month, week_starts_on);
    if y == 0 {
        if x < fdtm_i {
            if days_prev_month < fdtm_i - x - 1 {
                return None;
            }
            Some((days_prev_month - (fdtm_i - x - 1), true))
        } else {
            Some((x - fdtm_i + 1, false))
        }
    } else {
        let day_number = y * 7 + x - fdtm_i + 1;
        if day_number > days_this_month {
            Some((day_number - days_this_month, true))
        } else {
            Some((day_number, false))
        }
    }
}

/// The arithmetic of a cell stays among natural numbers (the month before has at least
/// as many days as the first row shows of it).
pub open spec fn cell_fits(y: int, x: int, view_date: Date, week_starts_on: Weekday) -> bool {
    let prev = month_info(view_date, -1)->0;
    let this = month_info(view_date, 0)->0;
    let column = first_column(this.0, weekday_index(week_starts_on));
    y == 0 && x < column ==> prev.1 >= column - x - 1
}

/// The date shown in a grid cell and whether it belongs to a neighbouring month: the
/// day the grid gives the cell, in the month shown or, for a cell of the month before
/// or after, in that month; none when the grid gives no day or that date does not
/// exist.
pub open spec fn cell_date(y: u32, x: u32, view_date: Date, week_starts_on: Weekday) -> Option<(Date, bool)> {
    match get_day_result(y, x, view_date, week_starts_on) {
        None => None,
        Some((day, dis)) => {
            let (ny, nm) = if dis {
                neighbour_month(view_date.year as int, view_date.month as int, if y == 0 { -1 } else { 1 })
            } else {
                (view_date.year as int, view_date.month as int)
            };
            if valid_ymd(ny, nm, day as int) {
                Some((Date { year: ny as i32, month: nm as u32, day }, dis))
            } else {
                None
            }
        },
    }
}

/// The date shown in a grid cell and whether it belongs to a neighbouring month.
pub fn get_cell_date(y: u32, x: u32, view_date: Date, week_starts_on: Weekday) -> (r: Option<(Date, bool)>)
    requires
        view_date.valid(),
        y < 6,
        x < 7,
    ensures
        r matches Some((d, dis)) ==> d.valid() && get_day_result(y, x, view_date, week_starts_on) == Some((d.day, dis)) && {
            let (ny, nm) = neighbour_month(view_date.year as int, view_date.month as int, if y == 0 { -1 } else { 1 });
            if dis { d.year as int == ny && d.month as int == nm } else { d.year == view_date.year && d.month == view_date.month }
        },
        get_day_result(y, x, view_date, week_starts_on) is None ==> r is None,
        r == cell_date(y, x, view_date, week_starts_on),
{
    let (day_number, disabled) = match get_day_number(y, x, view_date, week_starts_on) {
        Some(r) => r,
        None => return None,
    };
    if !disabled {
        if !is_valid_date(view_date.year, view_date.month, day_number) {
            return None;
        }
        return Some((Date { year: view_date.year, month: view_date.month, day: day_number }, false));
    }
    let delta: i32 = if y == 0 { -1 } else { 1 };
    let (year, month) = shift_year_month(view_date.year, view_date.month, delta);
    proof {
        let total = view_date.year as int * 12 + (view_date.month as int - 1) + delta as int;
        assert((year as int, month as int) == neighbour_month(view_date.year as int, view_date.month as int, delta as int)) by (nonlinear_arith)
            requires
                year as int == total / 12,
                month as int == total % 12 + 1,
                total == view_date.year as int * 12 + (view_date.month as int - 1) + delta as int,
                1 <= view_date.month <= 12,
                delta == -1 || delta == 1;
    }
    if !is_valid_date(year, month, day_number) {
        return None;
    }
    Some((Date { year, month, day: day_number }, true))
}

/// What a day cell of the grid shows and how it behaves.
#[derive(Clone, Copy, PartialEq, Eq, Structural, Debug)]
pub struct CalendarCell {
    /// The date the cell stands for.
    pub date: Date,
    /// Whether it belongs to a neighbouring month: it is then disabled.
    pub disabled: bool,
    /// Whether it is the focused day.
    pub focused: bool,
    /// Whether keyboard navigation reaches it: only the focused day of the month shown.
    pub navigable: bool,
    /// Whether it is the selected date.
    pub selected: bool,
}

impl Calendar {
    /// What the cell at row `y`, column `x` may show while `selected` is the selected
    /// date: nothing when its day cannot be worked out; else a date that exists, with
    /// the day and month membership the grid gives it, focused when it is the focused
    /// date, reachable by keyboard only then and when in the month shown, selected when
    /// it is the selected date in the month shown.
    pub open spec fn cell_ok(&self, y: u32, x: u32, selected: Date, r: Option<CalendarCell>) -> bool {
        &&& get_day_result(y, x, self.view_date, self.week_starts_on) is None ==> r is None
        &&& (r is Some <==> cell_date(y, x, self.view_date, self.week_starts_on) is Some)
        &&& r matches Some(c) ==> {
            &&& cell_date(y, x, self.view_date, self.week_starts_on) == Some((c.date, c.disabled))
            &&& c.date.valid()
            &&& get_day_result(y, x, self.view_date, self.week_starts_on) == Some((c.date.day, c.disabled))
            &&& c.focused == (self.focused_date == c.date)
            &&& c.navigable == (!c.disabled && c.focused)
            &&& c.selected == (!c.disabled && selected == c.date)
        }
    }

    /// The cell at row `y`, column `x` while `selected` is the selected date; `None`
    /// when its date cannot be determined.
    pub fn day_cell(&self, y: u32, x: u32, selected: Date) -> (r: Option<CalendarCell>)
        requires
            self.wf(),
            y < 6,
            x < 7,
        ensures
            self.cell_ok(y, x, selected, r),
    {
        match get_cell_date(y, x, self.view_date, self.week_starts_on) {
            Some((date, disabled)) => {
                let focused = self.focused_date == date;
                Some(CalendarCell {
                    date,
                    disabled,
                    focused,
                    navigable: !disabled && focused,
                    selected: !disabled && selected == date,
                })
            },
            None => None,
        }
    }

    /// The weekday heading column `x` of the grid.
    pub fn column_weekday(&self, x: u32) -> (w: Weekday)
        requires
            x < 7,
        ensures
            w == spec_weekday_from_monday_index(weekday_index(self.week_starts_on) + x),
    {
        weekday_from_monday_index(self.week_starts_on.num_days_from_monday() + x)
    }
}

/// What `get_day_number` returns.
pub open spec fn get_day_result(y: u32, x: u32, view_date: Date, week_starts_on: Weekday) -> Option<(u32, bool)> {
    if month_info(view_date, -1) is Some && month_info(view_date, 0) is Some && cell_fits(y as int, x as int, view_date, week_starts_on) {
        let prev = month_info(view_date, -1)->0;
        let this = month_info(view_date, 0)->0;
        let (d, dis) = cell_day(y as int, x as int, first_column(this.0, weekday_index(week_starts_on)), prev.1, this.1);
        Some((d as u32, dis))
    } else {
        None
    }
}

} // verus!
