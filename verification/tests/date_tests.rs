use vizia_views::calendar::{
    first_day_column, get_cell_date, get_day_number, is_valid_date, last_day_of_month, shift_year_month,
    view_month_info, weekday_from_monday_index, Calendar, Date, Weekday,
};
use vizia_views::datepicker::{DateTime, Datepicker, DatepickerEvent, DatetimePicker, DatetimePickerEvent};
use vizia_views::timepicker::Time;
use vizia_views::ui::{Class, Context, Role, Tag};

fn date(year: i32, month: u32, day: u32) -> Date {
    Date { year, month, day }
}

#[test]
fn valid_dates_follow_the_calendar() {
    assert!(is_valid_date(2024, 2, 29));
    assert!(!is_valid_date(2023, 2, 29));
    assert!(!is_valid_date(1900, 2, 29));
    assert!(is_valid_date(2000, 2, 29));
    assert!(!is_valid_date(2024, 13, 1));
    assert!(!is_valid_date(2024, 4, 31));
    assert!(!is_valid_date(262143, 1, 1));
}

#[test]
fn month_lengths_come_from_the_date_library() {
    assert_eq!(last_day_of_month(2024, 2), Some(29));
    assert_eq!(last_day_of_month(2023, 2), Some(28));
    assert_eq!(last_day_of_month(2024, 12), Some(31));
    assert_eq!(last_day_of_month(2024, 4), Some(30));
}

#[test]
fn shifting_months_crosses_years() {
    assert_eq!(shift_year_month(2024, 12, 1), (2025, 1));
    assert_eq!(shift_year_month(2024, 1, -1), (2023, 12));
    assert_eq!(shift_year_month(2024, 5, -17), (2022, 12));
    assert_eq!(shift_year_month(2024, 5, 0), (2024, 5));
}

#[test]
fn weekdays_and_columns() {
    assert_eq!(weekday_from_monday_index(0), Weekday::Mon);
    assert_eq!(weekday_from_monday_index(6), Weekday::Sun);
    assert_eq!(weekday_from_monday_index(9), Weekday::Wed);
    assert_eq!(first_day_column(Weekday::Thu, Weekday::Mon), 3);
    assert_eq!(first_day_column(Weekday::Thu, Weekday::Sun), 4);
    assert_eq!(first_day_column(Weekday::Mon, Weekday::Tue), 6);
}

#[test]
fn month_info_of_february_2024() {
    // The first of February 2024 was a Thursday.
    assert_eq!(view_month_info(date(2024, 2, 10), 0), Some((Weekday::Thu, 29)));
    assert_eq!(view_month_info(date(2024, 2, 10), -1), Some((Weekday::Mon, 31)));
    assert_eq!(view_month_info(date(2024, 12, 5), 1), Some((Weekday::Wed, 31)));
}

#[test]
fn calendar_grid_cells() {
    let view = date(2024, 2, 1);
    assert_eq!(get_day_number(0, 0, view, Weekday::Mon), Some((29, true)));
    assert_eq!(get_day_number(0, 3, view, Weekday::Mon), Some((1, false)));
    assert_eq!(get_day_number(4, 3, view, Weekday::Mon), Some((29, false)));
    assert_eq!(get_day_number(4, 4, view, Weekday::Mon), Some((1, true)));
    assert_eq!(get_cell_date(0, 0, view, Weekday::Mon), Some((date(2024, 1, 29), true)));
    assert_eq!(get_cell_date(4, 4, view, Weekday::Mon), Some((date(2024, 3, 1), true)));
    assert_eq!(get_cell_date(2, 2, view, Weekday::Mon), Some((date(2024, 2, 14), false)));
}

#[test]
fn calendar_moves_focus() {
    let mut c = Calendar::new(date(2024, 1, 31), Weekday::Mon).unwrap();
    assert!(c.move_focused_by_days(1));
    assert_eq!(c.focused_date, date(2024, 2, 1));
    assert!(c.move_focused_by_months(1));
    assert_eq!(c.focused_date, date(2024, 3, 1));
    assert!(c.move_focused_by_years(-1));
    assert_eq!(c.focused_date, date(2023, 3, 1));
}

#[test]
fn datepicker_shows_first_of_month() {
    let d = Datepicker::new(date(2024, 7, 19));
    assert_eq!(d.view_date, date(2024, 7, 1));
    assert!(!d.has_on_select);
}

#[test]
fn datepicker_moves_by_month_and_year() {
    let mut d = Datepicker::new(date(2024, 12, 3));
    assert_eq!(d.event(DatepickerEvent::IncrementMonth), None);
    assert_eq!(d.view_date, date(2025, 1, 1));
    d.event(DatepickerEvent::DecrementMonth);
    d.event(DatepickerEvent::DecrementMonth);
    assert_eq!(d.view_date, date(2024, 11, 1));
    d.event(DatepickerEvent::SelectMonth(2));
    assert_eq!(d.view_date, date(2024, 3, 1));
    d.event(DatepickerEvent::IncrementYear);
    assert_eq!(d.view_date, date(2025, 3, 1));
    d.event(DatepickerEvent::DecrementYear);
    d.event(DatepickerEvent::DecrementYear);
    assert_eq!(d.view_date, date(2023, 3, 1));
}

#[test]
fn datepicker_reads_typed_years() {
    let mut d = Datepicker::new(date(2024, 6, 1));
    d.event(DatepickerEvent::SelectYear(String::from("1999")));
    assert_eq!(d.view_date, date(1999, 6, 1));
    d.event(DatepickerEvent::SelectYear(String::from("+7")));
    assert_eq!(d.view_date, date(7, 6, 1));
    d.event(DatepickerEvent::SelectYear(String::from("-44")));
    assert_eq!(d.view_date, date(-44, 6, 1));
    d.event(DatepickerEvent::SelectYear(String::from("19x9")));
    assert_eq!(d.view_date, date(-44, 6, 1));
    d.event(DatepickerEvent::SelectYear(String::from("")));
    d.event(DatepickerEvent::SelectYear(String::from(" 2000")));
    assert_eq!(d.view_date, date(-44, 6, 1));
}

#[test]
fn datepicker_selects_dates_only_with_callback() {
    let mut d = Datepicker::new(date(2024, 6, 1));
    assert_eq!(d.event(DatepickerEvent::SelectDate(date(2024, 6, 9))), None);
    d.on_select();
    assert_eq!(d.event(DatepickerEvent::SelectDate(date(2024, 6, 9))), Some(date(2024, 6, 9)));
}

#[test]
fn datepicker_grid_starts_monday_months_on_second_row() {
    // The first of April 2024 was a Monday.
    let d = Datepicker::new(date(2024, 4, 15));
    assert_eq!(Datepicker::get_day_number(0, 0, d.view_date), (25, true));
    assert_eq!(Datepicker::get_day_number(0, 6, d.view_date), (31, true));
    assert_eq!(Datepicker::get_day_number(1, 0, d.view_date), (1, false));
    assert_eq!(Datepicker::get_day_number(5, 2, d.view_date), (1, true));
    let cells = d.cells(date(2024, 4, 15)).unwrap();
    assert_eq!(cells.len(), 42);
    let checked: Vec<usize> = (0..42).filter(|k| cells[*k].checked).collect();
    assert_eq!(checked, vec![21]);
    assert_eq!(cells[21].day, 15);
    assert!(cells[0].disabled);
    assert!(d.cell_press(0, 0).is_none());
    match d.cell_press(1, 1) {
        Some(DatepickerEvent::SelectDate(x)) => assert_eq!(x, date(2024, 4, 2)),
        _ => panic!("a day of the month shown is chosen"),
    }
}

#[test]
fn datepicker_grid_of_february() {
    let d = Datepicker::new(date(2024, 2, 29));
    let cells = d.cells(date(2023, 2, 1)).unwrap();
    assert_eq!((cells[0].day, cells[0].disabled), (29, true));
    assert_eq!((cells[3].day, cells[3].disabled), (1, false));
    assert!(cells.iter().all(|c| !c.checked));
}

#[test]
fn datetime_picker_replaces_one_part() {
    let mut cx = Context::new();
    let h = DatetimePicker::new(&mut cx);
    assert_eq!(cx.element(h.entity + 1), Tag::TabView);
    assert_eq!(cx.parent(h.entity + 1), h.entity);
    assert_eq!(cx.element(h.entity), Tag::DatetimePicker);
    assert_eq!(cx.element(h.entity + 7), Tag::Tab);
    assert_eq!(cx.parent(h.entity + 7), h.entity + 5);
    assert!(cx.is_checked(h.entity + 7));
    assert_eq!(cx.text(h.entity + 8).as_str(), "\u{1f4c5}");
    assert_eq!(cx.element(h.entity + 9), Tag::Tab);
    assert!(!cx.is_checked(h.entity + 9));
    assert_eq!(cx.text(h.entity + 10).as_str(), "\u{1f554}");
    assert_eq!(cx.element(h.entity + 14), Tag::TabPanel);
    assert_eq!(cx.text(h.entity + 15).as_str(), "calendar");
    assert_eq!(cx.element(h.entity + 16), Tag::TabPanel);
    assert_eq!(cx.text(h.entity + 17).as_str(), "clock");
    let mut p = h.view;
    let now = DateTime { date: date(2024, 5, 6), time: Time { hour: 7, minute: 8, second: 9 } };
    assert_eq!(p.event(now, DatetimePickerEvent::SetDate(date(2020, 1, 2))), None);
    p.on_change();
    assert_eq!(
        p.event(now, DatetimePickerEvent::SetDate(date(2020, 1, 2))),
        Some(DateTime { date: date(2020, 1, 2), time: now.time })
    );
    let t = Time { hour: 23, minute: 0, second: 1 };
    assert_eq!(p.event(now, DatetimePickerEvent::SetTime(t)), Some(DateTime { date: now.date, time: t }));
}

#[test]
fn weekday_tokens_and_keys() {
    assert_eq!(Calendar::weekday_from_token("monday"), Some(Weekday::Mon));
    assert_eq!(Calendar::weekday_from_token("  SunDay\n"), Some(Weekday::Sun));
    assert_eq!(Calendar::weekday_from_token("\u{3000}friday"), Some(Weekday::Fri));
    assert_eq!(Calendar::weekday_from_token("fri"), None);
    assert_eq!(Calendar::weekday_from_token("mon day"), None);
    assert_eq!(Calendar::weekday_key(Weekday::Wed), "Wednesday");
    assert_eq!(Calendar::weekday_short_key(Weekday::Sat), "Saturday-short");
}

#[test]
fn focus_on_a_day_cell_or_below_it() {
    let mut cx = Context::new();
    let cell = cx.add(Tag::Button);
    cx.set_current(cell);
    let inner = cx.add(Tag::Label);
    cx.set_current(0);
    let outside = cx.add(Tag::Label);
    let mut c = Calendar::new(date(2024, 3, 3), Weekday::Mon).unwrap();
    assert!(!c.focus_is_on_calendar_day(&cx, inner));
    c.day_cells[5] = Some(cell);
    assert!(c.focus_is_on_calendar_day(&cx, inner));
    assert!(c.focus_is_on_calendar_day(&cx, cell));
    assert!(!c.focus_is_on_calendar_day(&cx, outside));
}

#[test]
fn calendar_cells_mark_focus_and_selection() {
    let c = Calendar::new(date(2024, 2, 14), Weekday::Mon).unwrap();
    let cell = c.day_cell(2, 2, date(2024, 2, 14)).unwrap();
    assert_eq!(cell.date, date(2024, 2, 14));
    assert!(cell.focused && cell.navigable && cell.selected && !cell.disabled);
    let before = c.day_cell(0, 0, date(2024, 1, 29)).unwrap();
    assert_eq!(before.date, date(2024, 1, 29));
    assert!(before.disabled && !before.selected && !before.navigable);
    let other = c.day_cell(2, 3, date(2024, 2, 14)).unwrap();
    assert!(!other.focused && !other.selected && !other.navigable);
    assert_eq!(c.column_weekday(0), Weekday::Mon);
    let sunday_first = Calendar::new(date(2024, 2, 14), Weekday::Sun).unwrap();
    assert_eq!(sunday_first.column_weekday(0), Weekday::Sun);
    assert_eq!(sunday_first.column_weekday(6), Weekday::Sat);
}

#[test]
fn calendar_builds_controls_headers_and_grid() {
    let mut cx = Context::new();
    assert!(Calendar::build(&mut cx, date(2023, 2, 29), Weekday::Mon).is_none());
    assert_eq!(cx.len(), 1);
    let h = Calendar::build(&mut cx, date(2024, 2, 14), Weekday::Mon).unwrap();
    assert_eq!(h.entity, 1);
    assert_eq!(cx.len(), 78);
    assert_eq!(cx.element(1), Tag::Calendar);
    assert!(cx.has_class(2, Class::CalendarControls));
    assert!(cx.has_class(3, Class::MonthNav));
    assert_eq!(cx.text(9).as_str(), "February");
    assert_eq!(cx.text(14).as_str(), "2024");
    assert!(!cx.is_displayed(19));
    assert_eq!(cx.text(22).as_str(), "Monday-short");
    assert_eq!(cx.text(28).as_str(), "Sunday-short");
    assert_eq!(cx.role(22), Role::ColumnHeader);
    assert_eq!(h.view.day_cells[0], Some(31));
    assert_eq!(h.view.day_cells[41], Some(77));
    assert_eq!(cx.role(31), Role::GridCell);
    assert_eq!(cx.text(31).as_str(), "");
    let cells = h.view.cells(date(2024, 2, 14));
    h.refresh_cells(&mut cx, &cells);
    let feb14 = h.view.day_cells[16].unwrap();
    assert_eq!(cx.text(feb14).as_str(), "14");
    assert!(cx.has_class(feb14, Class::CalendarDaySelected));
    assert!(cx.has_class(feb14, Class::CalendarDayFocused));
    assert!(cx.is_navigable(feb14));
    let first = h.view.day_cells[0].unwrap();
    assert_eq!(cx.text(first).as_str(), "29");
    assert!(cx.has_class(first, Class::CalendarDayDisabled));
    assert!(!cx.is_navigable(first));
    let sunday_first = Calendar::build(&mut cx, date(2024, 2, 14), Weekday::Sun).unwrap();
    assert_eq!(cx.text(sunday_first.entity + 21).as_str(), "Sunday-short");
}

#[test]
fn month_arithmetic_beyond_a_year() {
    assert_eq!(shift_year_month(2024, 1, -1), (2023, 12));
    assert_eq!(shift_year_month(2023, 12, 1), (2024, 1));
    assert_eq!(shift_year_month(2024, 3, 25), (2026, 4));
    assert_eq!(shift_year_month(2024, 3, 2_000_000), (168_690, 11));
    assert_eq!(last_day_of_month(2024, 2), Some(29));
    assert_eq!(last_day_of_month(2023, 2), Some(28));
    assert_eq!(last_day_of_month(2023, 4), Some(30));
    assert_eq!(last_day_of_month(2023, 12), Some(31));
    assert_eq!(last_day_of_month(2023, 13), None);
}
