//! Time pickers: a digital picker with step buttons and an analog picker with pages
//! for hours, minutes and seconds. Times are made with chrono, which checks them.

use vstd::prelude::*;
use chrono::{NaiveTime, Timelike};
use crate::ui::{Context, Handle, NodeView, Tag};

verus! {

/// Before or after noon.
#[derive(Clone, Copy, PartialEq, Eq, Structural, Debug)]
pub enum AMOrPM {
    AM,
    PM,
}

/// A time of day on a twelve-hour clock.
#[derive(Clone, Copy, PartialEq, Eq, Structural, Debug)]
pub struct DayTime {
    pub hour: u8,
    pub minutes: u8,
    pub zone: AMOrPM,
}

/// A time of day: hour, minute and second.
#[derive(Clone, Copy, PartialEq, Eq, Structural, Debug)]
pub struct Time {
    pub hour: u32,
    pub minute: u32,
    pub second: u32,
}

impl Time {
    /// Whether the time is a real time of day.
    pub open spec fn valid(self) -> bool {
        self.hour < 24 && self.minute < 60 && self.second < 60
    }

    /// Whether the time is after noon.
    pub open spec fn is_pm(self) -> bool {
        self.hour >= 12
    }
}

/// Makes a time from hour, minute and second (chrono's `NaiveTime::from_hms_opt`),
/// read back through `Timelike`: there is one exactly when the hour is below 24 and the
/// minute and second below 60, and it holds those three numbers.
#[verifier::external_body]
fn time_from_hms(hour: u32, minute: u32, second: u32) -> (t: Option<Time>)
    ensures
        t is Some <==> (hour < 24 && minute < 60 && second < 60),
        t matches Some(x) ==> x == (Time { hour, minute, second }),
{
    NaiveTime::from_hms_opt(hour, minute, second).map(|n| Time { hour: n.hour(), minute: n.minute(), second: n.second() })
}

/// Makes a time that is known to be valid.
fn make_time(hour: u32, minute: u32, second: u32) -> (t: Time)
    requires
        hour < 24 && minute < 60 && second < 60,
    ensures
        t == (Time { hour, minute, second }),
{
    match time_from_hms(hour, minute, second) {
        Some(t) => t,
        None => Time { hour, minute, second },
    }
}

/// The pages of an analog time picker.
#[derive(Clone, Copy, PartialEq, Eq, Structural, Debug)]
pub enum AnalogTimepickerPage {
    Hours,
    Minutes,
    Seconds,
}

/// Events of a time picker.
#[derive(Clone, Copy, PartialEq, Eq, Structural, Debug)]
pub enum TimepickerEvent {
    Change(Time),
    ChangePage(AnalogTimepickerPage),
}

/// What a time picker asks for after an event.
#[derive(Clone, Copy, PartialEq, Eq, Structural, Debug)]
pub struct TimepickerResponse {
    /// The time to hand to the change callback.
    pub on_change: Option<Time>,
    /// Send `SetPage` with this page to the pickers inside.
    pub set_page: Option<AnalogTimepickerPage>,
}

/// A digital and an analog time picker together.
pub struct Timepicker {
    pub has_on_change: bool,
}

impl Timepicker {
    /// Builds a time picker: a digital picker and, below it, an analog picker without
    /// controls that stays on its page.
    pub fn new(cx: &mut Context) -> (h: Handle<Timepicker>)
        requires
            old(cx)@.len() + 2 < usize::MAX,
        ensures
            h.entity == old(cx)@.len(),
            !h.view.has_on_change,
            final(cx).cur() == old(cx).cur(),
            final(cx)@ == old(cx)@.push(NodeView::fresh(Tag::Timepicker, old(cx).cur() as nat))
                .push(NodeView::fresh(Tag::DigitalTimepicker, h.entity as nat))
                .push(NodeView::fresh(Tag::AnalogTimepicker, h.entity as nat)),
    {
        let e = cx.add(Tag::Timepicker);
        let _digital = cx.add_child(e, Tag::DigitalTimepicker);
        let _analog = cx.add_child(e, Tag::AnalogTimepicker);
        Handle { entity: e, view: Timepicker { has_on_change: false } }
    }

    /// Handles an event: a change goes to the callback; a page change is passed on.
    pub fn event(&self, event: TimepickerEvent) -> (r: TimepickerResponse)
        ensures
            r == match event {
                TimepickerEvent::Change(t) => TimepickerResponse { on_change: if self.has_on_change { Some(t) } else { None }, set_page: None },
                TimepickerEvent::ChangePage(p) => TimepickerResponse { on_change: None, set_page: Some(p) },
            },
    {
        match event {
            TimepickerEvent::Change(t) => TimepickerResponse { on_change: if self.has_on_change { Some(t) } else { None }, set_page: None },
            TimepickerEvent::ChangePage(p) => TimepickerResponse { on_change: None, set_page: Some(p) },
        }
    }
}

impl Handle<Timepicker> {
    /// Attaches the callback that receives the new time.
    pub fn on_change(self) -> (h: Handle<Timepicker>)
        ensures
            h.entity == self.entity,
            h.view.has_on_change,
    {
        Handle { entity: self.entity, view: Timepicker { has_on_change: true } }
    }
}

/// Events of a digital time picker.
#[derive(Clone, Copy, PartialEq, Eq, Structural, Debug)]
pub enum DigitalTimepickerEvent {
    IncrementHour,
    IncrementMinutes,
    DecrementHour,
    DecrementMinutes,
    SetHour(u32),
    SetMinutes(u32),
    ToggleAMOrPM,
}

/// A time picker with step buttons.
pub struct DigitalTimepicker {
    pub has_on_change: bool,
}

/// The hour a digital picker sets for hour `h`: twelve counts as zero and twenty-four
/// as twelve.
pub open spec fn wrap_hour(h: int) -> int {
    if h == 12 { 0 } else if h == 24 { 12 } else { h }
}

/// The time after a digital picker's event, from the current time `t`.
pub open spec fn digital_after(t: Time, event: DigitalTimepickerEvent) -> Time {
    match event {
        DigitalTimepickerEvent::SetHour(h) => Time { hour: wrap_hour(h as int) as u32, ..t },
        DigitalTimepickerEvent::SetMinutes(m) => Time { minute: m, ..t },
        DigitalTimepickerEvent::IncrementHour => Time { hour: wrap_hour(t.hour + 1) as u32, ..t },
        DigitalTimepickerEvent::IncrementMinutes => Time { minute: if t.minute + 1 >= 60 { (t.minute + 1 - 60) as u32 } else { (t.minute + 1) as u32 }, ..t },
        DigitalTimepickerEvent::DecrementHour => {
            let h1 = t.hour - 1;
            let h2 = if h1 < 0 { h1 + 12 } else { h1 };
            let h3 = if t.is_pm() && h2 < 12 { h2 + 12 } else { h2 };
            Time { hour: h3 as u32, ..t }
        },
        DigitalTimepickerEvent::DecrementMinutes => Time { minute: if t.minute == 0 { 59 } else { (t.minute - 1) as u32 }, ..t },
        DigitalTimepickerEvent::ToggleAMOrPM => Time { hour: if t.is_pm() { (t.hour - 12) as u32 } else { (t.hour + 12) as u32 }, ..t },
    }
}

/// Whether a digital picker's event gives a real time, from a real time.
pub open spec fn digital_event_ok(event: DigitalTimepickerEvent) -> bool {
    match event {
        DigitalTimepickerEvent::SetHour(h) => wrap_hour(h as int) < 24,
        DigitalTimepickerEvent::SetMinutes(m) => m < 60,
        _ => true,
    }
}

impl DigitalTimepicker {
    /// Builds a digital time picker node.
    pub fn new(cx: &mut Context) -> (h: Handle<DigitalTimepicker>)
        requires
            old(cx)@.len() < usize::MAX,
        ensures
            h.entity == old(cx)@.len(),
            !h.view.has_on_change,
            final(cx).cur() == old(cx).cur(),
            final(cx)@ == old(cx)@.push(NodeView::fresh(Tag::DigitalTimepicker, old(cx).cur() as nat)),
    {
        let e = cx.add(Tag::DigitalTimepicker);
        Handle { entity: e, view: DigitalTimepicker { has_on_change: false } }
    }

    /// The time to hand to the change callback after an event, from the current time:
    /// none without a callback.
    pub fn event(&self, current: Time, event: DigitalTimepickerEvent) -> (r: Option<Time>)
        requires
            current.valid(),
            self.has_on_change ==> digital_event_ok(event),
        ensures
            r == if self.has_on_change { Some(digital_after(current, event)) } else { None },
            r matches Some(t) ==> t.valid(),
    {
        if !self.has_on_change {
            return None;
        }
        let t = current;
        let new = match event {
            DigitalTimepickerEvent::SetHour(h) => {
                let hour = if h == 12 { 0 } else if h == 24 { 12 } else { h };
                make_time(hour, t.minute, t.second)
            }
            DigitalTimepickerEvent::SetMinutes(m) => make_time(t.hour, m, t.second),
            DigitalTimepickerEvent::IncrementHour => {
                let h = t.hour + 1;
                let hour = if h == 12 { 0 } else if h == 24 { 12 } else { h };
                make_time(hour, t.minute, t.second)
            }
            DigitalTimepickerEvent::IncrementMinutes => {
                let m = t.minute + 1;
                make_time(t.hour, if m >= 60 { m - 60 } else { m }, t.second)
            }
            DigitalTimepickerEvent::DecrementHour => {
                let h1: i64 = t.hour as i64 - 1;
                let h2: i64 = if h1 < 0 { h1 + 12 } else { h1 };
                let h3: i64 = if t.hour >= 12 && h2 < 12 { h2 + 12 } else { h2 };
                make_time(h3 as u32, t.minute, t.second)
            }
            DigitalTimepickerEvent::DecrementMinutes => {
                make_time(t.hour, if t.minute == 0 { 59 } else { t.minute - 1 }, t.second)
            }
            DigitalTimepickerEvent::ToggleAMOrPM => {
                make_time(if t.hour >= 12 { t.hour - 12 } else { t.hour + 12 }, t.minute, t.second)
            }
        };
        Some(new)
    }
}

impl Handle<DigitalTimepicker> {
    /// Attaches the callback that receives the new time.
    pub fn on_change(self) -> (h: Handle<DigitalTimepicker>)
        ensures
            h.entity == self.entity,
            h.view.has_on_change,
    {
        Handle { entity: self.entity, view: DigitalTimepicker { has_on_change: true } }
    }
}

/// Events of an analog time picker.
#[derive(Clone, Copy, PartialEq, Eq, Structural, Debug)]
pub enum AnalogTimepickerEvent {
    ToggleAMOrPM,
    SetHours(u8),
    SetMinutes(u8),
    SetSeconds(u8),
    SetPage(AnalogTimepickerPage),
    SetZone(bool),
}

/// A clock face on which hours, minutes and seconds are picked in turn.
pub struct AnalogTimepicker {
    pub page: AnalogTimepickerPage,
    pub show_controls: bool,
    pub change_page_on_select: bool,
    pub has_on_change: bool,
}

/// What an analog time picker asks for after an event.
#[derive(Clone, Copy, PartialEq, Eq, Structural, Debug)]
pub struct AnalogResponse {
    /// The time to hand to the change callback.
    pub on_change: Option<Time>,
    /// An event the picker emits for itself.
    pub emit: Option<AnalogTimepickerEvent>,
}

/// The hour an analog picker sets for hour `h` on the clock face, keeping the
/// current half of the day.
pub open spec fn face_hour(t: Time, h: u8) -> int {
    let n = if t.is_pm() { h + 12 } else { h as int };
    if n == 24 { 12 } else { n }
}

impl AnalogTimepicker {
    /// Builds an analog time picker on its hours page, with controls, moving to the
    /// next page after each pick.
    pub fn new(cx: &mut Context) -> (h: Handle<AnalogTimepicker>)
        requires
            old(cx)@.len() < usize::MAX,
        ensures
            h.entity == old(cx)@.len(),
            h.view == (AnalogTimepicker { page: AnalogTimepickerPage::Hours, show_controls: true, change_page_on_select: true, has_on_change: false }),
            final(cx).cur() == old(cx).cur(),
            final(cx)@ == old(cx)@.push(NodeView::fresh(Tag::AnalogTimepicker, old(cx).cur() as nat)),
    {
        let e = cx.add(Tag::AnalogTimepicker);
        Handle {
            entity: e,
            view: AnalogTimepicker { page: AnalogTimepickerPage::Hours, show_controls: true, change_page_on_select: true, has_on_change: false },
        }
    }

    /// Handles an event, from the current time.
    pub fn event(&mut self, current: Time, event: AnalogTimepickerEvent) -> (r: AnalogResponse)
        requires
            current.valid(),
            old(self).has_on_change ==> match event {
                AnalogTimepickerEvent::SetHours(h) => face_hour(current, h) < 24,
                AnalogTimepickerEvent::SetMinutes(m) => m < 60,
                AnalogTimepickerEvent::SetSeconds(s) => s < 60,
                _ => true,
            },
        ensures
            final(self).show_controls == old(self).show_controls,
            final(self).change_page_on_select == old(self).change_page_on_select,
            final(self).has_on_change == old(self).has_on_change,
            final(self).page == match event {
                AnalogTimepickerEvent::SetHours(_) if old(self).change_page_on_select => AnalogTimepickerPage::Minutes,
                AnalogTimepickerEvent::SetMinutes(_) if old(self).change_page_on_select => AnalogTimepickerPage::Seconds,
                AnalogTimepickerEvent::SetPage(p) => p,
                _ => old(self).page,
            },
            r.emit == match event {
                AnalogTimepickerEvent::ToggleAMOrPM => Some(AnalogTimepickerEvent::SetZone(!current.is_pm())),
                _ => None,
            },
            r.on_change == if !old(self).has_on_change {
                None
            } else {
                match event {
                    AnalogTimepickerEvent::SetHours(h) => Some(Time { hour: face_hour(current, h) as u32, ..current }),
                    AnalogTimepickerEvent::SetMinutes(m) => Some(Time { minute: m as u32, ..current }),
                    AnalogTimepickerEvent::SetSeconds(s) => Some(Time { second: s as u32, ..current }),
                    AnalogTimepickerEvent::SetZone(zone) => if !current.is_pm() && zone {
                        Some(Time { hour: (current.hour + 12) as u32, ..current })
                    } else if current.is_pm() && !zone {
                        Some(Time { hour: (current.hour - 12) as u32, ..current })
                    } else {
                        None
                    },
                    _ => None,
                }
            },
    {
        let t = current;
        let pm = t.hour >= 12;
        match event {
            AnalogTimepickerEvent::SetHours(h) => {
                let on_change = if self.has_on_change {
                    let n: u32 = if pm { h as u32 + 12 } else { h as u32 };
                    let hour = if n == 24 { 12 } else { n };
                    Some(make_time(hour, t.minute, t.second))
                } else {
                    None
                };
                if self.change_page_on_select {
                    self.page = AnalogTimepickerPage::Minutes;
                }
                AnalogResponse { on_change, emit: None }
            }
            AnalogTimepickerEvent::SetMinutes(m) => {
                let on_change = if self.has_on_change { Some(make_time(t.hour, m as u32, t.second)) } else { None };
                if self.change_page_on_select {
                    self.page = AnalogTimepickerPage::Seconds;
                }
                AnalogResponse { on_change, emit: None }
            }
            AnalogTimepickerEvent::SetSeconds(s) => {
                let on_change = if self.has_on_change { Some(make_time(t.hour, t.minute, s as u32)) } else { None };
                AnalogResponse { on_change, emit: None }
            }
            AnalogTimepickerEvent::SetPage(p) => {
                self.page = p;
                AnalogResponse { on_change: None, emit: None }
            }
            AnalogTimepickerEvent::ToggleAMOrPM => AnalogResponse { on_change: None, emit: Some(AnalogTimepickerEvent::SetZone(!pm)) },
            AnalogTimepickerEvent::SetZone(zone) => {
                let on_change = if !self.has_on_change {
                    None
                } else if !pm && zone {
                    Some(make_time(t.hour + 12, t.minute, t.second))
                } else if pm && !zone {
                    Some(make_time(t.hour - 12, t.minute, t.second))
                } else {
                    None
                };
                AnalogResponse { on_change, emit: None }
            }
        }
    }
}

impl Handle<AnalogTimepicker> {
    /// Attaches the callback that receives the new time.
    pub fn on_change(self) -> (h: Handle<AnalogTimepicker>)
        ensures
            h.entity == self.entity,
            h.view == (AnalogTimepicker { has_on_change: true, ..self.view }),
    {
        Handle { entity: self.entity, view: AnalogTimepicker { has_on_change: true, ..self.view } }
    }

    /// Sets whether the picker shows its page and zone controls.
    pub fn show_controls(self, value: bool) -> (h: Handle<AnalogTimepicker>)
        ensures
            h.entity == self.entity,
            h.view == (AnalogTimepicker { show_controls: value, ..self.view }),
    {
        Handle { entity: self.entity, view: AnalogTimepicker { show_controls: value, ..self.view } }
    }

    /// Sets whether picking an hour or a minute moves to the next page.
    pub fn change_page_on_select(self, value: bool) -> (h: Handle<AnalogTimepicker>)
        ensures
            h.entity == self.entity,
            h.view == (AnalogTimepicker { change_page_on_select: value, ..self.view }),
    {
        Handle { entity: self.entity, view: AnalogTimepicker { change_page_on_select: value, ..self.view } }
    }
}


/// Toggling AM and PM moves a real time to the other half of the day: the hour
/// changes by exactly twelve, the minute and second stay, the time stays real, and
/// toggling twice gives the time back.
pub proof fn law_toggle_flips_half_of_day(t: Time)
    requires
        t.valid(),
    ensures
        ({
            let u = digital_after(t, DigitalTimepickerEvent::ToggleAMOrPM);
            &&& u.valid()
            &&& u.is_pm() != t.is_pm()
            &&& (u.hour == t.hour + 12 || u.hour + 12 == t.hour)
            &&& u.minute == t.minute && u.second == t.second
            &&& digital_after(u, DigitalTimepickerEvent::ToggleAMOrPM) == t
        }),
{
}


/// Stepping a real time up and then down, by an hour or by a minute, gives it back;
/// hour steps stay within the same half of the day and minute steps keep the hour.
pub proof fn law_steps_undo_each_other(t: Time)
    requires
        t.valid(),
    ensures
        digital_after(digital_after(t, DigitalTimepickerEvent::IncrementHour), DigitalTimepickerEvent::DecrementHour) == t,
        digital_after(digital_after(t, DigitalTimepickerEvent::IncrementMinutes), DigitalTimepickerEvent::DecrementMinutes) == t,
        digital_after(t, DigitalTimepickerEvent::IncrementHour).is_pm() == t.is_pm(),
        digital_after(t, DigitalTimepickerEvent::DecrementHour).is_pm() == t.is_pm(),
        digital_after(t, DigitalTimepickerEvent::IncrementMinutes).hour == t.hour,
        digital_after(t, DigitalTimepickerEvent::DecrementMinutes).hour == t.hour,
{
}

} // verus!
