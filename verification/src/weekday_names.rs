//! Names of weekdays: the keys their localized names are looked up under, and reading a
//! weekday from a token such as the first day of the week a locale gives.

use vstd::prelude::*;
use crate::calendar::{Calendar, Weekday};
use crate::text::{chars_of, lower, lower_chars};
use crate::ui::{within, Context};

verus! {

/// Whether a character is white space (Unicode `White_Space`, as `char::is_whitespace`
/// documents it).
pub open spec fn is_white(c: char) -> bool {
    ||| '\u{9}' <= c <= '\u{d}'
    ||| c == ' ' || c == '\u{85}' || c == '\u{a0}' || c == '\u{1680}'
    ||| '\u{2000}' <= c <= '\u{200a}'
    ||| c == '\u{2028}' || c == '\u{2029}' || c == '\u{202f}' || c == '\u{205f}' || c == '\u{3000}'
}

/// A text without its leading white space.
pub open spec fn trim_start(s: Seq<char>) -> Seq<char>
    decreases s.len(),
{
    if s.len() > 0 && is_white(s[0]) { trim_start(s.drop_first()) } else { s }
}

/// A text without its trailing white space.
pub open spec fn trim_end(s: Seq<char>) -> Seq<char>
    decreases s.len(),
{
    if s.len() > 0 && is_white(s.last()) { trim_end(s.drop_last()) } else { s }
}

/// A text without white space at either end.
pub open spec fn trimmed(s: Seq<char>) -> Seq<char> {
    trim_end(trim_start(s))
}

/// The weekday a lower-case English name stands for.
pub open spec fn weekday_named(s: Seq<char>) -> Option<Weekday> {
    if s == "monday"@ { Some(Weekday::Mon) }
    else if s == "tuesday"@ { Some(Weekday::Tue) }
    else if s == "wednesday"@ { Some(Weekday::Wed) }
    else if s == "thursday"@ { Some(Weekday::Thu) }
    else if s == "friday"@ { Some(Weekday::Fri) }
    else if s == "saturday"@ { Some(Weekday::Sat) }
    else if s == "sunday"@ { Some(Weekday::Sun) }
    else { None }
}

/// The exec form of [`is_white`].
fn white(c: char) -> (r: bool)
    ensures
        r == is_white(c),
{
    ('\u{9}' <= c && c <= '\u{d}') || c == ' ' || c == '\u{85}' || c == '\u{a0}' || c == '\u{1680}'
        || ('\u{2000}' <= c && c <= '\u{200a}') || c == '\u{2028}' || c == '\u{2029}' || c == '\u{202f}'
        || c == '\u{205f}' || c == '\u{3000}'
}

/// The characters of `s` without white space at either end.
fn trim_chars(s: &Vec<char>) -> (r: Vec<char>)
    ensures
        r@ == trimmed(s@),
{
    let n = s.len();
    let mut i: usize = 0;
    assert(s@.skip(0) =~= s@);
    while i < n && white(s[i])
        invariant
            0 <= i <= n,
            n == s@.len(),
            trim_start(s@) == trim_start(s@.skip(i as int)),
        decreases n - i,
    {
        assert(s@.skip(i as int).drop_first() =~= s@.skip(i + 1));
        i = i + 1;
    }
    let ghost rest = s@.skip(i as int);
    assert(trim_start(s@) == rest);
    assert(rest =~= s@.subrange(i as int, n as int));
    let mut j: usize = n;
    while j > i && white(s[j - 1])
        invariant
            i <= j <= n,
            n == s@.len(),
            rest == s@.skip(i as int),
            trim_end(rest) == trim_end(s@.subrange(i as int, j as int)),
        decreases j,
    {
        assert(s@.subrange(i as int, j as int).drop_last() =~= s@.subrange(i as int, j - 1));
        j = j - 1;
    }
    let mut r: Vec<char> = Vec::new();
    let mut k: usize = i;
    while k < j
        invariant
            i <= k <= j,
            j <= n,
            n == s@.len(),
            r@ == s@.subrange(i as int, k as int),
        decreases j - k,
    {
        r.push(s[k]);
        assert(r@ =~= s@.subrange(i as int, k + 1));
        k = k + 1;
    }
    r
}

/// Whether two character sequences are equal.
fn same_chars(a: &Vec<char>, b: &Vec<char>) -> (r: bool)
    ensures
        r == (a@ == b@),
{
    if a.len() != b.len() {
        return false;
    }
    let mut i: usize = 0;
    while i < a.len()
        invariant
            0 <= i <= a@.len(),
            a@.len() == b@.len(),
            a@.take(i as int) == b@.take(i as int),
        decreases a@.len() - i,
    {
        if a[i] != b[i] {
            assert(a@[i as int] != b@[i as int]);
            return false;
        }
        assert(a@.take(i + 1) =~= a@.take(i as int).push(a@[i as int]));
        assert(b@.take(i + 1) =~= b@.take(i as int).push(b@[i as int]));
        i = i + 1;
    }
    assert(a@ =~= a@.take(i as int));
    assert(b@ =~= b@.take(i as int));
    true
}

/// Whether the characters `s` spell the text `word`.
fn spells(s: &Vec<char>, word: &str) -> (r: bool)
    ensures
        r == (s@ == word@),
{
    let w = chars_of(&word.to_string());
    same_chars(s, &w)
}

impl Calendar {
    /// The weekday a token names: its English name, ignoring white space around it and
    /// the case of its letters.
    pub fn weekday_from_token(token: &str) -> (r: Option<Weekday>)
        ensures
            r == weekday_named(lower(trimmed(token@))),
    {
        let raw = chars_of(&token.to_string());
        let t = lower_chars(&trim_chars(&raw));
        if spells(&t, "monday") {
            Some(Weekday::Mon)
        } else if spells(&t, "tuesday") {
            Some(Weekday::Tue)
        } else if spells(&t, "wednesday") {
            Some(Weekday::Wed)
        } else if spells(&t, "thursday") {
            Some(Weekday::Thu)
        } else if spells(&t, "friday") {
            Some(Weekday::Fri)
        } else if spells(&t, "saturday") {
            Some(Weekday::Sat)
        } else if spells(&t, "sunday") {
            Some(Weekday::Sun)
        } else {
            None
        }
    }

    /// The key the full name of a weekday is looked up under.
    pub fn weekday_key(weekday: Weekday) -> (s: &'static str)
        ensures
            s@ == weekday_key_text(weekday),
    {
        match weekday {
            Weekday::Mon => "Monday",
            Weekday::Tue => "Tuesday",
            Weekday::Wed => "Wednesday",
            Weekday::Thu => "Thursday",
            Weekday::Fri => "Friday",
            Weekday::Sat => "Saturday",
            Weekday::Sun => "Sunday",
        }
    }

    /// The key the short name of a weekday is looked up under: the full key followed
    /// by `-short`.
    pub fn weekday_short_key(weekday: Weekday) -> (s: &'static str)
        ensures
            s@ == weekday_key_text(weekday) + "-short"@,
    {
        let r = match weekday {
            Weekday::Mon => "Monday-short",
            Weekday::Tue => "Tuesday-short",
            Weekday::Wed => "Wednesday-short",
            Weekday::Thu => "Thursday-short",
            Weekday::Fri => "Friday-short",
            Weekday::Sat => "Saturday-short",
            Weekday::Sun => "Sunday-short",
        };
        proof {
            reveal_strlit("-short");
            reveal_strlit("Monday-short");
            reveal_strlit("Tuesday-short");
            reveal_strlit("Wednesday-short");
            reveal_strlit("Thursday-short");
            reveal_strlit("Friday-short");
            reveal_strlit("Saturday-short");
            reveal_strlit("Sunday-short");
            reveal_strlit("Monday");
            reveal_strlit("Tuesday");
            reveal_strlit("Wednesday");
            reveal_strlit("Thursday");
            reveal_strlit("Friday");
            reveal_strlit("Saturday");
            reveal_strlit("Sunday");
            assert(r@ =~= weekday_key_text(weekday) + "-short"@);
        }
        r
    }

    /// Whether the focused node `focused` is one of the built day cells or lies below one.
    pub fn focus_is_on_calendar_day(&self, cx: &Context, focused: usize) -> (r: bool)
        requires
            (focused as int) < cx@.len(),
        ensures
            r == exists|i: int| 0 <= i < self.day_cells@.len() && #[trigger] self.day_cells@[i] is Some
                && within(cx@, focused as int, self.day_cells@[i]->0 as int),
    {
        let mut i: usize = 0;
        while i < self.day_cells.len()
            invariant
                0 <= i <= self.day_cells@.len(),
                (focused as int) < cx@.len(),
                forall|k: int| 0 <= k < i && #[trigger] self.day_cells@[k] is Some
                    ==> !within(cx@, focused as int, self.day_cells@[k]->0 as int),
            decreases self.day_cells@.len() - i,
        {
            if let Some(cell) = self.day_cells[i] {
                if cx.is_within(focused, cell) {
                    return true;
                }
            }
            i = i + 1;
        }
        false
    }
}

/// The key of a weekday's full name.
pub open spec fn weekday_key_text(w: Weekday) -> Seq<char> {
    match w {
        Weekday::Mon => "Monday"@,
        Weekday::Tue => "Tuesday"@,
        Weekday::Wed => "Wednesday"@,
        Weekday::Thu => "Thursday"@,
        Weekday::Fri => "Friday"@,
        Weekday::Sat => "Saturday"@,
        Weekday::Sun => "Sunday"@,
    }
}

} // verus!
