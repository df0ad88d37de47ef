//! A city shown on a world-time screen, with the time there.

use vstd::prelude::*;
use crate::number::{digits_value, all_digits, is_digit, lemma_dec_digits, dec, dec2, parsed_u32, parse_u32_range, push_dec, push_dec2};
use crate::time_zones::{zone_offset_secs, zone_minutes};
use crate::clock::{UtcDateTime, offset_accepted, local_fields, local_hour, local_minute, local_second_of_day, local_date, iso_week, iso_week_number, day_difference, day_difference_of};
use crate::text::{lacks, lemma_split_on_join, lemma_split_on_lacking, chars_of, split_on, find_char, lemma_split_on_first, push_str, push_char};

verus! {

/// A city: its name, its Windows time-zone id, and what was last worked out
/// of the time there.
#[derive(Debug, Clone)]
pub struct Location {
    pub display_name: String,
    pub time_zone_id: String,
    /// The local time as `HH:MM`, empty until worked out or on error.
    pub current_time: String,
    pub is_dst: bool,
    /// Whether the local date is behind (-1), the same as (0) or ahead of
    /// (1) the UTC date, as `day_difference` works it out.
    pub days_difference: i32,
    /// Whether the time-zone id is unknown.
    pub has_error: bool,
}

/// The hour and minute that `format_time` reads from a stored `HH:MM`:
/// the text before the first `:` and between it and the next, each parsed
/// as a `u32`, 0 where there is none or it does not parse.
pub open spec fn stored_clock(t: Seq<char>) -> (u32, u32) {
    let parts = split_on(t, ':');
    let hour = match parsed_u32(parts[0]) {
        Some(h) => h,
        None => 0,
    };
    let minute = if parts.len() > 1 {
        match parsed_u32(parts[1]) {
            Some(m) => m,
            None => 0,
        }
    } else {
        0
    };
    (hour, minute)
}

/// The hour on a 12-hour clock: 12 for noon and midnight.
pub open spec fn hour12(hour: u32) -> nat {
    if hour % 12 == 0 {
        12
    } else {
        (hour % 12) as nat
    }
}

/// A clock reading as shown: `HH:MM` on a 24-hour clock, else `H:MM AM` or
/// `H:MM PM`.
pub open spec fn clock_text(hour: u32, minute: u32, display_24h: bool) -> Seq<char> {
    if display_24h {
        dec2(hour as nat) + seq![':'] + dec2(minute as nat)
    } else {
        dec(hour12(hour)) + seq![':'] + dec2(minute as nat) + seq![' '] + (if hour >= 12 {
            seq!['P', 'M']
        } else {
            seq!['A', 'M']
        })
    }
}

/// The hour and minute stored in `t`, read as `stored_clock` says.
pub fn read_clock(s: &str) -> (r: (u32, u32))
    ensures
        r == stored_clock(s@),
{
    let t = chars_of(s);
    let n = t.len();
    let e = find_char(&t, 0, n, ':');
    proof {
        assert(t@.subrange(0, n as int) =~= t@);
        lemma_split_on_first(t@, ':');
        assert(t@.take(e as int) =~= t@.subrange(0, e as int));
    }
    let hour = match parse_u32_range(&t, 0, e) {
        Some(h) => h,
        None => 0,
    };
    let minute = if e < n {
        let f = find_char(&t, e + 1, n, ':');
        proof {
            let rest = t@.skip(e + 1);
            assert(rest =~= t@.subrange(e + 1, n as int));
            lemma_split_on_first(rest, ':');
            assert(split_on(t@, ':')[1] == split_on(rest, ':')[0]);
            assert(rest.take(f as int) =~= t@.subrange(e + 1, e + 1 + f));
        }
        match parse_u32_range(&t, e + 1, e + 1 + f) {
            Some(m) => m,
            None => 0,
        }
    } else {
        0
    };
    (hour, minute)
}

/// A clock reading written as `clock_text` says.
pub fn clock_string(hour: u32, minute: u32, display_24h: bool) -> (r: String)
    ensures
        r@ == clock_text(hour, minute, display_24h),
{
    let mut out = String::new();
    if display_24h {
        push_dec2(&mut out, hour as u64);
        push_char(&mut out, ':');
        push_dec2(&mut out, minute as u64);
    } else {
        let h12: u64 = if hour % 12 == 0 { 12 } else { (hour % 12) as u64 };
        push_dec(&mut out, h12);
        push_char(&mut out, ':');
        push_dec2(&mut out, minute as u64);
        push_char(&mut out, ' ');
        if hour >= 12 {
            push_char(&mut out, 'P');
        } else {
            push_char(&mut out, 'A');
        }
        push_char(&mut out, 'M');
    }
    assert(out@ =~= clock_text(hour, minute, display_24h));
    out
}

impl Location {
    /// This is a city named `name` in the zone `tz` with no time worked out
    /// yet, as `new` makes it.
    pub open spec fn is_new(self, tz: Seq<char>, name: Seq<char>) -> bool {
        &&& self.display_name@ == name
        &&& self.time_zone_id@ == tz
        &&& self.current_time@ == Seq::<char>::empty()
        &&& !self.is_dst
        &&& self.days_difference == 0
        &&& !self.has_error
    }

    /// A city named `display_name` in the time zone `time_zone_id`, with no
    /// time worked out yet.
    pub fn new(time_zone_id: &str, display_name: &str) -> (r: Self)
        ensures
            r.is_new(time_zone_id@, display_name@),
    {
        Location {
            display_name: display_name.to_owned(),
            time_zone_id: time_zone_id.to_owned(),
            current_time: String::new(),
            is_dst: false,
            days_difference: 0,
            has_error: false,
        }
    }

    /// The time to show for this city: `Error` when its zone is unknown,
    /// else the stored `HH:MM` read back (see `stored_clock`) and written
    /// on a 24- or 12-hour clock.
    pub fn format_time(&self, display_24h: bool, _show_dst: bool) -> (r: String)
        ensures
            r@ == (if self.has_error {
                seq!['E', 'r', 'r', 'o', 'r']
            } else {
                clock_text(stored_clock(self.current_time@).0, stored_clock(self.current_time@).1, display_24h)
            }),
    {
        if self.has_error {
            let mut out = String::new();
            push_str(&mut out, "Error");
            proof {
                reveal_strlit("Error");
            }
            assert(out@ =~= seq!['E', 'r', 'r', 'o', 'r']);
            return out;
        }
        let (hour, minute) = read_clock(self.current_time.as_str());
        clock_string(hour, minute, display_24h)
    }

    /// The offset from UTC, in seconds, of the time zone `tz_id`, if known.
    fn tz_offset(tz_id: &str) -> (r: Option<i32>)
        ensures
            match r {
                Some(s) => zone_offset_secs(tz_id@) == Some(s as int),
                None => zone_offset_secs(tz_id@) is None,
            },
    {
        match zone_minutes(tz_id) {
            Some(m) => {
                let secs = m * 60;
                if offset_accepted(secs) {
                    Some(secs)
                } else {
                    None
                }
            },
            None => None,
        }
    }

    /// Works out the time in this city at the UTC instant `now`: when its
    /// zone is known, the local `HH:MM`, how the local date stands to the
    /// UTC date (`day_difference_of` on the ISO weeks, hours and days of
    /// both), no daylight saving and no error; otherwise an error and no
    /// time.
    pub fn refresh_time(&mut self, now: &UtcDateTime)
        requires
            now.valid(),
        ensures
            final(self).display_name == old(self).display_name,
            final(self).time_zone_id == old(self).time_zone_id,
            match zone_offset_secs(old(self).time_zone_id@) {
                Some(secs) => {
                    let date = local_date(*now, secs);
                    let hour = local_hour(*now, secs);
                    let minute = local_minute(*now, secs);
                    &&& final(self).current_time@ == dec2(hour as nat) + seq![':'] + dec2(minute as nat)
                    &&& final(self).days_difference == day_difference_of(
                        iso_week_number(now.year as int, now.month as int, now.day as int) as u32,
                        iso_week_number(date.0, date.1, date.2) as u32,
                        now.hour,
                        hour as u32,
                        now.day,
                        date.2 as u32,
                    )
                    &&& !final(self).is_dst
                    &&& !final(self).has_error
                },
                None => {
                    &&& final(self).has_error
                    &&& final(self).current_time@ == Seq::<char>::empty()
                    &&& final(self).is_dst == old(self).is_dst
                    &&& final(self).days_difference == old(self).days_difference
                },
            },
    {
        match Self::tz_offset(self.time_zone_id.as_str()) {
            Some(secs) => {
                let (hour, minute, day, week) = local_fields(now, secs);
                assert(hour < 24 && minute < 60) by {
                    assert(0 <= local_second_of_day(*now, secs as int) < 86400);
                }
                let mut t = String::new();
                push_dec2(&mut t, hour as u64);
                push_char(&mut t, ':');
                push_dec2(&mut t, minute as u64);
                assert(t@ =~= dec2(hour as nat) + seq![':'] + dec2(minute as nat));
                self.current_time = t;
                let now_week = iso_week(now);
                self.days_difference = day_difference(now_week, week, now.hour, hour, now.day, day);
                self.is_dst = false;
                self.has_error = false;
            },
            None => {
                self.has_error = true;
                self.current_time = String::new();
            },
        }
    }
}


proof fn lemma_dec2_digits(n: nat)
    requires
        n < 100,
    ensures
        dec2(n).len() > 0,
        all_digits(dec2(n)),
        digits_value(dec2(n)) == n,
        lacks(dec2(n), ':'),
{
    lemma_dec_digits(n);
    if n < 10 {
        let d = dec2(n);
        assert(d =~= seq!['0', dec(n)[0]]);
        assert(d.drop_last() =~= seq!['0']);
        assert(seq!['0'].drop_last() =~= Seq::<char>::empty());
        assert(digits_value(Seq::<char>::empty()) == 0);
        assert(seq!['0'].last() == '0');
        assert(digits_value(seq!['0']) == 0);
    }
    assert forall|i: int| 0 <= i < dec2(n).len() implies dec2(n)[i] != ':' by {
        assert(is_digit(dec2(n)[i]));
    }
}

/// A local time as `refresh_time` stores it reads back as the same hour
/// and minute, so `format_time` on a 24-hour clock shows it unchanged.
pub proof fn lemma_stored_clock_round_trip(hour: u32, minute: u32)
    requires
        hour < 24,
        minute < 60,
    ensures
        stored_clock(dec2(hour as nat) + seq![':'] + dec2(minute as nat)) == (hour, minute),
        clock_text(hour, minute, true) == dec2(hour as nat) + seq![':'] + dec2(minute as nat),
{
    let h = dec2(hour as nat);
    let m = dec2(minute as nat);
    lemma_dec2_digits(hour as nat);
    lemma_dec2_digits(minute as nat);
    assert(h + seq![':'] + m =~= h.push(':') + m);
    lemma_split_on_join(h, m, ':');
    lemma_split_on_lacking(h, ':');
    lemma_split_on_lacking(m, ':');
    assert(split_on(h + seq![':'] + m, ':') =~= seq![h, m]);
    assert(is_digit(h[0]));
    assert(is_digit(m[0]));
}

/// The 12-hour clock: hours 1 to 12, noon and midnight shown as 12, the
/// morning hours as themselves and the afternoon ones twelve less; `PM`
/// from noon on, `AM` before; and the 24-hour clock always two digits
/// each side of the colon.
pub proof fn lemma_twelve_hour_clock(hour: u32, minute: u32)
    requires
        hour < 24,
        minute < 60,
    ensures
        1 <= hour12(hour) <= 12,
        hour == 0 || hour == 12 ==> hour12(hour) == 12,
        1 <= hour <= 11 ==> hour12(hour) == hour,
        13 <= hour <= 23 ==> hour12(hour) + 12 == hour,
        clock_text(hour, minute, false).last() == 'M',
        clock_text(hour, minute, false)[clock_text(hour, minute, false).len() - 2] == (if hour >= 12 {
            'P'
        } else {
            'A'
        }),
        clock_text(hour, minute, true).len() == 5,
        clock_text(hour, minute, true)[2] == ':',
{
    let t = clock_text(hour, minute, false);
    assert(t.len() >= 2);
    lemma_dec2_len(hour as nat);
    lemma_dec2_len(minute as nat);
}

proof fn lemma_dec2_len(n: nat)
    requires
        n < 100,
    ensures
        dec2(n).len() == 2,
{
    if n >= 10 {
        assert(dec(n) == dec(n / 10).push(crate::number::digit_char((n % 10) as int)));
        assert(dec(n / 10).len() == 1);
    }
}

} // verus!
