//! Calendar dates: reading them from text, taking them from the local clock,
//! and naming the file that holds a day's tasks.

use crate::error::TuduError;
use crate::text::{bounded_number, is_digit, lemma_split_cons, lemma_split_single, lemma_zero_padded_reads_back, chars_of, parse_number, push_zero_padded, split, split_ranges, zero_padded};
use chrono::{Datelike, Duration, Local};
use vstd::prelude::*;
use vstd::string::*;

verus! {

/// A day of the calendar. Any three numbers can be held; `is_valid` says
/// whether day and month go together.
#[derive(Debug, PartialEq, Eq, Structural, Clone, Copy)]
pub struct TuduDate {
    pub day: u32,
    pub month: u32,
    pub year: u32,
}

/// What a date text asks for, before the clock is consulted.
#[derive(Debug, PartialEq, Eq, Structural, Clone, Copy)]
pub enum DateText {
    Today,
    Tomorrow,
    Yesterday,
    /// Day and month; the year is the current one.
    DayMonth(u32, u32),
    /// Day, month and year.
    Full(u32, u32, u32),
}

/// The calendar day that the local clock shows.
#[derive(Debug, PartialEq, Eq, Structural, Clone, Copy)]
pub struct LocalDay {
    pub year: i32,
    pub month: u32,
    pub day: u32,
}

/// The simplified calendar rule: the month exists and has that many days,
/// February always taken with 29. No lower bound is put on the day.
pub open spec fn valid_day_month(day: u32, month: u32) -> bool {
    if month == 1 || month == 3 || month == 5 || month == 7 || month == 8 || month == 10 || month
        == 12 {
        day <= 31
    } else if month == 4 || month == 6 || month == 9 || month == 11 {
        day <= 30
    } else if month == 2 {
        day <= 29
    } else {
        false
    }
}

/// The three words that name a day relative to now.
pub open spec fn relative_word(text: Seq<char>) -> Option<DateText> {
    if text == "today"@ {
        Some(DateText::Today)
    } else if text == "tomorrow"@ {
        Some(DateText::Tomorrow)
    } else if text == "yesterday"@ {
        Some(DateText::Yesterday)
    } else {
        None
    }
}

/// A section of a date text as a number that fits 32 bits.
pub open spec fn section_value(section: Seq<char>) -> Option<u32> {
    match bounded_number(section, u32::MAX as nat) {
        Some(n) => Some(n as u32),
        None => None,
    }
}

/// The meaning of a date text made of numbers: two or three sections between
/// hyphens, each a number, day first, with day and month passing the calendar
/// rule.
pub open spec fn numeric_date(text: Seq<char>) -> Option<DateText> {
    let sections = split(text, '-');
    if sections.len() == 2 {
        match (section_value(sections[0]), section_value(sections[1])) {
            (Some(day), Some(month)) => if valid_day_month(day, month) {
                Some(DateText::DayMonth(day, month))
            } else {
                None
            },
            _ => None,
        }
    } else if sections.len() == 3 {
        match (
            section_value(sections[0]),
            section_value(sections[1]),
            section_value(sections[2]),
        ) {
            (Some(day), Some(month), Some(year)) => if valid_day_month(day, month) {
                Some(DateText::Full(day, month, year))
            } else {
                None
            },
            _ => None,
        }
    } else {
        None
    }
}

/// The meaning of a date text: one of the relative words, else a numeric date.
pub open spec fn date_text_of(text: Seq<char>) -> Option<DateText> {
    match relative_word(text) {
        Some(word) => Some(word),
        None => numeric_date(text),
    }
}

/// The name of the file that holds the tasks of a day: year, month and day
/// between hyphens, filled with zeros to four, two and two digits.
pub open spec fn filename_stem(date: TuduDate) -> Seq<char> {
    zero_padded(date.year as nat, 4) + seq!['-'] + zero_padded(date.month as nat, 2) + seq!['-']
        + zero_padded(date.day as nat, 2)
}

/// The stem with the ending of a text file.
pub open spec fn filename_of(date: TuduDate) -> Seq<char> {
    filename_stem(date) + ".txt"@
}

impl DateText {
    /// The days between now and the day asked for, where the clock decides.
    pub open spec fn offset(self) -> int {
        match self {
            DateText::Tomorrow => 1,
            DateText::Yesterday => -1,
            _ => 0,
        }
    }

    /// The date asked for, when the clock shows `clock` on the day in question.
    pub open spec fn resolve_spec(self, clock: TuduDate) -> TuduDate {
        match self {
            DateText::Today | DateText::Tomorrow | DateText::Yesterday => clock,
            DateText::DayMonth(day, month) => TuduDate { day, month, year: clock.year },
            DateText::Full(day, month, year) => TuduDate { day, month, year },
        }
    }

    /// Whether `date` can be the date asked for, whatever the clock shows.
    /// A date with a year admits itself alone; day and month admit every
    /// year that a clock can show; a relative word admits every day that a
    /// clock can show.
    pub open spec fn admits(self, date: TuduDate) -> bool {
        match self {
            DateText::Full(day, month, year) => date == (TuduDate { day, month, year }),
            DateText::DayMonth(day, month) => date.day == day && date.month == month && date.year
                <= i32::MAX,
            _ => clock_day(date),
        }
    }

    /// The days to add to now before the clock is read.
    pub fn day_offset(&self) -> (r: i64)
        ensures
            r == self.offset(),
            -1 <= r <= 1,
    {
        match self {
            DateText::Tomorrow => 1,
            DateText::Yesterday => -1,
            _ => 0,
        }
    }

    /// Settles the date, given what the clock shows `day_offset` days from now.
    pub fn resolve(&self, clock: TuduDate) -> (date: TuduDate)
        ensures
            date == self.resolve_spec(clock),
    {
        match self {
            DateText::Today | DateText::Tomorrow | DateText::Yesterday => clock,
            DateText::DayMonth(day, month) => TuduDate { day: *day, month: *month, year: clock.year },
            DateText::Full(day, month, year) => TuduDate { day: *day, month: *month, year: *year },
        }
    }
}

/// Reads the local clock with `chrono::Local::now`, adds `offset_days` days
/// made by `chrono::Duration::days`, and returns the fields that `Datelike`
/// gives for the local date. Nothing here is proved; this is what is claimed.
/// Month and day lie in the ranges that `Datelike` documents, 1 to 12 and 1
/// to 31. The year is not negative: outside of a browser, `Utc::now` takes
/// the system time since 1970 and does not return where that is earlier;
/// `Local::now` adds a `FixedOffset`, which `east_opt` and `west_opt` keep
/// under a day either way; and at most one day is taken off here. The sum
/// does not overflow for an offset of a day, which is why no other offset is
/// admitted.
#[verifier::external_body]
fn local_day(offset_days: i64) -> (d: LocalDay)
    requires
        -1 <= offset_days <= 1,
    ensures
        1 <= d.month <= 12,
        1 <= d.day <= 31,
        0 <= d.year,
{
    let moment = Local::now() + Duration::days(offset_days);
    LocalDay { year: moment.year(), month: moment.month(), day: moment.day() }
}

/// Whether a clock reading can be held as a date: the calendar fields are in
/// their ranges and the year is not negative.
pub open spec fn clock_day(date: TuduDate) -> bool {
    1 <= date.month <= 12 && 1 <= date.day <= 31 && date.year <= i32::MAX
}

/// Checks day and month against the simplified calendar rule.
pub fn is_valid_date(day: u32, month: u32) -> (r: Result<(), TuduError>)
    ensures
        valid_day_month(day, month) ==> r is Ok,
        !valid_day_month(day, month) ==> r == Err::<(), TuduError>(TuduError::InvalidDate),
{
    let valid = match month {
        1 | 3 | 5 | 7 | 8 | 10 | 12 => day <= 31,
        4 | 6 | 9 | 11 => day <= 30,
        2 => day <= 29,
        _ => false,
    };
    if valid {
        Ok(())
    } else {
        Err(TuduError::InvalidDate)
    }
}

/// Whether `text` is one of the words `today`, `tomorrow`, `yesterday`.
pub fn is_relative_date(text: &str) -> (r: bool)
    ensures
        r == relative_word(text@) is Some,
{
    get_date_from_relative(text).is_some()
}

/// The relative day that `text` names, if it is one of the three words.
pub fn get_date_from_relative(text: &str) -> (r: Option<DateText>)
    ensures
        r == relative_word(text@),
{
    let text = String::from_str(text);
    if text == String::from_str("today") {
        Some(DateText::Today)
    } else if text == String::from_str("tomorrow") {
        Some(DateText::Tomorrow)
    } else if text == String::from_str("yesterday") {
        Some(DateText::Yesterday)
    } else {
        None
    }
}

/// Reads one section of a numeric date.
fn parse_section(chars: &Vec<char>, range: (usize, usize)) -> (r: Option<u32>)
    requires
        range.0 <= range.1 <= chars.len(),
    ensures
        r == section_value(chars@.subrange(range.0 as int, range.1 as int)),
{
    match parse_number(chars, range.0, range.1, u32::MAX as u64) {
        Some(n) => Some(n as u32),
        None => None,
    }
}

/// Reads a date text without consulting the clock.
pub fn parse_date_text(text: &str) -> (r: Result<DateText, TuduError>)
    ensures
        match date_text_of(text@) {
            Some(t) => r == Ok::<DateText, TuduError>(t),
            None => r == Err::<DateText, TuduError>(TuduError::InvalidDate),
        },
{
    if let Some(word) = get_date_from_relative(text) {
        return Ok(word);
    }
    let chars = chars_of(text);
    let sections = split_ranges(&chars, '-');
    if sections.len() == 2 {
        match (parse_section(&chars, sections[0]), parse_section(&chars, sections[1])) {
            (Some(day), Some(month)) => match is_valid_date(day, month) {
                Ok(_) => Ok(DateText::DayMonth(day, month)),
                Err(err) => Err(err),
            },
            _ => Err(TuduError::InvalidDate),
        }
    } else if sections.len() == 3 {
        match (
            parse_section(&chars, sections[0]),
            parse_section(&chars, sections[1]),
            parse_section(&chars, sections[2]),
        ) {
            (Some(day), Some(month), Some(year)) => match is_valid_date(day, month) {
                Ok(_) => Ok(DateText::Full(day, month, year)),
                Err(err) => Err(err),
            },
            _ => Err(TuduError::InvalidDate),
        }
    } else {
        Err(TuduError::InvalidDate)
    }
}

impl TuduDate {
    /// The date with these fields, whatever they are.
    pub fn new(day: u32, month: u32, year: u32) -> (date: TuduDate)
        ensures
            date == (TuduDate { day, month, year }),
    {
        TuduDate { day, month, year }
    }

    /// Whether day and month pass the simplified calendar rule.
    pub open spec fn is_valid(self) -> bool {
        valid_day_month(self.day, self.month)
    }

    /// The date that a reading of the clock stands for.
    pub fn from_date_time(clock: LocalDay) -> (date: TuduDate)
        requires
            0 <= clock.year,
        ensures
            date == (TuduDate { day: clock.day, month: clock.month, year: clock.year as u32 }),
    {
        TuduDate { day: clock.day, month: clock.month, year: clock.year as u32 }
    }

    /// Reads a date from text: `today`, `tomorrow`, `yesterday`, day-month or
    /// day-month-year. A date with a year is the one written; of the others,
    /// what the text fixes is stated, and the rest is what the clock showed.
    pub fn from_date(date: &str) -> (r: Result<TuduDate, TuduError>)
        ensures
            match date_text_of(date@) {
                None => r == Err::<TuduDate, TuduError>(TuduError::InvalidDate),
                Some(text) => r matches Ok(d) && text.admits(d),
            },
            relative_word(date@) is None ==> (r matches Ok(d) ==> d.is_valid()),
    {
        match parse_date_text(date) {
            Ok(text) => match text {
                DateText::Full(day, month, year) => Ok(TuduDate::new(day, month, year)),
                _ => {
                    let clock = TuduDate::from_date_time(local_day(text.day_offset()));
                    Ok(text.resolve(clock))
                },
            },
            Err(err) => Err(err),
        }
    }

    /// The day that the local clock shows now.
    pub fn today() -> (date: TuduDate)
        ensures
            clock_day(date),
    {
        TuduDate::from_date_time(local_day(0))
    }

    /// The day after the one that the local clock shows now.
    pub fn tomorrow() -> (date: TuduDate)
        ensures
            clock_day(date),
    {
        TuduDate::from_date_time(local_day(1))
    }

    /// The day before the one that the local clock shows now.
    pub fn yesterday() -> (date: TuduDate)
        ensures
            clock_day(date),
    {
        TuduDate::from_date_time(local_day(-1))
    }

    /// The name of the file that holds this day's tasks.
    pub fn to_filename(&self) -> (name: String)
        ensures
            name@ == filename_of(*self),
    {
        let mut name = String::new();
        push_zero_padded(&mut name, self.year as u64, 4);
        name.append("-");
        push_zero_padded(&mut name, self.month as u64, 2);
        name.append("-");
        push_zero_padded(&mut name, self.day as u64, 2);
        name.append(".txt");
        proof {
            reveal_strlit("-");
            assert(name@ =~= filename_of(*self));
        }
        name
    }
}

/// The stem of a file name holds the date: cut at the hyphens it gives three
/// number texts, which read back as year, month and day. Read as a date
/// text, whose first section is the day, it is therefore the date with day
/// and year exchanged, where that passes the calendar rule, and no date
/// otherwise.
pub proof fn lemma_filename_holds_date(date: TuduDate)
    ensures
        split(filename_stem(date), '-') == seq![
            zero_padded(date.year as nat, 4),
            zero_padded(date.month as nat, 2),
            zero_padded(date.day as nat, 2),
        ],
        section_value(zero_padded(date.year as nat, 4)) == Some(date.year),
        section_value(zero_padded(date.month as nat, 2)) == Some(date.month),
        section_value(zero_padded(date.day as nat, 2)) == Some(date.day),
        date_text_of(filename_stem(date)) == if valid_day_month(date.year, date.month) {
            Some(DateText::Full(date.year, date.month, date.day))
        } else {
            None
        },
{
    let y = zero_padded(date.year as nat, 4);
    let m = zero_padded(date.month as nat, 2);
    let d = zero_padded(date.day as nat, 2);
    let stem = filename_stem(date);
    lemma_zero_padded_reads_back(date.year as nat, 4);
    lemma_zero_padded_reads_back(date.month as nat, 2);
    lemma_zero_padded_reads_back(date.day as nat, 2);
    assert(!is_digit('-'));
    lemma_split_single(d, '-');
    lemma_split_cons(m, '-', d);
    lemma_split_cons(y, '-', m + seq!['-'] + d);
    assert(stem =~= y + seq!['-'] + (m + seq!['-'] + d));
    assert(split(stem, '-') =~= seq![y, m, d]);
    assert(relative_word(stem) is None) by {
        reveal_strlit("today");
        reveal_strlit("tomorrow");
        reveal_strlit("yesterday");
        assert(stem[0] == y[0]);
        assert(is_digit(stem[0]));
    }
}

} // verus!
