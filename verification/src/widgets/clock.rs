//! The clock widget: the calendar of a year, three months to a row, as markup.

use vstd::prelude::*;
use chrono::Datelike;
use crate::text::{
    append_blanks, append_decimal, blanks, decimal, left_aligned, right_aligned, trim, trimmed,
};

verus! {

/// The number of days of a month. Months are counted from one; a number that
/// is no month counts thirty days.
pub open spec fn days_in_month(year: int, month: int) -> int {
    if month == 1 || month == 3 || month == 5 || month == 7 || month == 8 || month == 10 || month
        == 12 {
        31
    } else if month == 2 {
        if (year % 4 == 0 && year % 100 != 0) || year % 400 == 0 {
            29
        } else {
            28
        }
    } else {
        30
    }
}

/// The number of days of a month.
pub fn get_days_in_month(year: i32, month: u32) -> (days: u32)
    ensures
        days == days_in_month(year as int, month as int),
{
    if month == 1 || month == 3 || month == 5 || month == 7 || month == 8 || month == 10 || month
        == 12 {
        31
    } else if month == 2 {
        if (year % 4 == 0 && year % 100 != 0) || year % 400 == 0 {
            29
        } else {
            28
        }
    } else {
        30
    }
}

/// The English name of a month. A number that is no month has the empty name.
pub open spec fn month_title(month: int) -> Seq<char> {
    if month == 1 {
        "January"@
    } else if month == 2 {
        "February"@
    } else if month == 3 {
        "March"@
    } else if month == 4 {
        "April"@
    } else if month == 5 {
        "May"@
    } else if month == 6 {
        "June"@
    } else if month == 7 {
        "July"@
    } else if month == 8 {
        "August"@
    } else if month == 9 {
        "September"@
    } else if month == 10 {
        "October"@
    } else if month == 11 {
        "November"@
    } else if month == 12 {
        "December"@
    } else {
        ""@
    }
}

/// The English name of a month.
pub fn month_name(month: u32) -> (r: &'static str)
    ensures
        r@ == month_title(month as int),
        r@.len() <= 9,
{
    proof {
        reveal_strlit("January");
        reveal_strlit("February");
        reveal_strlit("March");
        reveal_strlit("April");
        reveal_strlit("May");
        reveal_strlit("June");
        reveal_strlit("July");
        reveal_strlit("August");
        reveal_strlit("September");
        reveal_strlit("October");
        reveal_strlit("November");
        reveal_strlit("December");
        reveal_strlit("");
    }
    if month == 1 {
        "January"
    } else if month == 2 {
        "February"
    } else if month == 3 {
        "March"
    } else if month == 4 {
        "April"
    } else if month == 5 {
        "May"
    } else if month == 6 {
        "June"
    } else if month == 7 {
        "July"
    } else if month == 8 {
        "August"
    } else if month == 9 {
        "September"
    } else if month == 10 {
        "October"
    } else if month == 11 {
        "November"
    } else if month == 12 {
        "December"
    } else {
        ""
    }
}

/// The day of the week on which a date of the proleptic Gregorian calendar
/// falls, counted from Monday as zero; none where there is no such date.
pub uninterp spec fn weekday_number(year: i32, month: u32, day: u32) -> Option<u32>;

/// chrono's `NaiveDate::from_ymd_opt`, then `Datelike::weekday` and
/// `Weekday::num_days_from_monday` of the date. The result is what chrono
/// says, under the name [`weekday_number`]; chrono counts the days from Monday
/// as zero to Sunday as six.
#[verifier::external_body]
fn weekday_of(year: i32, month: u32, day: u32) -> (r: Option<u32>)
    ensures
        r == weekday_number(year, month, day),
        r matches Some(d) ==> d < 7,
{
    match chrono::NaiveDate::from_ymd_opt(year, month, day) {
        Some(date) => Some(date.weekday().num_days_from_monday()),
        None => None,
    }
}

/// The heading of one month: its name, roughly centred in a field of twenty
/// characters, in a column of twenty-two.
pub open spec fn month_heading(month: int) -> Seq<char> {
    let name = month_title(month);
    let padding = ((20 - name.len()) / 2) as nat;
    left_aligned(blanks(padding) + left_aligned(name, padding), 22)
}

/// The line that names the days of the week, for one month.
pub open spec fn weekdays_heading() -> Seq<char> {
    "<span color='#ffcc66'>Mo Tu We Th Fr Sa Su</span>  "@
}

/// The day of the month that stands in cell `cell` of a month's grid, whose
/// cells are counted from zero along the weeks; zero where the cell is empty.
/// `first` is the weekday of the first of the month.
pub open spec fn day_in_cell(year: int, month: int, first: int, cell: int) -> int {
    let day = cell - first + 1;
    if 1 <= day <= days_in_month(year, month) {
        day
    } else {
        0
    }
}

/// One cell of a month's grid: three blanks where it is empty, else the day
/// in a field of two and a blank. Today is marked.
pub open spec fn day_cell(day: int, today: bool) -> Seq<char> {
    if day == 0 {
        "   "@
    } else if today {
        "<span color='#ff6699'><b><u>"@ + right_aligned(decimal(day as nat), 2)
            + "</u></b></span> "@
    } else {
        right_aligned(decimal(day as nat), 2) + " "@
    }
}

/// The cells `0` to `upto` of one week of a month.
pub open spec fn week_cells(
    year: int,
    month: int,
    first: int,
    week: int,
    today_month: int,
    today_day: int,
    upto: int,
) -> Seq<char>
    decreases upto,
{
    if upto <= 0 {
        Seq::empty()
    } else {
        let day = day_in_cell(year, month, first, week * 7 + upto - 1);
        week_cells(year, month, first, week, today_month, today_day, upto - 1) + day_cell(
            day,
            month == today_month && day == today_day,
        )
    }
}

/// One week of one month: seven cells and a blank.
pub open spec fn month_week(
    year: int,
    month: int,
    first: int,
    week: int,
    today_month: int,
    today_day: int,
) -> Seq<char> {
    week_cells(year, month, first, week, today_month, today_day, 7) + " "@
}

/// Line `line` of a row of three months that starts with the month `start`:
/// line zero holds the names, line one the days of the week, the six lines
/// after it the weeks. `firsts` holds the weekday of the first of each month
/// of the year.
pub open spec fn row_line(
    year: int,
    start: int,
    line: int,
    today_month: int,
    today_day: int,
    firsts: Seq<u32>,
) -> Seq<char> {
    if line == 0 {
        month_heading(start) + month_heading(start + 1) + month_heading(start + 2)
    } else if line == 1 {
        weekdays_heading() + weekdays_heading() + weekdays_heading()
    } else {
        month_week(year, start, firsts[start - 1] as int, line - 2, today_month, today_day)
            + month_week(
            year,
            start + 1,
            firsts[start] as int,
            line - 2,
            today_month,
            today_day,
        ) + month_week(
            year,
            start + 2,
            firsts[start + 1] as int,
            line - 2,
            today_month,
            today_day,
        )
    }
}

/// A line as it is printed: with a line break after it, or not at all where
/// it holds nothing but white space.
pub open spec fn printed(line: Seq<char>) -> Seq<char> {
    if trimmed(line).len() == 0 {
        Seq::empty()
    } else {
        line + "\n"@
    }
}

/// The lines `0` to `upto` of a row of three months, as printed.
pub open spec fn row_lines(
    year: int,
    start: int,
    today_month: int,
    today_day: int,
    firsts: Seq<u32>,
    upto: int,
) -> Seq<char>
    decreases upto,
{
    if upto <= 0 {
        Seq::empty()
    } else {
        row_lines(year, start, today_month, today_day, firsts, upto - 1) + printed(
            row_line(year, start, upto - 1, today_month, today_day, firsts),
        )
    }
}

/// A row of three months: its eight lines as printed, and an empty line.
pub open spec fn calendar_row(
    year: int,
    start: int,
    today_month: int,
    today_day: int,
    firsts: Seq<u32>,
) -> Seq<char> {
    row_lines(year, start, today_month, today_day, firsts, 8) + "\n"@
}

/// The calendar of a year as markup: four rows of three months, in small
/// fixed-width type.
pub open spec fn calendar_text(
    year: int,
    today_month: int,
    today_day: int,
    firsts: Seq<u32>,
) -> Seq<char> {
    "<tt><small>"@ + calendar_row(year, 1, today_month, today_day, firsts) + calendar_row(
        year,
        4,
        today_month,
        today_day,
        firsts,
    ) + calendar_row(year, 7, today_month, today_day, firsts) + calendar_row(
        year,
        10,
        today_month,
        today_day,
        firsts,
    ) + "</small></tt>"@
}

fn append_month_heading(out: &mut String, month: u32)
    requires
        1 <= month <= 12,
    ensures
        final(out)@ == old(out)@ + month_heading(month as int),
{
    let name = month_name(month);
    let len = name.unicode_len();
    let padding = (20 - len) / 2;
    append_blanks(out, padding);
    out.append(name);
    if len < padding {
        append_blanks(out, padding - len);
    }
    let used = if len < padding {
        padding + padding
    } else {
        padding + len
    };
    if used < 22 {
        append_blanks(out, 22 - used);
    }
}

fn append_day_cell(out: &mut String, day: u32, today: bool)
    requires
        day <= 31,
    ensures
        final(out)@ == old(out)@ + day_cell(day as int, today),
{
    if day == 0 {
        out.append("   ");
    } else {
        if today {
            out.append("<span color='#ff6699'><b><u>");
        }
        if day < 10 {
            append_blanks(out, 1);
        }
        append_decimal(out, day as u64);
        proof {
            lemma_short_decimal(day as nat);
        }
        if today {
            out.append("</u></b></span> ");
        } else {
            out.append(" ");
        }
    }
}

proof fn lemma_short_decimal(n: nat)
    requires
        n < 100,
    ensures
        decimal(n).len() == if n < 10 {
            1nat
        } else {
            2nat
        },
{
    if n >= 10 {
        assert(decimal(n / 10).len() == 1);
    }
}

fn append_month_week(
    out: &mut String,
    year: i32,
    month: u32,
    first: u32,
    week: u32,
    today_month: u32,
    today_day: u32,
)
    requires
        1 <= month <= 12,
        first < 7,
        week < 6,
    ensures
        final(out)@ == old(out)@ + month_week(
            year as int,
            month as int,
            first as int,
            week as int,
            today_month as int,
            today_day as int,
        ),
{
    let days = get_days_in_month(year, month);
    let mut d: u32 = 0;
    assert(out@ =~= old(out)@ + week_cells(
        year as int,
        month as int,
        first as int,
        week as int,
        today_month as int,
        today_day as int,
        0,
    ));
    while d < 7
        invariant
            d <= 7,
            week < 6,
            first < 7,
            days == days_in_month(year as int, month as int),
            out@ == old(out)@ + week_cells(
                year as int,
                month as int,
                first as int,
                week as int,
                today_month as int,
                today_day as int,
                d as int,
            ),
        decreases 7 - d,
    {
        let cell = week * 7 + d;
        let day: u32 = if cell >= first && cell - first + 1 <= days {
            cell - first + 1
        } else {
            0
        };
        append_day_cell(out, day, month == today_month && day == today_day);
        assert(out@ =~= old(out)@ + week_cells(
            year as int,
            month as int,
            first as int,
            week as int,
            today_month as int,
            today_day as int,
            d + 1,
        ));
        d = d + 1;
    }
    out.append(" ");
    assert(out@ =~= old(out)@ + month_week(
        year as int,
        month as int,
        first as int,
        week as int,
        today_month as int,
        today_day as int,
    ));
}

fn row_line_text(
    year: i32,
    start: u32,
    line: u32,
    today_month: u32,
    today_day: u32,
    firsts: &Vec<u32>,
) -> (r: String)
    requires
        start == 1 || start == 4 || start == 7 || start == 10,
        line < 8,
        firsts.len() == 12,
        forall|i: int| 0 <= i < 12 ==> firsts[i] < 7,
    ensures
        r@ == row_line(
            year as int,
            start as int,
            line as int,
            today_month as int,
            today_day as int,
            firsts@,
        ),
{
    let mut out = String::new();
    if line == 0 {
        append_month_heading(&mut out, start);
        append_month_heading(&mut out, start + 1);
        append_month_heading(&mut out, start + 2);
    } else if line == 1 {
        out.append("<span color='#ffcc66'>Mo Tu We Th Fr Sa Su</span>  ");
        out.append("<span color='#ffcc66'>Mo Tu We Th Fr Sa Su</span>  ");
        out.append("<span color='#ffcc66'>Mo Tu We Th Fr Sa Su</span>  ");
    } else {
        let week = line - 2;
        let a = (start - 1) as usize;
        append_month_week(&mut out, year, start, firsts[a], week, today_month, today_day);
        append_month_week(&mut out, year, start + 1, firsts[a + 1], week, today_month, today_day);
        append_month_week(&mut out, year, start + 2, firsts[a + 2], week, today_month, today_day);
    }
    assert(out@ =~= row_line(
        year as int,
        start as int,
        line as int,
        today_month as int,
        today_day as int,
        firsts@,
    ));
    out
}

fn append_row(
    out: &mut String,
    year: i32,
    start: u32,
    today_month: u32,
    today_day: u32,
    firsts: &Vec<u32>,
)
    requires
        start == 1 || start == 4 || start == 7 || start == 10,
        firsts.len() == 12,
        forall|i: int| 0 <= i < 12 ==> firsts[i] < 7,
    ensures
        final(out)@ == old(out)@ + calendar_row(
            year as int,
            start as int,
            today_month as int,
            today_day as int,
            firsts@,
        ),
{
    let mut line: u32 = 0;
    assert(out@ =~= old(out)@ + row_lines(
        year as int,
        start as int,
        today_month as int,
        today_day as int,
        firsts@,
        0,
    ));
    while line < 8
        invariant
            line <= 8,
            start == 1 || start == 4 || start == 7 || start == 10,
            firsts.len() == 12,
            forall|i: int| 0 <= i < 12 ==> firsts[i] < 7,
            out@ == old(out)@ + row_lines(
                year as int,
                start as int,
                today_month as int,
                today_day as int,
                firsts@,
                line as int,
            ),
        decreases 8 - line,
    {
        let text = row_line_text(year, start, line, today_month, today_day, firsts);
        if !trim(text.as_str()).is_empty() {
            out.append(text.as_str());
            out.append("\n");
        }
        assert(out@ =~= old(out)@ + row_lines(
            year as int,
            start as int,
            today_month as int,
            today_day as int,
            firsts@,
            line + 1,
        ));
        line = line + 1;
    }
    out.append("\n");
    assert(out@ =~= old(out)@ + calendar_row(
        year as int,
        start as int,
        today_month as int,
        today_day as int,
        firsts@,
    ));
}

/// The calendar of `year` as markup, with the day `today_day` of the month
/// `today_month` marked. `firsts` holds, for each of the twelve months, the
/// weekday of its first day, counted from Monday as zero.
pub fn calendar_markup(year: i32, today_month: u32, today_day: u32, firsts: &Vec<u32>) -> (r:
    String)
    requires
        firsts.len() == 12,
        forall|i: int| 0 <= i < 12 ==> firsts[i] < 7,
    ensures
        r@ == calendar_text(year as int, today_month as int, today_day as int, firsts@),
{
    let mut out = String::from_str("<tt><small>");
    append_row(&mut out, year, 1, today_month, today_day, firsts);
    append_row(&mut out, year, 4, today_month, today_day, firsts);
    append_row(&mut out, year, 7, today_month, today_day, firsts);
    append_row(&mut out, year, 10, today_month, today_day, firsts);
    out.append("</small></tt>");
    out
}

/// Whether the calendar knows every month of `year`.
pub open spec fn year_is_known(year: i32) -> bool {
    forall|m: int| 0 <= m < 12 ==> (#[trigger] weekday_number(year, (m + 1) as u32, 1)) is Some
}

/// The weekdays of the first days of the twelve months of a known `year`.
pub open spec fn month_starts(year: i32) -> Seq<u32> {
    Seq::new(12, |m: int| weekday_number(year, (m + 1) as u32, 1).unwrap())
}

/// The calendar of `year` as markup, with today marked. There is none for a
/// year of which the calendar does not know every month.
pub fn get_calendar_markup(year: i32, today_month: u32, today_day: u32) -> (r: Option<String>)
    ensures
        r is Some <==> year_is_known(year),
        r matches Some(text) ==> text@ == calendar_text(
            year as int,
            today_month as int,
            today_day as int,
            month_starts(year),
        ),
{
    let mut firsts: Vec<u32> = Vec::new();
    let mut month: u32 = 1;
    while month <= 12
        invariant
            1 <= month <= 13,
            firsts.len() == month - 1,
            forall|m: int| 0 <= m < month - 1 ==> firsts[m] < 7,
            forall|m: int|
                0 <= m < month - 1 ==> weekday_number(year, (m + 1) as u32, 1) == Some(
                    #[trigger] firsts[m],
                ),
        decreases 13 - month,
    {
        match weekday_of(year, month, 1) {
            Some(first) => {
                firsts.push(first);
            },
            None => {
                assert(weekday_number(year, ((month - 1) + 1) as u32, 1) is None);
                return None;
            },
        }
        month = month + 1;
    }
    assert(firsts@ =~= month_starts(year));
    let text = calendar_markup(year, today_month, today_day, &firsts);
    Some(text)
}

/// The text of the clock button: the clock glyph, two blanks and the time as
/// the caller has written it.
pub fn clock_label(time: &str) -> (r: String)
    ensures
        r@ == "\u{f017}  "@ + time@,
{
    let mut out = String::from_str("\u{f017}  ");
    out.append(time);
    out
}

} // verus!
