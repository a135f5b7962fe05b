//! The weather widget: the line it shows and the forecast behind it.

use vstd::prelude::*;
use crate::text::{
    append_decimal, append_right_aligned, append_signed, chars_of, contains, decimal,
    digits_value, is_digit, occurs_in, parse_i32, parsed_signed, right_aligned, signed_decimal,
};
use crate::widgets::json::{
    found_text, held, json_document, json_lengths, json_strings, length_at, parse_json, string_at,
};

verus! {

/// The number a condition code stands for: a code is three digits.
pub open spec fn code_number(code: Seq<char>) -> Option<int> {
    if code.len() == 3 && is_digit(code[0]) && is_digit(code[1]) && is_digit(code[2]) {
        Some(digits_value(code))
    } else {
        None
    }
}

/// The glyph for a condition by its number.
pub open spec fn condition_glyph(n: int) -> Seq<char> {
    if n == 113 {
        "\u{2600}\u{fe0f}"@
    } else if n == 116 {
        "\u{26c5}\u{fe0f}"@
    } else if n == 119 || n == 122 {
        "\u{2601}\u{fe0f}"@
    } else if n == 143 || n == 248 || n == 260 {
        "\u{1f32b}"@
    } else if n == 176 || n == 263 || n == 266 || n == 293 || n == 296 || n == 353 {
        "\u{1f326}"@
    } else if n == 179 || n == 182 || n == 185 || n == 281 || n == 284 || n == 299 || n == 302
        || n == 305 || n == 308 || n == 311 || n == 314 || n == 317 || n == 350 || n == 356 || n
        == 359 || n == 362 || n == 365 || n == 374 || n == 377 {
        "\u{1f327}"@
    } else if n == 200 || n == 386 || n == 392 {
        "\u{26c8}"@
    } else if n == 227 || n == 320 || n == 323 || n == 326 || n == 368 {
        "\u{1f328}"@
    } else if n == 230 || n == 329 || n == 332 || n == 335 || n == 338 || n == 371 || n == 395 {
        "\u{2744}\u{fe0f}"@
    } else if n == 389 {
        "\u{1f329}"@
    } else {
        "\u{2753}"@
    }
}

/// The glyph for a condition code. A text that is no known code gets a
/// question mark.
pub open spec fn emoji_of(code: Seq<char>) -> Seq<char> {
    match code_number(code) {
        Some(n) => condition_glyph(n),
        None => "\u{2753}"@,
    }
}

/// The glyph for a condition code.
pub fn get_emoji(code: &str) -> (r: &'static str)
    ensures
        r@ == emoji_of(code@),
{
    let cs = chars_of(code);
    if cs.len() != 3 {
        return "\u{2753}";
    }
    let a = cs[0];
    let b = cs[1];
    let c = cs[2];
    if !('0' <= a && a <= '9' && '0' <= b && b <= '9' && '0' <= c && c <= '9') {
        return "\u{2753}";
    }
    let n: u32 = (a as u32 - '0' as u32) * 100 + (b as u32 - '0' as u32) * 10 + (c as u32
        - '0' as u32);
    proof {
        reveal_with_fuel(digits_value, 4);
    }
    if n == 113 {
        "\u{2600}\u{fe0f}"
    } else if n == 116 {
        "\u{26c5}\u{fe0f}"
    } else if n == 119 || n == 122 {
        "\u{2601}\u{fe0f}"
    } else if n == 143 || n == 248 || n == 260 {
        "\u{1f32b}"
    } else if n == 176 || n == 263 || n == 266 || n == 293 || n == 296 || n == 353 {
        "\u{1f326}"
    } else if n == 179 || n == 182 || n == 185 || n == 281 || n == 284 || n == 299 || n == 302
        || n == 305 || n == 308 || n == 311 || n == 314 || n == 317 || n == 350 || n == 356 || n
        == 359 || n == 362 || n == 365 || n == 374 || n == 377 {
        "\u{1f327}"
    } else if n == 200 || n == 386 || n == 392 {
        "\u{26c8}"
    } else if n == 227 || n == 320 || n == 323 || n == 326 || n == 368 {
        "\u{1f328}"
    } else if n == 230 || n == 329 || n == 332 || n == 335 || n == 338 || n == 371 || n == 395 {
        "\u{2744}\u{fe0f}"
    } else if n == 389 {
        "\u{1f329}"
    } else {
        "\u{2753}"
    }
}

/// View of an optional text, or of `or` where there is none.
pub open spec fn text_or(t: Option<String>, or: Seq<char>) -> Seq<char> {
    match t {
        Some(s) => s@,
        None => or,
    }
}

fn pick<'a>(t: &'a Option<String>, or: &'a str) -> (r: &'a str)
    ensures
        r@ == text_or(*t, or@),
{
    match t {
        Some(s) => s.as_str(),
        None => or,
    }
}

/// The place whose weather is asked for: one town when the machine has an
/// address of the network there, the other town else.
pub fn location(addresses: &str) -> (r: &'static str)
    ensures
        r@ == if occurs_in(addresses@, "192.168.10"@) {
            "Cartagena"@
        } else {
            "Murcia"@
        },
{
    if contains(addresses, "192.168.10") {
        "Cartagena"
    } else {
        "Murcia"
    }
}

/// The address from which the forecast of a place is fetched.
pub fn forecast_url(place: &str) -> (r: String)
    ensures
        r@ == "https://wttr.in/"@ + place@ + "?format=j1"@,
{
    let mut out = String::from_str("https://wttr.in/");
    out.append(place);
    out.append("?format=j1");
    out
}

/// How likely each kind of weather is in one hour, in percent, as the
/// forecast writes it.
#[derive(Clone, Debug, PartialEq, Eq)]
pub struct Chances {
    pub fog: Option<String>,
    pub frost: Option<String>,
    pub overcast: Option<String>,
    pub rain: Option<String>,
    pub snow: Option<String>,
    pub sunshine: Option<String>,
    pub thunder: Option<String>,
    pub windy: Option<String>,
}

/// What one chance adds to the list: its label, a blank, the number and a
/// percent sign, where the forecast gives a number above zero; else nothing.
pub open spec fn chance_entry(label: Seq<char>, value: Option<String>) -> Option<Seq<char>> {
    match value {
        Some(v) => match parsed_signed(v@, i32::MIN as int, i32::MAX as int) {
            Some(n) => if n > 0 {
                Some(label + " "@ + signed_decimal(n) + "%"@)
            } else {
                None
            },
            None => None,
        },
        None => None,
    }
}

/// A list of entries after one more: entries are parted by a comma and a
/// blank.
pub open spec fn with_entry(list: Seq<char>, entry: Option<Seq<char>>) -> Seq<char> {
    match entry {
        Some(e) => if list.len() == 0 {
            e
        } else {
            list + ", "@ + e
        },
        None => list,
    }
}

/// The chances of one hour as a list, in a fixed order.
pub open spec fn chances_text(c: Chances) -> Seq<char> {
    let l0 = with_entry(Seq::empty(), chance_entry("Fog"@, c.fog));
    let l1 = with_entry(l0, chance_entry("Frost"@, c.frost));
    let l2 = with_entry(l1, chance_entry("Overcast"@, c.overcast));
    let l3 = with_entry(l2, chance_entry("Rain"@, c.rain));
    let l4 = with_entry(l3, chance_entry("Snow"@, c.snow));
    let l5 = with_entry(l4, chance_entry("Sunshine"@, c.sunshine));
    let l6 = with_entry(l5, chance_entry("Thunder"@, c.thunder));
    with_entry(l6, chance_entry("Wind"@, c.windy))
}

fn add_chance(list: &mut String, label: &str, value: &Option<String>)
    requires
        label@.len() > 0,
    ensures
        final(list)@ == with_entry(old(list)@, chance_entry(label@, *value)),
        old(list)@.len() > 0 ==> final(list)@.len() > 0,
{
    if let Some(v) = value {
        if let Some(n) = parse_i32(v.as_str()) {
            if n > 0 {
                if !list.as_str().is_empty() {
                    list.append(", ");
                }
                list.append(label);
                list.append(" ");
                append_signed(list, n as i64);
                list.append("%");
            }
        }
    }
}

/// The chances of one hour as a list.
pub fn format_chances(c: &Chances) -> (r: String)
    ensures
        r@ == chances_text(*c),
{
    proof {
        reveal_strlit("Fog");
        reveal_strlit("Frost");
        reveal_strlit("Overcast");
        reveal_strlit("Rain");
        reveal_strlit("Snow");
        reveal_strlit("Sunshine");
        reveal_strlit("Thunder");
        reveal_strlit("Wind");
    }
    let mut out = String::new();
    add_chance(&mut out, "Fog", &c.fog);
    add_chance(&mut out, "Frost", &c.frost);
    add_chance(&mut out, "Overcast", &c.overcast);
    add_chance(&mut out, "Rain", &c.rain);
    add_chance(&mut out, "Snow", &c.snow);
    add_chance(&mut out, "Sunshine", &c.sunshine);
    add_chance(&mut out, "Thunder", &c.thunder);
    add_chance(&mut out, "Wind", &c.windy);
    out
}

/// The weather now, as the forecast writes it.
#[derive(Clone, Debug, PartialEq, Eq)]
pub struct Current {
    pub code: Option<String>,
    pub temp: Option<String>,
    pub desc: Option<String>,
    pub feels: Option<String>,
    pub wind: Option<String>,
    pub humidity: Option<String>,
}

/// The forecast for one hour.
#[derive(Clone, Debug, PartialEq, Eq)]
pub struct Hour {
    pub time: Option<String>,
    pub code: Option<String>,
    pub feels: Option<String>,
    pub desc: Option<String>,
    pub chances: Chances,
}

/// The forecast for one day.
#[derive(Clone, Debug, PartialEq, Eq)]
pub struct Day {
    pub date: Option<String>,
    pub max: Option<String>,
    pub min: Option<String>,
    pub sunrise: Option<String>,
    pub sunset: Option<String>,
    pub hourly: Option<Vec<Hour>>,
}

/// A whole forecast.
#[derive(Clone, Debug, PartialEq, Eq)]
pub struct Report {
    pub current: Current,
    pub days: Option<Vec<Day>>,
}

/// What the widget shows: the line in the bar and the markup of the pop-up.
#[derive(Clone, Debug, PartialEq, Eq)]
pub struct WeatherUpdate {
    pub text: String,
    pub tooltip: String,
}

/// The quotient of `a` by a positive `b`, rounded towards zero.
pub open spec fn quotient_towards_zero(a: int, b: int) -> int {
    if a >= 0 {
        a / b
    } else {
        -((-a) / b)
    }
}

/// The hour of the day that a forecast hour is for. The forecast writes the
/// time as hours times a hundred; a time that is missing or no number counts
/// as midnight.
pub open spec fn hour_number(time: Option<String>) -> int {
    match parsed_signed(text_or(time, "0"@), i32::MIN as int, i32::MAX as int) {
        Some(t) => quotient_towards_zero(t, 100),
        None => 0,
    }
}

/// The hour of the day that a forecast hour is for.
pub fn hour_of(time: &Option<String>) -> (r: i32)
    ensures
        r == hour_number(*time),
{
    match parse_i32(pick(time, "0")) {
        Some(t) => t / 100,
        None => 0,
    }
}

/// Whether the hour `hour` of the day with index `day` is shown at the hour
/// `now`: of today, only the hours from two before now on.
pub open spec fn hour_is_shown(day: int, hour: int, now: int) -> bool {
    !(day == 0 && hour < now - 2)
}

/// A number in a field of two, filled with a zero. A negative number keeps its
/// sign and is not filled.
pub open spec fn two_digits(n: int) -> Seq<char> {
    if 0 <= n < 10 {
        "0"@ + signed_decimal(n)
    } else {
        signed_decimal(n)
    }
}

/// The line of the bar: the glyph of the weather now, two blanks and the
/// temperature.
pub open spec fn bar_text(c: Current) -> Seq<char> {
    emoji_of(text_or(c.code, ""@)) + "  "@ + text_or(c.temp, "?"@) + "\u{b0}"@
}

/// The head of the pop-up: the weather now.
pub open spec fn tooltip_head(c: Current) -> Seq<char> {
    "<tt><b>"@ + text_or(c.desc, ""@) + " "@ + text_or(c.temp, "?"@) + "\u{b0}</b>\n"@
        + "Feels like: "@ + text_or(c.feels, "?"@) + "\u{b0}\n"@ + "Wind: "@ + text_or(
        c.wind,
        "?"@,
    ) + "Km/h\n"@ + "Humidity: "@ + text_or(c.humidity, "?"@) + "%\n"@
}

/// The line of one forecast hour.
pub open spec fn hour_line(h: Hour) -> Seq<char> {
    let chances = chances_text(h.chances);
    two_digits(hour_number(h.time)) + " "@ + emoji_of(text_or(h.code, ""@)) + " "@
        + right_aligned(text_or(h.feels, "?"@), 3) + "\u{b0} "@ + text_or(h.desc, ""@) + (
    if chances.len() == 0 {
        Seq::empty()
    } else {
        ", "@ + chances
    }) + "\n"@
}

/// The lines of the first `upto` hours of a day, those that are shown.
pub open spec fn hour_lines(hours: Seq<Hour>, day: int, now: int, upto: int) -> Seq<char>
    decreases upto,
{
    if upto <= 0 {
        Seq::empty()
    } else {
        let h = hours[upto - 1];
        hour_lines(hours, day, now, upto - 1) + (if hour_is_shown(
            day,
            hour_number(h.time),
            now,
        ) {
            hour_line(h)
        } else {
            Seq::empty()
        })
    }
}

/// What stands before the date of the day with index `day`.
pub open spec fn day_title(day: int) -> Seq<char> {
    if day == 0 {
        "Today, "@
    } else if day == 1 {
        "Tomorrow, "@
    } else {
        Seq::empty()
    }
}

/// The first line of a day in the pop-up: what the day is, and its date.
pub open spec fn day_date_line(d: Day, day: int) -> Seq<char> {
    "\n<b>"@ + day_title(day) + text_or(d.date, ""@) + "</b>\n"@
}

/// The second line of a day in the pop-up: the highest and the lowest
/// temperature, sunrise and sunset.
pub open spec fn day_range_line(d: Day) -> Seq<char> {
    "\u{2b06}\u{fe0f} "@ + text_or(d.max, "?"@) + "\u{b0} \u{2b07}\u{fe0f} "@ + text_or(
        d.min,
        "?"@,
    ) + "\u{b0} "@ + "\u{1f305} "@ + text_or(d.sunrise, "?"@) + " \u{1f307} "@ + text_or(
        d.sunset,
        "?"@,
    ) + "\n"@
}

/// The part of the pop-up for one day.
pub open spec fn day_text(d: Day, day: int, now: int) -> Seq<char> {
    day_date_line(d, day) + day_range_line(d) + (match d.hourly {
        Some(hours) => hour_lines(hours@, day, now, hours@.len() as int),
        None => Seq::empty(),
    })
}

/// The parts of the pop-up for the first `upto` days.
pub open spec fn days_text(days: Seq<Day>, now: int, upto: int) -> Seq<char>
    decreases upto,
{
    if upto <= 0 {
        Seq::empty()
    } else {
        days_text(days, now, upto - 1) + day_text(days[upto - 1], upto - 1, now)
    }
}

/// How many days of a forecast are shown: three at most.
pub open spec fn days_shown(days: Option<Vec<Day>>) -> int {
    match days {
        Some(v) => if v@.len() < 3 {
            v@.len() as int
        } else {
            3
        },
        None => 0,
    }
}

/// The markup of the pop-up at the hour `now`.
pub open spec fn tooltip_text(r: Report, now: int) -> Seq<char> {
    tooltip_head(r.current) + (match r.days {
        Some(v) => days_text(v@, now, days_shown(r.days)),
        None => Seq::empty(),
    }) + "</tt>"@
}

fn append_two_digits(out: &mut String, n: i32)
    ensures
        final(out)@ == old(out)@ + two_digits(n as int),
{
    if 0 <= n && n < 10 {
        out.append("0");
    }
    append_signed(out, n as i64);
}

fn append_hour(out: &mut String, h: &Hour)
    ensures
        final(out)@ == old(out)@ + hour_line(*h),
{
    append_two_digits(out, hour_of(&h.time));
    out.append(" ");
    out.append(get_emoji(pick(&h.code, "")));
    out.append(" ");
    append_right_aligned(out, pick(&h.feels, "?"), 3);
    out.append("\u{b0} ");
    out.append(pick(&h.desc, ""));
    let chances = format_chances(&h.chances);
    if !chances.as_str().is_empty() {
        out.append(", ");
        out.append(chances.as_str());
    }
    out.append("\n");
}

fn append_day_date(out: &mut String, d: &Day, day: usize)
    ensures
        final(out)@ == old(out)@ + day_date_line(*d, day as int),
{
    out.append("\n<b>");
    if day == 0 {
        out.append("Today, ");
    } else if day == 1 {
        out.append("Tomorrow, ");
    }
    out.append(pick(&d.date, ""));
    out.append("</b>\n");
}

fn append_day_range(out: &mut String, d: &Day)
    ensures
        final(out)@ == old(out)@ + day_range_line(*d),
{
    out.append("\u{2b06}\u{fe0f} ");
    out.append(pick(&d.max, "?"));
    out.append("\u{b0} \u{2b07}\u{fe0f} ");
    out.append(pick(&d.min, "?"));
    out.append("\u{b0} ");
    out.append("\u{1f305} ");
    out.append(pick(&d.sunrise, "?"));
    out.append(" \u{1f307} ");
    out.append(pick(&d.sunset, "?"));
    out.append("\n");
}

fn append_hours(out: &mut String, hours: &Vec<Hour>, day: usize, now: u32)
    ensures
        final(out)@ == old(out)@ + hour_lines(hours@, day as int, now as int, hours@.len() as int),
{
    let mut i: usize = 0;
    while i < hours.len()
        invariant
            i <= hours.len(),
            out@ == old(out)@ + hour_lines(hours@, day as int, now as int, i as int),
        decreases hours.len() - i,
    {
        let h = &hours[i];
        let at = hour_of(&h.time);
        if !(day == 0 && (at as i64) < (now as i64) - 2) {
            append_hour(out, h);
        }
        i = i + 1;
    }
}

fn append_day(out: &mut String, d: &Day, day: usize, now: u32)
    ensures
        final(out)@ == old(out)@ + day_text(*d, day as int, now as int),
{
    append_day_date(out, d, day);
    append_day_range(out, d);
    if let Some(hours) = &d.hourly {
        append_hours(out, hours, day, now);
    }
}

/// What the widget shows for a forecast at the hour `now` of the day.
pub fn render_weather(report: &Report, now: u32) -> (r: WeatherUpdate)
    ensures
        r.text@ == bar_text(report.current),
        r.tooltip@ == tooltip_text(*report, now as int),
{
    let c = &report.current;
    let mut text = String::from_str(get_emoji(pick(&c.code, "")));
    text.append("  ");
    text.append(pick(&c.temp, "?"));
    text.append("\u{b0}");

    let mut tooltip = String::from_str("<tt><b>");
    tooltip.append(pick(&c.desc, ""));
    tooltip.append(" ");
    tooltip.append(pick(&c.temp, "?"));
    tooltip.append("\u{b0}</b>\n");
    tooltip.append("Feels like: ");
    tooltip.append(pick(&c.feels, "?"));
    tooltip.append("\u{b0}\n");
    tooltip.append("Wind: ");
    tooltip.append(pick(&c.wind, "?"));
    tooltip.append("Km/h\n");
    tooltip.append("Humidity: ");
    tooltip.append(pick(&c.humidity, "?"));
    tooltip.append("%\n");
    let ghost head = tooltip@;
    if let Some(days) = &report.days {
        let shown: usize = if days.len() < 3 {
            days.len()
        } else {
            3
        };
        let mut i: usize = 0;
        while i < shown
            invariant
                i <= shown,
                shown <= 3,
                shown <= days.len(),
                tooltip@ == head + days_text(days@, now as int, i as int),
            decreases shown - i,
        {
            append_day(&mut tooltip, &days[i], i, now);
            i = i + 1;
        }
    }
    tooltip.append("</tt>");
    WeatherUpdate { text, tooltip }
}

/// The string under `member` of the first element of the array at `list`;
/// none where there is no array at `list`.
pub open spec fn first_member(
    strings: Map<Seq<char>, Seq<char>>,
    lengths: Map<Seq<char>, nat>,
    list: Seq<char>,
    member: Seq<char>,
) -> Option<Seq<char>> {
    if lengths.contains_key(list) {
        held(strings, list + "/0"@ + member)
    } else {
        None
    }
}

/// Whether `c` holds the chances that the document states for the hour at
/// the pointer `hour`.
pub open spec fn is_chances(
    c: Chances,
    strings: Map<Seq<char>, Seq<char>>,
    hour: Seq<char>,
) -> bool {
    &&& found_text(c.fog) == held(strings, hour + "/chanceoffog"@)
    &&& found_text(c.frost) == held(strings, hour + "/chanceoffrost"@)
    &&& found_text(c.overcast) == held(strings, hour + "/chanceofovercast"@)
    &&& found_text(c.rain) == held(strings, hour + "/chanceofrain"@)
    &&& found_text(c.snow) == held(strings, hour + "/chanceofsnow"@)
    &&& found_text(c.sunshine) == held(strings, hour + "/chanceofsunshine"@)
    &&& found_text(c.thunder) == held(strings, hour + "/chanceofthunder"@)
    &&& found_text(c.windy) == held(strings, hour + "/chanceofwindy"@)
}

/// Whether `h` holds what the document states for the hour at the pointer
/// `hour`.
pub open spec fn is_hour(
    h: Hour,
    strings: Map<Seq<char>, Seq<char>>,
    lengths: Map<Seq<char>, nat>,
    hour: Seq<char>,
) -> bool {
    &&& found_text(h.time) == held(strings, hour + "/time"@)
    &&& found_text(h.code) == held(strings, hour + "/weatherCode"@)
    &&& found_text(h.feels) == held(strings, hour + "/FeelsLikeC"@)
    &&& found_text(h.desc) == first_member(strings, lengths, hour + "/weatherDesc"@, "/value"@)
    &&& is_chances(h.chances, strings, hour)
}

/// The pointer to element `i` of the array at `list`.
pub open spec fn element(list: Seq<char>, i: int) -> Seq<char> {
    list + "/"@ + decimal(i as nat)
}

/// Whether `hours` holds what the document states for the hours of the array
/// at the pointer `list`: nothing where there is no array, else every element
/// in order.
pub open spec fn is_hours(
    hours: Option<Vec<Hour>>,
    strings: Map<Seq<char>, Seq<char>>,
    lengths: Map<Seq<char>, nat>,
    list: Seq<char>,
) -> bool {
    match held(lengths, list) {
        Some(n) => hours matches Some(v) && v@.len() == n && forall|j: int|
            0 <= j < n ==> is_hour(#[trigger] v@[j], strings, lengths, element(list, j)),
        None => hours is None,
    }
}

/// Whether `d` holds what the document states for the day at the pointer
/// `day`.
pub open spec fn is_day(
    d: Day,
    strings: Map<Seq<char>, Seq<char>>,
    lengths: Map<Seq<char>, nat>,
    day: Seq<char>,
) -> bool {
    &&& found_text(d.date) == held(strings, day + "/date"@)
    &&& found_text(d.max) == held(strings, day + "/maxtempC"@)
    &&& found_text(d.min) == held(strings, day + "/mintempC"@)
    &&& found_text(d.sunrise) == first_member(strings, lengths, day + "/astronomy"@, "/sunrise"@)
    &&& found_text(d.sunset) == first_member(strings, lengths, day + "/astronomy"@, "/sunset"@)
    &&& is_hours(d.hourly, strings, lengths, day + "/hourly"@)
}

/// Whether `days` holds what the document states for its days.
pub open spec fn is_days(
    days: Option<Vec<Day>>,
    strings: Map<Seq<char>, Seq<char>>,
    lengths: Map<Seq<char>, nat>,
) -> bool {
    match held(lengths, "/weather"@) {
        Some(n) => days matches Some(v) && v@.len() == n && forall|i: int|
            0 <= i < n ==> is_day(#[trigger] v@[i], strings, lengths, element("/weather"@, i)),
        None => days is None,
    }
}

/// What the document states under `member` for the weather now: the weather
/// now is the first element of an array.
pub open spec fn now_member(
    strings: Map<Seq<char>, Seq<char>>,
    lengths: Map<Seq<char>, nat>,
    member: Seq<char>,
) -> Option<Seq<char>> {
    first_member(strings, lengths, "/current_condition"@, member)
}

/// Whether `c` holds what the document states for the weather now.
pub open spec fn is_current(
    c: Current,
    strings: Map<Seq<char>, Seq<char>>,
    lengths: Map<Seq<char>, nat>,
) -> bool {
    &&& found_text(c.code) == now_member(strings, lengths, "/weatherCode"@)
    &&& found_text(c.temp) == now_member(strings, lengths, "/temp_C"@)
    &&& found_text(c.feels) == now_member(strings, lengths, "/FeelsLikeC"@)
    &&& found_text(c.wind) == now_member(strings, lengths, "/windspeedKmph"@)
    &&& found_text(c.humidity) == now_member(strings, lengths, "/humidity"@)
    &&& found_text(c.desc) == if lengths.contains_key("/current_condition"@) {
        first_member(strings, lengths, "/current_condition/0/weatherDesc"@, "/value"@)
    } else {
        None
    }
}

/// Whether `r` holds what the document states as a forecast.
pub open spec fn is_report(
    r: Report,
    strings: Map<Seq<char>, Seq<char>>,
    lengths: Map<Seq<char>, nat>,
) -> bool {
    is_current(r.current, strings, lengths) && is_days(r.days, strings, lengths)
}

fn member(value: &serde_json::Value, base: &str, name: &str) -> (r: Option<String>)
    ensures
        found_text(r) == held(json_strings(*value), base@ + name@),
{
    let mut pointer = String::from_str(base);
    pointer.append(name);
    string_at(value, pointer.as_str())
}

fn first(value: &serde_json::Value, list: &str, name: &str) -> (r: Option<String>)
    ensures
        found_text(r) == first_member(json_strings(*value), json_lengths(*value), list@, name@),
{
    match length_at(value, list) {
        Some(_) => {
            let mut pointer = String::from_str(list);
            pointer.append("/0");
            pointer.append(name);
            string_at(value, pointer.as_str())
        },
        None => None,
    }
}

fn element_pointer(list: &str, i: usize) -> (r: String)
    ensures
        r@ == element(list@, i as int),
{
    let mut pointer = String::from_str(list);
    pointer.append("/");
    append_decimal(&mut pointer, i as u64);
    pointer
}

fn join_pointer(base: &str, name: &str) -> (r: String)
    ensures
        r@ == base@ + name@,
{
    let mut pointer = String::from_str(base);
    pointer.append(name);
    pointer
}

fn read_hour(value: &serde_json::Value, hour: &str) -> (h: Hour)
    ensures
        is_hour(h, json_strings(*value), json_lengths(*value), hour@),
{
    let described = join_pointer(hour, "/weatherDesc");
    Hour {
        time: member(value, hour, "/time"),
        code: member(value, hour, "/weatherCode"),
        feels: member(value, hour, "/FeelsLikeC"),
        desc: first(value, described.as_str(), "/value"),
        chances: Chances {
            fog: member(value, hour, "/chanceoffog"),
            frost: member(value, hour, "/chanceoffrost"),
            overcast: member(value, hour, "/chanceofovercast"),
            rain: member(value, hour, "/chanceofrain"),
            snow: member(value, hour, "/chanceofsnow"),
            sunshine: member(value, hour, "/chanceofsunshine"),
            thunder: member(value, hour, "/chanceofthunder"),
            windy: member(value, hour, "/chanceofwindy"),
        },
    }
}

fn read_hours(value: &serde_json::Value, list: &str) -> (hours: Option<Vec<Hour>>)
    ensures
        is_hours(hours, json_strings(*value), json_lengths(*value), list@),
{
    match length_at(value, list) {
        Some(n) => {
            let mut out: Vec<Hour> = Vec::new();
            let mut j: usize = 0;
            while j < n
                invariant
                    j <= n,
                    out.len() == j,
                    forall|k: int|
                        0 <= k < j ==> is_hour(
                            #[trigger] out@[k],
                            json_strings(*value),
                            json_lengths(*value),
                            element(list@, k),
                        ),
                decreases n - j,
            {
                let pointer = element_pointer(list, j);
                out.push(read_hour(value, pointer.as_str()));
                j = j + 1;
            }
            Some(out)
        },
        None => None,
    }
}

fn read_day(value: &serde_json::Value, day: &str) -> (d: Day)
    ensures
        is_day(d, json_strings(*value), json_lengths(*value), day@),
{
    let sky = join_pointer(day, "/astronomy");
    let hourly = join_pointer(day, "/hourly");
    Day {
        date: member(value, day, "/date"),
        max: member(value, day, "/maxtempC"),
        min: member(value, day, "/mintempC"),
        sunrise: first(value, sky.as_str(), "/sunrise"),
        sunset: first(value, sky.as_str(), "/sunset"),
        hourly: read_hours(value, hourly.as_str()),
    }
}

fn read_days(value: &serde_json::Value) -> (days: Option<Vec<Day>>)
    ensures
        is_days(days, json_strings(*value), json_lengths(*value)),
{
    match length_at(value, "/weather") {
        Some(n) => {
            let mut out: Vec<Day> = Vec::new();
            let mut i: usize = 0;
            while i < n
                invariant
                    i <= n,
                    out.len() == i,
                    forall|k: int|
                        0 <= k < i ==> is_day(
                            #[trigger] out@[k],
                            json_strings(*value),
                            json_lengths(*value),
                            element("/weather"@, k),
                        ),
                decreases n - i,
            {
                let pointer = element_pointer("/weather", i);
                out.push(read_day(value, pointer.as_str()));
                i = i + 1;
            }
            Some(out)
        },
        None => None,
    }
}

/// The forecast that a JSON value states: the weather now from the first
/// element of `current_condition`, the days from `weather`. What the value
/// does not state as a string is missing in the forecast.
pub fn report_from(value: &serde_json::Value) -> (r: Report)
    ensures
        is_report(r, json_strings(*value), json_lengths(*value)),
{
    let described = match length_at(value, "/current_condition") {
        Some(_) => first(value, "/current_condition/0/weatherDesc", "/value"),
        None => None,
    };
    Report {
        current: Current {
            code: first(value, "/current_condition", "/weatherCode"),
            temp: first(value, "/current_condition", "/temp_C"),
            desc: described,
            feels: first(value, "/current_condition", "/FeelsLikeC"),
            wind: first(value, "/current_condition", "/windspeedKmph"),
            humidity: first(value, "/current_condition", "/humidity"),
        },
        days: read_days(value),
    }
}

/// The forecast that a reply states. There is none where the reply is no
/// JSON.
pub fn read_report(reply: &str) -> (r: Option<Report>)
    ensures
        match json_document(reply@) {
            Some(document) => r matches Some(report) && is_report(report, document.0, document.1),
            None => r is None,
        },
{
    match parse_json(reply) {
        Some(value) => Some(report_from(&value)),
        None => None,
    }
}

} // verus!
