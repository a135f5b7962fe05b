//! The network widget: which interface carries the default route, what the
//! system says of it, and what the widget shows.

use vstd::prelude::*;
use crate::text::{
    append_decimal, append_right_aligned, chars_of, contains, decimal, find, first_at, lines,
    lines_of, occurs_in, parse_u32, parse_u64, parsed_unsigned, right_aligned, same_text,
    split_whitespace, strs, trim, trimmed, words,
};

verus! {

/// What the widget knows of the connection.
#[derive(Clone, Debug, PartialEq, Eq)]
pub struct NetworkInfo {
    pub interface: String,
    pub ssid: Option<String>,
    pub conn_type: String,
    pub ip_cidr: String,
    pub strength: Option<u32>,
    pub frequency: Option<u32>,
    pub up_speed: u64,
    pub down_speed: u64,
}

impl NetworkInfo {
    /// What the widget knows when no interface carries a default route.
    pub fn disconnected() -> (r: NetworkInfo)
        ensures
            r.interface@ == "none"@,
            r.ssid is None,
            r.conn_type@ == "Disconnected"@,
            r.ip_cidr@ == "0.0.0.0/0"@,
            r.strength is None,
            r.frequency is None,
            r.up_speed == 0,
            r.down_speed == 0,
    {
        NetworkInfo {
            interface: String::from_str("none"),
            ssid: None,
            conn_type: String::from_str("Disconnected"),
            ip_cidr: String::from_str("0.0.0.0/0"),
            strength: None,
            frequency: None,
            up_speed: 0,
            down_speed: 0,
        }
    }
}

/// What a connection is called: by radio or by wire.
pub fn connection_type(wireless: bool) -> (r: &'static str)
    ensures
        r@ == if wireless {
            "WiFi"@
        } else {
            "Ethernet"@
        },
{
    if wireless {
        "WiFi"
    } else {
        "Ethernet"
    }
}

/// The interface chosen so far and the metric of its route.
pub struct Choice {
    pub interface: Option<Seq<char>>,
    pub metric: int,
}

/// Whether the fields of a line of the routing table describe a default
/// route: there are more than six, and the second or the third is all zeros.
pub open spec fn is_default_route(fields: Seq<Seq<char>>) -> bool {
    fields.len() > 6 && (fields[1] == "00000000"@ || fields[2] == "00000000"@)
}

/// The metric of a route, from the seventh field of its line. A field that is
/// no number counts as the largest metric.
pub open spec fn route_metric(fields: Seq<Seq<char>>) -> int {
    match parsed_unsigned(fields[6], u32::MAX as int) {
        Some(m) => m,
        None => u32::MAX as int,
    }
}

/// The choice after one more line of the routing table: a default route with
/// a smaller metric than any before replaces the choice.
pub open spec fn choose_route(c: Choice, line: Seq<char>) -> Choice {
    let fields = words(line);
    if is_default_route(fields) && route_metric(fields) < c.metric {
        Choice { interface: Some(fields[0]), metric: route_metric(fields) }
    } else {
        c
    }
}

/// The choice after the lines `1` to `upto` of the routing table. Line zero
/// names the columns.
pub open spec fn route_choice(table: Seq<Seq<char>>, upto: int) -> Choice
    decreases upto,
{
    if upto <= 1 {
        Choice { interface: None, metric: u32::MAX as int }
    } else {
        choose_route(route_choice(table, upto - 1), table[upto - 1])
    }
}

/// The interface that carries the default route with the smallest metric, of
/// several such the first; none where the table has no default route whose
/// metric is below the largest.
pub open spec fn default_route(table: Seq<char>) -> Option<Seq<char>> {
    route_choice(lines_of(table), lines_of(table).len() as int).interface
}

/// View of an optional text.
pub open spec fn opt_text(t: Option<String>) -> Option<Seq<char>> {
    match t {
        Some(s) => Some(s@),
        None => None,
    }
}

/// The interface that carries the default route with the smallest metric.
pub fn default_interface(table: &str) -> (r: Option<String>)
    ensures
        opt_text(r) == default_route(table@),
{
    let rows = lines(table);
    let mut best: Option<String> = None;
    let mut least: u32 = u32::MAX;
    if rows.len() <= 1 {
        return None;
    }
    let mut i: usize = 1;
    while i < rows.len()
        invariant
            1 <= i <= rows.len(),
            strs(rows@) == lines_of(table@),
            opt_text(best) == route_choice(strs(rows@), i as int).interface,
            least == route_choice(strs(rows@), i as int).metric,
        decreases rows.len() - i,
    {
        let fields = split_whitespace(rows[i]);
        if fields.len() > 6 {
            if same_text(fields[1], "00000000") || same_text(fields[2], "00000000") {
                let metric = match parse_u32(fields[6]) {
                    Some(m) => m,
                    None => u32::MAX,
                };
                if metric < least {
                    least = metric;
                    best = Some(String::from_str(fields[0]));
                }
            }
        }
        i = i + 1;
    }
    best
}

/// The network name that the system reports, if it reports one.
pub fn ssid_of(reported: &str) -> (r: Option<String>)
    ensures
        opt_text(r) == if trimmed(reported@).len() == 0 {
            None
        } else {
            Some(trimmed(reported@))
        },
{
    let name = trim(reported);
    if name.is_empty() {
        None
    } else {
        Some(String::from_str(name))
    }
}

/// The position of the first field that reads `inet`, or the number of
/// fields where none does.
pub open spec fn inet_position(fields: Seq<Seq<char>>, from: int) -> int
    decreases fields.len() - from,
{
    if from < 0 || from >= fields.len() {
        fields.len() as int
    } else if fields[from] == "inet"@ {
        from
    } else {
        inet_position(fields, from + 1)
    }
}

/// The address that a line of the address listing states: the field after the
/// first field `inet`, in a line that holds `inet` and a blank.
pub open spec fn inet_of_line(line: Seq<char>) -> Option<Seq<char>> {
    let fields = words(line);
    let at = inet_position(fields, 0);
    if occurs_in(line, "inet "@) && at + 1 < fields.len() {
        Some(fields[at + 1])
    } else {
        None
    }
}

/// The first address that the lines from `from` on state.
pub open spec fn inet_from(listing: Seq<Seq<char>>, from: int) -> Option<Seq<char>>
    decreases listing.len() - from,
{
    if from < 0 || from >= listing.len() {
        None
    } else {
        match inet_of_line(listing[from]) {
            Some(a) => Some(a),
            None => inet_from(listing, from + 1),
        }
    }
}

fn find_inet(fields: &Vec<&str>) -> (at: usize)
    ensures
        at == inet_position(strs(fields@), 0),
        at <= fields.len(),
{
    let mut i: usize = 0;
    while i < fields.len()
        invariant
            i <= fields.len(),
            inet_position(strs(fields@), 0) == inet_position(strs(fields@), i as int),
        decreases fields.len() - i,
    {
        if same_text(fields[i], "inet") {
            return i;
        }
        i = i + 1;
    }
    i
}

/// The address of the interface, with its prefix length, as the address
/// listing states it.
pub fn inet_address(listing: &str) -> (r: Option<String>)
    ensures
        opt_text(r) == inet_from(lines_of(listing@), 0),
{
    let rows = lines(listing);
    let mut i: usize = 0;
    while i < rows.len()
        invariant
            i <= rows.len(),
            strs(rows@) == lines_of(listing@),
            inet_from(strs(rows@), 0) == inet_from(strs(rows@), i as int),
        decreases rows.len() - i,
    {
        if contains(rows[i], "inet ") {
            let fields = split_whitespace(rows[i]);
            let at = find_inet(&fields);
            if at < fields.len() && at + 1 < fields.len() {
                return Some(String::from_str(fields[at + 1]));
            }
        }
        i = i + 1;
    }
    None
}

/// The number in field `at` of a line, or zero where there is no such field
/// or it holds no number.
pub open spec fn counter_at(fields: Seq<Seq<char>>, at: int) -> int {
    if at < fields.len() {
        match parsed_unsigned(fields[at], u64::MAX as int) {
            Some(v) => v,
            None => 0,
        }
    } else {
        0
    }
}

/// The bytes received and sent that the first line naming `interface` states,
/// from line `from` of the device table on.
pub open spec fn traffic_from(table: Seq<Seq<char>>, interface: Seq<char>, from: int) -> Option<
    (int, int),
>
    decreases table.len() - from,
{
    if from < 0 || from >= table.len() {
        None
    } else if occurs_in(table[from], interface) {
        Some((counter_at(words(table[from]), 1), counter_at(words(table[from]), 9)))
    } else {
        traffic_from(table, interface, from + 1)
    }
}

fn counter(fields: &Vec<&str>, at: usize) -> (r: u64)
    ensures
        r == counter_at(strs(fields@), at as int),
{
    if at < fields.len() {
        match parse_u64(fields[at]) {
            Some(v) => v,
            None => 0,
        }
    } else {
        0
    }
}

/// The bytes received and sent by `interface` so far, as the device table
/// states them.
pub fn traffic(table: &str, interface: &str) -> (r: Option<(u64, u64)>)
    ensures
        match r {
            Some((rx, tx)) => traffic_from(lines_of(table@), interface@, 0) == Some(
                (rx as int, tx as int),
            ),
            None => traffic_from(lines_of(table@), interface@, 0) is None,
        },
{
    let rows = lines(table);
    let mut i: usize = 0;
    while i < rows.len()
        invariant
            i <= rows.len(),
            strs(rows@) == lines_of(table@),
            traffic_from(strs(rows@), interface@, 0) == traffic_from(
                strs(rows@),
                interface@,
                i as int,
            ),
        decreases rows.len() - i,
    {
        if contains(rows[i], interface) {
            let fields = split_whitespace(rows[i]);
            return Some((counter(&fields, 1), counter(&fields, 9)));
        }
        i = i + 1;
    }
    None
}

/// What the widget remembers between two polls.
#[derive(Clone, Debug, PartialEq, Eq)]
pub struct Counters {
    pub last_rx: u64,
    pub last_tx: u64,
    pub last_iface: String,
}

/// Eight times `n`, or the largest number of its width where that is too
/// large.
pub open spec fn bits_of(n: int) -> int {
    if n * 8 > u64::MAX {
        u64::MAX as int
    } else {
        n * 8
    }
}

/// The bits per poll that two readings of a byte counter amount to; a counter
/// that went back counts as still.
pub open spec fn rate(now: int, before: int) -> int {
    if now >= before {
        bits_of(now - before)
    } else {
        0
    }
}

impl Counters {
    /// Nothing remembered.
    pub fn new() -> (r: Counters)
        ensures
            r.last_rx == 0,
            r.last_tx == 0,
            r.last_iface@ == Seq::<char>::empty(),
    {
        Counters { last_rx: 0, last_tx: 0, last_iface: String::new() }
    }

    /// Takes note of the interface that carries the default route now. When
    /// it is another one than before, or none, the byte counts are forgotten.
    pub fn select(&mut self, interface: Option<&str>)
        ensures
            match interface {
                Some(name) => {
                    &&& final(self).last_iface@ == name@
                    &&& final(self).last_rx == if name@ == old(self).last_iface@ {
                        old(self).last_rx
                    } else {
                        0
                    }
                    &&& final(self).last_tx == if name@ == old(self).last_iface@ {
                        old(self).last_tx
                    } else {
                        0
                    }
                },
                None => {
                    &&& final(self).last_iface@ == Seq::<char>::empty()
                    &&& final(self).last_rx == 0
                    &&& final(self).last_tx == 0
                },
            },
    {
        match interface {
            Some(name) => {
                if !same_text(name, self.last_iface.as_str()) {
                    self.last_rx = 0;
                    self.last_tx = 0;
                    self.last_iface = String::from_str(name);
                }
            },
            None => {
                self.last_rx = 0;
                self.last_tx = 0;
                self.last_iface = String::new();
            },
        }
    }

    /// Takes a reading of the byte counters and returns the rates down and up
    /// in bits for the time since the reading before. There are no rates for
    /// the first reading.
    pub fn measure(&mut self, rx: u64, tx: u64) -> (r: (u64, u64))
        ensures
            final(self).last_rx == rx,
            final(self).last_tx == tx,
            final(self).last_iface == old(self).last_iface,
            r.0 == if old(self).last_rx > 0 {
                rate(rx as int, old(self).last_rx as int)
            } else {
                0
            },
            r.1 == if old(self).last_rx > 0 {
                rate(tx as int, old(self).last_tx as int)
            } else {
                0
            },
    {
        let rates = if self.last_rx > 0 {
            (times_eight(rx, self.last_rx), times_eight(tx, self.last_tx))
        } else {
            (0, 0)
        };
        self.last_rx = rx;
        self.last_tx = tx;
        rates
    }
}

fn times_eight(now: u64, before: u64) -> (r: u64)
    ensures
        r == rate(now as int, before as int),
{
    if now >= before {
        let bytes = now - before;
        if bytes > u64::MAX / 8 {
            u64::MAX
        } else {
            bytes * 8
        }
    } else {
        0
    }
}

/// A text up to its first slash, or the whole text where it has none.
pub open spec fn before_slash(s: Seq<char>, from: int) -> Seq<char>
    decreases s.len() - from,
{
    if from < 0 || from >= s.len() || s[from] == '/' {
        Seq::empty()
    } else {
        seq![s[from]] + before_slash(s, from + 1)
    }
}

/// The address without its prefix length.
pub fn bare_address(cidr: &str) -> (r: &str)
    ensures
        r@ == before_slash(cidr@, 0),
{
    let cs = chars_of(cidr);
    let mut i: usize = 0;
    while i < cs.len() && cs[i] != '/'
        invariant
            i <= cs.len(),
            forall|k: int| 0 <= k < i ==> cs[k] != '/',
        decreases cs.len() - i,
    {
        i = i + 1;
    }
    proof {
        lemma_before_slash(cs@, 0, i as int);
    }
    cidr.substring_char(0, i)
}

proof fn lemma_before_slash(s: Seq<char>, from: int, to: int)
    requires
        0 <= from <= to <= s.len(),
        forall|k: int| from <= k < to ==> s[k] != '/',
        to == s.len() || s[to] == '/',
    ensures
        before_slash(s, from) == s.subrange(from, to),
    decreases to - from,
{
    if from < to {
        lemma_before_slash(s, from + 1, to);
    }
}

/// The glyph of a kind of connection.
pub open spec fn connection_glyph(conn_type: Seq<char>) -> Seq<char> {
    if conn_type == "WiFi"@ {
        "\u{f1eb}"@
    } else {
        "\u{f796}"@
    }
}

/// The line of the bar: for a connection its glyph, two blanks, the network
/// name and a blank where there is a name, and the address without prefix
/// length.
pub open spec fn bar_text(info: NetworkInfo) -> Seq<char> {
    if info.interface@ == "none"@ {
        "\u{f796}  Disconnected"@
    } else {
        connection_glyph(info.conn_type@) + "  "@ + (match info.ssid {
            Some(name) => name@ + " "@,
            None => Seq::empty(),
        }) + before_slash(info.ip_cidr@, 0)
    }
}

/// The line of the bar.
pub fn display_text(info: &NetworkInfo) -> (r: String)
    ensures
        r@ == bar_text(*info),
{
    if same_text(info.interface.as_str(), "none") {
        String::from_str("\u{f796}  Disconnected")
    } else {
        let icon = if same_text(info.conn_type.as_str(), "WiFi") {
            "\u{f1eb}"
        } else {
            "\u{f796}"
        };
        let mut out = String::from_str(icon);
        out.append("  ");
        if let Some(name) = &info.ssid {
            out.append(name.as_str());
            out.append(" ");
        }
        out.append(bare_address(info.ip_cidr.as_str()));
        out
    }
}

/// The title of the pop-up.
pub fn title_markup(info: &NetworkInfo) -> (r: String)
    ensures
        r@ == "<b>"@ + (match info.ssid {
            Some(name) => name@,
            None => "Internet"@,
        }) + " @ "@ + info.conn_type@ + "</b>"@,
{
    let mut out = String::from_str("<b>");
    match &info.ssid {
        Some(name) => out.append(name.as_str()),
        None => out.append("Internet"),
    }
    out.append(" @ ");
    out.append(info.conn_type.as_str());
    out.append("</b>");
    out
}

/// The address line of the pop-up.
pub fn address_text(info: &NetworkInfo) -> (r: String)
    ensures
        r@ == "IP: "@ + info.ip_cidr@,
{
    let mut out = String::from_str("IP: ");
    out.append(info.ip_cidr.as_str());
    out
}

/// The wireless line of the pop-up. It is shown only where both the signal
/// strength and the frequency are known.
pub fn wireless_text(info: &NetworkInfo) -> (r: Option<String>)
    ensures
        match r {
            Some(t) => info.strength is Some && info.frequency is Some && t@ == "Strength: "@
                + decimal(info.strength.unwrap() as nat) + "%  Freq: "@ + decimal(
                info.frequency.unwrap() as nat,
            ) + "MHz"@,
            None => info.strength is None || info.frequency is None,
        },
{
    match (info.strength, info.frequency) {
        (Some(s), Some(f)) => {
            let mut out = String::from_str("Strength: ");
            append_decimal(&mut out, s as u64);
            out.append("%  Freq: ");
            append_decimal(&mut out, f as u64);
            out.append("MHz");
            Some(out)
        },
        _ => None,
    }
}

/// The traffic line of the pop-up, from the two rates as the caller has
/// written them: each in a field of seven.
pub fn traffic_text(up: &str, down: &str) -> (r: String)
    ensures
        r@ == "Up: "@ + right_aligned(up@, 7) + "bps  Down: "@ + right_aligned(down@, 7)
            + "bps"@,
{
    let mut out = String::from_str("Up: ");
    append_right_aligned(&mut out, up, 7);
    out.append("bps  Down: ");
    append_right_aligned(&mut out, down, 7);
    out.append("bps");
    out
}

/// The signal level that the lines `2` to `upto` of the wireless table state
/// for `interface`: the fourth field of the last line that names the
/// interface and has one. The first two lines name the columns.
pub open spec fn signal_upto(table: Seq<Seq<char>>, interface: Seq<char>, upto: int) -> Option<
    Seq<char>,
>
    decreases upto,
{
    if upto <= 2 {
        None
    } else {
        let line = table[upto - 1];
        if occurs_in(line, interface) && words(line).len() > 3 {
            Some(words(line)[3])
        } else {
            signal_upto(table, interface, upto - 1)
        }
    }
}

/// The signal level of `interface` as the wireless table writes it.
pub fn signal_field(table: &str, interface: &str) -> (r: Option<String>)
    ensures
        opt_text(r) == signal_upto(lines_of(table@), interface@, lines_of(table@).len() as int),
{
    let rows = lines(table);
    let mut level: Option<String> = None;
    if rows.len() <= 2 {
        return None;
    }
    let mut i: usize = 2;
    while i < rows.len()
        invariant
            2 <= i <= rows.len(),
            strs(rows@) == lines_of(table@),
            opt_text(level) == signal_upto(strs(rows@), interface@, i as int),
        decreases rows.len() - i,
    {
        if contains(rows[i], interface) {
            let fields = split_whitespace(rows[i]);
            if fields.len() > 3 {
                level = Some(String::from_str(fields[3]));
            }
        }
        i = i + 1;
    }
    level
}

/// The frequency that a wireless report states: the first word after the
/// first `Frequency:`, or `0` where no word follows; none where the report
/// does not state a frequency.
pub open spec fn frequency_in(report: Seq<char>) -> Option<Seq<char>> {
    if occurs_in(report, "Frequency:"@) {
        let at = choose|at: int| first_at(report, "Frequency:"@, at);
        let rest = words(report.subrange(at + 10, report.len() as int));
        if rest.len() > 0 {
            Some(rest[0])
        } else {
            Some("0"@)
        }
    } else {
        None
    }
}

/// At most one position is the first at which a text stands.
pub proof fn lemma_first_at_unique(hay: Seq<char>, needle: Seq<char>, a: int, b: int)
    requires
        first_at(hay, needle, a),
        first_at(hay, needle, b),
    ensures
        a == b,
{
}

/// The frequency that a wireless report states, as the report writes it.
pub fn frequency_field(report: &str) -> (r: Option<String>)
    ensures
        opt_text(r) == frequency_in(report@),
{
    proof {
        reveal_strlit("Frequency:");
    }
    match find(report, "Frequency:") {
        Some(at) => {
            proof {
                let chosen = choose|k: int| first_at(report@, "Frequency:"@, k);
                lemma_first_at_unique(report@, "Frequency:"@, at as int, chosen);
            }
            let len = report.unicode_len();
            let rest = report.substring_char(at + 10, len);
            let fields = split_whitespace(rest);
            if fields.len() > 0 {
                Some(String::from_str(fields[0]))
            } else {
                Some(String::from_str("0"))
            }
        },
        None => None,
    }
}

} // verus!
