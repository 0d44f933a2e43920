//! Boundary geometry: positions, distances, and the rendering of boundary
//! segments as OpenAir directives or as polygons.
//!
//! Geodesic computations are supplied by the caller as two functions: the
//! initial bearing from one position to another, and the destination reached
//! from a position along a heading. Both are required to be deterministic.
use vstd::prelude::*;
use crate::text::{
    all_digits, decimal, digits_value, find, find_char, is_digit, padded, parse_digits, push_char,
    push_padded, str_eq,
};

verus! {

/// A position in arc-seconds, north and east positive.
#[derive(Clone, Copy, Debug, PartialEq, Eq, Structural)]
pub struct Position {
    pub lat: i32,
    pub lon: i32,
}

/// A computed point, rounded to whole arc-seconds: the magnitude of each
/// coordinate and whether it lies south or west.
#[derive(Clone, Copy, Debug, PartialEq, Eq, Structural)]
pub struct DmsPoint {
    pub south: bool,
    pub lat: u32,
    pub west: bool,
    pub lon: u32,
}

/// A heading of `num / den` degrees clockwise from north.
#[derive(Clone, Copy, Debug, PartialEq, Eq, Structural)]
pub struct Heading {
    pub num: u64,
    pub den: u64,
}

pub open spec fn digit_at(s: Seq<char>, i: int) -> int {
    s[i] as int - 48
}

/// A position written `DDMMSSH DDDMMSSH`, with hemisphere letters N/S and E/W.
pub open spec fn valid_latlon(s: Seq<char>) -> bool {
    &&& s.len() == 16
    &&& forall|i: int| 0 <= i < 6 ==> is_digit(#[trigger] s[i])
    &&& forall|i: int| 8 <= i < 15 ==> is_digit(#[trigger] s[i])
    &&& (s[6] == 'N' || s[6] == 'S')
    &&& s[7] == ' '
    &&& (s[15] == 'E' || s[15] == 'W')
}

/// The OpenAir form of a position: `DD:MM:SS H DDD:MM:SS H`.
pub open spec fn latlon_text(s: Seq<char>) -> Seq<char> {
    seq![
        s[0], s[1], ':', s[2], s[3], ':', s[4], s[5], ' ', s[6], ' ',
        s[8], s[9], s[10], ':', s[11], s[12], ':', s[13], s[14], ' ', s[15],
    ]
}

/// The position a well-formed position string denotes.
pub open spec fn position_of(s: Seq<char>) -> Position {
    let lat = (digit_at(s, 0) * 10 + digit_at(s, 1)) * 3600 + (digit_at(s, 2) * 10 + digit_at(
        s,
        3,
    )) * 60 + digit_at(s, 4) * 10 + digit_at(s, 5);
    let lon = (digit_at(s, 8) * 100 + digit_at(s, 9) * 10 + digit_at(s, 10)) * 3600 + (digit_at(
        s,
        11,
    ) * 10 + digit_at(s, 12)) * 60 + digit_at(s, 13) * 10 + digit_at(s, 14);
    Position {
        lat: (if s[6] == 'S' { -lat } else { lat }) as i32,
        lon: (if s[15] == 'W' { -lon } else { lon }) as i32,
    }
}

/// Whether `s` is a well-formed position.
pub fn check_latlon(s: &str) -> (r: bool)
    ensures
        r == valid_latlon(s@),
{
    if s.unicode_len() != 16 {
        return false;
    }
    let mut i: usize = 0;
    while i < 15
        invariant
            s@.len() == 16,
            0 <= i <= 15,
            forall|j: int| 0 <= j < i && j != 6 && j != 7 ==> is_digit(#[trigger] s@[j]),
        decreases 15 - i,
    {
        if i != 6 && i != 7 {
            let c = s.get_char(i);
            if !('0' <= c && c <= '9') {
                assert(!is_digit(s@[i as int]));
                return false;
            }
        }
        i = i + 1;
    }
    let h1 = s.get_char(6);
    let sp = s.get_char(7);
    let h2 = s.get_char(15);
    (h1 == 'N' || h1 == 'S') && sp == ' ' && (h2 == 'E' || h2 == 'W')
}

/// Reads a well-formed position.
pub fn parse_latlon(s: &str) -> (p: Position)
    requires
        valid_latlon(s@),
    ensures
        p == position_of(s@),
{
    let mut d: [i32; 16] = [0; 16];
    let mut i: usize = 0;
    while i < 16
        invariant
            0 <= i <= 16,
            valid_latlon(s@),
            forall|j: int| 0 <= j < i && j != 6 && j != 7 && j != 15 ==> d[j] == digit_at(s@, j),
        decreases 16 - i,
    {
        if i != 6 && i != 7 && i != 15 {
            let c = s.get_char(i);
            assert(is_digit(s@[i as int]));
            d[i] = (c as u32 as i32) - 48;
        }
        i = i + 1;
    }
    let lat = (d[0] * 10 + d[1]) * 3600 + (d[2] * 10 + d[3]) * 60 + d[4] * 10 + d[5];
    let lon = (d[8] * 100 + d[9] * 10 + d[10]) * 3600 + (d[11] * 10 + d[12]) * 60 + d[13] * 10
        + d[14];
    let south = s.get_char(6) == 'S';
    let west = s.get_char(15) == 'W';
    Position { lat: if south { -lat } else { lat }, lon: if west { -lon } else { lon } }
}

/// The OpenAir form of a well-formed position.
pub fn format_latlon(latlon: &str) -> (r: String)
    requires
        valid_latlon(latlon@),
    ensures
        r@ == latlon_text(latlon@),
{
    let mut out = String::new();
    push_char(&mut out, latlon.get_char(0));
    push_char(&mut out, latlon.get_char(1));
    push_char(&mut out, ':');
    push_char(&mut out, latlon.get_char(2));
    push_char(&mut out, latlon.get_char(3));
    push_char(&mut out, ':');
    push_char(&mut out, latlon.get_char(4));
    push_char(&mut out, latlon.get_char(5));
    push_char(&mut out, ' ');
    push_char(&mut out, latlon.get_char(6));
    push_char(&mut out, ' ');
    push_char(&mut out, latlon.get_char(8));
    push_char(&mut out, latlon.get_char(9));
    push_char(&mut out, latlon.get_char(10));
    push_char(&mut out, ':');
    push_char(&mut out, latlon.get_char(11));
    push_char(&mut out, latlon.get_char(12));
    push_char(&mut out, ':');
    push_char(&mut out, latlon.get_char(13));
    push_char(&mut out, latlon.get_char(14));
    push_char(&mut out, ' ');
    push_char(&mut out, latlon.get_char(15));
    assert(out@ =~= latlon_text(latlon@));
    out
}

/// A point directive: `DP ` then the position, then a newline.
pub open spec fn point_line(s: Seq<char>) -> Seq<char> {
    "DP "@ + latlon_text(s) + "\n"@
}

/// Writes the point directive of a well-formed position.
pub fn do_point(point: &str) -> (r: String)
    requires
        valid_latlon(point@),
    ensures
        r@ == point_line(point@),
{
    let mut out = String::new();
    out.append("DP ");
    let p = format_latlon(point);
    out.append(p.as_str());
    out.append("\n");
    out
}

/// Degrees, minutes and seconds of a magnitude in arc-seconds, the degrees
/// padded to `w` digits.
pub open spec fn dms_text(v: u32, w: nat) -> Seq<char> {
    padded((v / 3600) as nat, w) + seq![':'] + padded(((v / 60) % 60) as nat, 2) + seq![':']
        + padded((v % 60) as nat, 2)
}

/// The point directive of a computed point.
pub open spec fn dms_line(p: DmsPoint) -> Seq<char> {
    "DP "@ + dms_text(p.lat, 2) + seq![' ', if p.south { 'S' } else { 'N' }, ' '] + dms_text(p.lon, 3)
        + seq![' ', if p.west { 'W' } else { 'E' }, '\n']
}

/// Splits arc-seconds into degrees, minutes and seconds.
pub fn degrees_to_dms(seconds: u32) -> (r: (u32, u32, u32))
    ensures
        r.0 * 3600 + r.1 * 60 + r.2 == seconds,
        r.1 < 60,
        r.2 < 60,
        r == (seconds / 3600, (seconds / 60) % 60, seconds % 60),
{
    let min = seconds / 60;
    let sec = seconds % 60;
    let deg = min / 60;
    let min = min % 60;
    (deg, min, sec)
}

fn push_dms(out: &mut String, v: u32, w: usize)
    ensures
        final(out)@ == old(out)@ + dms_text(v, w as nat),
{
    let ghost start = out@;
    let (deg, min, sec) = degrees_to_dms(v);
    push_padded(out, deg as u64, w);
    push_char(out, ':');
    push_padded(out, min as u64, 2);
    push_char(out, ':');
    push_padded(out, sec as u64, 2);
    assert(out@ =~= start + dms_text(v, w as nat));
}

/// Writes the point directive of a computed point.
pub fn degrees_to_point(out: &mut String, p: DmsPoint)
    ensures
        final(out)@ == old(out)@ + dms_line(p),
{
    let ghost start = out@;
    out.append("DP ");
    push_dms(out, p.lat, 2);
    push_char(out, ' ');
    push_char(out, if p.south { 'S' } else { 'N' });
    push_char(out, ' ');
    let ghost mid = out@;
    push_dms(out, p.lon, 3);
    push_char(out, ' ');
    push_char(out, if p.west { 'W' } else { 'E' });
    push_char(out, '\n');
    assert(out@ =~= start + dms_line(p));
}

/// The computed point that stands exactly at a position.
pub open spec fn dms_of(p: Position) -> DmsPoint {
    DmsPoint {
        south: p.lat < 0,
        lat: (if p.lat < 0 { -p.lat } else { p.lat as int }) as u32,
        west: p.lon < 0,
        lon: (if p.lon < 0 { -p.lon } else { p.lon as int }) as u32,
    }
}

pub open spec fn frac_scale(n: nat) -> nat {
    if n == 1 {
        100
    } else if n == 2 {
        10
    } else {
        1
    }
}

/// A decimal number (one to nine integer digits, optionally a point and one
/// to three fraction digits) in thousandths.
pub open spec fn thousandths(s: Seq<char>) -> Option<nat> {
    let k = find_char(s, '.', 0);
    let whole = s.subrange(0, k);
    let frac = if k < s.len() { s.subrange(k + 1, s.len() as int) } else { Seq::empty() };
    if 1 <= whole.len() <= 9 && all_digits(whole) && (k == s.len() || (1 <= frac.len() <= 3
        && all_digits(frac))) {
        Some(digits_value(whole) * 1000 + digits_value(frac) * frac_scale(frac.len()))
    } else {
        None
    }
}

/// Reads a decimal number in thousandths.
pub fn parse_thousandths(s: &str) -> (r: Option<u64>)
    ensures
        r is Some <==> thousandths(s@) is Some,
        r is Some ==> r->0 == thousandths(s@)->0 && r->0 < 1_000_000_000_000,
{
    let n = s.unicode_len();
    let k = find(s, '.');
    let ws = s.substring_char(0, k);
    let whole = match parse_digits(ws) {
        Some(w) => w,
        None => return None,
    };
    assert(s@.subrange(0, k as int) == ws@);
    if k == n {
        assert(digits_value(Seq::<char>::empty()) == 0);
        assert(thousandths(s@) == Some(whole as nat * 1000));
        return Some(whole * 1000);
    }
    let fs = s.substring_char(k + 1, n);
    let fl = fs.unicode_len();
    if fl > 3 {
        return None;
    }
    let frac = match parse_digits(fs) {
        Some(f) => f,
        None => return None,
    };
    proof {
        reveal_with_fuel(digits_value, 4);
    }
    let scale: u64 = if fl == 1 { 100 } else if fl == 2 { 10 } else { 1 };
    assert(frac < 1000) by {
        crate::text::lemma_digits_value_bound(fs@);
        reveal_with_fuel(crate::text::pow10, 4);
    }
    assert(fs@ == s@.subrange(k + 1, n as int));
    assert(scale == frac_scale(fs@.len()));
    assert(thousandths(s@) == Some(whole as nat * 1000 + frac as nat * scale as nat));
    Some(whole * 1000 + frac * scale)
}

/// Unit of a radius.
#[derive(Clone, Copy, Debug, PartialEq, Eq, Structural)]
pub enum Unit {
    NauticalMiles,
    Kilometres,
}

/// Thousandths of a kilometre written in nautical miles, three decimals,
/// rounded to nearest.
pub open spec fn nm_text(th: nat) -> Seq<char> {
    let n = (th * 1000 + 926) / 1852;
    decimal(n / 1000) + seq!['.'] + padded(n % 1000, 3)
}

/// The number and the unit of a distance: the text before the first space
/// and the text after it.
pub open spec fn distance_parts(s: Seq<char>) -> (Seq<char>, Seq<char>) {
    let k = find_char(s, ' ', 0);
    (s.subrange(0, k), if k < s.len() { s.subrange(k + 1, s.len() as int) } else { Seq::empty() })
}

/// The OpenAir form of a radius: converted to nautical miles where given in
/// kilometres, else the number as written; empty where no unit is given.
/// `None` where a distance in kilometres cannot be read.
pub open spec fn distance_text(s: Seq<char>) -> Option<Seq<char>> {
    let (dist, unit) = distance_parts(s);
    if find_char(s, ' ', 0) == s.len() {
        Some(Seq::empty())
    } else if unit == "km"@ {
        match thousandths(dist) {
            Some(th) => Some(nm_text(th)),
            None => None,
        }
    } else {
        Some(dist)
    }
}

/// A radius in millimetres: nautical miles of 1852 m, or kilometres.
pub open spec fn radius_mm_spec(s: Seq<char>) -> Option<nat> {
    let (dist, unit) = distance_parts(s);
    match thousandths(dist) {
        Some(th) => if unit == "nm"@ {
            Some(th * 1852)
        } else if unit == "km"@ {
            Some(th * 1000)
        } else {
            None
        },
        None => None,
    }
}

/// The OpenAir form of a radius.
pub fn format_distance(distance: &str) -> (r: Option<String>)
    ensures
        match r {
            Some(t) => distance_text(distance@) == Some(t@),
            None => distance_text(distance@) is None,
        },
{
    let n = distance.unicode_len();
    let k = find(distance, ' ');
    if k == n {
        return Some(String::new());
    }
    let dist = distance.substring_char(0, k);
    let unit = distance.substring_char(k + 1, n);
    assert(dist@ == distance_parts(distance@).0);
    assert(unit@ == distance_parts(distance@).1);
    if str_eq(unit, "km") {
        match parse_thousandths(dist) {
            Some(th) => {
                let nm = (th * 1000 + 926) / 1852;
                let mut out = String::new();
                push_padded(&mut out, nm / 1000, 0);
                push_char(&mut out, '.');
                push_padded(&mut out, nm % 1000, 3);
                assert(padded((nm / 1000) as nat, 0) == decimal((nm / 1000) as nat));
                assert(out@ == nm_text(th as nat));
                Some(out)
            },
            None => None,
        }
    } else {
        let mut out = String::new();
        out.append(dist);
        Some(out)
    }
}

/// A radius in millimetres.
pub fn radius_to_mm(radius: &str) -> (r: Option<u64>)
    ensures
        r is Some <==> radius_mm_spec(radius@) is Some,
        r is Some ==> r->0 == radius_mm_spec(radius@)->0,
{
    proof {
        reveal_strlit("nm");
        reveal_strlit("km");
    }
    let n = radius.unicode_len();
    let k = find(radius, ' ');
    let dist = radius.substring_char(0, k);
    let unit = if k < n { radius.substring_char(k + 1, n) } else { "" };
    proof {
        reveal_strlit("");
    }
    assert(dist@ == distance_parts(radius@).0);
    assert(unit@ == distance_parts(radius@).1);
    let th = match parse_thousandths(dist) {
        Some(t) => t,
        None => return None,
    };
    if str_eq(unit, "nm") {
        Some(th * 1852)
    } else if str_eq(unit, "km") {
        Some(th * 1000)
    } else {
        None
    }
}

} // verus!
