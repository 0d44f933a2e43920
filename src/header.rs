//! The provenance header of an OpenAir document.
use vstd::prelude::*;
use crate::settings::{air_type_name, AirType, Format, Overlay, Settings};
use crate::text::{decimal, find_char, padded, push_char, push_padded};

verus! {

/// Text wrapped to lines of at most `width` columns by `textwrap::fill`.
pub uninterp spec fn filled(s: Seq<char>, width: nat) -> Seq<char>;

/// Relies on `textwrap::fill`: the text wrapped at the given width, which
/// depends on the text and the width alone.
#[verifier::external_body]
pub(crate) fn fill(text: &str, width: usize) -> (r: String)
    ensures
        r@ == filled(text@, width as nat),
{
    textwrap::fill(text, width)
}

/// Relies on `chrono::Utc::now` and `DateTime::to_rfc3339`: the current time
/// in RFC 3339 form. Nothing is known of its value.
#[verifier::external_body]
pub(crate) fn now_rfc3339() -> (r: String) {
    chrono::Utc::now().to_rfc3339()
}

/// One line of the header as a comment.
pub open spec fn comment_line(line: Seq<char>) -> Seq<char> {
    if line.len() == 0 {
        "*"@
    } else {
        "* "@ + line
    }
}

/// Every line of `s` (split at each newline) written as a comment and
/// ended by a newline.
pub open spec fn comment_lines(s: Seq<char>) -> Seq<char>
    decreases s.len(),
{
    let k = find_char(s, '\n', 0);
    let head = comment_line(s.subrange(0, k)) + "\n"@;
    if k >= s.len() || k < 0 {
        head
    } else {
        head + comment_lines(s.subrange(k + 1, s.len() as int))
    }
}

/// Writes every line of `text` as a comment.
pub fn comment(text: &str) -> (r: String)
    ensures
        r@ == comment_lines(text@),
    decreases text@.len(),
{
    let n = text.unicode_len();
    let mut k: usize = 0;
    while k < n && text.get_char(k) != '\n'
        invariant
            0 <= k <= n,
            n == text@.len(),
            find_char(text@, '\n', k as int) == find_char(text@, '\n', 0),
        decreases n - k,
    {
        k = k + 1;
    }
    let mut out = String::new();
    if k == 0 {
        out.append("*");
    } else {
        out.append("* ");
        out.append(text.substring_char(0, k));
    }
    out.append("\n");
    if k < n {
        let rest = comment(text.substring_char(k + 1, n));
        out.append(rest.as_str());
    }
    out
}

/// The debug name of an optional output type.
#[verifier::opaque]
pub open spec fn opt_air_text(o: Option<AirType>) -> Seq<char> {
    match o {
        None => "None"@,
        Some(t) => "Some("@ + air_type_name(t) + ")"@,
    }
}

/// A string in double quotes.
pub open spec fn quoted(s: Seq<char>) -> Seq<char> {
    seq!['"'] + s + seq!['"']
}

/// The quoted names of a list, separated by commas.
pub open spec fn list_items(v: Seq<String>) -> Seq<char>
    decreases v.len(),
{
    if v.len() == 0 {
        Seq::empty()
    } else if v.len() == 1 {
        quoted(v[0]@)
    } else {
        list_items(v.drop_last()) + ", "@ + quoted(v.last()@)
    }
}

/// A set of names in braces.
pub open spec fn set_text(v: Seq<String>) -> Seq<char> {
    "{"@ + list_items(v) + "}"@
}

pub open spec fn format_text(f: Format) -> Seq<char> {
    match f {
        Format::OpenAir => "OpenAir"@,
        Format::RatOnly => "RatOnly"@,
        Format::Competition => "Competition"@,
    }
}

pub open spec fn overlay_text(o: Option<Overlay>) -> Seq<char> {
    match o {
        None => "None"@,
        Some(Overlay::FL195) => "Some(FL195)"@,
        Some(Overlay::FL105) => "Some(FL105)"@,
        Some(Overlay::AtzDz) => "Some(AtzDz)"@,
        Some(Overlay::AtzDzOnly) => "Some(AtzDzOnly)"@,
    }
}

pub open spec fn home_text(h: Option<String>) -> Seq<char> {
    match h {
        None => "None"@,
        Some(s) => "Some("@ + quoted(s@) + ")"@,
    }
}

/// The first half of the settings description.
pub open spec fn settings_head(s: Settings) -> Seq<char> {
    "Settings { atz: "@ + air_type_name(s.atz) + ", ils: "@ + opt_air_text(s.ils)
        + ", unlicensed: "@ + opt_air_text(s.unlicensed) + ", microlight: "@ + opt_air_text(
        s.microlight,
    ) + ", gliding: "@ + opt_air_text(s.gliding) + ", home: "@ + home_text(s.home)
        + ", hirta_gvs: "@ + opt_air_text(s.hirta_gvs) + ", obstacle: "@ + opt_air_text(s.obstacle)
}

/// The second half of the settings description.
pub open spec fn settings_tail(s: Settings) -> Seq<char> {
    ", max_level: "@ + decimal(s.max_level as nat) + ", radio: "@ + (if s.radio {
        "true"@
    } else {
        "false"@
    }) + ", format: "@ + format_text(s.format) + ", overlay: "@ + overlay_text(s.overlay)
        + ", loa: "@ + set_text(s.loa@) + ", rat: "@ + set_text(s.rat@) + ", wave: "@ + set_text(
        s.wave@,
    ) + " }"@
}

/// A one-line description of the settings, in the style of `Debug`.
pub open spec fn settings_text(s: Settings) -> Seq<char> {
    settings_head(s) + settings_tail(s)
}

fn push_air_name(out: &mut String, t: AirType)
    ensures
        final(out)@ == old(out)@ + air_type_name(t),
{
    reveal(air_type_name);
    out.append(
        match t {
            AirType::ClassA => "ClassA",
            AirType::ClassB => "ClassB",
            AirType::ClassC => "ClassC",
            AirType::ClassD => "ClassD",
            AirType::ClassE => "ClassE",
            AirType::ClassF => "ClassF",
            AirType::ClassG => "ClassG",
            AirType::Danger => "Danger",
            AirType::Cta => "Cta",
            AirType::Ctr => "Ctr",
            AirType::Gliding => "Gliding",
            AirType::Matz => "Matz",
            AirType::Other => "Other",
            AirType::Prohibited => "Prohibited",
            AirType::Restricted => "Restricted",
            AirType::Rmz => "Rmz",
            AirType::Tmz => "Tmz",
        },
    );
}

fn push_opt_air(out: &mut String, label: &str, o: Option<AirType>)
    ensures
        final(out)@ == old(out)@ + label@ + opt_air_text(o),
{
    let ghost start = out@;
    reveal(opt_air_text);
    out.append(label);
    match o {
        None => {
            out.append("None");
        },
        Some(t) => {
            out.append("Some(");
            push_air_name(out, t);
            out.append(")");
        },
    }
    assert(out@ =~= start + label@ + opt_air_text(o));
}

fn push_quoted(out: &mut String, s: &str)
    ensures
        final(out)@ == old(out)@ + quoted(s@),
{
    let ghost start = out@;
    push_char(out, '"');
    out.append(s);
    push_char(out, '"');
    assert(out@ =~= start + quoted(s@));
}

fn push_set(out: &mut String, label: &str, v: &Vec<String>)
    ensures
        final(out)@ == old(out)@ + label@ + set_text(v@),
{
    let ghost start = out@;
    out.append(label);
    out.append("{");
    let ghost mid = out@;
    let mut i: usize = 0;
    while i < v.len()
        invariant
            0 <= i <= v.len(),
            out@ == mid + list_items(v@.subrange(0, i as int)),
        decreases v.len() - i,
    {
        let ghost before = out@;
        if i > 0 {
            out.append(", ");
        }
        push_quoted(out, v[i].as_str());
        let ghost sub = v@.subrange(0, i + 1);
        assert(sub.drop_last() == v@.subrange(0, i as int));
        assert(sub.last() == v@[i as int]);
        assert(out@ =~= mid + list_items(sub));
        i = i + 1;
    }
    assert(v@.subrange(0, v.len() as int) == v@);
    out.append("}");
    assert(out@ =~= start + label@ + set_text(v@));
}

fn push_home(out: &mut String, h: &Option<String>)
    ensures
        final(out)@ == old(out)@ + ", home: "@ + home_text(*h),
{
    let ghost start = out@;
    out.append(", home: ");
    match h {
        None => {
            out.append("None");
        },
        Some(h) => {
            out.append("Some(");
            push_quoted(out, h.as_str());
            out.append(")");
        },
    }
    assert(out@ =~= start + ", home: "@ + home_text(*h));
}

fn push_head(out: &mut String, s: &Settings)
    ensures
        final(out)@ == old(out)@ + settings_head(*s),
{
    let ghost start = out@;
    out.append("Settings { atz: ");
    push_air_name(out, s.atz);
    let ghost p = "Settings { atz: "@ + air_type_name(s.atz);
    assert(out@ =~= start + p);
    push_opt_air(out, ", ils: ", s.ils);
    let ghost p = p + ", ils: "@ + opt_air_text(s.ils);
    assert(out@ =~= start + p);
    push_opt_air(out, ", unlicensed: ", s.unlicensed);
    let ghost p = p + ", unlicensed: "@ + opt_air_text(s.unlicensed);
    assert(out@ =~= start + p);
    push_opt_air(out, ", microlight: ", s.microlight);
    let ghost p = p + ", microlight: "@ + opt_air_text(s.microlight);
    assert(out@ =~= start + p);
    push_opt_air(out, ", gliding: ", s.gliding);
    let ghost p = p + ", gliding: "@ + opt_air_text(s.gliding);
    assert(out@ =~= start + p);
    push_home(out, &s.home);
    let ghost p = p + ", home: "@ + home_text(s.home);
    assert(out@ =~= start + p);
    push_opt_air(out, ", hirta_gvs: ", s.hirta_gvs);
    let ghost p = p + ", hirta_gvs: "@ + opt_air_text(s.hirta_gvs);
    assert(out@ =~= start + p);
    push_opt_air(out, ", obstacle: ", s.obstacle);
    let ghost p = p + ", obstacle: "@ + opt_air_text(s.obstacle);
    assert(out@ =~= start + p);
    assert(p == settings_head(*s));
}

fn push_tail(out: &mut String, s: &Settings)
    ensures
        final(out)@ == old(out)@ + settings_tail(*s),
{
    let ghost start = out@;
    out.append(", max_level: ");
    push_padded(out, s.max_level as u64, 0);
    assert(padded(s.max_level as nat, 0) == decimal(s.max_level as nat));
    let ghost p = ", max_level: "@ + decimal(s.max_level as nat);
    assert(out@ =~= start + p);
    out.append(", radio: ");
    out.append(if s.radio { "true" } else { "false" });
    let ghost p = p + ", radio: "@ + (if s.radio { "true"@ } else { "false"@ });
    assert(out@ =~= start + p);
    out.append(", format: ");
    out.append(
        match s.format {
            Format::OpenAir => "OpenAir",
            Format::RatOnly => "RatOnly",
            Format::Competition => "Competition",
        },
    );
    let ghost p = p + ", format: "@ + format_text(s.format);
    assert(out@ =~= start + p);
    out.append(", overlay: ");
    out.append(
        match s.overlay {
            None => "None",
            Some(Overlay::FL195) => "Some(FL195)",
            Some(Overlay::FL105) => "Some(FL105)",
            Some(Overlay::AtzDz) => "Some(AtzDz)",
            Some(Overlay::AtzDzOnly) => "Some(AtzDzOnly)",
        },
    );
    let ghost p = p + ", overlay: "@ + overlay_text(s.overlay);
    assert(out@ =~= start + p);
    push_set(out, ", loa: ", &s.loa);
    let ghost p = p + ", loa: "@ + set_text(s.loa@);
    assert(out@ =~= start + p);
    push_set(out, ", rat: ", &s.rat);
    let ghost p = p + ", rat: "@ + set_text(s.rat@);
    assert(out@ =~= start + p);
    push_set(out, ", wave: ", &s.wave);
    let ghost p = p + ", wave: "@ + set_text(s.wave@);
    assert(out@ =~= start + p);
    out.append(" }");
    let ghost p = p + " }"@;
    assert(out@ =~= start + p);
    assert(p == settings_tail(*s));
}

impl Settings {
    /// A one-line description of the settings.
    pub fn describe(&self) -> (r: String)
        ensures
            r@ == settings_text(*self),
    {
        let mut out = String::new();
        push_head(&mut out, self);
        push_tail(&mut out, self);
        out
    }
}

} // verus!
