//! User settings that steer classification, filtering and output format.
use vstd::prelude::*;
use crate::text::{owned, parse_u16, parse_u16_spec, str_eq};

verus! {

/// Output airspace type.
#[derive(Clone, Copy, Debug, PartialEq, Eq, Structural)]
pub enum AirType {
    ClassA,
    ClassB,
    ClassC,
    ClassD,
    ClassE,
    ClassF,
    ClassG,
    Danger,
    Cta,
    Ctr,
    Gliding,
    Matz,
    Other,
    Prohibited,
    Restricted,
    Rmz,
    Tmz,
}

/// Output format.
#[derive(Clone, Copy, Debug, PartialEq, Eq, Structural)]
pub enum Format {
    OpenAir,
    RatOnly,
    Competition,
}

/// Altitude layer overlay.
#[derive(Clone, Copy, Debug, PartialEq, Eq, Structural)]
pub enum Overlay {
    FL195,
    FL105,
    AtzDz,
    AtzDzOnly,
}

/// Which of the optional name sets is meant.
#[derive(Clone, Copy, Debug, PartialEq, Eq, Structural)]
pub enum ExtraType {
    Rat,
    Loa,
    Wave,
}

/// User settings. The three name sets hold each name at most once.
#[derive(Clone, Debug)]
pub struct Settings {
    pub atz: AirType,
    pub ils: Option<AirType>,
    pub unlicensed: Option<AirType>,
    pub microlight: Option<AirType>,
    pub gliding: Option<AirType>,
    pub home: Option<String>,
    pub hirta_gvs: Option<AirType>,
    pub obstacle: Option<AirType>,
    pub max_level: u16,
    pub radio: bool,
    pub format: Format,
    pub overlay: Option<Overlay>,
    pub loa: Vec<String>,
    pub rat: Vec<String>,
    pub wave: Vec<String>,
}

/// The names held by a list of strings.
pub open spec fn names(v: Seq<String>) -> Set<Seq<char>> {
    Set::new(|s: Seq<char>| exists|i: int| 0 <= i < v.len() && v[i]@ == s)
}

/// No name is held twice.
pub open spec fn distinct_names(v: Seq<String>) -> bool {
    forall|i: int, j: int| 0 <= i < j < v.len() ==> v[i]@ != v[j]@
}

/// Whether `name` is in the list.
pub fn contains_name(v: &Vec<String>, name: &str) -> (r: bool)
    ensures
        r == names(v@).contains(name@),
{
    let mut i: usize = 0;
    while i < v.len()
        invariant
            0 <= i <= v.len(),
            forall|j: int| 0 <= j < i ==> v@[j]@ != name@,
        decreases v.len() - i,
    {
        if str_eq(v[i].as_str(), name) {
            assert(names(v@).contains(name@)) by {
                assert(v@[i as int]@ == name@);
            }
            return true;
        }
        i = i + 1;
    }
    false
}

/// The name of each output type as the settings store it.
#[verifier::opaque]
pub open spec fn air_type_name(t: AirType) -> Seq<char> {
    match t {
        AirType::ClassA => "ClassA"@,
        AirType::ClassB => "ClassB"@,
        AirType::ClassC => "ClassC"@,
        AirType::ClassD => "ClassD"@,
        AirType::ClassE => "ClassE"@,
        AirType::ClassF => "ClassF"@,
        AirType::ClassG => "ClassG"@,
        AirType::Danger => "Danger"@,
        AirType::Cta => "Cta"@,
        AirType::Ctr => "Ctr"@,
        AirType::Gliding => "Gliding"@,
        AirType::Matz => "Matz"@,
        AirType::Other => "Other"@,
        AirType::Prohibited => "Prohibited"@,
        AirType::Restricted => "Restricted"@,
        AirType::Rmz => "Rmz"@,
        AirType::Tmz => "Tmz"@,
    }
}

/// The output type named `s`, if any.
pub open spec fn air_type_named(s: Seq<char>) -> Option<AirType> {
    if s == "ClassA"@ { Some(AirType::ClassA) }
    else if s == "ClassB"@ { Some(AirType::ClassB) }
    else if s == "ClassC"@ { Some(AirType::ClassC) }
    else if s == "ClassD"@ { Some(AirType::ClassD) }
    else if s == "ClassE"@ { Some(AirType::ClassE) }
    else if s == "ClassF"@ { Some(AirType::ClassF) }
    else if s == "ClassG"@ { Some(AirType::ClassG) }
    else if s == "Danger"@ { Some(AirType::Danger) }
    else if s == "Cta"@ { Some(AirType::Cta) }
    else if s == "Ctr"@ { Some(AirType::Ctr) }
    else if s == "Gliding"@ { Some(AirType::Gliding) }
    else if s == "Matz"@ { Some(AirType::Matz) }
    else if s == "Other"@ { Some(AirType::Other) }
    else if s == "Prohibited"@ { Some(AirType::Prohibited) }
    else if s == "Restricted"@ { Some(AirType::Restricted) }
    else if s == "Rmz"@ { Some(AirType::Rmz) }
    else if s == "Tmz"@ { Some(AirType::Tmz) }
    else { None }
}

/// Reads an output type from its name.
pub fn parse_air_type(s: &str) -> (r: Option<AirType>)
    ensures
        r == air_type_named(s@),
{
    if str_eq(s, "ClassA") { Some(AirType::ClassA) }
    else if str_eq(s, "ClassB") { Some(AirType::ClassB) }
    else if str_eq(s, "ClassC") { Some(AirType::ClassC) }
    else if str_eq(s, "ClassD") { Some(AirType::ClassD) }
    else if str_eq(s, "ClassE") { Some(AirType::ClassE) }
    else if str_eq(s, "ClassF") { Some(AirType::ClassF) }
    else if str_eq(s, "ClassG") { Some(AirType::ClassG) }
    else if str_eq(s, "Danger") { Some(AirType::Danger) }
    else if str_eq(s, "Cta") { Some(AirType::Cta) }
    else if str_eq(s, "Ctr") { Some(AirType::Ctr) }
    else if str_eq(s, "Gliding") { Some(AirType::Gliding) }
    else if str_eq(s, "Matz") { Some(AirType::Matz) }
    else if str_eq(s, "Other") { Some(AirType::Other) }
    else if str_eq(s, "Prohibited") { Some(AirType::Prohibited) }
    else if str_eq(s, "Restricted") { Some(AirType::Restricted) }
    else if str_eq(s, "Rmz") { Some(AirType::Rmz) }
    else if str_eq(s, "Tmz") { Some(AirType::Tmz) }
    else { None }
}

/// The output format named `s`, if any.
pub open spec fn format_named(s: Seq<char>) -> Option<Format> {
    if s == "OpenAir"@ { Some(Format::OpenAir) }
    else if s == "RatOnly"@ { Some(Format::RatOnly) }
    else if s == "Competition"@ { Some(Format::Competition) }
    else { None }
}

/// Reads an output format from its name.
pub fn parse_format(s: &str) -> (r: Option<Format>)
    ensures
        r == format_named(s@),
{
    if str_eq(s, "OpenAir") { Some(Format::OpenAir) }
    else if str_eq(s, "RatOnly") { Some(Format::RatOnly) }
    else if str_eq(s, "Competition") { Some(Format::Competition) }
    else { None }
}

/// The overlay named `s`, if any.
pub open spec fn overlay_named(s: Seq<char>) -> Option<Overlay> {
    if s == "FL195"@ { Some(Overlay::FL195) }
    else if s == "FL105"@ { Some(Overlay::FL105) }
    else if s == "AtzDz"@ { Some(Overlay::AtzDz) }
    else if s == "AtzDzOnly"@ { Some(Overlay::AtzDzOnly) }
    else { None }
}

/// Reads an overlay from its name.
pub fn parse_overlay(s: &str) -> (r: Option<Overlay>)
    ensures
        r == overlay_named(s@),
{
    if str_eq(s, "FL195") { Some(Overlay::FL195) }
    else if str_eq(s, "FL105") { Some(Overlay::FL105) }
    else if str_eq(s, "AtzDz") { Some(Overlay::AtzDz) }
    else if str_eq(s, "AtzDzOnly") { Some(Overlay::AtzDzOnly) }
    else { None }
}

/// The name set of the given kind.
pub open spec fn extra_of(s: Settings, id: ExtraType) -> Seq<String> {
    match id {
        ExtraType::Rat => s.rat@,
        ExtraType::Loa => s.loa@,
        ExtraType::Wave => s.wave@,
    }
}

/// The settings differ from `b` at most in the name set of kind `id`.
pub open spec fn same_but_extra(a: Settings, b: Settings, id: ExtraType) -> bool {
    &&& a.atz == b.atz
    &&& a.ils == b.ils
    &&& a.unlicensed == b.unlicensed
    &&& a.microlight == b.microlight
    &&& a.gliding == b.gliding
    &&& a.home == b.home
    &&& a.hirta_gvs == b.hirta_gvs
    &&& a.obstacle == b.obstacle
    &&& a.max_level == b.max_level
    &&& a.radio == b.radio
    &&& a.format == b.format
    &&& a.overlay == b.overlay
    &&& (id != ExtraType::Rat ==> a.rat == b.rat)
    &&& (id != ExtraType::Loa ==> a.loa == b.loa)
    &&& (id != ExtraType::Wave ==> a.wave == b.wave)
}

impl Settings {
    /// Each name set holds each name at most once.
    pub open spec fn wf(&self) -> bool {
        &&& distinct_names(self.loa@)
        &&& distinct_names(self.rat@)
        &&& distinct_names(self.wave@)
    }
}

/// Adds a name to a list that holds each name once, unless it is there.
fn insert_name(v: &mut Vec<String>, value: String)
    requires
        distinct_names(old(v)@),
    ensures
        distinct_names(final(v)@),
        names(final(v)@) == names(old(v)@).insert(value@),
{
    if contains_name(v, value.as_str()) {
        assert(names(v@) =~= names(v@).insert(value@));
        return;
    }
    let ghost before = v@;
    v.push(value);
    assert forall|s: Seq<char>| names(v@).contains(s) <==> names(before).insert(value@).contains(s) by {
        if names(v@).contains(s) {
            let i = choose|i: int| 0 <= i < v@.len() && v@[i]@ == s;
            if i < before.len() {
                assert(before[i]@ == s);
            }
        }
        if names(before).contains(s) && s != value@ {
            let i = choose|i: int| 0 <= i < before.len() && before[i]@ == s;
            assert(v@[i]@ == s);
        }
        if s == value@ {
            assert(v@[before.len() as int]@ == s);
        }
    }
    assert(names(v@) =~= names(before).insert(value@));
}

/// Removes a name from a list that holds each name once.
fn remove_name(v: &mut Vec<String>, value: &str)
    requires
        distinct_names(old(v)@),
    ensures
        distinct_names(final(v)@),
        names(final(v)@) == names(old(v)@).remove(value@),
{
    let ghost before = v@;
    assert(before == old(v)@);
    let mut i: usize = 0;
    while i < v.len()
        invariant
            0 <= i <= v.len(),
            v@ == before,
            before == old(v)@,
            distinct_names(before),
            forall|j: int| 0 <= j < i ==> v@[j]@ != value@,
        decreases v.len() - i,
    {
        if crate::text::str_eq(v[i].as_str(), value) {
            v.remove(i);
            assert(v@ == before.remove(i as int));
            assert(before[i as int]@ == value@);
            assert forall|a: int, b: int| 0 <= a < b < v@.len() implies v@[a]@ != v@[b]@ by {
                let a2 = if a < i { a } else { a + 1 };
                let b2 = if b < i { b } else { b + 1 };
                assert(v@[a] == before[a2]);
                assert(v@[b] == before[b2]);
            }
            assert forall|s: Seq<char>| names(v@).contains(s) <==> names(before).remove(value@).contains(s) by {
                if names(v@).contains(s) {
                    let k = choose|k: int| 0 <= k < v@.len() && v@[k]@ == s;
                    if k < i {
                        assert(before[k]@ == s);
                        assert(before[k]@ != before[i as int]@);
                    } else {
                        assert(before[k + 1]@ == s);
                        assert(before[k + 1]@ != before[i as int]@);
                    }
                }
                if names(before).contains(s) && s != value@ {
                    let k = choose|k: int| 0 <= k < before.len() && before[k]@ == s;
                    if k < i {
                        assert(v@[k]@ == s);
                    } else {
                        assert(k != i);
                        assert(v@[k - 1]@ == s);
                    }
                }
            }
            assert(names(v@) =~= names(before).remove(value@));
            assert(before == old(v)@);
            return;
        }
        i = i + 1;
    }
    assert(names(before) =~= names(before).remove(value@));
}

/// `b` is `a` after setting `name` to `value`.
pub open spec fn updated(a: Settings, b: Settings, name: Seq<char>, value: Seq<char>) -> bool {
    if name == "atz"@ {
        b == Settings { atz: air_type_named(value).unwrap_or(AirType::Cta), ..a }
    } else if name == "ils"@ {
        b == Settings { ils: air_type_named(value), ..a }
    } else if name == "unlicensed"@ {
        b == Settings { unlicensed: air_type_named(value), ..a }
    } else if name == "microlight"@ {
        b == Settings { microlight: air_type_named(value), ..a }
    } else if name == "gliding"@ {
        b == Settings { gliding: air_type_named(value), ..a }
    } else if name == "hirta_gvs"@ {
        b == Settings { hirta_gvs: air_type_named(value), ..a }
    } else if name == "obstacle"@ {
        b == Settings { obstacle: air_type_named(value), ..a }
    } else if name == "format"@ {
        b == Settings { format: format_named(value).unwrap_or(Format::OpenAir), ..a }
    } else if name == "max_level"@ {
        b == Settings { max_level: parse_u16_spec(value).unwrap_or(660), ..a }
    } else if name == "radio"@ {
        b == Settings { radio: value == "yes"@, ..a }
    } else if name == "overlay"@ {
        b == Settings { overlay: overlay_named(value), ..a }
    } else if name == "home"@ {
        &&& b == Settings { home: b.home, ..a }
        &&& if value == "no"@ {
            b.home is None
        } else {
            b.home is Some && b.home->0@ == value
        }
    } else {
        b == a
    }
}

impl Settings {
    /// Sets the option `name` from its text form. Unknown names change
    /// nothing; values that cannot be read give the option's fallback.
    pub fn update(&mut self, name: &str, value: &str)
        ensures
            updated(*old(self), *final(self), name@, value@),
    {
        if str_eq(name, "atz") {
            self.atz = match parse_air_type(value) {
                Some(t) => t,
                None => AirType::Cta,
            };
        } else if str_eq(name, "ils") {
            self.ils = parse_air_type(value);
        } else if str_eq(name, "unlicensed") {
            self.unlicensed = parse_air_type(value);
        } else if str_eq(name, "microlight") {
            self.microlight = parse_air_type(value);
        } else if str_eq(name, "gliding") {
            self.gliding = parse_air_type(value);
        } else if str_eq(name, "hirta_gvs") {
            self.hirta_gvs = parse_air_type(value);
        } else if str_eq(name, "obstacle") {
            self.obstacle = parse_air_type(value);
        } else if str_eq(name, "format") {
            self.format = match parse_format(value) {
                Some(f) => f,
                None => Format::OpenAir,
            };
        } else if str_eq(name, "max_level") {
            self.max_level = match parse_u16(value) {
                Some(l) => l,
                None => 660,
            };
        } else if str_eq(name, "radio") {
            self.radio = str_eq(value, "yes");
        } else if str_eq(name, "overlay") {
            self.overlay = parse_overlay(value);
        } else if str_eq(name, "home") {
            self.home = if str_eq(value, "no") {
                None
            } else {
                Some(owned(value))
            };
        }
    }

    /// Adds a name to, or removes it from, the name set of kind `id`.
    pub fn set_extra(&mut self, id: ExtraType, value: String, add: bool)
        requires
            old(self).wf(),
        ensures
            final(self).wf(),
            same_but_extra(*old(self), *final(self), id),
            names(extra_of(*final(self), id)) == if add {
                names(extra_of(*old(self), id)).insert(value@)
            } else {
                names(extra_of(*old(self), id)).remove(value@)
            },
    {
        match id {
            ExtraType::Rat => {
                if add {
                    insert_name(&mut self.rat, value);
                } else {
                    remove_name(&mut self.rat, value.as_str());
                }
            },
            ExtraType::Loa => {
                if add {
                    insert_name(&mut self.loa, value);
                } else {
                    remove_name(&mut self.loa, value.as_str());
                }
            },
            ExtraType::Wave => {
                if add {
                    insert_name(&mut self.wave, value);
                } else {
                    remove_name(&mut self.wave, value.as_str());
                }
            },
        }
    }

    /// The name set of kind `id`.
    pub fn get_extra(&self, id: ExtraType) -> (r: &Vec<String>)
        ensures
            r@ == extra_of(*self, id),
    {
        match id {
            ExtraType::Rat => &self.rat,
            ExtraType::Loa => &self.loa,
            ExtraType::Wave => &self.wave,
        }
    }

    /// Empties the name set of kind `id`.
    pub fn clear_extra(&mut self, id: ExtraType)
        requires
            old(self).wf(),
        ensures
            final(self).wf(),
            same_but_extra(*old(self), *final(self), id),
            extra_of(*final(self), id).len() == 0,
    {
        match id {
            ExtraType::Rat => self.rat.clear(),
            ExtraType::Loa => self.loa.clear(),
            ExtraType::Wave => self.wave.clear(),
        }
    }
}

impl Default for Settings {
    /// ATZs as control zones, optional airfields and sites left out, no
    /// level cut-off below FL660, plain OpenAir, nothing chosen.
    fn default() -> (r: Settings)
        ensures
            r.atz == AirType::Ctr,
            r.ils is None,
            r.unlicensed is None,
            r.microlight is None,
            r.gliding is None,
            r.home is None,
            r.hirta_gvs is None,
            r.obstacle is None,
            r.max_level == 660,
            !r.radio,
            r.format == Format::OpenAir,
            r.overlay is None,
            r.loa@.len() == 0,
            r.rat@.len() == 0,
            r.wave@.len() == 0,
            r.wf(),
    {
        Settings {
            atz: AirType::Ctr,
            ils: None,
            unlicensed: None,
            microlight: None,
            gliding: None,
            home: None,
            hirta_gvs: None,
            obstacle: None,
            max_level: 660,
            radio: false,
            format: Format::OpenAir,
            overlay: None,
            loa: Vec::new(),
            rat: Vec::new(),
            wave: Vec::new(),
        }
    }
}

} // verus!
