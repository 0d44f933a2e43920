//! Classification, filtering and naming of volumes.
use vstd::prelude::*;
use crate::settings::{contains_name, names, AirType, Format, Settings};
use crate::text::{word_end, decimal, ends_with, padded, parse_u16, parse_u16_spec, push_char, push_padded, starts_with, str_eq};
use crate::yaixm::{feature_has_rule, has_rule, Feature, IcaoClass, IcaoType, LocalType, Rule, Volume};

verus! {

/// The output type of a volume: the decision table of the format.
pub open spec fn airtype_spec(f: Feature, v: Volume, s: Settings) -> AirType {
    let comp = s.format == Format::Competition;
    if has_rule(f, v, Rule::Notam) {
        AirType::ClassG
    } else {
        match f.icao_type {
            IcaoType::Atz => s.atz,
            IcaoType::D => if comp && has_rule(f, v, Rule::Si) {
                AirType::Prohibited
            } else {
                AirType::Danger
            },
            IcaoType::DOther => if comp && f.local_type == Some(LocalType::Dz) && has_rule(
                f,
                v,
                Rule::Intense,
            ) {
                AirType::Prohibited
            } else {
                match f.local_type {
                    Some(LocalType::Hirta) | Some(LocalType::Gvs) | Some(LocalType::Laser) => {
                        s.hirta_gvs.unwrap_or(AirType::Other)
                    },
                    Some(LocalType::Glider) => AirType::Gliding,
                    Some(LocalType::Obstacle) => s.obstacle.unwrap_or(AirType::Other),
                    _ => AirType::Danger,
                }
            },
            IcaoType::Other => match f.local_type {
                Some(LocalType::Glider) => if has_rule(f, v, Rule::Loa) {
                    AirType::Gliding
                } else {
                    s.gliding.unwrap_or(AirType::Other)
                },
                Some(LocalType::Ils) => s.ils.unwrap_or(s.atz),
                Some(LocalType::Matz) => AirType::Matz,
                Some(LocalType::NoAtz) => s.unlicensed.unwrap_or(AirType::Other),
                Some(LocalType::Rat) => AirType::Prohibited,
                Some(LocalType::Tmz) => AirType::Tmz,
                Some(LocalType::Ul) => s.microlight.unwrap_or(AirType::Other),
                Some(LocalType::Rmz) => AirType::Rmz,
                _ => AirType::Other,
            },
            IcaoType::P => AirType::Prohibited,
            IcaoType::R => AirType::Restricted,
            _ => if has_rule(f, v, Rule::Tmz) {
                AirType::Tmz
            } else if has_rule(f, v, Rule::Rmz) {
                AirType::Rmz
            } else {
                class_type(class_of(f, v))
            },
        }
    }
}

/// The ICAO class of a volume: its own, else its feature's, else G.
pub open spec fn class_of(f: Feature, v: Volume) -> IcaoClass {
    match v.icao_class {
        Some(c) => c,
        None => f.icao_class.unwrap_or(IcaoClass::G),
    }
}

/// The output type of an ICAO class.
pub open spec fn class_type(c: IcaoClass) -> AirType {
    match c {
        IcaoClass::A => AirType::ClassA,
        IcaoClass::B => AirType::ClassB,
        IcaoClass::C => AirType::ClassC,
        IcaoClass::D => AirType::ClassD,
        IcaoClass::E => AirType::ClassE,
        IcaoClass::F => AirType::ClassF,
        IcaoClass::G => AirType::ClassG,
    }
}

/// Gives a volume its output type.
pub fn airtype(feature: &Feature, volume: &Volume, settings: &Settings) -> (r: AirType)
    ensures
        r == airtype_spec(*feature, *volume, *settings),
{
    let comp = settings.format == Format::Competition;
    if feature_has_rule(feature, volume, Rule::Notam) {
        // NOTAM activated airspace
        AirType::ClassG
    } else {
        match feature.icao_type {
            IcaoType::Atz => settings.atz,
            IcaoType::D => {
                if comp && feature_has_rule(feature, volume, Rule::Si) {
                    // Danger area with SI
                    AirType::Prohibited
                } else {
                    AirType::Danger
                }
            },
            IcaoType::DOther => {
                if comp && feature.local_type == Some(LocalType::Dz) && feature_has_rule(
                    feature,
                    volume,
                    Rule::Intense,
                ) {
                    // Intense drop zone, competition
                    AirType::Prohibited
                } else {
                    match feature.local_type {
                        Some(LocalType::Hirta) | Some(LocalType::Gvs) | Some(LocalType::Laser) => {
                            settings.hirta_gvs.unwrap_or(AirType::Other)
                        },
                        Some(LocalType::Glider) => AirType::Gliding,
                        Some(LocalType::Obstacle) => settings.obstacle.unwrap_or(AirType::Other),
                        _ => AirType::Danger,
                    }
                }
            },
            IcaoType::Other => match feature.local_type {
                Some(LocalType::Glider) => {
                    if feature_has_rule(feature, volume, Rule::Loa) {
                        AirType::Gliding
                    } else {
                        settings.gliding.unwrap_or(AirType::Other)
                    }
                },
                Some(LocalType::Ils) => settings.ils.unwrap_or(settings.atz),
                Some(LocalType::Matz) => AirType::Matz,
                Some(LocalType::NoAtz) => settings.unlicensed.unwrap_or(AirType::Other),
                Some(LocalType::Rat) => AirType::Prohibited,
                Some(LocalType::Tmz) => AirType::Tmz,
                Some(LocalType::Ul) => settings.microlight.unwrap_or(AirType::Other),
                Some(LocalType::Rmz) => AirType::Rmz,
                _ => AirType::Other,
            },
            IcaoType::P => AirType::Prohibited,
            IcaoType::R => AirType::Restricted,
            _ => {
                if feature_has_rule(feature, volume, Rule::Tmz) {
                    AirType::Tmz
                } else if feature_has_rule(feature, volume, Rule::Rmz) {
                    AirType::Rmz
                } else {
                    let class = match volume.icao_class {
                        Some(c) => c,
                        None => match feature.icao_class {
                            Some(c) => c,
                            None => IcaoClass::G,
                        },
                    };
                    match class {
                        IcaoClass::A => AirType::ClassA,
                        IcaoClass::B => AirType::ClassB,
                        IcaoClass::C => AirType::ClassC,
                        IcaoClass::D => AirType::ClassD,
                        IcaoClass::E => AirType::ClassE,
                        IcaoClass::F => AirType::ClassF,
                        IcaoClass::G => AirType::ClassG,
                    }
                }
            },
        }
    }
}

/// Two classifications of the same feature, volume and settings agree.
pub proof fn lemma_airtype_deterministic(
    f1: Feature,
    v1: Volume,
    s1: Settings,
    f2: Feature,
    v2: Volume,
    s2: Settings,
)
    requires
        f1 == f2,
        v1 == v2,
        s1 == s2,
    ensures
        airtype_spec(f1, v1, s1) == airtype_spec(f2, v2, s2),
{
}

/// A level normalised to a flight level: `FL<n>` is `n`, `<n> ft` is
/// `n / 100` (with `n` the text up to the first space), anything else 0.
/// `None` where the number cannot be read.
pub open spec fn level_of(s: Seq<char>) -> Option<u16> {
    if s.len() >= 2 && s.subrange(0, 2) == "FL"@ {
        parse_u16_spec(s.subrange(2, s.len() as int))
    } else if s.len() >= 3 && s.subrange(s.len() - 3, s.len() as int) == " ft"@ {
        match parse_u16_spec(s.subrange(0, word_end(s, 0))) {
            Some(n) => Some((n / 100) as u16),
            None => None,
        }
    } else {
        Some(0)
    }
}

/// Normalises a level to a flight level.
pub fn norm_level(value: &str) -> (r: Option<u16>)
    ensures
        r == level_of(value@),
{
    proof {
        reveal_strlit("FL");
        reveal_strlit(" ft");
    }
    let n = value.unicode_len();
    if starts_with(value, "FL") {
        parse_u16(value.substring_char(2, n))
    } else if ends_with(value, " ft") {
        let mut i: usize = 0;
        while i < n && value.get_char(i) != ' '
            invariant
                0 <= i <= n,
                n == value@.len(),
                word_end(value@, i as int) == word_end(value@, 0),
            decreases n - i,
        {
            i = i + 1;
        }
        match parse_u16(value.substring_char(0, i)) {
            Some(x) => Some(x / 100),
            None => None,
        }
    } else {
        Some(0)
    }
}

/// Whether the feature's subtype and the settings exclude the volume.
pub open spec fn excluded_spec(f: Feature, v: Volume, s: Settings) -> bool {
    match f.local_type {
        Some(LocalType::NoAtz) => s.unlicensed is None,
        Some(LocalType::Ul) => s.microlight is None,
        Some(LocalType::Glider) => if f.icao_type == IcaoType::DOther {
            // Wave box or local agreement area
            !names(s.wave@).contains(f.name@) && !has_rule(f, v, Rule::Loa)
        } else {
            // Gliding site
            s.gliding is None || (s.home is Some && s.home->0@ == f.name@)
        },
        Some(LocalType::Hirta) | Some(LocalType::Gvs) | Some(LocalType::Laser) => s.hirta_gvs is None,
        _ => false,
    }
}

/// Whether a volume is emitted: not excluded by its subtype, and its lower
/// level below the configured maximum.
pub open spec fn airfilter_spec(f: Feature, v: Volume, s: Settings) -> bool
    recommends
        level_of(v.lower@) is Some,
{
    !(excluded_spec(f, v, s) || level_of(v.lower@)->0 >= s.max_level)
}

/// Decides whether a volume is emitted.
pub fn airfilter(feature: &Feature, vol: &Volume, settings: &Settings) -> (r: bool)
    requires
        level_of(vol.lower@) is Some,
    ensures
        r == airfilter_spec(*feature, *vol, *settings),
        r ==> level_of(vol.lower@)->0 < settings.max_level,
{
    let exclude = match feature.local_type {
        Some(LocalType::NoAtz) => settings.unlicensed.is_none(),
        Some(LocalType::Ul) => settings.microlight.is_none(),
        Some(LocalType::Glider) => {
            if feature.icao_type == IcaoType::DOther {
                !contains_name(&settings.wave, feature.name.as_str()) && !feature_has_rule(
                    feature,
                    vol,
                    Rule::Loa,
                )
            } else {
                settings.gliding.is_none() || match &settings.home {
                    Some(h) => str_eq(h.as_str(), feature.name.as_str()),
                    None => false,
                }
            }
        },
        Some(LocalType::Hirta) | Some(LocalType::Gvs) | Some(LocalType::Laser) => {
            settings.hirta_gvs.is_none()
        },
        _ => false,
    };
    let level = match norm_level(vol.lower.as_str()) {
        Some(l) => l,
        None => 0,
    };
    !(exclude || level >= settings.max_level)
}

pub open spec fn local_str(t: LocalType) -> Seq<char> {
    match t {
        LocalType::Dz => "DZ"@,
        LocalType::Glider => "GLIDER"@,
        LocalType::Gvs => "GVS"@,
        LocalType::Hirta => "HIRTA"@,
        LocalType::Ils => "ILS"@,
        LocalType::Laser => "LASER"@,
        LocalType::Matz => "MATZ"@,
        LocalType::NoAtz => "NOATZ"@,
        LocalType::Obstacle => "OBSTACLE"@,
        LocalType::Rat => "RAT"@,
        LocalType::Rmz => "RMZ"@,
        LocalType::Ul => "UL"@,
        LocalType::Tmz => "TMZ"@,
    }
}

pub open spec fn rule_str(r: Rule) -> Seq<char> {
    match r {
        Rule::Intense => "INTENSE"@,
        Rule::Loa => "LOA"@,
        Rule::NoSsr => "NOSSR"@,
        Rule::Notam => "NOTAM"@,
        Rule::Raz => "RAZ"@,
        Rule::Rmz => "RMZ"@,
        Rule::Si => "SI"@,
        Rule::Tra => "TRA"@,
        Rule::Tmz => "TMZ"@,
    }
}

/// The OpenAir class code of an output type.
pub open spec fn air_str(t: AirType) -> Seq<char> {
    match t {
        AirType::ClassA => "A"@,
        AirType::ClassB => "B"@,
        AirType::ClassC => "C"@,
        AirType::ClassD => "D"@,
        AirType::ClassE => "E"@,
        AirType::ClassF => "F"@,
        AirType::ClassG => "G"@,
        AirType::Prohibited => "P"@,
        AirType::Danger => "Q"@,
        AirType::Restricted => "R"@,
        AirType::Gliding => "W"@,
        AirType::Cta => "CTA"@,
        AirType::Ctr => "CTR"@,
        AirType::Matz => "MATZ"@,
        AirType::Other => "OTHER"@,
        AirType::Rmz => "RMZ"@,
        AirType::Tmz => "RMZ"@,
    }
}

impl LocalType {
    /// The tag of the subtype.
    pub fn as_str(&self) -> (r: &'static str)
        ensures
            r@ == local_str(*self),
    {
        match self {
            LocalType::Dz => "DZ",
            LocalType::Glider => "GLIDER",
            LocalType::Gvs => "GVS",
            LocalType::Hirta => "HIRTA",
            LocalType::Ils => "ILS",
            LocalType::Laser => "LASER",
            LocalType::Matz => "MATZ",
            LocalType::NoAtz => "NOATZ",
            LocalType::Obstacle => "OBSTACLE",
            LocalType::Rat => "RAT",
            LocalType::Rmz => "RMZ",
            LocalType::Ul => "UL",
            LocalType::Tmz => "TMZ",
        }
    }
}

impl Rule {
    /// The tag of the rule.
    pub fn as_str(&self) -> (r: &'static str)
        ensures
            r@ == rule_str(*self),
    {
        match self {
            Rule::Intense => "INTENSE",
            Rule::Loa => "LOA",
            Rule::NoSsr => "NOSSR",
            Rule::Notam => "NOTAM",
            Rule::Raz => "RAZ",
            Rule::Rmz => "RMZ",
            Rule::Si => "SI",
            Rule::Tra => "TRA",
            Rule::Tmz => "TMZ",
        }
    }
}

impl AirType {
    /// The OpenAir class code.
    pub fn as_str(&self) -> (r: &'static str)
        ensures
            r@ == air_str(*self),
    {
        match self {
            AirType::ClassA => "A",
            AirType::ClassB => "B",
            AirType::ClassC => "C",
            AirType::ClassD => "D",
            AirType::ClassE => "E",
            AirType::ClassF => "F",
            AirType::ClassG => "G",
            AirType::Prohibited => "P",
            AirType::Danger => "Q",
            AirType::Restricted => "R",
            AirType::Gliding => "W",
            AirType::Cta => "CTA",
            AirType::Ctr => "CTR",
            AirType::Matz => "MATZ",
            AirType::Other => "OTHER",
            AirType::Rmz => "RMZ",
            AirType::Tmz => "RMZ",
        }
    }
}

/// Suffix naming the kind of a feature.
pub open spec fn type_suffix(f: Feature, v: Volume) -> Seq<char> {
    match f.local_type {
        Some(LocalType::NoAtz) | Some(LocalType::Ul) => " A/F"@,
        Some(LocalType::Matz) | Some(LocalType::Dz) | Some(LocalType::Gvs) | Some(LocalType::Hirta)
        | Some(LocalType::Ils) | Some(LocalType::Laser) => seq![' '] + local_str(
            f.local_type->0,
        ),
        _ => if f.icao_type == IcaoType::Atz {
            " ATZ"@
        } else if has_rule(f, v, Rule::Raz) {
            " RAZ"@
        } else {
            Seq::empty()
        },
    }
}

/// The letter for position `n` among a feature's volumes.
pub open spec fn letter(n: nat) -> char {
    (n + 65) as char
}

/// Whether a volume's name carries a sequence suffix.
pub open spec fn has_seq_suffix(f: Feature, s: Settings) -> bool {
    s.format == Format::Competition && f.geometry@.len() > 1
}

/// Sequence suffix of the `n`th volume, in competition format only.
pub open spec fn seq_suffix(f: Feature, v: Volume, n: nat, s: Settings) -> Seq<char> {
    if has_seq_suffix(f, s) {
        seq!['-'] + match v.seq {
            Some(q) => q@,
            None => seq![letter(n)],
        }
    } else {
        Seq::empty()
    }
}

/// Qualifier suffix: NOTAM before SI.
pub open spec fn qualifier_suffix(f: Feature, v: Volume) -> Seq<char> {
    let notam = has_rule(f, v, Rule::Notam);
    let si = has_rule(f, v, Rule::Si);
    if notam && si {
        " (NOTAM/SI)"@
    } else if notam {
        " (NOTAM)"@
    } else if si {
        " (SI)"@
    } else {
        Seq::empty()
    }
}

/// A frequency in kHz written in MHz with three decimals.
pub open spec fn freq_text(k: u32) -> Seq<char> {
    decimal((k / 1000) as nat) + seq!['.'] + padded((k % 1000) as nat, 3)
}

/// Frequency suffix, where radio frequencies are wanted in names.
pub open spec fn freq_suffix(v: Volume, s: Settings) -> Seq<char> {
    if s.radio && v.frequency is Some {
        seq![' '] + freq_text(v.frequency->0)
    } else {
        Seq::empty()
    }
}

/// The display name of the `n`th volume of a feature.
pub open spec fn name_spec(f: Feature, v: Volume, n: nat, s: Settings) -> Seq<char> {
    match v.name {
        Some(name) => name@,
        None => f.name@ + type_suffix(f, v) + seq_suffix(f, v, n, s) + qualifier_suffix(f, v)
            + freq_suffix(v, s),
    }
}

/// A name can be formed: a volume that needs a letter has one.
pub open spec fn nameable(f: Feature, v: Volume, n: nat, s: Settings) -> bool {
    v.name is None && has_seq_suffix(f, s) && v.seq is None ==> n < 26
}

/// Appends a frequency in MHz with three decimals.
pub fn push_freq(out: &mut String, k: u32)
    ensures
        final(out)@ == old(out)@ + freq_text(k),
{
    push_padded(out, (k / 1000) as u64, 0);
    push_char(out, '.');
    push_padded(out, (k % 1000) as u64, 3);
    assert(padded((k / 1000) as nat, 0) == decimal((k / 1000) as nat));
    assert(final(out)@ == old(out)@ + freq_text(k));
}

/// The name directive of the `n`th volume of a feature.
pub fn do_name(feature: &Feature, vol: &Volume, n: usize, settings: &Settings) -> (r: String)
    requires
        nameable(*feature, *vol, n as nat, *settings),
    ensures
        r@ == "AN "@ + name_spec(*feature, *vol, n as nat, *settings) + "\n"@,
{
    let mut out = String::new();
    out.append("AN ");
    match &vol.name {
        Some(name) => {
            out.append(name.as_str());
        },
        None => {
            out.append(feature.name.as_str());
            let ghost s0 = out@;
            // Base type name
            match feature.local_type {
                Some(LocalType::NoAtz) | Some(LocalType::Ul) => {
                    out.append(" A/F");
                },
                Some(LocalType::Matz) | Some(LocalType::Dz) | Some(LocalType::Gvs) | Some(
                    LocalType::Hirta,
                )
                | Some(LocalType::Ils) | Some(LocalType::Laser) => {
                    push_char(&mut out, ' ');
                    let t = feature.local_type.unwrap();
                    out.append(t.as_str());
                },
                _ => {
                    if feature.icao_type == IcaoType::Atz {
                        out.append(" ATZ");
                    } else if feature_has_rule(feature, vol, Rule::Raz) {
                        out.append(" RAZ");
                    }
                },
            }
            assert(out@ == s0 + type_suffix(*feature, *vol));
            let ghost s1 = out@;
            // Optional sequence label
            if settings.format == Format::Competition && feature.geometry.len() > 1 {
                push_char(&mut out, '-');
                match &vol.seq {
                    Some(q) => {
                        out.append(q.as_str());
                    },
                    None => {
                        push_char(&mut out, ((n as u8) + 65) as char);
                    },
                }
            }
            assert(out@ == s1 + seq_suffix(*feature, *vol, n as nat, *settings));
            let ghost s2 = out@;
            // SI and NOTAM qualifiers
            let notam = feature_has_rule(feature, vol, Rule::Notam);
            let si = feature_has_rule(feature, vol, Rule::Si);
            if notam && si {
                out.append(" (NOTAM/SI)");
            } else if notam {
                out.append(" (NOTAM)");
            } else if si {
                out.append(" (SI)");
            }
            assert(out@ == s2 + qualifier_suffix(*feature, *vol));
            let ghost s3 = out@;
            // Optional frequency
            if settings.radio {
                match vol.frequency {
                    Some(k) => {
                        push_char(&mut out, ' ');
                        push_freq(&mut out, k);
                    },
                    None => {},
                }
            }
            assert(out@ == s3 + freq_suffix(*vol, *settings));
        },
    }
    out.append("\n");
    out
}

} // verus!
