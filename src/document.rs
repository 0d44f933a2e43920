//! Assembly of the OpenAir document: header, then one record per emitted
//! volume.
use vstd::prelude::*;
use crate::boundary::{boundary_ok, boundary_text, check_boundary, do_boundary};
use crate::convert::{
    air_str, airfilter, airfilter_spec, airtype, airtype_spec, do_name, freq_text, level_of,
    name_spec, nameable, norm_level, push_freq,
};
use crate::geometry::{DmsPoint, Heading, Position};
use crate::header::{comment, comment_lines, fill, filled, now_rfc3339, settings_text};
use crate::merge::{merge, merged};
use crate::settings::{AirType, Format, Settings};
use crate::tessellate::{bearing_ok, dest_ok};
use crate::text::ends_with;
use crate::yaixm::{Feature, Volume, Yaixm};

verus! {

/// Why a document cannot be produced. Features and volumes are counted from
/// zero in the merged feature list.
#[derive(Clone, Copy, Debug, PartialEq, Eq, Structural)]
pub enum ConvertError {
    /// The AIRAC date has fewer than ten characters.
    Airac,
    /// A lower level that cannot be read as a level.
    Level { feature: usize, volume: usize },
    /// A volume that needs a sequence letter beyond `Z`.
    Name { feature: usize, volume: usize },
    /// A boundary that cannot be written.
    Boundary { feature: usize, volume: usize },
}

/// Points per full circle for polygons of an output type.
pub open spec fn resolution_spec(t: AirType) -> u32 {
    match t {
        AirType::Gliding | AirType::Matz | AirType::Other => 36,
        _ => 72,
    }
}

/// Points per full circle for polygons of an output type.
pub fn resolution(airtype: AirType) -> (r: u32)
    ensures
        r == resolution_spec(airtype),
        r > 0,
{
    match airtype {
        AirType::Gliding | AirType::Matz | AirType::Other => 36,
        _ => 72,
    }
}

/// Polygon resolution of a volume: only in competition format.
pub open spec fn volume_res(t: AirType, s: Settings) -> Option<u32> {
    if s.format == Format::Competition {
        Some(resolution_spec(t))
    } else {
        None
    }
}

/// The type directive.
pub fn do_type(airtype: AirType) -> (r: String)
    ensures
        r@ == "AC "@ + air_str(airtype) + "\n"@,
{
    let mut out = String::new();
    out.append("AC ");
    out.append(airtype.as_str());
    out.append("\n");
    out
}

/// The OpenAir form of a level: an altitude (`<n> ft`) keeps its unit, a
/// flight level or `SFC` stays as it is; either way the text is unchanged.
pub fn format_level(level: &str) -> (r: String)
    ensures
        r@ == level@,
{
    proof {
        reveal_strlit(" ft");
    }
    let n = level.unicode_len();
    if ends_with(level, " ft") {
        // Altitude
        let mut out = String::new();
        out.append(level.substring_char(0, n - 3));
        out.append(" ft");
        assert(out@ =~= level@);
        out
    } else {
        // Flight level or surface
        let mut out = String::new();
        out.append(level);
        out
    }
}

/// The level directives: lower then upper, each as written.
pub fn do_levels(volume: &Volume) -> (r: String)
    ensures
        r@ == "AL "@ + volume.lower@ + "\nAH "@ + volume.upper@ + "\n"@,
{
    let mut out = String::new();
    out.append("AL ");
    let lower = format_level(volume.lower.as_str());
    out.append(lower.as_str());
    out.append("\nAH ");
    let upper = format_level(volume.upper.as_str());
    out.append(upper.as_str());
    out.append("\n");
    out
}

/// The frequency directive, in MHz with three decimals.
pub fn do_freq(freq: u32) -> (r: String)
    ensures
        r@ == "AF "@ + freq_text(freq) + "\n"@,
{
    let mut out = String::new();
    out.append("AF ");
    push_freq(&mut out, freq);
    out.append("\n");
    out
}

/// The frequency directive of a volume, where it has a frequency.
pub open spec fn freq_line(v: Volume) -> Seq<char> {
    match v.frequency {
        Some(k) => "AF "@ + freq_text(k) + "\n"@,
        None => Seq::empty(),
    }
}

/// The record of the `n`th volume of a feature.
pub open spec fn record_text<B: Fn(Position, Position) -> u64, D: Fn(Position, Heading, u64) -> DmsPoint>(
    f: Feature,
    n: int,
    s: Settings,
    b: B,
    d: D,
) -> Seq<char> {
    let v = f.geometry@[n];
    let t = airtype_spec(f, v, s);
    "*\n"@ + ("AC "@ + air_str(t) + "\n"@) + ("AN "@ + name_spec(f, v, n as nat, s) + "\n"@)
        + freq_line(v) + ("AL "@ + v.lower@ + "\nAH "@ + v.upper@ + "\n"@) + boundary_text(
        v.boundary@,
        volume_res(t, s),
        b,
        d,
    )
}

/// What keeps the `n`th volume of feature number `fi` from being written.
pub open spec fn volume_problem(f: Feature, n: int, s: Settings, fi: int) -> Option<ConvertError> {
    let v = f.geometry@[n];
    if level_of(v.lower@) is None {
        Some(ConvertError::Level { feature: fi as usize, volume: n as usize })
    } else if airfilter_spec(f, v, s) && !nameable(f, v, n as nat, s) {
        Some(ConvertError::Name { feature: fi as usize, volume: n as usize })
    } else if airfilter_spec(f, v, s) && !boundary_ok(
        v.boundary@,
        volume_res(airtype_spec(f, v, s), s),
    ) {
        Some(ConvertError::Boundary { feature: fi as usize, volume: n as usize })
    } else {
        None
    }
}

/// The first problem among the first `k` volumes of a feature.
pub open spec fn feature_problem(f: Feature, k: int, s: Settings, fi: int) -> Option<ConvertError>
    decreases k,
{
    if k <= 0 {
        None
    } else {
        match feature_problem(f, k - 1, s, fi) {
            Some(e) => Some(e),
            None => volume_problem(f, k - 1, s, fi),
        }
    }
}

/// The first problem among the first `k` features.
pub open spec fn features_problem(fs: Seq<Feature>, k: int, s: Settings) -> Option<ConvertError>
    decreases k,
{
    if k <= 0 {
        None
    } else {
        match features_problem(fs, k - 1, s) {
            Some(e) => Some(e),
            None => feature_problem(fs[k - 1], fs[k - 1].geometry@.len() as int, s, k - 1),
        }
    }
}

/// The records of the emitted volumes among the first `k` of a feature.
pub open spec fn feature_text<B: Fn(Position, Position) -> u64, D: Fn(Position, Heading, u64) -> DmsPoint>(
    f: Feature,
    k: int,
    s: Settings,
    b: B,
    d: D,
) -> Seq<char>
    decreases k,
{
    if k <= 0 {
        Seq::empty()
    } else {
        feature_text(f, k - 1, s, b, d) + if airfilter_spec(f, f.geometry@[k - 1], s) {
            record_text(f, k - 1, s, b, d)
        } else {
            Seq::empty()
        }
    }
}

/// The records of the first `k` features.
pub open spec fn features_text<B: Fn(Position, Position) -> u64, D: Fn(Position, Heading, u64) -> DmsPoint>(
    fs: Seq<Feature>,
    k: int,
    s: Settings,
    b: B,
    d: D,
) -> Seq<char>
    decreases k,
{
    if k <= 0 {
        Seq::empty()
    } else {
        features_text(fs, k - 1, s, b, d) + feature_text(
            fs[k - 1],
            fs[k - 1].geometry@.len() as int,
            s,
            b,
            d,
        )
    }
}

/// Writes the record of one volume, or says why it cannot be written.
#[verifier::rlimit(50)]
fn do_record<B: Fn(Position, Position) -> u64, D: Fn(Position, Heading, u64) -> DmsPoint>(
    out: &mut String,
    feature: &Feature,
    n: usize,
    fi: usize,
    settings: &Settings,
    bearing: &B,
    dest: &D,
) -> (r: Result<(), ConvertError>)
    requires
        n < feature.geometry@.len(),
        bearing_ok(*bearing),
        dest_ok(*dest),
    ensures
        match volume_problem(*feature, n as int, *settings, fi as int) {
            Some(e) => r == Err::<(), ConvertError>(e),
            None => r is Ok && final(out)@ == old(out)@ + if airfilter_spec(
                *feature,
                feature.geometry@[n as int],
                *settings,
            ) {
                record_text(*feature, n as int, *settings, *bearing, *dest)
            } else {
                Seq::empty()
            },
        },
{
    let volume = &feature.geometry[n];
    let atype = airtype(feature, volume, settings);
    let res = if settings.format == Format::Competition {
        Some(resolution(atype))
    } else {
        None
    };
    if norm_level(volume.lower.as_str()).is_none() {
        return Err(ConvertError::Level { feature: fi, volume: n });
    }
    if !airfilter(feature, volume, settings) {
        return Ok(());
    }
    let needs_letter = settings.format == Format::Competition && feature.geometry.len() > 1
        && volume.name.is_none() && volume.seq.is_none();
    if needs_letter && n >= 26 {
        return Err(ConvertError::Name { feature: fi, volume: n });
    }
    if !check_boundary(&volume.boundary, res) {
        return Err(ConvertError::Boundary { feature: fi, volume: n });
    }
    let ghost start = out@;
    out.append("*\n");
    let t = do_type(atype);
    out.append(t.as_str());
    let nm = do_name(feature, volume, n, settings);
    out.append(nm.as_str());
    match volume.frequency {
        Some(k) => {
            let fr = do_freq(k);
            out.append(fr.as_str());
        },
        None => {},
    }
    let lv = do_levels(volume);
    out.append(lv.as_str());
    let bd = do_boundary(&volume.boundary, res, bearing, dest);
    out.append(bd.as_str());
    assert(out@ =~= start + record_text(*feature, n as int, *settings, *bearing, *dest));
    Ok(())
}

/// Writes the records of a feature list, or says what first keeps one
/// from being written.
pub fn do_features<B: Fn(Position, Position) -> u64, D: Fn(Position, Heading, u64) -> DmsPoint>(
    out: &mut String,
    features: &Vec<Feature>,
    settings: &Settings,
    bearing: &B,
    dest: &D,
) -> (r: Result<(), ConvertError>)
    requires
        bearing_ok(*bearing),
        dest_ok(*dest),
    ensures
        match features_problem(features@, features@.len() as int, *settings) {
            Some(e) => r == Err::<(), ConvertError>(e),
            None => r is Ok && final(out)@ == old(out)@ + features_text(
                features@,
                features@.len() as int,
                *settings,
                *bearing,
                *dest,
            ),
        },
{
    let ghost start = out@;
    let mut i: usize = 0;
    while i < features.len()
        invariant
            0 <= i <= features.len(),
            bearing_ok(*bearing),
            dest_ok(*dest),
            features_problem(features@, i as int, *settings) is None,
            out@ == start + features_text(features@, i as int, *settings, *bearing, *dest),
        decreases features.len() - i,
    {
        let feature = &features[i];
        let ghost fstart = out@;
        let mut n: usize = 0;
        while n < feature.geometry.len()
            invariant
                0 <= i < features.len(),
                *feature == features@[i as int],
                0 <= n <= feature.geometry.len(),
                bearing_ok(*bearing),
                dest_ok(*dest),
                features_problem(features@, i as int, *settings) is None,
                feature_problem(*feature, n as int, *settings, i as int) is None,
                out@ == fstart + feature_text(*feature, n as int, *settings, *bearing, *dest),
            decreases feature.geometry.len() - n,
        {
            let r = do_record(out, feature, n, i, settings, bearing, dest);
            match r {
                Err(e) => {
                    assert(feature_problem(*feature, feature.geometry@.len() as int, *settings, i as int) == Some(e)) by {
                        lemma_feature_problem_sticks(*feature, n as int + 1, feature.geometry@.len() as int, *settings, i as int);
                    }
                    proof {
                        lemma_features_problem_sticks(features@, i as int + 1, features@.len() as int, *settings);
                    }
                    return Err(e);
                },
                Ok(()) => {},
            }
            n = n + 1;
        }
        i = i + 1;
    }
    Ok(())
}

proof fn lemma_feature_problem_sticks(f: Feature, j: int, k: int, s: Settings, fi: int)
    requires
        0 <= j <= k,
        feature_problem(f, j, s, fi) is Some,
    ensures
        feature_problem(f, k, s, fi) == feature_problem(f, j, s, fi),
    decreases k - j,
{
    if j < k {
        lemma_feature_problem_sticks(f, j, k - 1, s, fi);
    }
}

proof fn lemma_features_problem_sticks(fs: Seq<Feature>, j: int, k: int, s: Settings)
    requires
        0 <= j <= k,
        features_problem(fs, j, s) is Some,
    ensures
        features_problem(fs, k, s) == features_problem(fs, j, s),
    decreases k - j,
{
    if j < k {
        lemma_features_problem_sticks(fs, j, k - 1, s);
    }
}

/// The fixed opening of the header.
pub open spec fn banner() -> Seq<char> {
    "UK Airspace\nAlan Sparrow (airspace@asselect.uk)\n\nI have tried to make this data as accurate as possible but\nthere will still be errors. Don't blame me if you go somewhere you\nshould not have gone while using this data.\n\nTo the extent possible under law, Alan Sparrow has waived all\ncopyright and related or neighbouring rights to this file. The data\nin this file is based on the work of others including: George Knight,\nGeoff Brown, Peter Desmond and Rory O'Connor.  The data is originally\nsourced from the UK Aeronautical Information Package (AIP).\n\n"@
}

/// The header before each line is made a comment.
pub open spec fn header_body(
    note: Seq<char>,
    airac: Seq<char>,
    commit: Seq<char>,
    produced: Seq<char>,
    user_agent: Seq<char>,
    s: Settings,
) -> Seq<char> {
    banner() + note + "\nAIRAC: "@ + airac.subrange(0, 10) + "\n"@ + "Commit: "@ + commit + "\n"@
        + "Produced: "@ + produced + "\n"@ + "User agent: "@ + user_agent + "\n"@ + filled(
        settings_text(s),
        72,
    )
}

/// The header: attribution, note, AIRAC date (its first ten characters),
/// revision, time of production, user agent and the settings, each line a
/// comment.
pub open spec fn header_text(
    note: Seq<char>,
    airac: Seq<char>,
    commit: Seq<char>,
    produced: Seq<char>,
    user_agent: Seq<char>,
    s: Settings,
) -> Seq<char> {
    comment_lines(header_body(note, airac, commit, produced, user_agent, s))
}

/// Writes the header.
pub fn header(
    note: &str,
    airac: &str,
    commit: &str,
    produced: &str,
    user_agent: &str,
    settings: &Settings,
) -> (r: String)
    requires
        airac@.len() >= 10,
    ensures
        r@ == header_text(note@, airac@, commit@, produced@, user_agent@, *settings),
{
    let mut hdr = String::new();
    hdr.append(
        "UK Airspace\nAlan Sparrow (airspace@asselect.uk)\n\nI have tried to make this data as accurate as possible but\nthere will still be errors. Don't blame me if you go somewhere you\nshould not have gone while using this data.\n\nTo the extent possible under law, Alan Sparrow has waived all\ncopyright and related or neighbouring rights to this file. The data\nin this file is based on the work of others including: George Knight,\nGeoff Brown, Peter Desmond and Rory O'Connor.  The data is originally\nsourced from the UK Aeronautical Information Package (AIP).\n\n",
    );
    hdr.append(note);
    hdr.append("\nAIRAC: ");
    hdr.append(airac.substring_char(0, 10));
    hdr.append("\n");
    hdr.append("Commit: ");
    hdr.append(commit);
    hdr.append("\n");
    hdr.append("Produced: ");
    hdr.append(produced);
    hdr.append("\n");
    hdr.append("User agent: ");
    hdr.append(user_agent);
    hdr.append("\n");
    let desc = settings.describe();
    let wrapped = fill(desc.as_str(), 72);
    hdr.append(wrapped.as_str());
    assert(hdr@ =~= header_body(note@, airac@, commit@, produced@, user_agent@, *settings));
    comment(hdr.as_str())
}

/// `r` is the conversion of the dataset at the time `produced`: an AIRAC
/// date too short to cut is an error; otherwise, over the merged feature
/// list, the first volume that cannot be written gives the error, and if
/// there is none the document is the header followed by the records.
pub open spec fn converted<B: Fn(Position, Position) -> u64, D: Fn(Position, Heading, u64) -> DmsPoint>(
    y: Yaixm,
    s: Settings,
    user_agent: Seq<char>,
    produced: Seq<char>,
    b: B,
    d: D,
    r: Result<String, ConvertError>,
) -> bool {
    if y.release.airac_date@.len() < 10 {
        r == Err::<String, ConvertError>(ConvertError::Airac)
    } else {
        exists|m: Seq<Feature>|
            #![trigger merged(y, s, m)]
            merged(y, s, m) && match features_problem(m, m.len() as int, s) {
                Some(e) => r == Err::<String, ConvertError>(e),
                None => r is Ok && r->Ok_0@ == header_text(
                    y.release.note@,
                    y.release.airac_date@,
                    y.release.commit@,
                    produced,
                    user_agent,
                    s,
                ) + features_text(m, m.len() as int, s, b, d),
            }
    }
}

/// Converts a dataset to OpenAir text, stamped with the time `produced`.
pub fn openair_at<B: Fn(Position, Position) -> u64, D: Fn(Position, Heading, u64) -> DmsPoint>(
    yaixm: Yaixm,
    settings: &Settings,
    user_agent: &str,
    produced: &str,
    bearing: &B,
    dest: &D,
) -> (r: Result<String, ConvertError>)
    requires
        bearing_ok(*bearing),
        dest_ok(*dest),
    ensures
        converted(yaixm, *settings, user_agent@, produced@, *bearing, *dest, r),
{
    let ghost y = yaixm;
    if yaixm.release.airac_date.unicode_len() < 10 {
        return Err(ConvertError::Airac);
    }
    let (airspace, release) = merge(yaixm, settings);
    let mut output = header(
        release.note.as_str(),
        release.airac_date.as_str(),
        release.commit.as_str(),
        produced,
        user_agent,
        settings,
    );
    let r = do_features(&mut output, &airspace, settings, bearing, dest);
    assert(merged(y, *settings, airspace@));
    match r {
        Err(e) => Err(e),
        Ok(()) => Ok(output),
    }
}

/// Converts a dataset to OpenAir text, stamped with the current time.
pub fn openair<B: Fn(Position, Position) -> u64, D: Fn(Position, Heading, u64) -> DmsPoint>(
    yaixm: Yaixm,
    settings: &Settings,
    user_agent: &str,
    bearing: &B,
    dest: &D,
) -> (r: Result<String, ConvertError>)
    requires
        bearing_ok(*bearing),
        dest_ok(*dest),
    ensures
        exists|produced: Seq<char>|
            converted(yaixm, *settings, user_agent@, produced, *bearing, *dest, r),
{
    let produced = now_rfc3339();
    openair_at(yaixm, settings, user_agent, produced.as_str(), bearing, dest)
}

/// A volume whose lower level is at or above the configured maximum is
/// never written: it adds nothing to its feature's records.
pub proof fn lemma_high_volume_not_written<B: Fn(Position, Position) -> u64, D: Fn(Position, Heading, u64) -> DmsPoint>(
    f: Feature,
    k: int,
    s: Settings,
    b: B,
    d: D,
)
    requires
        0 <= k < f.geometry@.len(),
        level_of(f.geometry@[k].lower@) is Some,
        level_of(f.geometry@[k].lower@)->0 >= s.max_level,
    ensures
        !airfilter_spec(f, f.geometry@[k], s),
        feature_text(f, k + 1, s, b, d) == feature_text(f, k, s, b, d),
{
}

} // verus!
