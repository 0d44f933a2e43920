use asselect::boundary::{do_arc, do_boundary, do_circle, do_line};
use asselect::convert::{airfilter, airtype, do_name, norm_level};
use asselect::document::{do_freq, do_levels, do_type, format_level, header, resolution};
use asselect::geometry::{
    degrees_to_dms, degrees_to_point, do_point, format_distance, format_latlon, parse_latlon,
    radius_to_mm, DmsPoint, Heading, Position,
};
use asselect::header::comment;
use asselect::merge::{add_obstacles, find_volume, merge_loa, merge_services, replace_volume, select_loas};
use asselect::settings::{AirType, ExtraType, Format, Overlay, Settings};
use asselect::tessellate::{poly_arc, poly_circle};
use asselect::yaixm::{
    Arc, Boundary, Circle, Direction, Feature, IcaoClass, IcaoType, Loa, LoaArea, LocalType,
    Obstacle, Replacement, Rule, Service, Volume,
};
use geo::{Bearing, Destination, Geodesic, Point};

fn to_point(p: Position) -> Point<f64> {
    Point::new(p.lon as f64 / 3600.0, p.lat as f64 / 3600.0)
}

fn bearing(p: Position, q: Position) -> u64 {
    let b = Geodesic.bearing(to_point(p), to_point(q));
    ((b * 1_000_000.0).round() as u64) % 360_000_000
}

fn dest(p: Position, h: Heading, mm: u64) -> DmsPoint {
    let d = Geodesic.destination(to_point(p), h.num as f64 / h.den as f64, mm as f64 / 1000.0);
    DmsPoint {
        south: d.y() < 0.0,
        lat: (d.y().abs() * 3600.0).round() as u32,
        west: d.x() < 0.0,
        lon: (d.x().abs() * 3600.0).round() as u32,
    }
}

fn vol(lower: &str) -> Volume {
    Volume {
        id: None,
        name: None,
        lower: lower.to_string(),
        upper: "FL65".to_string(),
        boundary: vec![Boundary::Line(vec!["510000N 0010000W".to_string()])],
        icao_class: None,
        frequency: None,
        rules: None,
        seq: None,
    }
}

fn feat(name: &str, icao_type: IcaoType, local_type: Option<LocalType>) -> Feature {
    Feature {
        name: name.to_string(),
        icao_type,
        icao_class: None,
        id: None,
        local_type,
        rules: None,
        geometry: vec![vol("SFC")],
    }
}

#[test]
fn levels_normalise() {
    assert_eq!(norm_level("FL195"), Some(195));
    assert_eq!(norm_level("2500 ft"), Some(25));
    assert_eq!(norm_level("99 ft"), Some(0));
    assert_eq!(norm_level("SFC"), Some(0));
    assert_eq!(norm_level("FL"), None);
    assert_eq!(norm_level("70000 ft"), None);
    assert_eq!(norm_level("FLabc"), None);
}

#[test]
fn levels_format_unchanged() {
    assert_eq!(format_level("2000 ft"), "2000 ft");
    assert_eq!(format_level("FL105"), "FL105");
    assert_eq!(format_level("SFC"), "SFC");
    let mut v = vol("SFC");
    v.upper = "3500 ft".to_string();
    assert_eq!(do_levels(&v), "AL SFC\nAH 3500 ft\n");
}

#[test]
fn distances_format() {
    assert_eq!(format_distance("2 km").unwrap(), "1.080");
    assert_eq!(format_distance("10 km").unwrap(), "5.400");
    assert_eq!(format_distance("0.5 nm").unwrap(), "0.5");
    assert_eq!(format_distance("5").unwrap(), "");
    assert_eq!(format_distance("x km"), None);
}

#[test]
fn radii_in_millimetres() {
    assert_eq!(radius_to_mm("0.5 nm"), Some(926_000));
    assert_eq!(radius_to_mm("2 km"), Some(2_000_000));
    assert_eq!(radius_to_mm("1.25 km"), Some(1_250_000));
    assert_eq!(radius_to_mm("2 miles"), None);
    assert_eq!(radius_to_mm("2.0001 nm"), None);
}

#[test]
fn latlon_formats() {
    assert_eq!(format_latlon("512345N 0012345W"), "51:23:45 N 001:23:45 W");
    assert_eq!(do_point("512345N 0012345E"), "DP 51:23:45 N 001:23:45 E\n");
    assert_eq!(parse_latlon("510000N 0010000W"), Position { lat: 183600, lon: -3600 });
}

#[test]
fn dms_splits_and_formats() {
    assert_eq!(degrees_to_dms(3600 * 51 + 60 * 2 + 59), (51, 2, 59));
    let mut out = String::new();
    degrees_to_point(&mut out, DmsPoint { south: true, lat: 3600 * 5 + 7, west: false, lon: 3600 * 12 + 60 });
    assert_eq!(out, "DP 05:00:07 S 012:01:00 E\n");
}

#[test]
fn frequency_directive() {
    assert_eq!(do_freq(118_675), "AF 118.675\n");
    assert_eq!(do_freq(121_005), "AF 121.005\n");
}

#[test]
fn type_codes() {
    assert_eq!(do_type(AirType::Danger), "AC Q\n");
    assert_eq!(do_type(AirType::Tmz), "AC RMZ\n");
    assert_eq!(do_type(AirType::Gliding), "AC W\n");
    assert_eq!(resolution(AirType::Gliding), 36);
    assert_eq!(resolution(AirType::ClassD), 72);
    assert_eq!(LocalType::Hirta.as_str(), "HIRTA");
    assert_eq!(Rule::Notam.as_str(), "NOTAM");
}

#[test]
fn qualifiers_put_notam_first() {
    let mut f = feat("Range", IcaoType::D, None);
    f.rules = Some(vec![Rule::Si]);
    let mut v = vol("SFC");
    v.rules = Some(vec![Rule::Notam]);
    assert_eq!(do_name(&f, &v, 0, &Settings::default()), "AN Range (NOTAM/SI)\n");
    f.rules = None;
    assert_eq!(do_name(&f, &v, 0, &Settings::default()), "AN Range (NOTAM)\n");
}

#[test]
fn names_take_suffixes() {
    let s = Settings::default();
    let f = feat("Benson", IcaoType::Other, Some(LocalType::Matz));
    assert_eq!(do_name(&f, &f.geometry[0], 0, &s), "AN Benson MATZ\n");
    let f = feat("Oxford", IcaoType::Atz, None);
    assert_eq!(do_name(&f, &f.geometry[0], 0, &s), "AN Oxford ATZ\n");
    let mut f = feat("Range", IcaoType::Cta, None);
    f.rules = Some(vec![Rule::Raz]);
    assert_eq!(do_name(&f, &f.geometry[0], 0, &s), "AN Range RAZ\n");
    let mut v = vol("SFC");
    v.name = Some("Override".to_string());
    assert_eq!(do_name(&f, &v, 0, &s), "AN Override\n");
    let mut radio = Settings::default();
    radio.radio = true;
    let mut v = vol("SFC");
    v.frequency = Some(130_100);
    assert_eq!(do_name(&feat("Zone", IcaoType::Ctr, None), &v, 0, &radio), "AN Zone 130.100\n");
}

#[test]
fn classification_table() {
    let mut s = Settings::default();
    let f = feat("A", IcaoType::Atz, None);
    assert_eq!(airtype(&f, &f.geometry[0], &s), AirType::Ctr);
    let mut f = feat("D", IcaoType::D, None);
    f.rules = Some(vec![Rule::Si]);
    assert_eq!(airtype(&f, &f.geometry[0], &s), AirType::Danger);
    s.format = Format::Competition;
    assert_eq!(airtype(&f, &f.geometry[0], &s), AirType::Prohibited);
    let f = feat("Ils", IcaoType::Other, Some(LocalType::Ils));
    assert_eq!(airtype(&f, &f.geometry[0], &s), AirType::Ctr);
    let mut f = feat("Class", IcaoType::Cta, None);
    f.icao_class = Some(IcaoClass::E);
    assert_eq!(airtype(&f, &f.geometry[0], &s), AirType::ClassE);
    let mut v = vol("SFC");
    v.icao_class = Some(IcaoClass::A);
    assert_eq!(airtype(&f, &v, &s), AirType::ClassA);
    f.rules = Some(vec![Rule::Tmz]);
    assert_eq!(airtype(&f, &v, &s), AirType::Tmz);
    let f = feat("Glider", IcaoType::DOther, Some(LocalType::Glider));
    assert_eq!(airtype(&f, &f.geometry[0], &s), AirType::Gliding);
    let f = feat("Mast", IcaoType::DOther, Some(LocalType::Obstacle));
    assert_eq!(airtype(&f, &f.geometry[0], &s), AirType::Other);
}

#[test]
fn classification_is_repeatable() {
    let s = Settings::default();
    let f = feat("Site", IcaoType::Other, Some(LocalType::Glider));
    let first = airtype(&f, &f.geometry[0], &s);
    let second = airtype(&f, &f.geometry[0], &s);
    assert_eq!(first, second);
}

#[test]
fn filter_rules() {
    let mut s = Settings::default();
    let site = feat("Home Field", IcaoType::Other, Some(LocalType::Glider));
    assert!(!airfilter(&site, &site.geometry[0], &s));
    s.gliding = Some(AirType::Gliding);
    assert!(airfilter(&site, &site.geometry[0], &s));
    s.home = Some("Home Field".to_string());
    assert!(!airfilter(&site, &site.geometry[0], &s));
    let wave = feat("Wave One", IcaoType::DOther, Some(LocalType::Glider));
    assert!(!airfilter(&wave, &wave.geometry[0], &s));
    s.wave = vec!["Wave One".to_string()];
    assert!(airfilter(&wave, &wave.geometry[0], &s));
    let cta = feat("High", IcaoType::Cta, None);
    s.max_level = 100;
    assert!(!airfilter(&cta, &vol("FL100"), &s));
    assert!(airfilter(&cta, &vol("FL99"), &s));
    assert!(!airfilter(&cta, &vol("10000 ft"), &s));
    assert!(airfilter(&cta, &vol("9999 ft"), &s));
}

#[test]
fn circle_ring_is_closed() {
    let c = Position { lat: 187200, lon: -3600 };
    let pts = poly_circle(c, 3_704_000, 4, &dest);
    assert_eq!(pts.len(), 5);
    assert_eq!(pts[0], pts[4]);
    assert_eq!(pts[0], DmsPoint { south: false, lat: 187200 + 120, west: true, lon: 3600 });
}

#[test]
fn arc_keeps_clear_of_its_ends() {
    let c = Position { lat: 187200, lon: -3600 };
    let north = Position { lat: 187200 + 120, lon: -3600 };
    let south = Position { lat: 187200 - 120, lon: -3600 };
    let pts = poly_arc(c, north, south, Direction::Clockwise, 3_704_000, 36, &bearing, &dest);
    // Bearings 0 and 180 are the ends: steps 10 .. 170 degrees remain.
    assert_eq!(pts.len(), 17 + 1);
    assert_eq!(*pts.last().unwrap(), DmsPoint { south: false, lat: 187200 - 120, west: true, lon: 3600 });
    assert!(pts[0].lon < 3600);
    let ccw = poly_arc(c, north, south, Direction::Anticlockwise, 3_704_000, 36, &bearing, &dest);
    assert_eq!(ccw.len(), 17 + 1);
    assert!(ccw[0].lon > 3600);
}

#[test]
fn native_segments() {
    let line = vec!["510000N 0010000W".to_string(), "520000N 0010000W".to_string()];
    assert_eq!(do_line(&line), "DP 51:00:00 N 001:00:00 W\nDP 52:00:00 N 001:00:00 W\n");
    let circle = Circle { radius: "5 km".to_string(), centre: "510000N 0010000W".to_string() };
    assert_eq!(do_circle(&circle, None, &dest), "V X=51:00:00 N 001:00:00 W\nDC 2.700\n");
    let arc = Arc {
        dir: Direction::Anticlockwise,
        radius: "1 nm".to_string(),
        centre: "510000N 0010000W".to_string(),
        to: "505900N 0010000W".to_string(),
    };
    assert_eq!(
        do_arc(&arc, "510100N 0010000W", None, &bearing, &dest),
        "V D=-\nV X=51:00:00 N 001:00:00 W\nDB 51:01:00 N 001:00:00 W, 50:59:00 N 001:00:00 W\n"
    );
}

#[test]
fn boundary_closes_only_when_open() {
    let closed = vec![Boundary::Line(vec!["510000N 0010000W".to_string(), "510000N 0010000W".to_string()])];
    assert_eq!(do_boundary(&closed, None, &bearing, &dest).matches("DP ").count(), 2);
    let open = vec![Boundary::Line(vec!["510000N 0010000W".to_string(), "520000N 0010000W".to_string()])];
    assert_eq!(do_boundary(&open, None, &bearing, &dest).matches("DP ").count(), 3);
}

#[test]
fn replacement_of_missing_id_changes_nothing() {
    let mut air = vec![feat("One", IcaoType::Cta, None), feat("Two", IcaoType::Cta, None)];
    replace_volume(&mut air, Replacement { id: "absent".to_string(), geometry: vec![vol("FL50")] });
    assert_eq!(air.len(), 2);
    assert_eq!(air[0].geometry.len(), 1);
    assert_eq!(air[1].geometry.len(), 1);
    assert_eq!(air[0].geometry[0].lower, "SFC");
}

#[test]
fn replacement_removes_emptied_feature() {
    let mut one = feat("One", IcaoType::Cta, None);
    one.geometry[0].id = Some("x".to_string());
    let mut air = vec![one, feat("Two", IcaoType::Cta, None)];
    assert_eq!(find_volume(&air, "x"), Some((0, 0)));
    assert_eq!(find_volume(&air, "y"), None);
    replace_volume(&mut air, Replacement { id: "x".to_string(), geometry: vec![] });
    assert_eq!(air.len(), 1);
    assert_eq!(air[0].name, "Two");
}

#[test]
fn loa_features_are_tagged() {
    let loa = Loa {
        name: "L".to_string(),
        default: Some(true),
        areas: vec![LoaArea { name: "A".to_string(), add: vec![feat("New", IcaoType::D, None)], replace: None }],
    };
    let chosen = select_loas(vec![loa], &Settings::default());
    assert_eq!(chosen.len(), 1);
    let mut air = vec![];
    merge_loa(&mut air, chosen);
    assert_eq!(air.len(), 1);
    assert_eq!(air[0].rules, Some(vec![Rule::Loa]));
}

#[test]
fn obstacle_features() {
    let mut air = vec![];
    add_obstacles(&mut air, &vec![Obstacle {
        name: "Mast".to_string(),
        position: "510000N 0010000W".to_string(),
        elevation: "900 ft".to_string(),
    }]);
    assert_eq!(air.len(), 1);
    assert_eq!(air[0].local_type, Some(LocalType::Obstacle));
    assert_eq!(air[0].geometry[0].upper, "900 ft");
}

#[test]
fn volume_frequency_falls_back_to_feature() {
    let mut f = feat("F", IcaoType::Cta, None);
    f.id = Some("fid".to_string());
    f.geometry[0].frequency = Some(1);
    let mut air = vec![f];
    merge_services(&mut air, &vec![Service { frequency: 125_250, controls: vec!["fid".to_string()] }]);
    assert_eq!(air[0].geometry[0].frequency, Some(125_250));
    merge_services(&mut air, &vec![]);
    assert_eq!(air[0].geometry[0].frequency, None);
}

#[test]
fn settings_update() {
    let mut s = Settings::default();
    s.update("atz", "ClassD");
    assert_eq!(s.atz, AirType::ClassD);
    s.update("atz", "nonsense");
    assert_eq!(s.atz, AirType::Cta);
    s.update("ils", "ClassF");
    assert_eq!(s.ils, Some(AirType::ClassF));
    s.update("ils", "no");
    assert_eq!(s.ils, None);
    s.update("max_level", "195");
    assert_eq!(s.max_level, 195);
    s.update("max_level", "high");
    assert_eq!(s.max_level, 660);
    s.update("radio", "yes");
    assert!(s.radio);
    s.update("format", "Competition");
    assert_eq!(s.format, Format::Competition);
    s.update("overlay", "FL105");
    assert_eq!(s.overlay, Some(Overlay::FL105));
    s.update("home", "Lasham");
    assert_eq!(s.home, Some("Lasham".to_string()));
    s.update("home", "no");
    assert_eq!(s.home, None);
    s.update("colour", "red");
    assert_eq!(s.max_level, 660);
}

#[test]
fn settings_extras() {
    let mut s = Settings::default();
    s.set_extra(ExtraType::Rat, "Show".to_string(), true);
    s.set_extra(ExtraType::Rat, "Show".to_string(), true);
    s.set_extra(ExtraType::Wave, "Wave".to_string(), true);
    assert_eq!(s.get_extra(ExtraType::Rat), &vec!["Show".to_string()]);
    s.set_extra(ExtraType::Rat, "Show".to_string(), false);
    assert!(s.get_extra(ExtraType::Rat).is_empty());
    s.clear_extra(ExtraType::Wave);
    assert!(s.get_extra(ExtraType::Wave).is_empty());
    assert!(s.get_extra(ExtraType::Loa).is_empty());
}

#[test]
fn settings_default_and_description() {
    let s = Settings::default();
    assert_eq!(s.max_level, 660);
    assert_eq!(s.atz, AirType::Ctr);
    assert_eq!(
        s.describe(),
        "Settings { atz: Ctr, ils: None, unlicensed: None, microlight: None, gliding: None, home: None, hirta_gvs: None, obstacle: None, max_level: 660, radio: false, format: OpenAir, overlay: None, loa: {}, rat: {}, wave: {} }"
    );
}

#[test]
fn comments_prefix_lines() {
    assert_eq!(comment("a\n\nb"), "* a\n*\n* b\n");
    assert_eq!(comment(""), "*\n");
    assert_eq!(comment("x\n"), "* x\n*\n");
}

#[test]
fn header_wraps_settings() {
    let h = header("note", "2024-01-25 extra", "c1", "now", "agent", &Settings::default());
    assert!(h.contains("* AIRAC: 2024-01-25\n"));
    let settings_lines: Vec<&str> = h.lines().skip_while(|l| !l.starts_with("* Settings")).collect();
    assert!(settings_lines.len() > 1);
    for l in settings_lines {
        assert!(l.len() <= 74);
    }
}
