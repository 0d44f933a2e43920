use asselect::document::{openair, openair_at, ConvertError};
use asselect::geometry::{DmsPoint, Heading, Position};
use asselect::settings::{AirType, Format, Settings};
use asselect::yaixm::{
    Arc, Boundary, Circle, Direction, Feature, IcaoClass, IcaoType, Loa, LoaArea, LocalType,
    Obstacle, Release, Replacement, Rule, Service, Volume, Yaixm,
};
use geo::{Bearing, Destination, Geodesic, Point};

fn to_point(p: Position) -> Point<f64> {
    Point::new(p.lon as f64 / 3600.0, p.lat as f64 / 3600.0)
}

fn bearing(p: Position, q: Position) -> u64 {
    let b = Geodesic.bearing(to_point(p), to_point(q));
    ((b * 1_000_000.0).round() as u64) % 360_000_000
}

fn dest(p: Position, h: Heading, mm: u64) -> DmsPoint {
    let d = Geodesic.destination(to_point(p), h.num as f64 / h.den as f64, mm as f64 / 1000.0);
    DmsPoint {
        south: d.y() < 0.0,
        lat: (d.y().abs() * 3600.0).round() as u32,
        west: d.x() < 0.0,
        lon: (d.x().abs() * 3600.0).round() as u32,
    }
}

fn square() -> Vec<Boundary> {
    vec![Boundary::Line(vec![
        "510000N 0010000W".to_string(),
        "510000N 0000000E".to_string(),
        "500000N 0000000E".to_string(),
    ])]
}

fn volume(lower: &str, upper: &str, boundary: Vec<Boundary>) -> Volume {
    Volume {
        id: None,
        name: None,
        lower: lower.to_string(),
        upper: upper.to_string(),
        boundary,
        icao_class: None,
        frequency: None,
        rules: None,
        seq: None,
    }
}

fn feature(name: &str, icao_type: IcaoType, local_type: Option<LocalType>, geometry: Vec<Volume>) -> Feature {
    Feature {
        name: name.to_string(),
        icao_type,
        icao_class: None,
        id: None,
        local_type,
        rules: None,
        geometry,
    }
}

fn dataset(airspace: Vec<Feature>) -> Yaixm {
    Yaixm {
        airspace,
        loa: vec![],
        obstacle: vec![],
        rat: vec![],
        release: Release {
            airac_date: "2024-05-16T00:00:00Z".to_string(),
            note: "Test release".to_string(),
            commit: "abc123".to_string(),
        },
        service: vec![],
    }
}

fn convert(y: Yaixm, s: &Settings) -> Result<String, ConvertError> {
    openair_at(y, s, "tester", "2024-05-01T00:00:00+00:00", &bearing, &dest)
}

fn records(text: &str) -> Vec<String> {
    text.split("*\nAC ").skip(1).map(|r| format!("AC {}", r)).collect()
}

#[test]
fn unlicensed_airfield_record() {
    let f = feature("Farm Strip", IcaoType::Other, Some(LocalType::NoAtz), vec![volume("SFC", "2000 ft", square())]);
    let mut s = Settings::default();
    s.unlicensed = Some(AirType::ClassG);
    let text = convert(dataset(vec![f]), &s).unwrap();
    let recs = records(&text);
    assert_eq!(recs.len(), 1);
    assert!(recs[0].starts_with("AC G\nAN Farm Strip A/F\nAL SFC\nAH 2000 ft\n"));
}

#[test]
fn unlicensed_airfield_left_out_when_disabled() {
    let f = feature("Farm Strip", IcaoType::Other, Some(LocalType::NoAtz), vec![volume("SFC", "2000 ft", square())]);
    let text = convert(dataset(vec![f]), &Settings::default()).unwrap();
    assert_eq!(records(&text).len(), 0);
}

#[test]
fn competition_sequence_letters() {
    let f = feature(
        "Sector",
        IcaoType::Ctr,
        None,
        vec![volume("SFC", "FL65", square()), volume("2000 ft", "FL65", square())],
    );
    let mut s = Settings::default();
    s.format = Format::Competition;
    let text = convert(dataset(vec![f]), &s).unwrap();
    let recs = records(&text);
    assert_eq!(recs.len(), 2);
    assert!(recs[0].contains("AN Sector-A\n"));
    assert!(recs[1].contains("AN Sector-B\n"));
}

#[test]
fn explicit_sequence_label_wins() {
    let mut v1 = volume("SFC", "FL65", square());
    v1.seq = Some("1".to_string());
    let f = feature("Sector", IcaoType::Ctr, None, vec![v1, volume("SFC", "FL65", square())]);
    let mut s = Settings::default();
    s.format = Format::Competition;
    let text = convert(dataset(vec![f]), &s).unwrap();
    let recs = records(&text);
    assert!(recs[0].contains("AN Sector-1\n"));
    assert!(recs[1].contains("AN Sector-B\n"));
}

#[test]
fn max_level_cutoff_boundary() {
    let f = feature(
        "Layers",
        IcaoType::Cta,
        None,
        vec![volume("FL100", "FL195", square()), volume("FL99", "FL100", square()), volume("10000 ft", "FL195", square())],
    );
    let mut s = Settings::default();
    s.max_level = 100;
    let text = convert(dataset(vec![f]), &s).unwrap();
    let recs = records(&text);
    assert_eq!(recs.len(), 1);
    assert!(recs[0].contains("AL FL99\n"));
}

#[test]
fn native_record_layout() {
    let mut v = volume("SFC", "FL45", square());
    v.icao_class = Some(IcaoClass::D);
    let f = feature("Zone", IcaoType::Ctr, None, vec![v]);
    let text = convert(dataset(vec![f]), &Settings::default()).unwrap();
    let recs = records(&text);
    assert_eq!(
        recs[0],
        "AC D\nAN Zone\nAL SFC\nAH FL45\nDP 51:00:00 N 001:00:00 W\nDP 51:00:00 N 000:00:00 E\nDP 50:00:00 N 000:00:00 E\nDP 51:00:00 N 001:00:00 W\n"
    );
}

#[test]
fn header_lines_are_comments() {
    let text = convert(dataset(vec![]), &Settings::default()).unwrap();
    assert!(text.starts_with("* UK Airspace\n* Alan Sparrow (airspace@asselect.uk)\n*\n"));
    assert!(text.contains("* Test release\n* AIRAC: 2024-05-16\n* Commit: abc123\n"));
    assert!(text.contains("* Produced: 2024-05-01T00:00:00+00:00\n* User agent: tester\n"));
    assert!(text.contains("* Settings { atz: Ctr,"));
    for line in text.lines() {
        assert!(line.starts_with('*'));
        assert!(line.len() <= 74);
    }
}

#[test]
fn openair_stamps_current_time() {
    let text = openair(dataset(vec![]), &Settings::default(), "agent", &bearing, &dest).unwrap();
    assert!(text.contains("* Produced: 20"));
    assert!(text.contains("* User agent: agent\n"));
}

#[test]
fn short_airac_is_an_error() {
    let mut y = dataset(vec![]);
    y.release.airac_date = "2024".to_string();
    assert_eq!(convert(y, &Settings::default()), Err(ConvertError::Airac));
}

#[test]
fn bad_level_is_an_error() {
    let f = feature("Odd", IcaoType::Cta, None, vec![volume("SFC", "FL65", square()), volume("FLxx", "FL65", square())]);
    assert_eq!(
        convert(dataset(vec![f]), &Settings::default()),
        Err(ConvertError::Level { feature: 0, volume: 1 })
    );
}

#[test]
fn bad_boundary_is_an_error() {
    let f = feature("Odd", IcaoType::Cta, None, vec![volume("SFC", "FL65", vec![Boundary::Line(vec!["nowhere".to_string()])])]);
    assert_eq!(
        convert(dataset(vec![f]), &Settings::default()),
        Err(ConvertError::Boundary { feature: 0, volume: 0 })
    );
}

#[test]
fn too_many_unlabelled_volumes_is_an_error() {
    let vols: Vec<Volume> = (0..27).map(|_| volume("SFC", "FL65", square())).collect();
    let f = feature("Many", IcaoType::Cta, None, vols);
    let mut s = Settings::default();
    s.format = Format::Competition;
    assert_eq!(convert(dataset(vec![f]), &s), Err(ConvertError::Name { feature: 0, volume: 26 }));
}

#[test]
fn rat_only_format_keeps_chosen_rats() {
    let mut y = dataset(vec![feature("Base", IcaoType::Cta, None, vec![volume("SFC", "FL65", square())])]);
    y.rat = vec![
        feature("Show", IcaoType::Other, Some(LocalType::Rat), vec![volume("SFC", "2000 ft", square())]),
        feature("Other show", IcaoType::Other, Some(LocalType::Rat), vec![volume("SFC", "2000 ft", square())]),
    ];
    let mut s = Settings::default();
    s.format = Format::RatOnly;
    s.rat = vec!["Show".to_string()];
    let text = convert(y, &s).unwrap();
    let recs = records(&text);
    assert_eq!(recs.len(), 1);
    assert!(recs[0].starts_with("AC P\nAN Show\n"));
}

#[test]
fn loa_adds_and_replaces() {
    let mut base = volume("SFC", "FL65", square());
    base.id = Some("vol-1".to_string());
    let mut y = dataset(vec![feature("Base", IcaoType::Cta, None, vec![base])]);
    y.loa = vec![Loa {
        name: "Agreement".to_string(),
        default: None,
        areas: vec![LoaArea {
            name: "Area".to_string(),
            add: vec![feature("Added", IcaoType::D, None, vec![volume("SFC", "FL45", square())])],
            replace: Some(vec![Replacement {
                id: "vol-1".to_string(),
                geometry: vec![volume("FL45", "FL65", square())],
            }]),
        }],
    }];
    let s = Settings::default();
    let unmerged = convert(y.clone(), &s).unwrap();
    assert!(unmerged.contains("AN Base\nAL SFC\n"));
    assert!(!unmerged.contains("AN Added"));
    let mut chosen = Settings::default();
    chosen.loa = vec!["Agreement".to_string()];
    let text = convert(y, &chosen).unwrap();
    let recs = records(&text);
    assert_eq!(recs.len(), 2);
    assert!(recs[0].starts_with("AC A\nAN Base\nAL FL45\n") || recs[0].starts_with("AC G\nAN Base\nAL FL45\n"));
    assert!(recs[1].starts_with("AC Q\nAN Added\n"));
}

#[test]
fn obstacles_become_circles() {
    let mut y = dataset(vec![]);
    y.obstacle = vec![Obstacle {
        name: "Mast".to_string(),
        position: "520000N 0010000W".to_string(),
        elevation: "1200 ft".to_string(),
    }];
    let mut s = Settings::default();
    s.obstacle = Some(AirType::Other);
    let text = convert(y, &s).unwrap();
    let recs = records(&text);
    assert_eq!(recs.len(), 1);
    assert_eq!(recs[0], "AC OTHER\nAN Mast\nAL SFC\nAH 1200 ft\nV X=52:00:00 N 001:00:00 W\nDC 0.5\n");
}

#[test]
fn services_give_frequencies() {
    let mut v = volume("SFC", "FL65", square());
    v.id = Some("v1".to_string());
    let mut f = feature("Radio", IcaoType::Cta, None, vec![v, volume("SFC", "FL65", square())]);
    f.id = Some("f1".to_string());
    let mut y = dataset(vec![f]);
    y.service = vec![
        Service { frequency: 120_000, controls: vec!["v1".to_string()] },
        Service { frequency: 118_675, controls: vec!["f1".to_string()] },
        Service { frequency: 121_500, controls: vec!["v1".to_string()] },
    ];
    let mut s = Settings::default();
    s.radio = true;
    let text = convert(y, &s).unwrap();
    let recs = records(&text);
    assert!(recs[0].contains("AN Radio 121.500\nAF 121.500\n"));
    assert!(recs[1].contains("AN Radio 118.675\nAF 118.675\n"));
}

#[test]
fn competition_circle_is_tessellated() {
    let f = feature(
        "Round",
        IcaoType::Cta,
        None,
        vec![volume("SFC", "FL65", vec![Boundary::Circle(Circle {
            centre: "520000N 0010000W".to_string(),
            radius: "2 nm".to_string(),
        })])],
    );
    let mut s = Settings::default();
    s.format = Format::Competition;
    let text = convert(dataset(vec![f]), &s).unwrap();
    let points: Vec<&str> = text.lines().filter(|l| l.starts_with("DP ")).collect();
    assert_eq!(points.len(), 73);
    assert_eq!(points[0], points[72]);
    assert_eq!(points[0], "DP 52:02:00 N 001:00:00 W");
}

#[test]
fn native_arc_uses_previous_point() {
    let f = feature(
        "Bend",
        IcaoType::Cta,
        None,
        vec![volume("SFC", "FL65", vec![
            Boundary::Line(vec!["520200N 0010000W".to_string()]),
            Boundary::Arc(Arc {
                dir: Direction::Clockwise,
                radius: "2 nm".to_string(),
                centre: "520000N 0010000W".to_string(),
                to: "515800N 0010000W".to_string(),
            }),
        ])],
    );
    let text = convert(dataset(vec![f]), &Settings::default()).unwrap();
    let recs = records(&text);
    assert!(recs[0].ends_with(
        "DP 52:02:00 N 001:00:00 W\nV D=+\nV X=52:00:00 N 001:00:00 W\nDB 52:02:00 N 001:00:00 W, 51:58:00 N 001:00:00 W\nDP 52:02:00 N 001:00:00 W\n"
    ));
}

#[test]
fn arc_before_any_point_is_an_error() {
    let f = feature(
        "Bend",
        IcaoType::Cta,
        None,
        vec![volume("SFC", "FL65", vec![Boundary::Arc(Arc {
            dir: Direction::Anticlockwise,
            radius: "2 nm".to_string(),
            centre: "520000N 0010000W".to_string(),
            to: "515800N 0010000W".to_string(),
        })])],
    );
    assert_eq!(
        convert(dataset(vec![f]), &Settings::default()),
        Err(ConvertError::Boundary { feature: 0, volume: 0 })
    );
}

#[test]
fn notam_rule_gives_class_g() {
    let mut f = feature("Event", IcaoType::D, None, vec![volume("SFC", "FL65", square())]);
    f.rules = Some(vec![Rule::Notam]);
    let text = convert(dataset(vec![f]), &Settings::default()).unwrap();
    assert!(records(&text)[0].starts_with("AC G\nAN Event (NOTAM)\n"));
}
