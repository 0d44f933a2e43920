//! Folding the overlays of a dataset into its feature list.
use vstd::prelude::*;
use crate::settings::{contains_name, names, Format, Settings};
use crate::text::{owned, str_eq};
use crate::yaixm::{
    rules_of, Boundary, Circle, Feature, IcaoType, Loa, LoaArea, LocalType, Obstacle, Replacement,
    Release, Rule, Service, Volume, Yaixm,
};

verus! {

/// Whether a volume carries the identifier `id`.
pub open spec fn has_id(v: Volume, id: Seq<char>) -> bool {
    v.id is Some && v.id->0@ == id
}

/// Position `(f, v)` comes before `(g, w)` in feature-then-volume order.
pub open spec fn before(f: int, v: int, g: int, w: int) -> bool {
    f < g || (f == g && v < w)
}

/// The first volume carrying `id`, in feature-then-volume order.
pub open spec fn first_match(air: Seq<Feature>, id: Seq<char>, f: int, v: int) -> bool {
    &&& 0 <= f < air.len()
    &&& 0 <= v < air[f].geometry@.len()
    &&& has_id(air[f].geometry@[v], id)
    &&& forall|g: int, w: int|
        0 <= g < air.len() && 0 <= w < air[g].geometry@.len() && before(g, w, f, v) ==> !has_id(
            #[trigger] air[g].geometry@[w],
            id,
        )
}

/// No volume carries `id`.
pub open spec fn no_match(air: Seq<Feature>, id: Seq<char>) -> bool {
    forall|g: int, w: int|
        0 <= g < air.len() && 0 <= w < air[g].geometry@.len() ==> !has_id(
            #[trigger] air[g].geometry@[w],
            id,
        )
}

/// Finds the feature and volume indices of the first volume with the identifier.
pub fn find_volume(airspace: &Vec<Feature>, volume_id: &str) -> (r: Option<(usize, usize)>)
    ensures
        match r {
            Some((f, v)) => first_match(airspace@, volume_id@, f as int, v as int),
            None => no_match(airspace@, volume_id@),
        },
{
    let mut f: usize = 0;
    while f < airspace.len()
        invariant
            0 <= f <= airspace.len(),
            forall|g: int, w: int|
                0 <= g < f && 0 <= w < airspace@[g].geometry@.len() ==> !has_id(
                    #[trigger] airspace@[g].geometry@[w],
                    volume_id@,
                ),
        decreases airspace.len() - f,
    {
        let feature = &airspace[f];
        let mut v: usize = 0;
        while v < feature.geometry.len()
            invariant
                0 <= f < airspace.len(),
                *feature == airspace@[f as int],
                0 <= v <= feature.geometry.len(),
                forall|g: int, w: int|
                    0 <= g < f && 0 <= w < airspace@[g].geometry@.len() ==> !has_id(
                        #[trigger] airspace@[g].geometry@[w],
                        volume_id@,
                    ),
                forall|w: int| 0 <= w < v ==> !has_id(#[trigger] feature.geometry@[w], volume_id@),
            decreases feature.geometry.len() - v,
        {
            let matched = match &feature.geometry[v].id {
                Some(id) => str_eq(id.as_str(), volume_id),
                None => false,
            };
            if matched {
                return Some((f, v));
            }
            v = v + 1;
        }
        f = f + 1;
    }
    None
}

/// `b` is `a` with its volumes replaced by `g`.
pub open spec fn with_geometry(a: Feature, b: Feature, g: Seq<Volume>) -> bool {
    b == Feature { geometry: b.geometry, ..a } && b.geometry@ == g
}

/// `new` is `old` after one replacement: where the identifier is found, the
/// replacement volumes are appended to that feature, the matched volume is
/// removed, and the feature is removed if no volume is left; otherwise
/// nothing changes.
pub open spec fn replaced(old: Seq<Feature>, new: Seq<Feature>, rep: Replacement) -> bool {
    if no_match(old, rep.id@) {
        new == old
    } else {
        exists|f: int, v: int|
            #![trigger first_match(old, rep.id@, f, v)]
            first_match(old, rep.id@, f, v) && {
                let g = (old[f].geometry@ + rep.geometry@).remove(v);
                if g.len() == 0 {
                    new == old.remove(f)
                } else {
                    &&& new.len() == old.len()
                    &&& forall|j: int| 0 <= j < old.len() && j != f ==> new[j] == old[j]
                    &&& with_geometry(old[f], new[f], g)
                }
            }
    }
}

/// Applies one replacement to the feature list.
pub fn replace_volume(airspace: &mut Vec<Feature>, rep: Replacement)
    ensures
        replaced(old(airspace)@, final(airspace)@, rep),
{
    let ghost old_air = airspace@;
    match find_volume(airspace, rep.id.as_str()) {
        None => {},
        Some((f, v)) => {
            let mut feature = airspace.remove(f);
            let ghost old_feature = feature;
            let mut geometry = Vec::new();
            std::mem::swap(&mut geometry, &mut feature.geometry);
            let mut extra = rep.geometry;
            geometry.append(&mut extra);
            geometry.remove(v);
            let ghost g = geometry@;
            assert(g == (old_air[f as int].geometry@ + rep.geometry@).remove(v as int));
            let empty = geometry.len() == 0;
            feature.geometry = geometry;
            if !empty {
                airspace.insert(f, feature);
                assert(with_geometry(old_air[f as int], airspace@[f as int], g));
                assert(forall|j: int| 0 <= j < old_air.len() && j != f ==> airspace@[j] == old_air[j]);
            } else {
                assert(airspace@ == old_air.remove(f as int));
            }
            assert(first_match(old_air, rep.id@, f as int, v as int));
        },
    }
}

/// A replacement whose identifier matches no volume leaves the feature
/// list as it was.
pub proof fn lemma_replace_missing_is_noop(old: Seq<Feature>, new: Seq<Feature>, rep: Replacement)
    requires
        no_match(old, rep.id@),
        replaced(old, new, rep),
    ensures
        new == old,
{
}

/// `new` is `old` after each replacement in turn.
pub open spec fn replaced_all(old: Seq<Feature>, new: Seq<Feature>, reps: Seq<Replacement>) -> bool {
    exists|chain: Seq<Seq<Feature>>|
        #![trigger chain.len()]
        chain.len() == reps.len() + 1 && chain[0] == old && chain.last() == new && forall|i: int|
            #![trigger reps[i]]
            0 <= i < reps.len() ==> replaced(chain[i], chain[i + 1], reps[i])
}

/// Applies replacements in order, each to the list the earlier ones left.
pub fn replace_all(airspace: &mut Vec<Feature>, reps: Vec<Replacement>)
    ensures
        replaced_all(old(airspace)@, final(airspace)@, reps@),
{
    let ghost all = reps@;
    let ghost mut chain: Seq<Seq<Feature>> = seq![airspace@];
    let mut reps = reps;
    let mut k: usize = 0;
    let n = reps.len();
    while reps.len() > 0
        invariant
            n == all.len(),
            k + reps@.len() == n,
            reps@ == all.subrange(k as int, n as int),
            chain.len() == k + 1,
            chain[0] == old(airspace)@,
            chain.last() == airspace@,
            forall|i: int| #![trigger all[i]] 0 <= i < k ==> replaced(chain[i], chain[i + 1], all[i]),
        decreases reps.len(),
    {
        let rep = reps.remove(0);
        assert(rep == all[k as int]);
        replace_volume(airspace, rep);
        proof {
            chain = chain.push(airspace@);
        }
        k = k + 1;
    }
    assert(chain.len() == all.len() + 1);
}

/// `b` is `a` with the local-agreement rule added to its rule list.
pub open spec fn tagged(a: Feature, b: Feature) -> bool {
    b == Feature { rules: b.rules, ..a } && b.rules is Some && rules_of(b.rules) == rules_of(
        a.rules,
    ).push(Rule::Loa)
}

/// `new` is `old` followed by each of `src` tagged as from a local agreement.
pub open spec fn added(old: Seq<Feature>, new: Seq<Feature>, src: Seq<Feature>) -> bool {
    &&& new.len() == old.len() + src.len()
    &&& new.subrange(0, old.len() as int) == old
    &&& forall|i: int| 0 <= i < src.len() ==> tagged(src[i], #[trigger] new[old.len() + i])
}

/// The features that a list of agreement areas adds, in order.
pub open spec fn area_adds(areas: Seq<LoaArea>) -> Seq<Feature>
    decreases areas.len(),
{
    if areas.len() == 0 {
        Seq::empty()
    } else {
        area_adds(areas.drop_last()) + areas.last().add@
    }
}

/// The replacements of a list of agreement areas, in order.
pub open spec fn area_replacements(areas: Seq<LoaArea>) -> Seq<Replacement>
    decreases areas.len(),
{
    if areas.len() == 0 {
        Seq::empty()
    } else {
        area_replacements(areas.drop_last()) + match areas.last().replace {
            Some(r) => r@,
            None => Seq::empty(),
        }
    }
}

/// The features that local agreements add, in order.
pub open spec fn loa_adds(loas: Seq<Loa>) -> Seq<Feature>
    decreases loas.len(),
{
    if loas.len() == 0 {
        Seq::empty()
    } else {
        loa_adds(loas.drop_last()) + area_adds(loas.last().areas@)
    }
}

/// The replacements of local agreements, in order.
pub open spec fn loa_replacements(loas: Seq<Loa>) -> Seq<Replacement>
    decreases loas.len(),
{
    if loas.len() == 0 {
        Seq::empty()
    } else {
        loa_replacements(loas.drop_last()) + area_replacements(loas.last().areas@)
    }
}

/// Tags a feature as from a local agreement.
fn tag_loa(feature: Feature) -> (r: Feature)
    ensures
        tagged(feature, r),
{
    let mut feature = feature;
    let mut rules: Vec<Rule> = Vec::new();
    match &feature.rules {
        Some(v) => {
            let mut i: usize = 0;
            while i < v.len()
                invariant
                    0 <= i <= v.len(),
                    rules@ == v@.subrange(0, i as int),
                decreases v.len() - i,
            {
                rules.push(v[i]);
                i = i + 1;
            }
            assert(v@.subrange(0, v.len() as int) == v@);
        },
        None => {},
    }
    rules.push(Rule::Loa);
    feature.rules = Some(rules);
    feature
}

/// Appends the features of one agreement area, tagged.
fn add_area_features(airspace: &mut Vec<Feature>, add: Vec<Feature>)
    ensures
        added(old(airspace)@, final(airspace)@, add@),
{
    let ghost src = add@;
    let ghost base = airspace@;
    let mut add = add;
    let mut k: usize = 0;
    assert(src.len() == add.len());
    assert(airspace@.subrange(0, base.len() as int) =~= base);
    assert(src.subrange(0, 0) =~= Seq::<Feature>::empty());
    while add.len() > 0
        invariant
            src.len() <= usize::MAX,
            k + add@.len() == src.len(),
            add@ == src.subrange(k as int, src.len() as int),
            added(base, airspace@, src.subrange(0, k as int)),
        decreases add.len(),
    {
        let f = add.remove(0);
        assert(f == src[k as int]);
        let t = tag_loa(f);
        airspace.push(t);
        assert(added(base, airspace@, src.subrange(0, k + 1))) by {
            assert(airspace@.subrange(0, base.len() as int) =~= base);
            assert(forall|i: int| 0 <= i < k + 1 ==> #[trigger] src.subrange(0, k + 1)[i] == src[i]);
        }
        k = k + 1;
    }
    assert(src.subrange(0, src.len() as int) == src);
}

proof fn lemma_added_concat(
    a: Seq<Feature>,
    b: Seq<Feature>,
    c: Seq<Feature>,
    s1: Seq<Feature>,
    s2: Seq<Feature>,
)
    requires
        added(a, b, s1),
        added(b, c, s2),
    ensures
        added(a, c, s1 + s2),
{
    assert(c.subrange(0, a.len() as int) =~= b.subrange(0, a.len() as int));
    assert forall|i: int| 0 <= i < (s1 + s2).len() implies tagged(
        (s1 + s2)[i],
        #[trigger] c[a.len() + i],
    ) by {
        if i < s1.len() {
            assert(c[a.len() + i] == b[a.len() + i]);
        } else {
            assert(c[b.len() + (i - s1.len())] == c[a.len() + i]);
        }
    }
}

/// Merges local agreements into the feature list: first every added
/// feature, tagged, then every replacement in order.
pub fn merge_loa(airspace: &mut Vec<Feature>, loas: Vec<Loa>)
    ensures
        exists|mid: Seq<Feature>|
            added(old(airspace)@, mid, loa_adds(loas@)) && replaced_all(
                mid,
                final(airspace)@,
                loa_replacements(loas@),
            ),
{
    let ghost all = loas@;
    let ghost base = airspace@;
    let mut loas = loas;
    let mut reps: Vec<Replacement> = Vec::new();
    let mut k: usize = 0;
    let n = loas.len();
    assert(airspace@.subrange(0, base.len() as int) =~= base);
    assert(all.subrange(0, 0) =~= Seq::<Loa>::empty());
    while loas.len() > 0
        invariant
            n == all.len(),
            k + loas@.len() == n,
            loas@ == all.subrange(k as int, n as int),
            added(base, airspace@, loa_adds(all.subrange(0, k as int))),
            reps@ == loa_replacements(all.subrange(0, k as int)),
        decreases loas.len(),
    {
        let loa = loas.remove(0);
        assert(loa == all[k as int]);
        let ghost areas_all = loa.areas@;
        let ghost before_loa = airspace@;
        let ghost reps_before = reps@;
        let mut areas = loa.areas;
        let mut j: usize = 0;
        let m = areas.len();
        assert(added(before_loa, airspace@, area_adds(areas_all.subrange(0, 0)))) by {
            assert(airspace@.subrange(0, before_loa.len() as int) =~= before_loa);
        }
        while areas.len() > 0
            invariant
                m == areas_all.len(),
                j + areas@.len() == m,
                areas@ == areas_all.subrange(j as int, m as int),
                added(before_loa, airspace@, area_adds(areas_all.subrange(0, j as int))),
                reps@ == reps_before + area_replacements(areas_all.subrange(0, j as int)),
            decreases areas.len(),
        {
            let area = areas.remove(0);
            assert(area == areas_all[j as int]);
            let ghost mid = airspace@;
            add_area_features(airspace, area.add);
            proof {
                lemma_added_concat(
                    before_loa,
                    mid,
                    airspace@,
                    area_adds(areas_all.subrange(0, j as int)),
                    area.add@,
                );
                assert(areas_all.subrange(0, j + 1).drop_last() == areas_all.subrange(0, j as int));
            }
            match area.replace {
                Some(r) => {
                    let mut r = r;
                    reps.append(&mut r);
                },
                None => {},
            }
            j = j + 1;
        }
        assert(areas_all.subrange(0, m as int) == areas_all);
        proof {
            lemma_added_concat(
                base,
                before_loa,
                airspace@,
                loa_adds(all.subrange(0, k as int)),
                area_adds(areas_all),
            );
            assert(all.subrange(0, k + 1).drop_last() == all.subrange(0, k as int));
        }
        k = k + 1;
    }
    assert(all.subrange(0, n as int) == all);
    let ghost mid = airspace@;
    replace_all(airspace, reps);
}

/// Whether a local agreement is merged: it is on by default or chosen by name.
pub open spec fn loa_selected(l: Loa, s: Settings) -> bool {
    l.default == Some(true) || names(s.loa@).contains(l.name@)
}

/// The merged local agreements, in order.
pub open spec fn selected_loas(ls: Seq<Loa>, s: Settings) -> Seq<Loa>
    decreases ls.len(),
{
    if ls.len() == 0 {
        Seq::empty()
    } else if loa_selected(ls.last(), s) {
        selected_loas(ls.drop_last(), s).push(ls.last())
    } else {
        selected_loas(ls.drop_last(), s)
    }
}

/// Keeps the local agreements that are on by default or chosen.
pub fn select_loas(loas: Vec<Loa>, settings: &Settings) -> (r: Vec<Loa>)
    ensures
        r@ == selected_loas(loas@, *settings),
{
    let ghost all = loas@;
    let mut loas = loas;
    let mut r: Vec<Loa> = Vec::new();
    let mut k: usize = 0;
    let n = loas.len();
    assert(all.subrange(0, 0) =~= Seq::<Loa>::empty());
    while loas.len() > 0
        invariant
            n == all.len(),
            k + loas@.len() == n,
            loas@ == all.subrange(k as int, n as int),
            r@ == selected_loas(all.subrange(0, k as int), *settings),
        decreases loas.len(),
    {
        let loa = loas.remove(0);
        assert(loa == all[k as int]);
        assert(all.subrange(0, k + 1).drop_last() == all.subrange(0, k as int));
        let keep = loa.default == Some(true) || contains_name(&settings.loa, loa.name.as_str());
        if keep {
            r.push(loa);
        }
        k = k + 1;
    }
    assert(all.subrange(0, n as int) == all);
    r
}

/// The chosen temporary restrictions, in order.
pub open spec fn selected_rats(fs: Seq<Feature>, s: Settings) -> Seq<Feature>
    decreases fs.len(),
{
    if fs.len() == 0 {
        Seq::empty()
    } else if names(s.rat@).contains(fs.last().name@) {
        selected_rats(fs.drop_last(), s).push(fs.last())
    } else {
        selected_rats(fs.drop_last(), s)
    }
}

/// Keeps the temporary restrictions chosen by name.
pub fn select_rats(rats: Vec<Feature>, settings: &Settings) -> (r: Vec<Feature>)
    ensures
        r@ == selected_rats(rats@, *settings),
{
    let ghost all = rats@;
    let mut rats = rats;
    let mut r: Vec<Feature> = Vec::new();
    let mut k: usize = 0;
    let n = rats.len();
    assert(all.subrange(0, 0) =~= Seq::<Feature>::empty());
    while rats.len() > 0
        invariant
            n == all.len(),
            k + rats@.len() == n,
            rats@ == all.subrange(k as int, n as int),
            r@ == selected_rats(all.subrange(0, k as int), *settings),
        decreases rats.len(),
    {
        let rat = rats.remove(0);
        assert(rat == all[k as int]);
        assert(all.subrange(0, k + 1).drop_last() == all.subrange(0, k as int));
        if contains_name(&settings.rat, rat.name.as_str()) {
            r.push(rat);
        }
        k = k + 1;
    }
    assert(all.subrange(0, n as int) == all);
    r
}

/// The feature standing for an obstacle: a circle of half a nautical mile
/// from the surface to the obstacle's elevation.
pub open spec fn obstacle_feature(o: Obstacle, f: Feature) -> bool {
    &&& f.name@ == o.name@
    &&& f.icao_type == IcaoType::DOther
    &&& f.icao_class is None
    &&& f.id is None
    &&& f.local_type == Some(LocalType::Obstacle)
    &&& f.rules is None
    &&& f.geometry@.len() == 1
    &&& {
        let v = f.geometry@[0];
        &&& v.upper@ == o.elevation@
        &&& v.lower@ == "SFC"@
        &&& v.icao_class is None
        &&& v.frequency is None
        &&& v.id is None
        &&& v.name is None
        &&& v.rules is None
        &&& v.seq is None
        &&& v.boundary@.len() == 1
        &&& match v.boundary@[0] {
            Boundary::Circle(c) => c.centre@ == o.position@ && c.radius@ == "0.5 nm"@,
            _ => false,
        }
    }
}

/// `new` is `old` followed by the feature of each obstacle.
pub open spec fn obstacles_added(old: Seq<Feature>, new: Seq<Feature>, obs: Seq<Obstacle>) -> bool {
    &&& new.len() == old.len() + obs.len()
    &&& new.subrange(0, old.len() as int) == old
    &&& forall|i: int| 0 <= i < obs.len() ==> obstacle_feature(obs[i], #[trigger] new[old.len() + i])
}

/// Appends one feature for each obstacle.
pub fn add_obstacles(airspace: &mut Vec<Feature>, obstacles: &Vec<Obstacle>)
    ensures
        obstacles_added(old(airspace)@, final(airspace)@, obstacles@),
{
    let ghost base = airspace@;
    let mut i: usize = 0;
    assert(airspace@.subrange(0, base.len() as int) =~= base);
    while i < obstacles.len()
        invariant
            0 <= i <= obstacles.len(),
            airspace@.len() == base.len() + i,
            airspace@.subrange(0, base.len() as int) == base,
            forall|j: int|
                0 <= j < i ==> obstacle_feature(obstacles@[j], #[trigger] airspace@[base.len() + j]),
        decreases obstacles.len() - i,
    {
        let obstacle = &obstacles[i];
        let mut boundary: Vec<Boundary> = Vec::new();
        boundary.push(
            Boundary::Circle(Circle { centre: obstacle.position.clone(), radius: owned("0.5 nm") }),
        );
        let mut geometry: Vec<Volume> = Vec::new();
        geometry.push(
            Volume {
                upper: obstacle.elevation.clone(),
                lower: owned("SFC"),
                boundary: boundary,
                icao_class: None,
                frequency: None,
                id: None,
                name: None,
                rules: None,
                seq: None,
            },
        );
        let feature = Feature {
            name: obstacle.name.clone(),
            icao_type: IcaoType::DOther,
            icao_class: None,
            id: None,
            local_type: Some(LocalType::Obstacle),
            rules: None,
            geometry: geometry,
        };
        airspace.push(feature);
        assert(airspace@.subrange(0, base.len() as int) =~= base);
        i = i + 1;
    }
}

/// The frequency that the services give an identifier: that of the last
/// service that lists it.
pub open spec fn service_freq(svcs: Seq<Service>, id: Seq<char>) -> Option<u32>
    decreases svcs.len(),
{
    if svcs.len() == 0 {
        None
    } else if exists|j: int| 0 <= j < svcs.last().controls@.len() && #[trigger] svcs.last().controls@[j]@ == id {
        Some(svcs.last().frequency)
    } else {
        service_freq(svcs.drop_last(), id)
    }
}

/// The frequency of an optional identifier.
pub open spec fn id_freq(svcs: Seq<Service>, id: Option<String>) -> Option<u32> {
    match id {
        Some(i) => service_freq(svcs, i@),
        None => None,
    }
}

/// The frequency of a volume: that of its own identifier, else that of its
/// feature's identifier, else none.
pub open spec fn volume_freq(svcs: Seq<Service>, f: Feature, v: Volume) -> Option<u32> {
    match id_freq(svcs, v.id) {
        Some(x) => Some(x),
        None => id_freq(svcs, f.id),
    }
}

/// The volume with its frequency set to `x`.
pub open spec fn with_freq(v: Volume, x: Option<u32>) -> Volume {
    Volume { frequency: x, ..v }
}

/// `b` is `a` with each volume given its frequency from the services.
pub open spec fn with_frequencies(svcs: Seq<Service>, a: Feature, b: Feature) -> bool {
    &&& b == Feature { geometry: b.geometry, ..a }
    &&& b.geometry@.len() == a.geometry@.len()
    &&& forall|j: int|
        0 <= j < a.geometry@.len() ==> #[trigger] b.geometry@[j] == with_freq(
            a.geometry@[j],
            volume_freq(svcs, a, a.geometry@[j]),
        )
}

/// Looks up the frequency of an optional identifier.
fn lookup_freq(services: &Vec<Service>, id: &Option<String>) -> (r: Option<u32>)
    ensures
        r == id_freq(services@, *id),
{
    match id {
        None => None,
        Some(i) => {
            assert(id_freq(services@, *id) == service_freq(services@, i@));
            let mut k: usize = services.len();
            assert(services@.subrange(0, k as int) == services@);
            while k > 0
                invariant
                    0 <= k <= services.len(),
                    service_freq(services@, i@) == service_freq(services@.subrange(0, k as int), i@),
                    id_freq(services@, *id) == service_freq(services@, i@),
                decreases k,
            {
                let svc = &services[k - 1];
                let ghost pre = services@.subrange(0, k as int);
                assert(pre.last() == *svc);
                assert(pre.drop_last() == services@.subrange(0, k - 1));
                let mut j: usize = 0;
                while j < svc.controls.len()
                    invariant
                        0 <= j <= svc.controls.len(),
                        pre.last() == *svc,
                        service_freq(services@, i@) == service_freq(pre, i@),
                        id_freq(services@, *id) == service_freq(services@, i@),
                        pre.len() > 0,
                        forall|t: int| 0 <= t < j ==> #[trigger] svc.controls@[t]@ != i@,
                    decreases svc.controls.len() - j,
                {
                    if str_eq(svc.controls[j].as_str(), i.as_str()) {
                        assert(pre.last().controls@[j as int]@ == i@);
                        assert(service_freq(pre, i@) == Some(svc.frequency));
                        return Some(svc.frequency);
                    }
                    j = j + 1;
                }
                k = k - 1;
            }
            assert(services@.subrange(0, 0) =~= Seq::<Service>::empty());
            None
        },
    }
}

/// Gives every volume the frequency the services assign it.
pub fn merge_services(airspace: &mut Vec<Feature>, services: &Vec<Service>)
    ensures
        final(airspace)@.len() == old(airspace)@.len(),
        forall|i: int|
            0 <= i < old(airspace)@.len() ==> with_frequencies(
                services@,
                old(airspace)@[i],
                #[trigger] final(airspace)@[i],
            ),
{
    let ghost base = airspace@;
    let mut i: usize = 0;
    while i < airspace.len()
        invariant
            0 <= i <= airspace.len(),
            airspace@.len() == base.len(),
            forall|j: int| i <= j < base.len() ==> airspace@[j] == base[j],
            forall|j: int|
                0 <= j < i ==> with_frequencies(services@, base[j], #[trigger] airspace@[j]),
        decreases airspace.len() - i,
    {
        let mut feature = airspace.remove(i);
        let ghost orig = feature;
        let mut geometry = Vec::new();
        std::mem::swap(&mut geometry, &mut feature.geometry);
        let feature_freq = lookup_freq(services, &feature.id);
        let ghost vols = geometry@;
        let mut done: Vec<Volume> = Vec::new();
        let m = geometry.len();
        while geometry.len() > 0
            invariant
                done@.len() + geometry@.len() == m,
                m == vols.len(),
                geometry@ == vols.subrange(done@.len() as int, m as int),
                feature_freq == id_freq(services@, orig.id),
                forall|j: int|
                    0 <= j < done@.len() ==> #[trigger] done@[j] == with_freq(
                        vols[j],
                        volume_freq(services@, orig, vols[j]),
                    ),
            decreases geometry.len(),
        {
            let mut vol = geometry.remove(0);
            assert(vol == vols[done@.len() as int]);
            let own = lookup_freq(services, &vol.id);
            vol.frequency = match own {
                Some(x) => Some(x),
                None => feature_freq,
            };
            done.push(vol);
        }
        feature.geometry = done;
        airspace.insert(i, feature);
        i = i + 1;
    }
}

/// `m` is the working feature list for the dataset and settings. For
/// restrictions only, it is the chosen temporary restrictions. Otherwise the
/// base features, with the chosen local agreements merged, the obstacles
/// added where they are shown, the chosen temporary restrictions appended,
/// and every volume given its radio frequency.
pub open spec fn merged(y: Yaixm, s: Settings, m: Seq<Feature>) -> bool {
    if s.format == Format::RatOnly {
        m == selected_rats(y.rat@, s)
    } else {
        let loas = selected_loas(y.loa@, s);
        exists|a: Seq<Feature>, b: Seq<Feature>, c: Seq<Feature>|
            #![trigger added(y.airspace@, a, loa_adds(loas)), replaced_all(a, b, loa_replacements(loas)), c + selected_rats(y.rat@, s)]
            {
                &&& added(y.airspace@, a, loa_adds(loas))
                &&& replaced_all(a, b, loa_replacements(loas))
                &&& if s.obstacle is Some {
                    obstacles_added(b, c, y.obstacle@)
                } else {
                    c == b
                }
                &&& {
                    let d = c + selected_rats(y.rat@, s);
                    &&& m.len() == d.len()
                    &&& forall|i: int|
                        0 <= i < d.len() ==> with_frequencies(y.service@, d[i], #[trigger] m[i])
                }
            }
    }
}

/// Builds the working feature list of a dataset; hands back its release
/// metadata too.
pub fn merge(yaixm: Yaixm, settings: &Settings) -> (r: (Vec<Feature>, Release))
    ensures
        merged(yaixm, *settings, r.0@),
        r.1 == yaixm.release,
{
    let ghost y = yaixm;
    let Yaixm { airspace, loa, obstacle, rat, release, service } = yaixm;
    if settings.format == Format::RatOnly {
        return (select_rats(rat, settings), release);
    }
    let mut airspace = airspace;
    let loas = select_loas(loa, settings);
    let ghost sel = loas@;
    merge_loa(&mut airspace, loas);
    let ghost b = airspace@;
    if settings.obstacle.is_some() {
        add_obstacles(&mut airspace, &obstacle);
    }
    let ghost c = airspace@;
    let mut rats = select_rats(rat, settings);
    airspace.append(&mut rats);
    let ghost d = airspace@;
    assert(d == c + selected_rats(y.rat@, *settings));
    merge_services(&mut airspace, &service);
    proof {
        let a = choose|a: Seq<Feature>|
            added(y.airspace@, a, loa_adds(sel)) && replaced_all(a, b, loa_replacements(sel));
        assert(added(y.airspace@, a, loa_adds(sel)) && replaced_all(a, b, loa_replacements(sel)));
    }
    (airspace, release)
}

} // verus!
