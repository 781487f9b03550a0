use caniuse::feature::confirm;
use caniuse::{Browser, Dataset, Feature, Record, Stat, Status, Support};

/// A perfect hash map with the given entries, laid out as `phf`'s code
/// generator lays its maps out.
fn map_of<V: Copy>(pairs: &[(&'static str, V)]) -> phf::Map<&'static str, V> {
    let keys: Vec<&'static str> = pairs.iter().map(|pair| pair.0).collect();
    let state = phf_generator::generate_hash(&keys);
    let entries: Vec<(&'static str, V)> = state.map.iter().map(|&at| pairs[at]).collect();
    phf::Map {
        key: state.key,
        disps: Box::leak(state.disps.into_boxed_slice()),
        entries: Box::leak(entries.into_boxed_slice()),
    }
}

fn index_of(pairs: &[(&'static str, usize)]) -> &'static phf::Map<&'static str, usize> {
    Box::leak(Box::new(map_of(pairs)))
}

fn record(id: &'static str, parent_id: &'static str, title: &'static str, status: Status) -> Record {
    Record { id, parent_id, title, status, stats: Vec::new() }
}

fn grid_stats() -> Vec<(Browser, Stat)> {
    vec![
        (
            Browser::IE,
            map_of(&[("9", Support::No), ("10", Support::PrefixedPartial), ("11", Support::PrefixedPartial)]),
        ),
        (Browser::Firefox, map_of(&[("51", Support::Disabled), ("52", Support::Supported)])),
        (Browser::OperaMini, map_of(&[("all", Support::No)])),
        (Browser::Firefox, map_of(&[("52", Support::Unknown)])),
    ]
}

fn sample() -> Dataset {
    let mut grid = record("css-grid", "", "CSS Grid Layout", Status::CandidateRecommendation);
    grid.stats = grid_stats();
    let records = vec![
        record("flexbox", "", "Flexible Box Layout Module", Status::CandidateRecommendation),
        grid,
        record("flexbox-gap", "flexbox", "gap property for Flexbox", Status::WorkingDraft),
        record("css-subgrid", "css-grid", "CSS Subgrid", Status::Other),
        record("loop", "loop", "A feature that names itself", Status::Unofficial),
    ];
    let ids = index_of(&[
        ("flexbox", 0),
        ("css-grid", 1),
        ("flexbox-gap", 2),
        ("css-subgrid", 3),
        ("loop", 4),
    ]);
    Dataset::new(ids, records).expect("the sample is consistent")
}

#[test]
fn built_maps_find_their_keys() {
    let ids = index_of(&[("flexbox", 0), ("css-grid", 1), ("flexbox-gap", 2)]);
    assert_eq!(ids.get("flexbox"), Some(&0));
    assert_eq!(ids.get("css-grid"), Some(&1));
    assert_eq!(ids.get("flexbox-gap"), Some(&2));
    assert_eq!(ids.get("webgl"), None);
    assert_eq!(ids.len(), 3);
}

#[test]
fn consistent_dataset_is_made() {
    let data = sample();
    assert_eq!(data.len(), 5);
}

#[test]
fn empty_dataset_is_made() {
    let data = Dataset::new(index_of(&[]), Vec::new()).expect("nothing can be wrong");
    assert_eq!(data.len(), 0);
    assert!(Feature::from_str(&data, "flexbox").is_err());
    assert!(Feature::from_str(&data, "").is_err());
}

#[test]
fn record_missing_from_the_index() {
    let records = vec![
        record("flexbox", "", "Flexbox", Status::CandidateRecommendation),
        record("webgl", "", "WebGL", Status::Other),
    ];
    assert!(Dataset::new(index_of(&[("flexbox", 0)]), records).is_none());
}

#[test]
fn record_at_another_position_than_the_index_says() {
    let records = vec![
        record("flexbox", "", "Flexbox", Status::CandidateRecommendation),
        record("webgl", "", "WebGL", Status::Other),
    ];
    assert!(Dataset::new(index_of(&[("flexbox", 1), ("webgl", 0)]), records).is_none());
}

#[test]
fn two_records_with_one_id() {
    let records = vec![
        record("flexbox", "", "Flexbox", Status::CandidateRecommendation),
        record("flexbox", "", "Flexbox again", Status::Other),
    ];
    assert!(Dataset::new(index_of(&[("flexbox", 0)]), records).is_none());
}

#[test]
fn parent_that_is_no_feature() {
    let records = vec![
        record("flexbox", "", "Flexbox", Status::CandidateRecommendation),
        record("flexbox-gap", "flex", "gap", Status::WorkingDraft),
    ];
    assert!(Dataset::new(index_of(&[("flexbox", 0), ("flexbox-gap", 1)]), records).is_none());
}

#[test]
fn parent_that_only_the_index_knows() {
    let records = vec![
        record("flexbox", "", "Flexbox", Status::CandidateRecommendation),
        record("flexbox-gap", "flex", "gap", Status::WorkingDraft),
    ];
    let ids = index_of(&[("flexbox", 0), ("flexbox-gap", 1), ("flex", 0)]);
    assert!(Dataset::new(ids, records).is_none());
    let records = vec![
        record("flexbox", "", "Flexbox", Status::CandidateRecommendation),
        record("flexbox-gap", "flex", "gap", Status::WorkingDraft),
    ];
    let ids = index_of(&[("flexbox", 0), ("flexbox-gap", 1), ("flex", 7)]);
    assert!(Dataset::new(ids, records).is_none());
}

#[test]
fn index_may_know_more_than_the_records() {
    let records = vec![record("flexbox", "", "Flexbox", Status::CandidateRecommendation)];
    let ids = index_of(&[("flexbox", 0), ("flex", 0), ("webgl", 3)]);
    let data = Dataset::new(ids, records).expect("every record is found");
    assert_eq!(Feature::from_str(&data, "flexbox").unwrap().id(), "flexbox");
    assert!(Feature::from_str(&data, "flex").is_err());
    assert!(Feature::from_str(&data, "webgl").is_err());
}

#[test]
fn feature_by_id() {
    let data = sample();
    let grid = Feature::from_str(&data, "css-grid").unwrap();
    assert_eq!(grid.id(), "css-grid");
    assert_eq!(grid.parent_id(), "");
    assert_eq!(grid.title(), "CSS Grid Layout");
    assert_eq!(grid.status(), Status::CandidateRecommendation);
    assert_eq!(grid.stats().len(), 4);
    let gap = Feature::from_str(&data, "flexbox-gap").unwrap();
    assert_eq!(gap.id(), "flexbox-gap");
    assert_eq!(gap.parent_id(), "flexbox");
    assert_eq!(gap.title(), "gap property for Flexbox");
    assert_eq!(gap.status(), Status::WorkingDraft);
    assert_eq!(gap.stats().len(), 0);
}

#[test]
fn feature_by_unknown_id() {
    let data = sample();
    assert_eq!(Feature::from_str(&data, "webgl").map(|f| f.id()), Err(()));
    assert_eq!(Feature::from_str(&data, "").map(|f| f.id()), Err(()));
    assert_eq!(Feature::from_str(&data, "CSS-GRID").map(|f| f.id()), Err(()));
    assert_eq!(Feature::from_str(&data, "css-grid ").map(|f| f.id()), Err(()));
}

#[test]
fn feature_without_parent() {
    let data = sample();
    let flexbox = Feature::from_str(&data, "flexbox").unwrap();
    assert!(flexbox.parent().is_none());
    let grid = Feature::from_str(&data, "css-grid").unwrap();
    assert!(grid.parent().is_none());
}

#[test]
fn feature_with_parent() {
    let data = sample();
    let gap = Feature::from_str(&data, "flexbox-gap").unwrap();
    let parent = gap.parent().unwrap();
    assert_eq!(parent.id(), "flexbox");
    assert_eq!(parent.title(), "Flexible Box Layout Module");
    assert!(parent.parent().is_none());
    let subgrid = Feature::from_str(&data, "css-subgrid").unwrap();
    assert_eq!(subgrid.parent().unwrap().id(), "css-grid");
    assert_eq!(subgrid.parent().unwrap().stats().len(), 4);
}

#[test]
fn feature_that_is_its_own_parent() {
    let data = sample();
    let looping = Feature::from_str(&data, "loop").unwrap();
    let parent = looping.parent().unwrap();
    assert_eq!(parent.id(), "loop");
    assert_eq!(parent.parent().unwrap().id(), "loop");
}

#[test]
fn support_of_a_browser() {
    let data = sample();
    let grid = Feature::from_str(&data, "css-grid").unwrap();
    let ie = grid.stat(Browser::IE).unwrap();
    assert_eq!(ie.get("9"), Some(&Support::No));
    assert_eq!(ie.get("10"), Some(&Support::PrefixedPartial));
    assert_eq!(ie.get("11"), Some(&Support::PrefixedPartial));
    assert_eq!(ie.get("12"), None);
    let mini = grid.stat(Browser::OperaMini).unwrap();
    assert_eq!(mini.get("all"), Some(&Support::No));
    assert_eq!(mini.len(), 1);
}

#[test]
fn first_entry_of_a_browser_counts() {
    let data = sample();
    let grid = Feature::from_str(&data, "css-grid").unwrap();
    let firefox = grid.stat(Browser::Firefox).unwrap();
    assert_eq!(firefox.get("52"), Some(&Support::Supported));
    assert_eq!(firefox.get("51"), Some(&Support::Disabled));
    assert_eq!(firefox.len(), 2);
}

#[test]
fn browser_without_entry() {
    let data = sample();
    let grid = Feature::from_str(&data, "css-grid").unwrap();
    assert!(grid.stat(Browser::Chrome).is_none());
    assert!(grid.stat(Browser::Opera).is_none());
    let flexbox = Feature::from_str(&data, "flexbox").unwrap();
    assert!(flexbox.stat(Browser::IE).is_none());
}

#[test]
fn stats_in_their_order() {
    let data = sample();
    let grid = Feature::from_str(&data, "css-grid").unwrap();
    let browsers: Vec<Browser> = grid.stats().iter().map(|entry| entry.0).collect();
    assert_eq!(browsers, vec![Browser::IE, Browser::Firefox, Browser::OperaMini, Browser::Firefox]);
}

#[test]
fn handle_is_copied() {
    let data = sample();
    let gap = Feature::from_str(&data, "flexbox-gap").unwrap();
    let copy = gap;
    assert_eq!(gap.id(), copy.id());
    assert_eq!(gap.parent().unwrap().id(), copy.parent().unwrap().id());
}

#[test]
fn answer_of_the_index_is_held_against_the_records() {
    let records = vec![
        record("flexbox", "", "Flexbox", Status::CandidateRecommendation),
        record("webgl", "", "WebGL", Status::Other),
    ];
    assert_eq!(confirm(&records, Some(0), "flexbox"), Some(0));
    assert_eq!(confirm(&records, Some(1), "webgl"), Some(1));
    assert_eq!(confirm(&records, Some(1), "flexbox"), None);
    assert_eq!(confirm(&records, Some(0), "flex"), None);
    assert_eq!(confirm(&records, Some(2), "webgl"), None);
    assert_eq!(confirm(&records, Some(usize::MAX), "webgl"), None);
    assert_eq!(confirm(&records, None, "webgl"), None);
    assert_eq!(confirm(&[], Some(0), ""), None);
}

#[test]
fn index_with_displacements_but_no_entries_is_not_asked() {
    let ids: &'static phf::Map<&'static str, usize> =
        Box::leak(Box::new(phf::Map { key: 0, disps: &[(0, 0)], entries: &[] }));
    let records = vec![record("flexbox", "", "Flexbox", Status::CandidateRecommendation)];
    assert!(Dataset::new(ids, records).is_none());
    let data = Dataset::new(ids, Vec::new()).expect("no record is missing");
    assert_eq!(data.len(), 0);
    assert!(Feature::from_str(&data, "flexbox").is_err());
    assert!(Feature::from_str(&data, "").is_err());
}

#[test]
fn index_with_entries_but_no_displacements_finds_nothing() {
    let ids: &'static phf::Map<&'static str, usize> =
        Box::leak(Box::new(phf::Map { key: 0, disps: &[], entries: &[("flexbox", 0)] }));
    assert_eq!(ids.get("flexbox"), None);
    let records = vec![record("flexbox", "", "Flexbox", Status::CandidateRecommendation)];
    assert!(Dataset::new(ids, records).is_none());
    let data = Dataset::new(ids, Vec::new()).expect("no record is missing");
    assert!(Feature::from_str(&data, "flexbox").is_err());
}

#[test]
fn index_made_empty_finds_nothing() {
    let ids: &'static phf::Map<&'static str, usize> = Box::leak(Box::new(phf::Map::new()));
    let records = vec![record("flexbox", "", "Flexbox", Status::CandidateRecommendation)];
    assert!(Dataset::new(ids, records).is_none());
    let data = Dataset::new(ids, Vec::new()).expect("no record is missing");
    assert!(Feature::from_str(&data, "flexbox").is_err());
}

#[test]
fn index_with_one_entry() {
    let ids: &'static phf::Map<&'static str, usize> =
        Box::leak(Box::new(phf::Map { key: 0, disps: &[(0, 0)], entries: &[("flexbox", 0)] }));
    let records = vec![record("flexbox", "", "Flexbox", Status::CandidateRecommendation)];
    let data = Dataset::new(ids, records).expect("the one record is found");
    assert_eq!(Feature::from_str(&data, "flexbox").unwrap().title(), "Flexbox");
    assert!(Feature::from_str(&data, "webgl").is_err());
}
