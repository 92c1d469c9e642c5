use headway::bounds::Bounds;
use headway::error::ErrorKind;
use headway::tiles::{
    lookup_is_decisive, resolve_tile_lookup, validate_tile_coordinate, ScanItem, ScanOpened,
    TileCollection, TileReadOutcome,
};

fn sample_bounds() -> Bounds {
    Bounds::nesw(477000000, -1222000000, 475000000, -1224000000).unwrap()
}

fn collection_with_two_sources() -> TileCollection {
    let mut c = TileCollection::new(String::from("/data/tiles"));
    c.add_source("/data/tiles/system/planet.pmtiles", sample_bounds(), 100, 1).unwrap();
    c.add_source("/data/tiles/user/region.pmtiles", sample_bounds(), 200, 2).unwrap();
    c
}

#[test]
fn roots_are_pure_path_derivations() {
    let c = TileCollection::new(String::from("/data/tiles"));
    assert_eq!(c.system_root(), "/data/tiles/system");
    assert_eq!(c.user_extracts_root(), "/data/tiles/user");
}

#[test]
fn add_source_registers_in_order() {
    let c = collection_with_two_sources();
    assert_eq!(c.source_count(), 2);
    let first = c.source_record(0);
    assert_eq!(first.file_name(), "planet.pmtiles");
    assert_eq!(first.file_size(), 100);
    assert_eq!(first.bounds(), sample_bounds());
    assert_eq!(c.reader_handle(0), 1);
    let second = c.source_record(1);
    assert_eq!(second.file_name(), "region.pmtiles");
    assert_eq!(c.source_path(1), "/data/tiles/user/region.pmtiles");
}

#[test]
fn add_source_rejects_duplicate_file_name() {
    let mut c = collection_with_two_sources();
    let r = c.add_source("/data/tiles/user/planet.pmtiles", sample_bounds(), 7, 3);
    assert_eq!(r.unwrap_err().kind(), ErrorKind::Validation);
    assert_eq!(c.source_count(), 2);
}

#[test]
fn add_source_rejects_path_outside_subtrees() {
    let mut c = TileCollection::new(String::from("/data/tiles"));
    let r = c.add_source("/elsewhere/a.pmtiles", sample_bounds(), 7, 3);
    assert_eq!(r.unwrap_err().kind(), ErrorKind::Validation);
    assert_eq!(c.source_count(), 0);
}

#[test]
fn add_source_rejects_path_without_file_name() {
    let mut c = TileCollection::new(String::from("/data/tiles"));
    let r = c.add_source("/data/tiles/user/", sample_bounds(), 7, 3);
    assert_eq!(r.unwrap_err().kind(), ErrorKind::Validation);
}

#[test]
fn remove_extract_unknown_name_is_not_found() {
    let c = collection_with_two_sources();
    let r = c.remove_extract("missing.pmtiles", "/data/tiles/user/missing.pmtiles", "/data/tiles/user");
    assert_eq!(r.unwrap_err().kind(), ErrorKind::NotFound);
}

#[test]
fn remove_extract_outside_user_subtree_is_a_validation_error() {
    let c = collection_with_two_sources();
    // The record exists in the bookkeeping, but its path resolves into
    // the system subtree, so removal is refused.
    let r = c.remove_extract("planet.pmtiles", "/data/tiles/system/planet.pmtiles", "/data/tiles/user");
    assert_eq!(r.unwrap_err().kind(), ErrorKind::Validation);
}

#[test]
fn remove_extract_within_user_subtree_succeeds() {
    let mut c = collection_with_two_sources();
    let i = c
        .remove_extract("region.pmtiles", "/data/tiles/user/region.pmtiles", "/data/tiles/user")
        .unwrap();
    assert_eq!(i, 1);
    let s = c.remove_source_at(i);
    assert_eq!(s.record.file_name(), "region.pmtiles");
    assert_eq!(c.source_count(), 1);
    assert_eq!(c.source_record(0).file_name(), "planet.pmtiles");
}

#[test]
fn generated_user_path_is_fresh_and_well_formed() {
    let c = TileCollection::new(String::from("/data/tiles"));
    let p = c.generate_user_pmtiles_path();
    assert!(p.starts_with("/data/tiles/user/"));
    assert!(p.ends_with(".pmtiles"));
    // root + "/user" + "/" + 36 identifier characters + ".pmtiles"
    assert_eq!(p.len(), "/data/tiles/user/".len() + 36 + ".pmtiles".len());
    let id = &p["/data/tiles/user/".len()..p.len() - ".pmtiles".len()];
    assert!(id.chars().all(|ch| ch == '-' || ch.is_ascii_hexdigit()));
    let q = c.generate_user_pmtiles_path();
    assert_ne!(p, q);
}

#[test]
fn lookup_first_source_wins() {
    // A tile present in the second source is never returned when the
    // first source also has it.
    let outcomes = vec![
        TileReadOutcome::Present(vec![1, 2]),
        TileReadOutcome::Present(vec![9, 9]),
    ];
    assert_eq!(resolve_tile_lookup(outcomes).unwrap().unwrap(), vec![1, 2]);
}

#[test]
fn lookup_earlier_absence_never_masks_later_answer() {
    let outcomes = vec![
        TileReadOutcome::Absent,
        TileReadOutcome::Present(vec![9, 9]),
    ];
    assert_eq!(resolve_tile_lookup(outcomes).unwrap().unwrap(), vec![9, 9]);
}

#[test]
fn only_absence_lets_the_scan_go_on() {
    assert!(!lookup_is_decisive(&TileReadOutcome::Absent));
    assert!(lookup_is_decisive(&TileReadOutcome::Present(vec![1])));
    assert!(lookup_is_decisive(&TileReadOutcome::ReadError(headway::error::Error::new(
        ErrorKind::Io,
        String::from("unreadable"),
    ))));
}

#[test]
fn lookup_all_absent_is_absent() {
    let outcomes = vec![TileReadOutcome::Absent, TileReadOutcome::Absent];
    assert!(resolve_tile_lookup(outcomes).unwrap().is_none());
    assert!(resolve_tile_lookup(Vec::new()).unwrap().is_none());
}

#[test]
fn lookup_read_error_aborts_instead_of_falling_through() {
    let first = vec![
        TileReadOutcome::ReadError(headway::error::Error::new(
            ErrorKind::Io,
            String::from("broken source"),
        )),
        TileReadOutcome::Present(vec![9, 9]),
    ];
    let e = resolve_tile_lookup(first).unwrap_err();
    assert_eq!(e.kind(), ErrorKind::Io);
    assert_eq!(e.message().as_str(), "broken source");
}

#[test]
fn scan_with_one_corrupt_and_one_valid_archive_registers_one() {
    let mut c = TileCollection::new(String::from("/data/tiles"));
    let items = vec![
        ScanItem {
            path: String::from("/data/tiles/system/corrupt.pmtiles"),
            opened: None,
        },
        ScanItem {
            path: String::from("/data/tiles/system/good.pmtiles"),
            opened: Some(ScanOpened { bounds: sample_bounds(), file_size: 42, reader_handle: 9 }),
        },
    ];
    let added = c.register_scan_results(&items);
    assert_eq!(added, 1);
    assert_eq!(c.source_count(), 1);
    assert_eq!(c.source_record(0).file_name(), "good.pmtiles");
}

#[test]
fn scan_skips_entries_without_the_archive_extension() {
    let mut c = TileCollection::new(String::from("/data/tiles"));
    let items = vec![ScanItem {
        path: String::from("/data/tiles/system/notes.txt"),
        opened: Some(ScanOpened { bounds: sample_bounds(), file_size: 1, reader_handle: 1 }),
    }];
    let added = c.register_scan_results(&items);
    assert_eq!(added, 0);
    assert_eq!(c.source_count(), 0);
}

#[test]
fn tile_coordinate_validation() {
    assert!(validate_tile_coordinate(5, 10, 20).is_ok());
    assert!(validate_tile_coordinate(0, 0, 0).is_ok());
    let e = validate_tile_coordinate(5, 32, 0).unwrap_err();
    assert_eq!(e.kind(), ErrorKind::Validation);
    let e = validate_tile_coordinate(40, 0, 0).unwrap_err();
    assert_eq!(e.kind(), ErrorKind::Validation);
}
