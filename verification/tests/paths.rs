use headway::bounds::{Bounds, DEGREE};
use headway::error::ErrorKind;
use headway::pathutil::{
    file_name_of, has_pmtiles_extension, is_path_within_dir, join_path, str_eq,
    with_tmp_extension,
};

#[test]
fn bounds_construction_valid() {
    let b = Bounds::nesw(477000000, -1222000000, 475000000, -1224000000).unwrap();
    assert_eq!(b.max_lat(), 477 * DEGREE / 10);
    assert_eq!(b.max_lon(), -1222000000);
    assert_eq!(b.min_lat(), 475000000);
    assert_eq!(b.min_lon(), -1224000000);
}

#[test]
fn bounds_construction_rejects_inverted_axes() {
    let r = Bounds::nesw(1, 0, 2, 0);
    assert_eq!(r.unwrap_err().kind(), ErrorKind::Validation);
    let r = Bounds::nesw(0, 1, 0, 2);
    assert_eq!(r.unwrap_err().kind(), ErrorKind::Validation);
}

#[test]
fn path_containment_basic() {
    assert!(is_path_within_dir("/a/b/c.pmtiles", "/a/b"));
    assert!(is_path_within_dir("/a/b", "/a/b"));
    assert!(!is_path_within_dir("/a/c/x", "/a/b"));
}

#[test]
fn path_containment_respects_component_boundaries() {
    assert!(!is_path_within_dir("/a/bc", "/a/b"));
    assert!(is_path_within_dir("/a/b/c", "/a/b"));
}

#[test]
fn path_containment_with_root_dir() {
    assert!(is_path_within_dir("/x", "/"));
}

#[test]
fn pmtiles_extension_detection() {
    assert!(has_pmtiles_extension("a.pmtiles"));
    assert!(has_pmtiles_extension("/d/x.tar.pmtiles"));
    assert!(!has_pmtiles_extension(".pmtiles"));
    assert!(!has_pmtiles_extension("/d/.pmtiles"));
    assert!(!has_pmtiles_extension("a.mbtiles"));
    assert!(!has_pmtiles_extension("apmtiles"));
}

#[test]
fn file_name_extraction() {
    assert_eq!(file_name_of("/a/b/c.pmtiles").unwrap(), "c.pmtiles");
    assert_eq!(file_name_of("name").unwrap(), "name");
    assert!(file_name_of("").is_none());
    assert!(file_name_of("/a/b/").is_none());
}

#[test]
fn temporary_path_is_a_distinct_sibling() {
    let t = with_tmp_extension("/d/out.pmtiles");
    assert_eq!(t, "/d/out.tmp");
    assert_ne!(t, "/d/out.pmtiles");
}

#[test]
fn join_and_compare() {
    assert_eq!(join_path("/root", "user"), "/root/user");
    assert!(str_eq("ab", "ab"));
    assert!(!str_eq("ab", "ac"));
}
