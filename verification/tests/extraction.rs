use headway::bounds::Bounds;
use headway::error::ErrorKind;
use headway::extract::Extractor;
use headway::server::{
    download_destination, download_system_action, tiles_storage_root, DownloadAction,
};
use headway::tiles::TileCollection;

#[test]
fn backend_opens_lazily_and_stays_open() {
    let mut e = Extractor::new("https://example.com/planet.pmtiles");
    assert_eq!(e.backend_to_open().unwrap(), "https://example.com/planet.pmtiles");
    e.backend_opened();
    assert!(e.backend_to_open().is_none());
}

#[test]
fn repeated_preparation_carries_the_identical_size() {
    // For a fixed bounding box and fixed remote content the index
    // traversal total is fixed; the plans wrap it unchanged.
    let mut e = Extractor::new("https://example.com/planet.pmtiles");
    e.backend_opened();
    let traversal_total: u64 = 123456;
    let p1 = e.prepare_pmtiles_extract(traversal_total, 1);
    let p2 = e.prepare_pmtiles_extract(traversal_total, 2);
    assert_eq!(p1.tile_data_length(), 123456);
    assert_eq!(p1.tile_data_length(), p2.tile_data_length());
}

#[test]
fn extraction_streams_to_a_distinct_temporary_path() {
    let mut e = Extractor::new("https://example.com/planet.pmtiles");
    e.backend_opened();
    let plan = e.prepare_pmtiles_extract(10, 1);
    let s = e.extract_pmtiles_region("/data/tiles/user/out.pmtiles", &plan);
    assert_eq!(s.write_target(), "/data/tiles/user/out.tmp");
    assert_ne!(s.write_target(), "/data/tiles/user/out.pmtiles");
}

#[test]
fn rename_is_ordered_only_after_a_finished_stream() {
    let mut e = Extractor::new("https://example.com/planet.pmtiles");
    e.backend_opened();
    let plan = e.prepare_pmtiles_extract(10, 1);
    let mut s = e.extract_pmtiles_region("/data/tiles/user/out.pmtiles", &plan);
    // An aborted stream orders no rename: the output path is never created.
    assert!(s.rename_order().is_none());
    s.stream_finished();
    let (from, to) = s.rename_order().unwrap();
    assert_eq!(from, "/data/tiles/user/out.tmp");
    assert_eq!(to, "/data/tiles/user/out.pmtiles");
}

#[test]
fn execute_extract_registers_the_header_bounds_and_written_size() {
    // The whole execute sequence at the model level: plan against a stub
    // remote archive, stream, rename, register. The registered record
    // carries the archive header's bounds — not the requested box — and
    // the bytes written to disk.
    let requested = Bounds::nesw(477000000, -1222000000, 475000000, -1224000000).unwrap();
    let header_bounds = Bounds::nesw(900000000, 1800000000, -900000000, -1800000000).unwrap();
    // Stub remote archive: compressed tile sizes of the tiles strictly
    // intersecting the requested box across the in-range zooms.
    let intersecting_tile_sizes: [u64; 4] = [10, 20, 30, 40];
    let traversal_total: u64 = intersecting_tile_sizes.iter().sum();

    let mut e = Extractor::new("https://example.com/planet.pmtiles");
    e.backend_opened();
    let plan = e.prepare_pmtiles_extract(traversal_total, 7);
    assert_eq!(plan.tile_data_length(), 100);

    let mut c = TileCollection::new(String::from("/data/tiles"));
    let output = c.generate_user_pmtiles_path();
    let mut s = e.extract_pmtiles_region(&output, &plan);
    assert_eq!(s.plan_handle, 7);
    s.stream_finished();
    let (_from, to) = s.rename_order().unwrap();
    let bytes_written: u64 = 2048;
    let rec = c.add_source(&to, header_bounds, bytes_written, 11).unwrap();
    assert_eq!(rec.bounds(), header_bounds);
    assert_ne!(rec.bounds(), requested);
    assert_eq!(rec.file_size(), 2048);
    assert_eq!(c.source_count(), 1);
}

#[test]
fn download_destination_requires_the_archive_extension() {
    let e = download_destination("/data/tiles/system", "notes.txt").unwrap_err();
    assert_eq!(e.kind(), ErrorKind::Validation);
    let p = download_destination("/data/tiles/system", "overview.pmtiles").unwrap();
    assert_eq!(p, "/data/tiles/system/overview.pmtiles");
}

#[test]
fn existing_destination_skips_the_download_and_leaves_the_collection() {
    let mut c = TileCollection::new(String::from("/data/tiles"));
    let header = Bounds::nesw(1, 1, 0, 0).unwrap();
    // First call: destination absent, fetch and register.
    assert_eq!(download_system_action(false), DownloadAction::Fetch);
    c.add_source("/data/tiles/system/overview.pmtiles", header, 5, 1).unwrap();
    let size_after_first = c.source_count();
    // Second call: the file now exists, so no network request is made and
    // nothing is registered; the collection size is unchanged.
    assert_eq!(download_system_action(true), DownloadAction::AlreadyPresent);
    assert_eq!(c.source_count(), size_after_first);
}

#[test]
fn storage_root_is_derived_from_the_storage_dir() {
    assert_eq!(tiles_storage_root("/srv/app"), "/srv/app/tiles");
}
