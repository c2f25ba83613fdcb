//! Tests for build locations and the driver-facing plumbing, exercised
//! against the real `cc` crate.

use sqlite3_src_build::driver::driver_new;
use sqlite3_src_build::{build, compile::configure, Config, Location};

#[test]
fn location_paths() {
    let location = Location::new("bundle/sqlite".to_string(), "target/out".to_string());
    assert_eq!(location.input(), "bundle/sqlite/sqlite3.c");
    assert_eq!(location.header(), "bundle/sqlite/sqlite3.h");
    assert_eq!(location.dest(), "target/out");
    assert_eq!(
        location.sources(),
        vec![
            "bundle/sqlite/sqlite3.c".to_string(),
            "bundle/sqlite/sqlite3.h".to_string(),
        ]
    );
}

#[test]
fn configure_records_the_source_file() {
    let location = Location::new("bundle/sqlite".to_string(), "target/out".to_string());
    let config = Config::baseline(false);
    let mut driver = driver_new();
    configure(&mut driver, &location, &config);
    let files: Vec<_> = driver.get_files().collect();
    assert_eq!(files.len(), 1);
    assert_eq!(files[0].to_str(), Some("bundle/sqlite/sqlite3.c"));
}

#[test]
fn build_without_sources_reports_an_error() {
    let location = Location::new("no/such/dir".to_string(), "no/such/out".to_string());
    let config = Config::baseline(false);
    let result = build(location, &config);
    assert!(result.is_err());
}
