use std::io::Write;

use geo_lookup::acquire::{
    build_vendor_url, capped_timeout_ms, plan_sources, prepare_payload, AcquireConfig, Acquisition, Action, Source,
    SourceKind, MAX_FETCH_TIMEOUT_MS,
};
use geo_lookup::metadata::{contains_text, is_unusually_small, looks_like_city_database};
use geo_lookup::unpack::{ends_with, unpack_archive, unpack_raw, AcquireError};

const DEFAULT_URL: &str = "https://raw.githubusercontent.com/maxmind/MaxMind-DB/main/test-data/GeoLite2-City-Test.mmdb";

fn config(custom: Option<&str>, key: Option<&str>, fallback: Option<&str>) -> AcquireConfig {
    AcquireConfig {
        download_url: custom.map(str::to_string),
        license_key: key.map(str::to_string),
        edition_id: "GeoLite2-City".to_string(),
        fallback_url: fallback.map(str::to_string),
    }
}

fn fetched(a: Action) -> Source {
    match a {
        Action::Fetch(s) => s,
        other => panic!("expected a fetch, got {:?}", other),
    }
}

fn gzip(data: &[u8]) -> Vec<u8> {
    let mut e = flate2::write::GzEncoder::new(Vec::new(), flate2::Compression::default());
    e.write_all(data).unwrap();
    e.finish().unwrap()
}

fn tar_gz(entries: &[(&str, &[u8])]) -> Vec<u8> {
    let mut b = tar::Builder::new(Vec::new());
    for (path, data) in entries {
        let mut h = tar::Header::new_gnu();
        h.set_size(data.len() as u64);
        h.set_mode(0o644);
        h.set_cksum();
        b.append_data(&mut h, path, *data).unwrap();
    }
    gzip(&b.into_inner().unwrap())
}

#[test]
fn custom_url_success_contacts_nothing_else() {
    let mut a = Acquisition::new(&config(Some("https://example.com/db.mmdb"), Some("KEY"), None));
    let s = fetched(a.begin(false));
    assert_eq!(s.url, "https://example.com/db.mmdb");
    assert_eq!(s.kind, SourceKind::RawFile);
    assert!(matches!(a.on_fetch_result(true), Action::Done));
}

#[test]
fn custom_failure_falls_to_vendor_archive() {
    let mut a = Acquisition::new(&config(Some("https://unreachable.invalid/db.mmdb.gz"), Some("KEY"), None));
    let first = fetched(a.begin(false));
    assert_eq!(first.kind, SourceKind::RawFile);
    let second = fetched(a.on_fetch_result(false));
    assert_eq!(second.kind, SourceKind::Archive);
    assert_eq!(
        second.url,
        "https://download.maxmind.com/app/geoip_download?edition_id=GeoLite2-City&license_key=KEY&suffix=tar.gz"
    );
    let body = tar_gz(&[("GeoLite2-City_1/README.txt", b"readme"), ("GeoLite2-City_1/GeoLite2-City.mmdb", b"DBDATA")]);
    assert_eq!(prepare_payload(&second, body).unwrap(), b"DBDATA".to_vec());
    assert!(matches!(a.on_fetch_result(true), Action::Done));
}

#[test]
fn nothing_configured_uses_default_then_fails() {
    let mut a = Acquisition::new(&config(None, None, None));
    let s = fetched(a.begin(false));
    assert_eq!(s.url, DEFAULT_URL);
    assert_eq!(s.kind, SourceKind::RawFile);
    match a.on_fetch_result(false) {
        Action::Fail(e) => assert_eq!(e, AcquireError::Exhausted),
        other => panic!("expected failure, got {:?}", other),
    }
    assert!(matches!(a.on_fetch_result(false), Action::Fail(AcquireError::Exhausted)));
}

#[test]
fn existing_file_needs_no_download() {
    let mut a = Acquisition::new(&config(Some("https://example.com/db.mmdb"), Some("KEY"), Some("https://f.example/x")));
    assert!(matches!(a.begin(true), Action::Done));
}

#[test]
fn full_chain_order() {
    let plan = plan_sources(&config(Some("https://a.example/db.mmdb"), Some("K"), Some("https://c.example/db.mmdb.gz")));
    assert_eq!(plan.len(), 3);
    assert_eq!(plan[0].url, "https://a.example/db.mmdb");
    assert_eq!(plan[1].kind, SourceKind::Archive);
    assert_eq!(plan[2].url, "https://c.example/db.mmdb.gz");
    assert_eq!(plan[2].kind, SourceKind::RawFile);
    let mut a = Acquisition::new(&config(Some("https://a.example/db.mmdb"), Some("K"), Some("https://c.example/db.mmdb.gz")));
    fetched(a.begin(false));
    fetched(a.on_fetch_result(false));
    assert_eq!(fetched(a.on_fetch_result(false)).url, "https://c.example/db.mmdb.gz");
    assert!(matches!(a.on_fetch_result(false), Action::Fail(AcquireError::Exhausted)));
}

#[test]
fn vendor_url_is_built_from_edition_and_key() {
    assert_eq!(
        build_vendor_url("GeoIP2-City", "abc123"),
        "https://download.maxmind.com/app/geoip_download?edition_id=GeoIP2-City&license_key=abc123&suffix=tar.gz"
    );
}

#[test]
fn timeout_is_capped() {
    assert_eq!(capped_timeout_ms(1200), 1200);
    assert_eq!(capped_timeout_ms(30000), 5000);
    assert_eq!(capped_timeout_ms(MAX_FETCH_TIMEOUT_MS), 5000);
}

#[test]
fn raw_payload_plain_and_gzip() {
    assert_eq!(unpack_raw("https://x/db.mmdb", b"RAW".to_vec()).unwrap(), b"RAW".to_vec());
    assert_eq!(unpack_raw("https://x/db.mmdb.gz", gzip(b"INNER")).unwrap(), b"INNER".to_vec());
    assert_eq!(unpack_raw("https://x/db.mmdb.gz", b"not gzip".to_vec()), Err(AcquireError::Decompress));
}

#[test]
fn archive_errors() {
    assert_eq!(unpack_archive(&b"plain".to_vec()), Err(AcquireError::Decompress));
    let body = tar_gz(&[("dir/README.txt", b"r"), ("dir/.mmdb", b"hidden")]);
    assert_eq!(unpack_archive(&body), Err(AcquireError::NoDatabaseEntry));
    let body = tar_gz(&[("a.mmdb", b"first"), ("b.mmdb", b"second")]);
    assert_eq!(unpack_archive(&body).unwrap(), b"first".to_vec());
}

#[test]
fn error_messages() {
    assert_eq!(AcquireError::NoDatabaseEntry.message(), "mmdb file not found in archive");
    assert_eq!(AcquireError::Exhausted.message(), "no database source succeeded");
    assert_eq!(AcquireError::Decompress.message(), "failed to decompress database");
    assert_eq!(AcquireError::ArchiveRead.message(), "failed to read archive entry");
}

#[test]
fn metadata_checks() {
    assert!(is_unusually_small(999_999));
    assert!(!is_unusually_small(1_000_000));
    assert!(looks_like_city_database("GeoLite2-City"));
    assert!(looks_like_city_database("GEOIP2-CITY"));
    assert!(!looks_like_city_database("GeoLite2-Country"));
    assert!(contains_text("abcity", "city"));
    assert!(!contains_text("cit", "city"));
    assert!(contains_text("x", ""));
}

#[test]
fn suffix_checks() {
    assert!(ends_with("db.mmdb.gz", ".gz"));
    assert!(!ends_with("db.gz.mmdb", ".gz"));
    assert!(!ends_with("gz", ".gz"));
}

#[test]
fn archive_without_database_reports_missing_entry() {
    let source = Source { url: "https://vendor.example/db.tar.gz".to_string(), kind: SourceKind::Archive };
    let body = tar_gz(&[("dir/LICENSE.txt", b"l"), ("dir/COPYRIGHT.txt", b"c")]);
    let err = prepare_payload(&source, body).unwrap_err();
    assert_eq!(err, AcquireError::NoDatabaseEntry);
    assert_eq!(err.message(), "mmdb file not found in archive");
}
