use nodejs_installer::catalog::LtsWire;
use nodejs_installer::catalog::RawEntry;
use nodejs_installer::catalog::decode_catalog;
use nodejs_installer::catalog::decode_entry;
use nodejs_installer::catalog::normalize_lts;
use nodejs_installer::errors::InstallError;

fn raw_entry(version: &str, lts: LtsWire) -> RawEntry {
    RawEntry {
        version: Some(String::from(version)),
        date: Some(String::from("2019-01-29")),
        files: Some(vec![String::from("linux-x64")]),
        npm: Some(String::from("6.4.1")),
        v8: Some(String::from("6.8.275.32")),
        uv: None,
        zlib: None,
        openssl: Some(String::from("1.1.0j")),
        modules: None,
        lts: Some(lts),
    }
}

#[test]
fn lts_wire_false_normalizes_to_sentinel() {
    let r = normalize_lts(&LtsWire::Boolean(false));
    assert_eq!(r.unwrap(), "false");
}

#[test]
fn lts_wire_string_passes_through_unchanged() {
    let r = normalize_lts(&LtsWire::Text(String::from("Dubnium")));
    assert_eq!(r.unwrap(), "Dubnium");
    let sentinel = normalize_lts(&LtsWire::Text(String::from("false")));
    assert_eq!(sentinel.unwrap(), "false");
}

#[test]
fn lts_wire_true_is_malformed() {
    let r = normalize_lts(&LtsWire::Boolean(true));
    assert!(matches!(r, Err(InstallError::MalformedField(ref f)) if f == "lts"));
}

#[test]
fn decode_entry_maps_fields_and_keeps_absence() {
    let raw = raw_entry("v10.15.1", LtsWire::Boolean(false));
    let v = decode_entry(&raw).unwrap();
    assert_eq!(v.version, "v10.15.1");
    assert_eq!(v.date, "2019-01-29");
    assert_eq!(v.files, vec![String::from("linux-x64")]);
    assert_eq!(v.npm, Some(String::from("6.4.1")));
    assert_eq!(v.v8, "6.8.275.32");
    assert_eq!(v.uv, None);
    assert_eq!(v.zlib, None);
    assert_eq!(v.openssl, Some(String::from("1.1.0j")));
    assert_eq!(v.modules, None);
    assert_eq!(v.lts, "false");
}

#[test]
fn decode_entry_missing_version_is_corrupt() {
    let mut raw = raw_entry("v10.15.1", LtsWire::Boolean(false));
    raw.version = None;
    let r = decode_entry(&raw);
    assert!(matches!(r, Err(InstallError::CatalogCorrupt(ref f)) if f == "version"));
}

#[test]
fn decode_entry_missing_files_is_corrupt() {
    let mut raw = raw_entry("v10.15.1", LtsWire::Text(String::from("Dubnium")));
    raw.files = None;
    let r = decode_entry(&raw);
    assert!(matches!(r, Err(InstallError::CatalogCorrupt(ref f)) if f == "files"));
}

#[test]
fn decode_entry_missing_lts_is_corrupt() {
    let mut raw = raw_entry("v10.15.1", LtsWire::Boolean(false));
    raw.lts = None;
    let r = decode_entry(&raw);
    assert!(matches!(r, Err(InstallError::CatalogCorrupt(ref f)) if f == "lts"));
}

#[test]
fn decode_catalog_is_all_or_nothing() {
    let good = raw_entry("v10.15.1", LtsWire::Text(String::from("Dubnium")));
    let bad = raw_entry("v11.10.0", LtsWire::Boolean(true));
    let r = decode_catalog(&vec![good, bad]);
    assert!(matches!(r, Err(InstallError::MalformedField(ref f)) if f == "lts"));

    let good = raw_entry("v10.15.1", LtsWire::Text(String::from("Dubnium")));
    let also_good = raw_entry("v11.10.0", LtsWire::Boolean(false));
    let vs = decode_catalog(&vec![good, also_good]).unwrap();
    assert_eq!(vs.len(), 2);
    assert_eq!(vs[0].version, "v10.15.1");
    assert_eq!(vs[0].lts, "Dubnium");
    assert_eq!(vs[1].version, "v11.10.0");
    assert_eq!(vs[1].lts, "false");
}
