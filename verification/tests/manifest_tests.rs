use modpack::error::BuildError;
use modpack::manifest::{manifest_from_fields, read_manifest, ModManifest};

fn manifest(name: &str, version: &str) -> ModManifest {
    ModManifest { name: name.to_string(), version: version.to_string() }
}

#[test]
fn reads_name_and_version() {
    let document = br#"{"name":"test_mod","version":"1.0.0"}"#;
    assert_eq!(read_manifest(document), Ok(manifest("test_mod", "1.0.0")));
}

#[test]
fn ignores_other_members() {
    let document = br#"{
        "title": "A test",
        "version": "0.17.3",
        "dependencies": ["base >= 0.17"],
        "name": "other-mod",
        "factorio_version": 0.17
    }"#;
    assert_eq!(read_manifest(document), Ok(manifest("other-mod", "0.17.3")));
}

#[test]
fn keeps_fields_verbatim() {
    let document = "{\"name\":\" sp ace \",\"version\":\"not.a.version\\u00e9\"}".as_bytes();
    assert_eq!(read_manifest(document), Ok(manifest(" sp ace ", "not.a.version\u{e9}")));
}

#[test]
fn accepts_empty_strings() {
    let document = br#"{"name":"","version":""}"#;
    assert_eq!(read_manifest(document), Ok(manifest("", "")));
}

#[test]
fn rejects_what_is_no_json() {
    assert_eq!(read_manifest(b"name = test_mod"), Err(BuildError::ManifestMalformed));
    assert_eq!(read_manifest(b""), Err(BuildError::ManifestMalformed));
    assert_eq!(read_manifest(br#"{"name":"a","version":"1""#), Err(BuildError::ManifestMalformed));
    assert_eq!(
        read_manifest(br#"{"name":"a","version":"1"} trailing"#),
        Err(BuildError::ManifestMalformed)
    );
    assert_eq!(read_manifest(&[0xff, 0xfe, 0x00]), Err(BuildError::ManifestMalformed));
}

#[test]
fn rejects_missing_name() {
    assert_eq!(read_manifest(br#"{"version":"1.0.0"}"#), Err(BuildError::ManifestFieldInvalid));
}

#[test]
fn rejects_missing_version() {
    assert_eq!(read_manifest(br#"{"name":"test_mod"}"#), Err(BuildError::ManifestFieldInvalid));
}

#[test]
fn rejects_fields_that_are_no_strings() {
    assert_eq!(
        read_manifest(br#"{"name":"test_mod","version":1}"#),
        Err(BuildError::ManifestFieldInvalid)
    );
    assert_eq!(
        read_manifest(br#"{"name":null,"version":"1.0.0"}"#),
        Err(BuildError::ManifestFieldInvalid)
    );
    assert_eq!(
        read_manifest(br#"{"name":["test_mod"],"version":"1.0.0"}"#),
        Err(BuildError::ManifestFieldInvalid)
    );
    assert_eq!(
        read_manifest(br#"{"name":{"name":"test_mod"},"version":"1.0.0"}"#),
        Err(BuildError::ManifestFieldInvalid)
    );
}

#[test]
fn rejects_documents_that_are_no_objects() {
    assert_eq!(read_manifest(b"[]"), Err(BuildError::ManifestFieldInvalid));
    assert_eq!(read_manifest(br#""name""#), Err(BuildError::ManifestFieldInvalid));
    assert_eq!(read_manifest(b"null"), Err(BuildError::ManifestFieldInvalid));
    assert_eq!(read_manifest(b"{}"), Err(BuildError::ManifestFieldInvalid));
}

#[test]
fn fields_are_looked_up_by_their_exact_keys() {
    assert_eq!(
        read_manifest(br#"{"Name":"test_mod","version":"1.0.0"}"#),
        Err(BuildError::ManifestFieldInvalid)
    );
    assert_eq!(
        read_manifest(br#"{"name":"test_mod","versions":"1.0.0"}"#),
        Err(BuildError::ManifestFieldInvalid)
    );
}

#[test]
fn name_and_version_are_not_mixed_up() {
    let read = read_manifest(br#"{"version":"name","name":"version"}"#).unwrap();
    assert_eq!(read.name, "version");
    assert_eq!(read.version, "name");
}

#[test]
fn identity_needs_both_fields() {
    assert_eq!(
        manifest_from_fields(Some("a".to_string()), Some("1".to_string())),
        Ok(manifest("a", "1"))
    );
    assert_eq!(
        manifest_from_fields(None, Some("1".to_string())),
        Err(BuildError::ManifestFieldInvalid)
    );
    assert_eq!(
        manifest_from_fields(Some("a".to_string()), None),
        Err(BuildError::ManifestFieldInvalid)
    );
    assert_eq!(manifest_from_fields(None, None), Err(BuildError::ManifestFieldInvalid));
}

#[test]
fn archive_root_is_name_and_version() {
    assert_eq!(manifest("test_mod", "1.0.0").archive_root(), "test_mod_1.0.0");
    assert_eq!(manifest("", "").archive_root(), "_");
}

#[test]
fn artifact_file_name_ends_in_zip() {
    assert_eq!(manifest("test_mod", "1.0.0").artifact_file_name(), "test_mod_1.0.0.zip");
    assert_eq!(manifest("a_b", "2").artifact_file_name(), "a_b_2.zip");
}

#[test]
fn manifest_clone_is_equal() {
    let identity = manifest("test_mod", "1.0.0");
    assert_eq!(identity.clone(), identity);
}
