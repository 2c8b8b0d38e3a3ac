//! The manifest reader: the identity of a mod, taken from its manifest
//! document.

use vstd::prelude::*;
use vstd::string::*;
use crate::error::BuildError;

verus! {

/// The identity of a mod. Both fields are used verbatim in paths and file
/// names; the version is not interpreted.
#[derive(Debug, PartialEq, Eq)]
pub struct ModManifest {
    pub name: String,
    pub version: String,
}

/// What a `ModManifest` stands for.
pub struct ManifestModel {
    pub name: Seq<char>,
    pub version: Seq<char>,
}

impl View for ModManifest {
    type V = ManifestModel;

    open spec fn view(&self) -> ManifestModel {
        ManifestModel { name: self.name@, version: self.version@ }
    }
}

/// The key of the manifest's name field.
pub open spec fn name_key() -> Seq<char> {
    seq!['n', 'a', 'm', 'e']
}

/// The key of the manifest's version field.
pub open spec fn version_key() -> Seq<char> {
    seq!['v', 'e', 'r', 's', 'i', 'o', 'n']
}

/// The extension of an artifact's file name.
pub open spec fn artifact_extension() -> Seq<char> {
    seq!['.', 'z', 'i', 'p']
}

impl ManifestModel {
    /// The single top-level segment of the archive: `{name}_{version}`.
    pub open spec fn archive_root(self) -> Seq<char> {
        self.name.push('_') + self.version
    }

    /// The artifact's file name: `{name}_{version}.zip`.
    pub open spec fn artifact_file_name(self) -> Seq<char> {
        self.archive_root() + artifact_extension()
    }
}

/// A JSON value as `serde_json` holds it.
#[verifier::external_type_specification]
#[verifier::external_body]
pub struct ExJsonValue(serde_json::Value);

/// The error of `serde_json`.
#[verifier::external_type_specification]
#[verifier::external_body]
pub struct ExJsonError(serde_json::Error);

/// The text that a JSON value holds, if the value is a string.
pub uninterp spec fn json_text(value: serde_json::Value) -> Option<Seq<char>>;

/// The members of a JSON object, each key with the text of its value; a value
/// that is no object has none.
pub uninterp spec fn json_members(value: serde_json::Value) -> Map<Seq<char>, Option<Seq<char>>>;

/// The members of the JSON document that `bytes` spell, if they spell one.
pub uninterp spec fn json_document(bytes: Seq<u8>) -> Option<Map<Seq<char>, Option<Seq<char>>>>;

/// Calls `serde_json::from_slice` for a `Value`. The contract names the
/// outcome: a value whose members are those of the document that the bytes
/// spell, or an error where they spell none.
#[verifier::external_body]
fn parse_document(bytes: &[u8]) -> (parsed: Result<serde_json::Value, serde_json::Error>)
    ensures
        match parsed {
            Ok(value) => json_document(bytes@) == Some(json_members(value)),
            Err(_) => json_document(bytes@) is None,
        },
{
    serde_json::from_slice(bytes)
}

/// Calls `serde_json::Value::get` with a string key. The contract claims that
/// a value is handed out exactly for the keys of an object's members, and
/// that it holds the text recorded for that member.
#[verifier::external_body]
fn member<'a>(document: &'a serde_json::Value, key: &str) -> (found: Option<&'a serde_json::Value>)
    ensures
        match found {
            Some(value) => json_members(*document).contains_key(key@) && json_members(
                *document,
            )[key@] == json_text(*value),
            None => !json_members(*document).contains_key(key@),
        },
{
    document.get(key)
}

/// Calls `serde_json::Value::as_str` and copies the slice. The contract claims
/// that the result is the text of a string value, and nothing for any other
/// value.
#[verifier::external_body]
fn text_of(value: &serde_json::Value) -> (text: Option<String>)
    ensures
        match text {
            Some(s) => json_text(*value) == Some(s@),
            None => json_text(*value) is None,
        },
{
    value.as_str().map(str::to_owned)
}

/// The text of the member `key` among `members`: absent where there is no
/// such member or where its value is no string.
pub open spec fn member_text(members: Map<Seq<char>, Option<Seq<char>>>, key: Seq<char>) -> Option<
    Seq<char>,
> {
    if members.contains_key(key) {
        members[key]
    } else {
        None
    }
}

/// The identity that two fields give: both must be there.
pub open spec fn identity_of(name: Option<Seq<char>>, version: Option<Seq<char>>) -> Result<
    ManifestModel,
    BuildError,
> {
    if name is Some && version is Some {
        Ok(ManifestModel { name: name->0, version: version->0 })
    } else {
        Err(BuildError::ManifestFieldInvalid)
    }
}

/// The identity that a manifest document gives.
pub open spec fn manifest_of(document: Seq<u8>) -> Result<ManifestModel, BuildError> {
    match json_document(document) {
        None => Err(BuildError::ManifestMalformed),
        Some(members) => identity_of(
            member_text(members, name_key()),
            member_text(members, version_key()),
        ),
    }
}

/// What a result of reading a manifest stands for.
pub open spec fn manifest_result_view(result: Result<ModManifest, BuildError>) -> Result<
    ManifestModel,
    BuildError,
> {
    match result {
        Ok(manifest) => Ok(manifest@),
        Err(e) => Err(e),
    }
}

/// Builds the identity from the two fields as they were found in a manifest.
/// A field that is missing, or that is no string, makes the manifest invalid.
pub fn manifest_from_fields(name: Option<String>, version: Option<String>) -> (result: Result<
    ModManifest,
    BuildError,
>)
    ensures
        manifest_result_view(result) == identity_of(
            match name {
                Some(s) => Some(s@),
                None => None,
            },
            match version {
                Some(s) => Some(s@),
                None => None,
            },
        ),
{
    match name {
        Some(name) => match version {
            Some(version) => Ok(ModManifest { name, version }),
            None => Err(BuildError::ManifestFieldInvalid),
        },
        None => Err(BuildError::ManifestFieldInvalid),
    }
}

/// The text under `key` in a parsed document.
fn string_field(document: &serde_json::Value, key: &str) -> (text: Option<String>)
    ensures
        match text {
            Some(s) => member_text(json_members(*document), key@) == Some(s@),
            None => member_text(json_members(*document), key@) is None,
        },
{
    match member(document, key) {
        Some(value) => text_of(value),
        None => None,
    }
}

/// Reads the identity of a mod from the bytes of its manifest document.
///
/// Fails with `ManifestMalformed` where the bytes are no JSON document, and
/// with `ManifestFieldInvalid` where `name` or `version` is missing or is no
/// string. Other members are ignored.
pub fn read_manifest(document: &[u8]) -> (result: Result<ModManifest, BuildError>)
    ensures
        manifest_result_view(result) == manifest_of(document@),
{
    proof {
        reveal_strlit("name");
        reveal_strlit("version");
        assert("name"@ =~= name_key());
        assert("version"@ =~= version_key());
    }
    match parse_document(document) {
        Err(_) => Err(BuildError::ManifestMalformed),
        Ok(parsed) => {
            let name = string_field(&parsed, "name");
            let version = string_field(&parsed, "version");
            manifest_from_fields(name, version)
        },
    }
}

impl ModManifest {
    /// The single top-level segment under which every entry of the archive
    /// stands: `{name}_{version}`.
    pub fn archive_root(&self) -> (root: String)
        ensures
            root@ == self@.archive_root(),
    {
        proof {
            reveal_strlit("_");
            assert("_"@ =~= seq!['_']);
        }
        let mut root = self.name.clone();
        root.append("_");
        root.append(self.version.as_str());
        assert(root@ =~= self@.archive_root());
        root
    }

    /// The file name of the artifact: `{name}_{version}.zip`.
    pub fn artifact_file_name(&self) -> (file_name: String)
        ensures
            file_name@ == self@.artifact_file_name(),
    {
        proof {
            reveal_strlit(".zip");
            assert(".zip"@ =~= artifact_extension());
        }
        let mut file_name = self.archive_root();
        file_name.append(".zip");
        file_name
    }
}

impl Clone for ModManifest {
    fn clone(&self) -> (copy: Self)
        ensures
            copy@ == self@,
    {
        ModManifest { name: self.name.clone(), version: self.version.clone() }
    }
}

} // verus!
