use std::io::{Cursor, Read, Write};

use modpack::entry::{ArchiveEntry, SourceEntry};
use modpack::pipeline::{
    build_mod, BuildAction, BuildEvent, BuildOutcome, Compression, PathKind,
};
use zip::write::{FileOptions, ZipWriter};
use zip::{CompressionMethod, ZipArchive};

/// A project held in memory: each path with the bytes of the file there, or
/// with nothing where it is a directory, in the order of a traversal.
type Project = Vec<(&'static str, Option<Vec<u8>>)>;

fn sample_project() -> Project {
    let mut noise = Vec::new();
    for i in 0..20000u32 {
        noise.push((i.wrapping_mul(2654435761) >> 13) as u8);
    }
    vec![
        (".", None),
        ("./info.json", Some(br#"{"name":"test_mod","version":"1.0.0"}"#.to_vec())),
        ("./data.lua", Some(b"-- Here goes prototype data".to_vec())),
        ("./control.lua", Some(Vec::new())),
        ("./.git", None),
        ("./.git/HEAD", Some(b"ref: refs/heads/master\n".to_vec())),
        ("./.gitignore", Some(b"build/\n".to_vec())),
        ("./build", None),
        ("./build/test_mod_0.9.0.zip", Some(b"stale".to_vec())),
        ("./graphics", None),
        ("./graphics/empty", None),
        ("./graphics/icon.png", Some(noise)),
        ("./locale", None),
        ("./locale/en", None),
        ("./locale/en/.cache", Some(b"hidden deep down".to_vec())),
        ("./locale/en/strings.cfg", Some("name=\u{4e2d}\u{6587}\n".as_bytes().to_vec())),
    ]
}

fn stored_bytes(project: &Project, path: &str) -> Vec<u8> {
    for (candidate, bytes) in project {
        if *candidate == path {
            return bytes.clone().unwrap();
        }
    }
    panic!("no file at {}", path)
}

/// Builds the project into an archive in memory, as a driver would on disk.
fn build_in_memory(project: &Project, found_at_destination: PathKind) -> (BuildOutcome, Vec<u8>) {
    let mut state = build_mod("build", '/');
    let mut archive: Option<ZipWriter<Cursor<Vec<u8>>>> = None;
    let mut artifact = Vec::new();
    let mut next = 0;
    loop {
        let event = match state.request() {
            BuildAction::ReadManifest { path } => {
                assert_eq!(path, "info.json");
                BuildEvent::ManifestLoaded(stored_bytes(project, "./info.json"))
            }
            BuildAction::ProbeDirectory { .. } => BuildEvent::Probed(PathKind::Directory),
            BuildAction::ProbeArtifact { .. } => BuildEvent::Probed(found_at_destination),
            BuildAction::CreateArtifact { .. } => {
                archive = Some(ZipWriter::new(Cursor::new(Vec::new())));
                BuildEvent::Completed(true)
            }
            BuildAction::NextEntry { .. } => {
                if next < project.len() {
                    let (path, bytes) = &project[next];
                    next += 1;
                    BuildEvent::EntryFound(SourceEntry {
                        path: path.to_string(),
                        is_file: bytes.is_some(),
                    })
                } else {
                    BuildEvent::WalkFinished
                }
            }
            BuildAction::WriteEntry { entry, compression } => {
                assert_eq!(compression, Compression::Deflated);
                let options =
                    FileOptions::default().compression_method(CompressionMethod::Deflated);
                let writer = archive.as_mut().unwrap();
                match entry {
                    ArchiveEntry::File { source, archive_path } => {
                        writer.start_file(archive_path, options).unwrap();
                        writer.write_all(&stored_bytes(project, &source)).unwrap();
                    }
                    ArchiveEntry::Directory { archive_path } => {
                        writer.add_directory(archive_path, options).unwrap();
                    }
                }
                BuildEvent::Completed(true)
            }
            BuildAction::Finalize => {
                artifact = archive.take().unwrap().finish().unwrap().into_inner();
                BuildEvent::Completed(true)
            }
            BuildAction::Finish { outcome } => return (outcome, artifact),
            _ => BuildEvent::Completed(true),
        };
        state = state.advance(event);
    }
}

/// The entries of an archive: each name with the bytes stored under it, or
/// with nothing for a directory.
fn unpack(artifact: &[u8]) -> Vec<(String, Option<Vec<u8>>)> {
    let mut archive = ZipArchive::new(Cursor::new(artifact.to_vec())).unwrap();
    let mut entries = Vec::new();
    for i in 0..archive.len() {
        let mut file = archive.by_index(i).unwrap();
        if file.is_dir() {
            entries.push((file.name().to_string(), None));
        } else {
            assert_eq!(file.compression(), CompressionMethod::Deflated);
            let mut bytes = Vec::new();
            file.read_to_end(&mut bytes).unwrap();
            entries.push((file.name().to_string(), Some(bytes)));
        }
    }
    entries
}

#[test]
fn archive_holds_every_entry_that_is_not_hidden() {
    let project = sample_project();
    let (outcome, artifact) = build_in_memory(&project, PathKind::Absent);
    assert!(matches!(outcome, BuildOutcome::Built(_)));
    let names: Vec<String> = unpack(&artifact).into_iter().map(|(name, _)| name).collect();
    assert_eq!(
        names,
        vec![
            "test_mod_1.0.0/info.json",
            "test_mod_1.0.0/data.lua",
            "test_mod_1.0.0/control.lua",
            "test_mod_1.0.0/graphics/",
            "test_mod_1.0.0/graphics/empty/",
            "test_mod_1.0.0/graphics/icon.png",
            "test_mod_1.0.0/locale/",
            "test_mod_1.0.0/locale/en/",
            "test_mod_1.0.0/locale/en/strings.cfg",
        ]
    );
}

#[test]
fn unpacked_files_equal_their_sources_byte_for_byte() {
    let project = sample_project();
    let (_, artifact) = build_in_memory(&project, PathKind::Absent);
    let mut files = 0;
    for (name, bytes) in unpack(&artifact) {
        let below = name.strip_prefix("test_mod_1.0.0/").unwrap();
        if let Some(bytes) = bytes {
            assert_eq!(bytes, stored_bytes(&project, &format!("./{}", below)));
            files += 1;
        }
    }
    assert_eq!(files, 5);
}

#[test]
fn rebuild_over_an_earlier_artifact_holds_the_same_entries() {
    let project = sample_project();
    let (first_outcome, first) = build_in_memory(&project, PathKind::Absent);
    let (second_outcome, second) = build_in_memory(&project, PathKind::File);
    assert_eq!(unpack(&first), unpack(&second));
    match (first_outcome, second_outcome) {
        (BuildOutcome::Built(one), BuildOutcome::Built(other)) => {
            assert_eq!(one.path, "build/test_mod_1.0.0.zip");
            assert_eq!(other.path, "build/test_mod_1.0.0.zip");
            assert_eq!(one.replaced, PathKind::Absent);
            assert_eq!(other.replaced, PathKind::File);
        }
        _ => panic!("both builds succeed"),
    }
}

#[test]
fn archive_of_an_empty_project_is_empty() {
    let project: Project = vec![
        (".", None),
        ("./info.json", Some(br#"{"name":"m","version":"1"}"#.to_vec())),
    ];
    let (_, artifact) = build_in_memory(&project, PathKind::Absent);
    let entries = unpack(&artifact);
    assert_eq!(entries.len(), 1);
    assert_eq!(entries[0].0, "m_1/info.json");
}
