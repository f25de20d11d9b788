use alabaster::error::{require_manifest, EntryKind, MappingFault, PackageError};

#[test]
fn fault_reasons() {
    assert_eq!(MappingFault::MissingEntry.reason(), "missing entry");
    assert_eq!(MappingFault::MultipleEntries.reason(), "multiple entries");
}

#[test]
fn kind_names() {
    assert_eq!(EntryKind::File.name(), "file");
    assert_eq!(EntryKind::Directory.name(), "directory");
    assert_eq!(EntryKind::Symlink.name(), "symlink");
    assert_eq!(EntryKind::Socket.name(), "socket");
    assert_eq!(EntryKind::Device.name(), "device");
    assert_eq!(EntryKind::Fifo.name(), "fifo");
    assert_eq!(EntryKind::Unknown.name(), "unknown entry");
}

#[test]
fn messages_carry_the_offending_path() {
    assert_eq!(PackageError::ManifestNotFound.message(), "no manifest found");
    assert_eq!(
        PackageError::OutputNotEmpty { output: "dist/pkg".to_string() }.message(),
        "output directory 'dist/pkg' already exists and isn't empty"
    );
    assert_eq!(
        PackageError::NotVersionControlled { root: "/home/me/project".to_string() }.message(),
        "project root '/home/me/project' is not under version control"
    );
    assert_eq!(
        PackageError::UnsupportedEntryType { path: "/tmp/pipe".to_string(), kind: EntryKind::Fifo }
            .message(),
        "unable to handle fifo yet ('/tmp/pipe')"
    );
    assert_eq!(
        PackageError::Io {
            path: "/proj/secret".to_string(),
            reason: "Permission denied (os error 13)".to_string()
        }
        .message(),
        "/proj/secret: Permission denied (os error 13)"
    );
    assert_eq!(
        PackageError::MalformedMapping(MappingFault::MissingEntry).message(),
        "missing entry"
    );
    assert_eq!(
        PackageError::MalformedMapping(MappingFault::MultipleEntries).message(),
        "multiple entries"
    );
}

#[test]
fn found_manifest_is_handed_on() {
    assert_eq!(require_manifest(Some(17u32)), Ok(17u32));
    assert_eq!(require_manifest(Some("typst.toml")), Ok("typst.toml"));
}

#[test]
fn missing_manifest_fails() {
    assert_eq!(require_manifest::<u32>(None), Err(PackageError::ManifestNotFound));
}
