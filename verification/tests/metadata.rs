use uv_publish::digest::to_hex;
use uv_publish::text::{join, str_eq};
use uv_publish::{
    metadata_source, raw_metadata, DistFilename, MetadataRead, MetadataSource,
    PublishPrepareError, SourceDistExtension, SourceDistFilename, WheelFilename,
};

fn sdist(extension: SourceDistExtension) -> DistFilename {
    DistFilename::SourceDistFilename(SourceDistFilename {
        name: "demo".to_string(),
        version: "1.0".to_string(),
        extension,
    })
}

#[test]
fn gzipped_tar_holds_pkg_info() {
    assert_eq!(
        metadata_source(&sdist(SourceDistExtension::TarGz)).unwrap(),
        MetadataSource::PkgInfo
    );
}

#[test]
fn wheel_holds_its_metadata_file() {
    let wheel = DistFilename::WheelFilename(WheelFilename {
        name: "demo".to_string(),
        version: "1.0".to_string(),
        python_tag: vec!["py3".to_string()],
        abi_tag: vec!["none".to_string()],
        platform_tag: vec!["any".to_string()],
    });
    assert_eq!(metadata_source(&wheel).unwrap(), MetadataSource::WheelMetadata);
}

#[test]
fn other_source_archives_have_an_invalid_extension() {
    for extension in [
        SourceDistExtension::Zip,
        SourceDistExtension::TarBz2,
        SourceDistExtension::TarXz,
        SourceDistExtension::TarZst,
    ] {
        match metadata_source(&sdist(extension)) {
            Err(PublishPrepareError::InvalidExtension(filename)) => {
                assert_eq!(filename.name, "demo");
                assert_eq!(filename.version, "1.0");
                assert_eq!(filename.extension, extension);
            }
            other => panic!("unexpected source: {other:?}"),
        }
    }
}

#[test]
fn bytes_are_written_as_two_hex_digits_each() {
    assert_eq!(to_hex(&[]), "");
    assert_eq!(to_hex(&[0x00]), "00");
    assert_eq!(to_hex(&[0x0f, 0xf0, 0xff]), "0ff0ff");
    assert_eq!(
        to_hex(&[0x01, 0x23, 0x45, 0x67, 0x89, 0xab, 0xcd, 0xef]),
        "0123456789abcdef"
    );
}

#[test]
fn join_puts_the_separator_between_parts() {
    let parts = |values: &[&str]| -> Vec<String> {
        values.iter().map(|value| value.to_string()).collect()
    };
    assert_eq!(join(&parts(&[]), "."), "");
    assert_eq!(join(&parts(&["py3"]), "."), "py3");
    assert_eq!(join(&parts(&["py2", "py3"]), "."), "py2.py3");
    assert_eq!(join(&parts(&["a", "", "b"]), ", "), "a, , b");
    assert_eq!(join(&parts(&["a", "b"]), ""), "ab");
}

#[test]
fn texts_are_equal_by_their_characters() {
    assert!(str_eq("", ""));
    assert!(str_eq("application/json", "application/json"));
    assert!(!str_eq("application/json", "application/jsom"));
    assert!(!str_eq("application/json", "application/jso"));
    assert!(!str_eq("a", ""));
    assert!(str_eq("\u{e9}\u{1f600}", "\u{e9}\u{1f600}"));
    assert!(!str_eq("\u{e9}", "e\u{301}"));
}

#[test]
fn file_that_cannot_be_opened_fails_with_the_cause() {
    let cause = std::io::Error::new(std::io::ErrorKind::NotFound, "no such file");
    match raw_metadata(MetadataRead::Failed(cause)) {
        Err(PublishPrepareError::Io(cause)) => {
            assert_eq!(cause.kind(), std::io::ErrorKind::NotFound)
        }
        other => panic!("unexpected result: {other:?}"),
    }
}

#[test]
fn unreadable_entry_is_a_read_failure() {
    let cause = std::io::Error::new(std::io::ErrorKind::UnexpectedEof, "cut short");
    match raw_metadata(MetadataRead::EntryFailed(
        "tqdm-999.0.0/PKG-INFO".to_string(),
        cause,
    )) {
        Err(PublishPrepareError::Read(path, cause)) => {
            assert_eq!(path, "tqdm-999.0.0/PKG-INFO");
            assert_eq!(cause.kind(), std::io::ErrorKind::UnexpectedEof);
        }
        other => panic!("unexpected result: {other:?}"),
    }
}

#[test]
fn pkg_infos_of_an_archive_are_chosen_among() {
    let one = MetadataRead::PkgInfos(vec![("a/PKG-INFO".to_string(), b"one".to_vec())]);
    assert_eq!(raw_metadata(one).unwrap(), b"one".to_vec());
    assert!(matches!(
        raw_metadata(MetadataRead::PkgInfos(Vec::new())),
        Err(PublishPrepareError::MissingPkgInfo)
    ));
    let two = MetadataRead::PkgInfos(vec![
        ("a/PKG-INFO".to_string(), b"one".to_vec()),
        ("b/PKG-INFO".to_string(), b"two".to_vec()),
    ]);
    match raw_metadata(two) {
        Err(PublishPrepareError::MultiplePkgInfo(paths)) => {
            assert_eq!(paths, "a/PKG-INFO, b/PKG-INFO")
        }
        other => panic!("unexpected result: {other:?}"),
    }
}

#[test]
fn wheel_metadata_is_taken_as_read() {
    assert_eq!(
        raw_metadata(MetadataRead::Wheel(b"Name: demo".to_vec())).unwrap(),
        b"Name: demo".to_vec()
    );
    match raw_metadata(MetadataRead::WheelFailed("no .dist-info directory".to_string())) {
        Err(PublishPrepareError::Metadata(message)) => {
            assert_eq!(message, "no .dist-info directory")
        }
        other => panic!("unexpected result: {other:?}"),
    }
}
