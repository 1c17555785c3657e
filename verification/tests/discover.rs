use std::path::PathBuf;
use uv_publish::{
    files_for_publishing, Candidate, CandidateName, DistFilename, Expansion, PublishError,
    SourceDistExtension, SourceDistFilename, WheelFilename,
};

fn wheel(name: &str) -> DistFilename {
    DistFilename::WheelFilename(WheelFilename {
        name: name.to_string(),
        version: "1.0".to_string(),
        python_tag: vec!["py3".to_string()],
        abi_tag: vec!["none".to_string()],
        platform_tag: vec!["any".to_string()],
    })
}

fn sdist(name: &str) -> DistFilename {
    DistFilename::SourceDistFilename(SourceDistFilename {
        name: name.to_string(),
        version: "1.0".to_string(),
        extension: SourceDistExtension::TarGz,
    })
}

/// A candidate whose canonical path is its path below `/work`.
fn other(path: &str, is_file: bool, name: CandidateName) -> Result<Candidate, glob::GlobError> {
    spelled(path, &format!("/work/{path}"), is_file, name)
}

fn spelled(
    path: &str,
    canonical: &str,
    is_file: bool,
    name: CandidateName,
) -> Result<Candidate, glob::GlobError> {
    Ok(Candidate {
        path: PathBuf::from(path),
        path_text: path.to_string(),
        canonical: Some(canonical.to_string()),
        is_file,
        name,
    })
}

fn file(path: &str, filename: DistFilename) -> Result<Candidate, glob::GlobError> {
    other(path, true, CandidateName::Recognized(filename))
}

fn matched(pattern: &str, matches: Vec<Result<Candidate, glob::GlobError>>) -> Expansion {
    Expansion {
        pattern: pattern.to_string(),
        matches: Ok(matches),
    }
}

fn found(files: Result<Vec<(PathBuf, DistFilename)>, PublishError>) -> Vec<(String, String)> {
    files
        .unwrap()
        .into_iter()
        .map(|(path, filename)| (path.to_str().unwrap().to_string(), filename.to_string()))
        .collect()
}

#[test]
fn no_patterns_find_no_files() {
    assert!(matches!(
        files_for_publishing(Vec::new()),
        Err(PublishError::NoFiles)
    ));
}

#[test]
fn patterns_without_matches_find_no_files() {
    let files = files_for_publishing(vec![
        matched("dist/*", Vec::new()),
        matched("wheels/*.whl", Vec::new()),
    ]);
    assert!(matches!(files, Err(PublishError::NoFiles)));
}

#[test]
fn directories_alone_find_no_files() {
    let files = files_for_publishing(vec![matched(
        "dist/*",
        vec![
            other("dist/sub", false, CandidateName::Unrecognized),
            other("dist/\u{fffd}", false, CandidateName::Unreadable),
            other(
                "dist/a-1.0-py3-none-any.whl",
                false,
                CandidateName::Recognized(wheel("a")),
            ),
        ],
    )]);
    assert!(matches!(files, Err(PublishError::NoFiles)));
}

#[test]
fn file_without_readable_name_is_invalid() {
    let files = files_for_publishing(vec![matched(
        "dist/*",
        vec![
            file("dist/b-1.0.tar.gz", sdist("b")),
            other("dist/\u{fffd}", true, CandidateName::Unreadable),
        ],
    )]);
    match files {
        Err(PublishError::InvalidFilename(path)) => {
            assert_eq!(path, PathBuf::from("dist/\u{fffd}"))
        }
        other => panic!("unexpected result: {other:?}"),
    }
}

#[test]
fn wheels_and_source_distributions_are_found_in_order() {
    let files = files_for_publishing(vec![
        matched(
            "dist/*",
            vec![
                file("dist/b-1.0.tar.gz", sdist("b")),
                other("dist/sub", false, CandidateName::Unrecognized),
                file("dist/a-1.0-py3-none-any.whl", wheel("a")),
            ],
        ),
        matched("more/*", vec![file("more/c-1.0-py3-none-any.whl", wheel("c"))]),
    ]);
    assert_eq!(
        found(files),
        vec![
            ("dist/b-1.0.tar.gz".to_string(), "b-1.0.tar.gz".to_string()),
            (
                "dist/a-1.0-py3-none-any.whl".to_string(),
                "a-1.0-py3-none-any.whl".to_string()
            ),
            (
                "more/c-1.0-py3-none-any.whl".to_string(),
                "c-1.0-py3-none-any.whl".to_string()
            ),
        ]
    );
}

#[test]
fn a_path_matched_twice_is_found_once() {
    let files = files_for_publishing(vec![
        matched(
            "dist/*",
            vec![
                file("dist/a-1.0-py3-none-any.whl", wheel("a")),
                file("dist/b-1.0.tar.gz", sdist("b")),
                file("dist/a-1.0-py3-none-any.whl", wheel("a")),
            ],
        ),
        matched(
            "dist/*.whl",
            vec![file("dist/a-1.0-py3-none-any.whl", wheel("a"))],
        ),
    ]);
    assert_eq!(
        found(files),
        vec![
            (
                "dist/a-1.0-py3-none-any.whl".to_string(),
                "a-1.0-py3-none-any.whl".to_string()
            ),
            ("dist/b-1.0.tar.gz".to_string(), "b-1.0.tar.gz".to_string()),
        ]
    );
}

#[test]
fn two_spellings_of_one_file_are_found_once() {
    let canonical = "/work/dist/a-1.0.tar.gz";
    let recognized = || CandidateName::Recognized(sdist("a"));
    let files = files_for_publishing(vec![
        matched(
            "dist/*",
            vec![spelled("dist/a-1.0.tar.gz", canonical, true, recognized())],
        ),
        matched(
            "./dist/../dist/*",
            vec![spelled(
                "./dist/../dist/a-1.0.tar.gz",
                canonical,
                true,
                recognized(),
            )],
        ),
        matched(
            "link/*",
            vec![spelled("link/a-1.0.tar.gz", canonical, true, recognized())],
        ),
    ]);
    // The file comes under the spelling that matched it first.
    assert_eq!(
        found(files),
        vec![("dist/a-1.0.tar.gz".to_string(), "a-1.0.tar.gz".to_string())]
    );
}

#[test]
fn one_spelling_of_two_files_is_found_twice() {
    // The canonical path decides, not the spelling.
    let files = files_for_publishing(vec![matched(
        "dist/*",
        vec![
            spelled(
                "dist/a-1.0.tar.gz",
                "/first/dist/a-1.0.tar.gz",
                true,
                CandidateName::Recognized(sdist("a")),
            ),
            spelled(
                "dist/a-1.0.tar.gz",
                "/second/dist/a-1.0.tar.gz",
                true,
                CandidateName::Recognized(sdist("a")),
            ),
        ],
    )]);
    assert_eq!(found(files).len(), 2);
}

fn uncanonical(path: &str, name: CandidateName) -> Result<Candidate, glob::GlobError> {
    Ok(Candidate {
        path: PathBuf::from(path),
        path_text: path.to_string(),
        canonical: None,
        is_file: true,
        name,
    })
}

#[test]
fn file_without_canonical_path_is_known_by_its_path() {
    let recognized = |name| CandidateName::Recognized(sdist(name));
    let files = files_for_publishing(vec![matched(
        "dist/*",
        vec![
            uncanonical("dist/a-1.0.tar.gz", recognized("a")),
            file("dist/b-1.0.tar.gz", sdist("b")),
            uncanonical("dist/a-1.0.tar.gz", recognized("a")),
            file("dist/b-1.0.tar.gz", sdist("b")),
        ],
    )]);
    assert_eq!(
        found(files),
        vec![
            ("dist/a-1.0.tar.gz".to_string(), "a-1.0.tar.gz".to_string()),
            ("dist/b-1.0.tar.gz".to_string(), "b-1.0.tar.gz".to_string()),
        ]
    );
    // Another spelling of a file without a canonical path is another file.
    let files = files_for_publishing(vec![matched(
        "dist/*",
        vec![
            uncanonical("dist/a-1.0.tar.gz", recognized("a")),
            uncanonical("./dist/a-1.0.tar.gz", recognized("a")),
        ],
    )]);
    assert_eq!(found(files).len(), 2);
}

#[test]
fn a_pattern_given_twice_adds_nothing() {
    let walk = || {
        matched(
            "dist/*",
            vec![
                file("dist/a-1.0-py3-none-any.whl", wheel("a")),
                other("dist/sub", false, CandidateName::Unrecognized),
                uncanonical("dist/b-1.0.tar.gz", CandidateName::Recognized(sdist("b"))),
            ],
        )
    };
    let once = found(files_for_publishing(vec![walk()]));
    let twice = found(files_for_publishing(vec![walk(), walk()]));
    assert_eq!(once.len(), 2);
    assert_eq!(twice, once);
    let between = found(files_for_publishing(vec![
        walk(),
        matched("more/*", vec![file("more/c-1.0.tar.gz", sdist("c"))]),
        walk(),
    ]));
    assert_eq!(between.len(), 3);
    assert_eq!(between[..2], once[..]);
}

#[test]
fn the_same_name_under_two_paths_is_found_twice() {
    let files = files_for_publishing(vec![matched(
        "*/*.whl",
        vec![
            file("one/a-1.0-py3-none-any.whl", wheel("a")),
            file("two/a-1.0-py3-none-any.whl", wheel("a")),
        ],
    )]);
    assert_eq!(found(files).len(), 2);
}

#[test]
fn unrecognized_file_name_is_invalid() {
    let files = files_for_publishing(vec![matched(
        "dist/*",
        vec![
            file("dist/a-1.0-py3-none-any.whl", wheel("a")),
            other("dist/README.md", true, CandidateName::Unrecognized),
            file("dist/b-1.0.tar.gz", sdist("b")),
        ],
    )]);
    match files {
        Err(PublishError::InvalidFilename(path)) => {
            assert_eq!(path, PathBuf::from("dist/README.md"))
        }
        other => panic!("unexpected result: {other:?}"),
    }
}

#[test]
fn unrecognized_name_in_a_later_pattern_is_invalid() {
    let files = files_for_publishing(vec![
        matched(
            "dist/*",
            vec![
                file("dist/a-1.0-py3-none-any.whl", wheel("a")),
                other("dist/sub", false, CandidateName::Unrecognized),
            ],
        ),
        matched("empty/*", Vec::new()),
        matched(
            "docs/*",
            vec![
                file("dist/a-1.0-py3-none-any.whl", wheel("a")),
                other("docs/index.html", true, CandidateName::Unrecognized),
                other("docs/other.html", true, CandidateName::Unrecognized),
            ],
        ),
    ]);
    match files {
        Err(PublishError::InvalidFilename(path)) => {
            assert_eq!(path, PathBuf::from("docs/index.html"))
        }
        other => panic!("unexpected result: {other:?}"),
    }
}

#[test]
fn a_file_met_before_is_passed_over_whatever_its_name() {
    // A file is looked at once: what came of it the first time stands.
    let files = files_for_publishing(vec![matched(
        "dist/*",
        vec![
            file("dist/b-1.0.tar.gz", sdist("b")),
            spelled(
                "dist/./b-1.0.tar.gz",
                "/work/dist/b-1.0.tar.gz",
                true,
                CandidateName::Unrecognized,
            ),
        ],
    )]);
    assert_eq!(found(files).len(), 1);
}

#[test]
fn invalid_pattern_is_refused_with_the_pattern() {
    let cause = match glob::glob("a**b") {
        Err(cause) => cause,
        Ok(_) => panic!("the pattern should not parse"),
    };
    let position = cause.pos;
    let files = files_for_publishing(vec![
        matched("dist/*", vec![file("dist/b-1.0.tar.gz", sdist("b"))]),
        Expansion {
            pattern: "a**b".to_string(),
            matches: Err(cause),
        },
    ]);
    match files {
        Err(PublishError::Pattern(pattern, cause)) => {
            assert_eq!(pattern, "a**b");
            assert_eq!(cause.pos, position);
        }
        other => panic!("unexpected result: {other:?}"),
    }
}

#[test]
fn the_first_failure_in_order_decides() {
    let cause = match glob::glob("[") {
        Err(cause) => cause,
        Ok(_) => panic!("the pattern should not parse"),
    };
    let files = files_for_publishing(vec![
        matched(
            "dist/*",
            vec![other("dist/notes.txt", true, CandidateName::Unrecognized)],
        ),
        Expansion {
            pattern: "[".to_string(),
            matches: Err(cause),
        },
    ]);
    assert!(matches!(files, Err(PublishError::InvalidFilename(_))));
}

#[test]
fn failed_walk_is_refused_with_its_cause() {
    // A walk fails at a directory that cannot be listed. Where the system has
    // none of these, there is no failure to hand in.
    let cause = [
        "/proc/1/fdinfo/*",
        "/proc/1/map_files/*",
        "/proc/1/fd/*",
        "/root/*",
        "/lost+found/*",
    ]
    .into_iter()
    .filter_map(|pattern| glob::glob(pattern).ok())
    .flatten()
    .find_map(Result::err);
    let Some(cause) = cause else {
        return;
    };
    let path = cause.path().to_path_buf();
    let files = files_for_publishing(vec![matched(
        "dist/*",
        vec![
            file("dist/b-1.0.tar.gz", sdist("b")),
            Err(cause),
            other("dist/README.md", true, CandidateName::Unrecognized),
        ],
    )]);
    match files {
        Err(PublishError::Glob(cause)) => assert_eq!(cause.path(), path),
        other => panic!("unexpected result: {other:?}"),
    }
}
