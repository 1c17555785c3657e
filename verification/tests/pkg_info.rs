use uv_publish::{is_pkg_info, source_dist_pkg_info, PublishPrepareError};

fn components(parts: &[&str]) -> Vec<String> {
    parts.iter().map(|part| part.to_string()).collect()
}

#[test]
fn pkg_info_below_the_top_directory_is_wanted() {
    assert!(is_pkg_info(&components(&["tqdm-999.0.0", "PKG-INFO"])));
    assert!(is_pkg_info(&components(&["anything", "PKG-INFO"])));
}

#[test]
fn pkg_info_nearer_or_deeper_is_passed_over() {
    assert!(!is_pkg_info(&components(&[])));
    assert!(!is_pkg_info(&components(&["PKG-INFO"])));
    assert!(!is_pkg_info(&components(&[
        "tqdm-999.0.0",
        "tqdm.egg-info",
        "PKG-INFO"
    ])));
    assert!(!is_pkg_info(&components(&["tqdm-999.0.0", "src", "PKG-INFO"])));
}

#[test]
fn other_names_are_passed_over() {
    assert!(!is_pkg_info(&components(&["tqdm-999.0.0", "pkg-info"])));
    assert!(!is_pkg_info(&components(&["tqdm-999.0.0", "PKG-INFO.txt"])));
    assert!(!is_pkg_info(&components(&["tqdm-999.0.0", "METADATA"])));
    assert!(!is_pkg_info(&components(&["PKG-INFO", "tqdm-999.0.0"])));
    assert!(!is_pkg_info(&components(&["tqdm-999.0.0", ""])));
}

#[test]
fn single_pkg_info_gives_its_bytes() {
    let contents = b"Metadata-Version: 2.3\nName: tqdm\nVersion: 999.0.0\n\xff".to_vec();
    let raw = source_dist_pkg_info(vec![(
        "tqdm-999.0.0/PKG-INFO".to_string(),
        contents.clone(),
    )]);
    assert_eq!(raw.unwrap(), contents);
    let raw = source_dist_pkg_info(vec![("x/PKG-INFO".to_string(), Vec::new())]);
    assert_eq!(raw.unwrap(), Vec::<u8>::new());
}

#[test]
fn no_pkg_info_is_missing() {
    assert!(matches!(
        source_dist_pkg_info(Vec::new()),
        Err(PublishPrepareError::MissingPkgInfo)
    ));
}

#[test]
fn two_pkg_infos_are_named() {
    let raw = source_dist_pkg_info(vec![
        ("a/PKG-INFO".to_string(), b"one".to_vec()),
        ("b/PKG-INFO".to_string(), b"one".to_vec()),
    ]);
    match raw {
        Err(PublishPrepareError::MultiplePkgInfo(paths)) => {
            assert_eq!(paths, "a/PKG-INFO, b/PKG-INFO");
        }
        other => panic!("unexpected result: {other:?}"),
    }
}

#[test]
fn three_pkg_infos_are_named_in_order() {
    let raw = source_dist_pkg_info(vec![
        ("c/PKG-INFO".to_string(), Vec::new()),
        ("a/PKG-INFO".to_string(), Vec::new()),
        ("b, x/PKG-INFO".to_string(), Vec::new()),
    ]);
    match raw {
        Err(PublishPrepareError::MultiplePkgInfo(paths)) => {
            assert_eq!(paths, "c/PKG-INFO, a/PKG-INFO, b, x/PKG-INFO");
        }
        other => panic!("unexpected result: {other:?}"),
    }
}
