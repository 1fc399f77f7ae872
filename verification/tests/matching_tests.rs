use gtoolkit_installer::error::InstallerError;
use gtoolkit_installer::matching::{wild_match, EntryNamed};
use gtoolkit_installer::moving::FileToMove;

#[test]
fn wildcards_match_names() {
    assert!(wild_match("*.image", "GlamorousToolkit.image"));
    assert!(wild_match("*.image", ".image"));
    assert!(!wild_match("*.image", "GlamorousToolkit.changes"));
    assert!(wild_match("*", ""));
    assert!(wild_match("GlamorousToolkit.???", "GlamorousToolkit.app"));
    assert!(!wild_match("GlamorousToolkit.???", "GlamorousToolkit.jpeg"));
    assert!(wild_match("a*b*c", "axxbyyc"));
    assert!(!wild_match("a*b*c", "axxcyyb"));
}

#[test]
fn find_one_on_an_empty_directory_is_no_match() {
    let entry = EntryNamed::wildmatch("*.image");
    let err = entry.find_one(&vec![], "/tmp/empty").unwrap_err();
    assert!(matches!(&err, InstallerError::NoFileMatch(p, d) if p == "*.image" && d == "/tmp/empty"));
    assert_eq!(
        err.message(),
        "Could not find a file matching *.image in /tmp/empty"
    );
}

#[test]
fn find_one_returns_the_single_match() {
    let entry = EntryNamed::wildmatch("*.image");
    let names = vec![
        "Pharo.changes".to_string(),
        "Pharo.image".to_string(),
        "Pharo.sources".to_string(),
    ];
    assert_eq!(entry.find_one(&names, "/tmp/seed").unwrap(), "Pharo.image");
}

#[test]
fn find_one_with_two_matches_is_ambiguous() {
    let entry = EntryNamed::wildmatch("*.image");
    let names = vec!["a.image".to_string(), "b.image".to_string()];
    let err = entry.find_one(&names, "/tmp/seed").unwrap_err();
    assert!(matches!(&err, InstallerError::AmbiguousFileMatch(p, d) if p == "*.image" && d == "/tmp/seed"));
    assert_eq!(
        err.message(),
        "Found more than one file matching *.image in /tmp/seed"
    );
}

#[test]
fn exact_entries_select_by_full_name() {
    let entry = EntryNamed::exact("bin");
    assert!(entry.selects("bin"));
    assert!(!entry.selects("bin2"));
    assert!(!entry.selects("b"));
    let names = vec!["bin".to_string(), "lib".to_string()];
    assert_eq!(entry.find_one(&names, "/tmp/ws").unwrap(), "bin");
}

#[test]
fn pattern_files_are_found_by_expression() {
    let mover = FileToMove::new(".*image", "/tmp/pharo-image", "/tmp/ws");
    let names = vec![
        "Pharo9.0.image".to_string(),
        "Pharo9.0.changes".to_string(),
    ];
    assert_eq!(mover.find_file_matching(&names).unwrap(), "Pharo9.0.image");
}

#[test]
fn pattern_match_failures_are_distinguished() {
    let mover = FileToMove::new("^release-.*\\.zip$", "/tmp/out", "/tmp/ws");
    let none: Vec<String> = vec!["notes.txt".to_string()];
    assert!(matches!(
        mover.find_file_matching(&none).unwrap_err(),
        InstallerError::NoFileMatch(_, _)
    ));
    let two = vec![
        "release-a.zip".to_string(),
        "release-b.zip".to_string(),
        "readme.md".to_string(),
    ];
    assert!(matches!(
        mover.find_file_matching(&two).unwrap_err(),
        InstallerError::AmbiguousFileMatch(_, _)
    ));
    let one = vec!["release-a.zip".to_string(), "readme.md".to_string()];
    assert_eq!(mover.find_file_matching(&one).unwrap(), "release-a.zip");
}

#[test]
fn an_invalid_expression_is_refused() {
    let mover = FileToMove::new("foo(bar", "/tmp", "/tmp/ws");
    let err = mover
        .find_file_matching(&vec!["foobar".to_string()])
        .unwrap_err();
    assert!(matches!(&err, InstallerError::InvalidPattern(p) if p == "foo(bar"));
}

#[test]
fn moved_files_land_inside_directories_or_at_the_target() {
    let mover = FileToMove::new(".*sources", "/tmp/seed", "/tmp/ws");
    assert_eq!(
        mover.destination_path(true, "Pharo.sources"),
        "/tmp/ws/Pharo.sources"
    );
    assert_eq!(mover.destination_path(false, "Pharo.sources"), "/tmp/ws");
}
