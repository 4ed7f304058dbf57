use noir_metrics::{is_nr_file, nr_files_sorted, Project, ProjectError};

#[test]
fn from_root_builds_manifest_path() {
    let project = Project::from_root("tests/fixtures/simple_noir".to_string(), true, true)
        .expect("project should be valid");
    assert_eq!(project.root, "tests/fixtures/simple_noir");
    assert_eq!(project.manifest_path, "tests/fixtures/simple_noir/Nargo.toml");
}

#[test]
fn from_root_rejects_non_directory() {
    let r = Project::from_root("nowhere".to_string(), false, false);
    assert_eq!(r.unwrap_err(), ProjectError::NotADirectory);
}

#[test]
fn from_root_rejects_missing_manifest() {
    let r = Project::from_root("somewhere".to_string(), true, false);
    assert_eq!(r.unwrap_err(), ProjectError::NoManifest);
}

#[test]
fn is_nr_file_checks_extension() {
    assert!(is_nr_file("src/main.nr"));
    assert!(is_nr_file("main.nr"));
    assert!(is_nr_file("src/a.b.nr"));
    assert!(!is_nr_file("src/not_noir.txt"));
    assert!(!is_nr_file("src/main.nr.bak"));
    assert!(!is_nr_file("nr"));
    assert!(!is_nr_file(".nr"));
    assert!(!is_nr_file("src/.nr"));
}

#[test]
fn nr_files_are_filtered_and_sorted() {
    let paths = vec![
        "src/z.nr".to_string(),
        "Nargo.toml".to_string(),
        "src/a.nr".to_string(),
        "src/not_noir.txt".to_string(),
        "lib/b.nr".to_string(),
    ];
    let sorted = nr_files_sorted(&paths);
    assert_eq!(sorted, vec!["lib/b.nr", "src/a.nr", "src/z.nr"]);
}

#[test]
fn nr_files_sorted_keeps_duplicates() {
    let paths = vec!["src/a.nr".to_string(), "src/a.nr".to_string()];
    let sorted = nr_files_sorted(&paths);
    assert_eq!(sorted, vec!["src/a.nr", "src/a.nr"]);
}
