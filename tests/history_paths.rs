use rustyrepl::history::{
    get_history_file_path, join_path, resolve_history_path, PathKind, DEFAULT_HISTORY_FILE_NAME,
};
use std::io::Write;
use std::path::{Path, PathBuf};

#[test]
fn test_history_path_parsing() -> anyhow::Result<()> {
    // ========= None ========= //
    let no_path: Option<String> = get_history_file_path(None);
    assert_eq!(None, no_path);

    // ========= Just a filename ========= //
    let just_a_filename = get_history_file_path(Some("a_test_file.txt".to_string()));
    let mut home_dir = dirs::home_dir().unwrap();
    home_dir.push("a_test_file.txt");
    assert_eq!(home_dir, PathBuf::from(just_a_filename.unwrap()));

    // ========= A real file ========= //
    let mut tempfile = tempfile::NamedTempFile::new()?;
    // extract the tempfile name
    let real_file: String = tempfile.path().to_path_buf().to_str().unwrap().to_string();
    // write some dummy data to the file + close it
    tempfile.write_all("some_test_data".as_bytes())?;
    println!("The tempfile is {}", real_file);

    let relative_path_to_real_file = get_history_file_path(Some(real_file.clone()));
    tempfile.close()?;
    assert_eq!(
        Path::new(&real_file).to_path_buf(),
        PathBuf::from(relative_path_to_real_file.unwrap())
    );

    // ========= A directory ========= //
    let dir = tempfile::tempdir()?;
    let mut tempdir = dir.path().to_path_buf();
    let directory_plus_default_filename =
        get_history_file_path(Some(tempdir.to_str().unwrap().to_string()));
    tempdir.push(DEFAULT_HISTORY_FILE_NAME);
    assert_eq!(tempdir, PathBuf::from(directory_plus_default_filename.unwrap()));

    // ========= Bad paths ========= //
    let bad_path = "/some/fake/path.txt".to_string();
    let no_file = get_history_file_path(Some(bad_path));
    assert_eq!(None, no_file);

    Ok(())
}

#[test]
fn resolve_absent_location_disables_history() {
    assert_eq!(None, resolve_history_path(None, PathKind::File, Some("/home/u".to_string())));
    assert_eq!(None, resolve_history_path(None, PathKind::Missing, Some("/home/u".to_string())));
}

#[test]
fn resolve_existing_file_is_kept() {
    let r = resolve_history_path(
        Some("/tmp/abc.hist".to_string()),
        PathKind::File,
        Some("/home/u".to_string()),
    );
    assert_eq!(Some("/tmp/abc.hist".to_string()), r);
}

#[test]
fn resolve_existing_directory_gets_default_name() {
    let r = resolve_history_path(
        Some("/tmp/histdir".to_string()),
        PathKind::Directory,
        Some("/home/u".to_string()),
    );
    assert_eq!(Some("/tmp/histdir/.repl_history".to_string()), r);
    let r = resolve_history_path(Some("/tmp/histdir/".to_string()), PathKind::Directory, None);
    assert_eq!(Some("/tmp/histdir/.repl_history".to_string()), r);
}

#[test]
fn resolve_bare_name_goes_under_home() {
    let r = resolve_history_path(
        Some("myhist".to_string()),
        PathKind::Missing,
        Some("/home/u".to_string()),
    );
    assert_eq!(Some("/home/u/myhist".to_string()), r);
}

#[test]
fn resolve_bare_name_without_home_disables_history() {
    assert_eq!(None, resolve_history_path(Some("myhist".to_string()), PathKind::Missing, None));
}

#[test]
fn resolve_missing_path_with_separator_disables_history() {
    let r = resolve_history_path(
        Some("/some/fake/path.txt".to_string()),
        PathKind::Missing,
        Some("/home/u".to_string()),
    );
    assert_eq!(None, r);
    let r = resolve_history_path(
        Some("sub/name".to_string()),
        PathKind::Missing,
        Some("/home/u".to_string()),
    );
    assert_eq!(None, r);
}

#[test]
fn join_path_adds_one_separator() {
    assert_eq!("/home/u/x", join_path("/home/u", "x"));
    assert_eq!("/x", join_path("/", "x"));
    assert_eq!("x", join_path("", "x"));
}

#[test]
fn get_history_file_path_of_existing_directory() -> anyhow::Result<()> {
    let dir = tempfile::tempdir()?;
    let given = dir.path().to_str().unwrap().to_string();
    let r = get_history_file_path(Some(given.clone())).unwrap();
    assert_eq!(dir.path().join(".repl_history"), PathBuf::from(r));
    Ok(())
}
