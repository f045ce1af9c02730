use mmlib::config::Config;
use mmlib::config::ConfigDoc;
use mmlib::config::EnvIdentity;
use mmlib::config::GitSection;
use mmlib::error::ErrorCategory;
use mmlib::repo::commit_files;
use mmlib::repo::get_config_file;
use mmlib::repo::get_workdir;
use mmlib::repo::open_or_create_repository;
use mmlib::repo::Repository;

/// The collection's own identity, resolvable without any environment.
fn fixed_identity_config() -> Config {
    Config::from_parts(
        ConfigDoc {
            git: Some(GitSection {
                use_default: Some(false),
                user_name: Some("A".to_owned()),
                user_email: Some("a@x".to_owned()),
            }),
        },
        EnvIdentity { name: None, email: None },
    )
}

/// Creating a collection commits with the environment identity; give the
/// environment one when it has none yet.
fn ensure_git_identity() {
    let mut cfg = git2::Config::open_default().unwrap();
    if cfg.get_string("user.name").is_err() {
        cfg.set_str("user.name", "Sandbox Tester").unwrap();
    }
    if cfg.get_string("user.email").is_err() {
        cfg.set_str("user.email", "tester@example.com").unwrap();
    }
}

#[test]
fn open_or_create_twice_is_idempotent() {
    ensure_git_identity();
    let dir = tempfile::tempdir().unwrap();
    let path = dir.path().join("diary");
    let path_str = path.to_str().unwrap();

    let first = open_or_create_repository(path_str).unwrap();
    let head_after_create =
        git2::Repository::open(path_str).unwrap().refname_to_id("HEAD").unwrap();
    let config_file = get_config_file(&first).unwrap();
    assert!(fs_err::metadata(&config_file).is_ok());
    drop(first);

    let second = open_or_create_repository(path_str).unwrap();
    let head_after_reopen =
        git2::Repository::open(path_str).unwrap().refname_to_id("HEAD").unwrap();
    assert_eq!(head_after_create, head_after_reopen);
    assert!(fs_err::metadata(get_config_file(&second).unwrap()).is_ok());
}

#[test]
fn fresh_collection_has_valid_config_file() {
    ensure_git_identity();
    let dir = tempfile::tempdir().unwrap();
    let path = dir.path().join("diary");
    let store = open_or_create_repository(path.to_str().unwrap()).unwrap();

    let workdir = get_workdir(&store).unwrap();
    assert!(workdir.ends_with('/'));
    let config_file = get_config_file(&store).unwrap();
    assert!(config_file.starts_with(workdir.as_str()));
    assert!(config_file.ends_with(".mm/mm_config.json"));

    let bytes = fs_err::read(&config_file).unwrap();
    let value: serde_json::Value = serde_json::from_slice(&bytes).unwrap();
    assert_eq!(value.get("git").unwrap().get("use.default").unwrap().as_bool(), Some(true));

    let loaded = Config::load(&config_file).unwrap();
    assert_eq!(loaded.doc().git.as_ref().unwrap().use_default, Some(true));
}

#[test]
fn fresh_collection_has_initial_root_commit() {
    ensure_git_identity();
    let dir = tempfile::tempdir().unwrap();
    let path = dir.path().join("diary");
    let _store = open_or_create_repository(path.to_str().unwrap()).unwrap();

    let inspect = git2::Repository::open(path.to_str().unwrap()).unwrap();
    let head = inspect.refname_to_id("HEAD").unwrap();
    let commit = inspect.find_commit(head).unwrap();
    assert_eq!(commit.message().unwrap(), "chore: initial commit");
    assert_eq!(commit.parent_count(), 0);
    assert!(commit.tree().unwrap().get_name(".mm").is_some());
}

#[test]
fn commit_links_parent_and_stores_note() {
    ensure_git_identity();
    let dir = tempfile::tempdir().unwrap();
    let path = dir.path().join("diary");
    let path_str = path.to_str().unwrap();
    let store = open_or_create_repository(path_str).unwrap();
    let initial_head = git2::Repository::open(path_str).unwrap().refname_to_id("HEAD").unwrap();

    let workdir = get_workdir(&store).unwrap();
    fs_err::write(format!("{}today.md", workdir), "a note").unwrap();

    let config = fixed_identity_config();
    commit_files(&store, &config, &vec!["today.md".to_owned()], None).unwrap();

    let inspect = git2::Repository::open(path_str).unwrap();
    let head = inspect.refname_to_id("HEAD").unwrap();
    let commit = inspect.find_commit(head).unwrap();
    assert_eq!(commit.message().unwrap(), "chore: several files updated");
    assert_eq!(commit.author().name().unwrap(), "A");
    assert_eq!(commit.author().email().unwrap(), "a@x");
    assert_eq!(commit.committer().name().unwrap(), "A");
    assert_eq!(commit.parent_count(), 1);
    assert_eq!(commit.parent_id(0).unwrap(), initial_head);
    assert!(commit.tree().unwrap().get_name("today.md").is_some());
}

#[test]
fn commit_without_resolvable_identity_fails_before_committing() {
    ensure_git_identity();
    let dir = tempfile::tempdir().unwrap();
    let path = dir.path().join("diary");
    let path_str = path.to_str().unwrap();
    let store = open_or_create_repository(path_str).unwrap();
    let head_before = git2::Repository::open(path_str).unwrap().refname_to_id("HEAD").unwrap();

    let workdir = get_workdir(&store).unwrap();
    fs_err::write(format!("{}today.md", workdir), "a note").unwrap();

    let config = Config::from_parts(
        ConfigDoc {
            git: Some(GitSection { use_default: Some(false), user_name: None, user_email: None }),
        },
        EnvIdentity { name: None, email: None },
    );
    let err = commit_files(&store, &config, &vec!["today.md".to_owned()], None).unwrap_err();
    assert_eq!(err.category(), ErrorCategory::Config);

    let head_after = git2::Repository::open(path_str).unwrap().refname_to_id("HEAD").unwrap();
    assert_eq!(head_before, head_after);
}

#[test]
fn facade_open_or_create_named_collection() {
    ensure_git_identity();
    let first = Repository::open_or_create(Some("sandbox_notes")).unwrap();
    assert_eq!(first.name(), "sandbox_notes");
    let second = Repository::open_or_create(Some("sandbox_notes")).unwrap();
    assert_eq!(second.name(), "sandbox_notes");
    assert!(second.get_workdir().unwrap().ends_with("/repos/sandbox_notes/"));
}

#[test]
fn facade_main_collection_name() {
    ensure_git_identity();
    let rep = Repository::open_or_create(None).unwrap();
    assert_eq!(rep.name(), "mm_main_local");
    assert!(rep.get_workdir().unwrap().ends_with("/repos/mm_main_local/"));
}

#[test]
fn add_note_outside_working_directory_fails() {
    ensure_git_identity();
    let rep = Repository::open_or_create(Some("sandbox_notes")).unwrap();
    let dir = tempfile::tempdir().unwrap();
    let outside = dir.path().join("elsewhere.md");
    fs_err::write(&outside, "outside").unwrap();
    let err = rep.add_note(outside.to_str().unwrap()).unwrap_err();
    assert_eq!(err.category(), ErrorCategory::Os);
}

#[test]
fn add_note_rejects_invalid_paths() {
    ensure_git_identity();
    let rep = Repository::open_or_create(Some("sandbox_notes")).unwrap();
    let missing = rep.add_note("/no/such/note.md").unwrap_err();
    assert_eq!(missing.category(), ErrorCategory::Os);
    assert_eq!(missing.message(), "invalid absolute note path");
    let workdir = rep.get_workdir().unwrap();
    let directory = rep.add_note(&workdir).unwrap_err();
    assert_eq!(directory.category(), ErrorCategory::Os);
    let relative = rep.add_note("relative.md").unwrap_err();
    assert_eq!(relative.category(), ErrorCategory::Os);
}

#[test]
fn add_note_stages_and_commit_records_it() {
    ensure_git_identity();
    let rep = Repository::open_or_create(Some("sandbox_notes")).unwrap();
    let workdir = rep.get_workdir().unwrap();
    let note = format!("{}note.md", workdir);
    fs_err::write(&note, "the note's content").unwrap();
    rep.add_note(&note).unwrap();
    rep.commit(&vec!["note.md".to_owned()], Some("test: add note")).unwrap();

    let inspect = git2::Repository::open(workdir.trim_end_matches('/')).unwrap();
    let head = inspect.refname_to_id("HEAD").unwrap();
    let commit = inspect.find_commit(head).unwrap();
    assert_eq!(commit.message().unwrap(), "test: add note");
    assert!(commit.tree().unwrap().get_name("note.md").is_some());
}

#[test]
fn add_folder_accepts_root_and_rejects_outside() {
    ensure_git_identity();
    let rep = Repository::open_or_create(Some("sandbox_notes")).unwrap();
    let workdir = rep.get_workdir().unwrap();
    rep.add_folder(&workdir).unwrap();

    let dir = tempfile::tempdir().unwrap();
    let err = rep.add_folder(dir.path().to_str().unwrap()).unwrap_err();
    assert_eq!(err.category(), ErrorCategory::Os);

    let missing = rep.add_folder("/no/such/folder").unwrap_err();
    assert_eq!(missing.category(), ErrorCategory::Os);
}

#[test]
fn config_paths_are_deterministic_joins() {
    assert_eq!(mmlib::repo::config_dir_of("/w/repo/"), "/w/repo/.mm");
    assert_eq!(mmlib::repo::config_file_of("/w/repo/"), "/w/repo/.mm/mm_config.json");
    assert_eq!(mmlib::repo::config_file_of("/w/repo"), "/w/repo/.mm/mm_config.json");
}

#[test]
fn error_from_string_keeps_message_and_category() {
    let err = mmlib::error::Error::from_string("something broke", ErrorCategory::Generic);
    assert_eq!(err.message(), "something broke");
    assert_eq!(err.category(), ErrorCategory::Generic);
}
