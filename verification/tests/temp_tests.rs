use scoped_temp::dist::temp::{Attempt, Cfg, Cleanup, Error, IoError, Step};
use scoped_temp::Verbosity;

fn cfg_at(root: &str) -> Cfg {
    Cfg::new(root.to_string(), "https://example.invalid", Verbosity::NotVerbose)
}

#[test]
fn root_directory_is_kept() {
    let cfg = cfg_at("/tmp/x");
    assert_eq!(cfg.root_directory(), "/tmp/x");
    assert_eq!(cfg.dist_server, "https://example.invalid");
}

#[test]
fn verbosity_gates_events() {
    let verbose = Cfg::new("/tmp/x".to_string(), "s", Verbosity::Verbose);
    let quiet = Cfg::new("/tmp/x".to_string(), "s", Verbosity::NotVerbose);
    assert!(verbose.is_verbose());
    assert!(!quiet.is_verbose());
}

#[test]
fn create_root_passes_outcomes_through() {
    let cfg = cfg_at("/tmp/x");
    assert_eq!(cfg.create_root(Ok(true)).unwrap(), true);
    assert_eq!(cfg.create_root(Ok(false)).unwrap(), false);
}

#[test]
fn create_root_second_call_reports_no_creation() {
    // Once the root exists, "ensure it exists" reports false, and the
    // call passes that through unchanged: no re-creation, no error.
    let cfg = cfg_at("/tmp/x");
    assert_eq!(cfg.create_root(Ok(true)).unwrap(), true);
    assert_eq!(cfg.create_root(Ok(false)).unwrap(), false);
}

#[test]
fn create_root_failure_carries_root_path() {
    let cfg = cfg_at("/tmp/x");
    let r = cfg.create_root(Err(IoError { message: "permission denied".to_string() }));
    match r {
        Err(Error::CreatingRoot { path, error }) => {
            assert_eq!(path, "/tmp/x");
            assert_eq!(error.message, "permission denied");
        }
        _ => panic!("expected CreatingRoot"),
    }
}

#[test]
fn dir_candidate_joins_root_core_and_suffix() {
    let cfg = cfg_at("/tmp/x");
    let p = cfg.dir_candidate("ABCDEFGHIJKLMNOP");
    assert_eq!(p, "/tmp/x/ABCDEFGHIJKLMNOP_dir");
}

#[test]
fn file_candidate_matches_the_documented_shape() {
    let cfg = cfg_at("/tmp/x");
    let p = cfg.file_candidate("pre_", "a1b2c3d4e5f6g7h8", ".txt");
    assert_eq!(p, "/tmp/x/pre_a1b2c3d4e5f6g7h8_file.txt");
    // pre_<16 alphanumeric characters>_file.txt
    let name = p.strip_prefix("/tmp/x/").unwrap();
    let rest = name.strip_prefix("pre_").unwrap();
    let rest = rest.strip_suffix(".txt").unwrap();
    let core = rest.strip_suffix("_file").unwrap();
    assert_eq!(core.len(), 16);
    assert!(core.chars().all(|c| c.is_ascii_alphanumeric()));
}

#[test]
fn empty_prefix_and_ext_give_a_bare_core() {
    let cfg = cfg_at("/tmp/x");
    let p = cfg.file_candidate("", "a1b2c3d4e5f6g7h8", "");
    assert_eq!(p, "/tmp/x/a1b2c3d4e5f6g7h8_file");
}

#[test]
fn occupied_candidate_only_retries() {
    let cfg = cfg_at("/tmp/x");
    assert!(matches!(cfg.new_directory("ABCDEFGHIJKLMNOP", Attempt::AlreadyExists), Step::Retry));
    assert!(matches!(
        cfg.new_file_with_ext("pre_", ".txt", "ABCDEFGHIJKLMNOP", Attempt::AlreadyExists),
        Step::Retry
    ));
    assert!(matches!(cfg.new_file("ABCDEFGHIJKLMNOP", Attempt::AlreadyExists), Step::Retry));
}

#[test]
fn created_directory_becomes_a_handle_at_the_candidate() {
    let cfg = cfg_at("/tmp/x");
    match cfg.new_directory("ABCDEFGHIJKLMNOP", Attempt::Created) {
        Step::Done(d) => assert_eq!(d.path(), "/tmp/x/ABCDEFGHIJKLMNOP_dir"),
        _ => panic!("expected Done"),
    }
}

#[test]
fn created_file_becomes_a_handle_at_the_candidate() {
    let cfg = cfg_at("/tmp/x");
    match cfg.new_file_with_ext("pre_", ".txt", "a1b2c3d4e5f6g7h8", Attempt::Created) {
        Step::Done(f) => assert_eq!(f.path(), "/tmp/x/pre_a1b2c3d4e5f6g7h8_file.txt"),
        _ => panic!("expected Done"),
    }
    match cfg.new_file("a1b2c3d4e5f6g7h8", Attempt::Created) {
        Step::Done(f) => assert_eq!(f.path(), "/tmp/x/a1b2c3d4e5f6g7h8_file"),
        _ => panic!("expected Done"),
    }
}

#[test]
fn failed_directory_creation_reports_the_attempted_path() {
    let cfg = cfg_at("/tmp/x");
    let e = IoError { message: "permission denied".to_string() };
    match cfg.new_directory("ABCDEFGHIJKLMNOP", Attempt::Failed(e)) {
        Step::Fail(Error::CreatingDirectory { path, error }) => {
            assert_eq!(path, "/tmp/x/ABCDEFGHIJKLMNOP_dir");
            assert_eq!(error.message, "permission denied");
        }
        _ => panic!("expected CreatingDirectory"),
    }
}

#[test]
fn failed_file_creation_reports_the_attempted_path() {
    let cfg = cfg_at("/tmp/x");
    let e = IoError { message: "disk full".to_string() };
    match cfg.new_file_with_ext("pre_", ".txt", "a1b2c3d4e5f6g7h8", Attempt::Failed(e)) {
        Step::Fail(Error::CreatingFile { path, error }) => {
            assert_eq!(path, "/tmp/x/pre_a1b2c3d4e5f6g7h8_file.txt");
            assert_eq!(error.message, "disk full");
        }
        _ => panic!("expected CreatingFile"),
    }
}

#[test]
fn two_directories_differ_only_in_the_random_segment() {
    // Two rounds with distinct random cores: two distinct paths under
    // the root, equal but for the random segment.
    let cfg = cfg_at("/tmp/x");
    let first = match cfg.new_directory("AAAAAAAAAAAAAAAA", Attempt::Created) {
        Step::Done(d) => d,
        _ => panic!("expected Done"),
    };
    let second = match cfg.new_directory("BBBBBBBBBBBBBBBB", Attempt::Created) {
        Step::Done(d) => d,
        _ => panic!("expected Done"),
    };
    assert_ne!(first.path(), second.path());
    assert!(first.path().starts_with("/tmp/x/"));
    assert!(second.path().starts_with("/tmp/x/"));
    assert!(first.path().ends_with("_dir"));
    assert!(second.path().ends_with("_dir"));
    // Dropping each removes exactly its own tree; the root is not a
    // removal target of either.
    match first.cleanup(true) {
        Cleanup::RemoveTree(p) => {
            assert_eq!(&p, first.path());
            assert_ne!(p, "/tmp/x");
        }
        _ => panic!("expected RemoveTree"),
    }
    match second.cleanup(true) {
        Cleanup::RemoveTree(p) => {
            assert_eq!(&p, second.path());
            assert_ne!(p, "/tmp/x");
        }
        _ => panic!("expected RemoveTree"),
    }
}

#[test]
fn dir_cleanup_removes_its_tree_and_file_cleanup_its_file() {
    let cfg = cfg_at("/tmp/x");
    let d = match cfg.new_directory("AAAAAAAAAAAAAAAA", Attempt::Created) {
        Step::Done(d) => d,
        _ => panic!("expected Done"),
    };
    assert!(matches!(d.cleanup(true), Cleanup::RemoveTree(p) if &p == d.path()));
    let f = match cfg.new_file("AAAAAAAAAAAAAAAA", Attempt::Created) {
        Step::Done(f) => f,
        _ => panic!("expected Done"),
    };
    assert!(matches!(f.cleanup(true), Cleanup::RemoveFile(p) if &p == f.path()));
}

#[test]
fn cleanup_of_an_already_removed_entry_is_a_no_op() {
    let cfg = cfg_at("/tmp/x");
    let d = match cfg.new_directory("AAAAAAAAAAAAAAAA", Attempt::Created) {
        Step::Done(d) => d,
        _ => panic!("expected Done"),
    };
    assert!(matches!(d.cleanup(false), Cleanup::Nothing));
    let f = match cfg.new_file("AAAAAAAAAAAAAAAA", Attempt::Created) {
        Step::Done(f) => f,
        _ => panic!("expected Done"),
    };
    assert!(matches!(f.cleanup(false), Cleanup::Nothing));
}

#[test]
fn error_descriptions_and_messages() {
    let e = Error::CreatingRoot {
        path: "/tmp/x".to_string(),
        error: IoError { message: "denied".to_string() },
    };
    assert_eq!(e.description(), "could not create temp root");
    assert_eq!(e.message(), "could not create temp root: /tmp/x");
    assert_eq!(e.cause().unwrap().message, "denied");

    let e = Error::CreatingFile {
        path: "/tmp/x/a_file".to_string(),
        error: IoError { message: "full".to_string() },
    };
    assert_eq!(e.description(), "could not create temp file");
    assert_eq!(e.message(), "could not create temp file: /tmp/x/a_file");
    assert_eq!(e.cause().unwrap().message, "full");

    let e = Error::CreatingDirectory {
        path: "/tmp/x/a_dir".to_string(),
        error: IoError { message: "denied".to_string() },
    };
    assert_eq!(e.description(), "could not create temp directory");
    assert_eq!(e.message(), "could not create temp directory: /tmp/x/a_dir");
    assert_eq!(e.cause().unwrap().message, "denied");
}
