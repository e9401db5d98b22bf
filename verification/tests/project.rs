use fs2::FileExt;
use tempfile::NamedTempFile;
use unigen::project::{
    project_lock_file_path, AppStatesInner, PROJECT_LOCK_FILE, PROJECT_META_DIR,
};

/// A non-blocking exclusive lock on the file of `tmp`, on a handle of its
/// own; `None` where another handle holds it.
fn try_lock(tmp: &NamedTempFile) -> Option<impl FileExt> {
    let file = tmp.reopen().unwrap();
    if FileExt::try_lock_exclusive(&file).is_ok() {
        Some(file)
    } else {
        None
    }
}

#[test]
fn lock_file_lies_in_the_metadata_directory() {
    let path = project_lock_file_path("/home/me/book");
    assert_eq!(path.project, "/home/me/book");
    assert_eq!(path.dir, "ugmeta");
    assert_eq!(path.file, "unigen.pid");
    assert_eq!(path.dir, PROJECT_META_DIR);
    assert_eq!(path.file, PROJECT_LOCK_FILE);
}

#[test]
fn new_state_is_not_initialized_and_not_locked() {
    let state: AppStatesInner<u8> = AppStatesInner::new();
    assert!(!state.is_initialized());
    assert!(!state.is_project_locked());
}

#[test]
fn set_initialized_is_read_back() {
    let mut state: AppStatesInner<u8> = AppStatesInner::new();
    state.set_initialized(true);
    assert!(state.is_initialized());
    state.set_initialized(false);
    assert!(!state.is_initialized());
    assert!(!state.is_project_locked());
}

#[test]
fn lock_project_stores_the_handle_and_hands_out_the_old_one() {
    let mut state: AppStatesInner<u8> = AppStatesInner::new();
    let first = state.lock_project(Some(1));
    assert!(first.done);
    assert_eq!(first.released, None);
    assert!(state.is_project_locked());
    let second = state.lock_project(Some(2));
    assert!(second.done);
    assert_eq!(second.released, Some(1));
    assert!(state.is_project_locked());
    let gone = state.unlock_project();
    assert!(gone.done);
    assert_eq!(gone.released, Some(2));
    assert!(!state.is_project_locked());
}

#[test]
fn failed_acquisition_keeps_the_held_lock() {
    let mut state: AppStatesInner<u8> = AppStatesInner::new();
    state.lock_project(Some(9));
    let failed = state.lock_project(None);
    assert!(!failed.done);
    assert_eq!(failed.released, None);
    assert!(state.is_project_locked());
    assert_eq!(state.unlock_project().released, Some(9));
}

#[test]
fn unlock_of_an_empty_slot_reports_no_lock() {
    let mut state: AppStatesInner<u8> = AppStatesInner::new();
    let r = state.unlock_project();
    assert!(!r.done);
    assert_eq!(r.released, None);
    assert!(!state.is_project_locked());
}

#[test]
fn switching_projects_releases_the_first_lock() {
    let a = NamedTempFile::new().unwrap();
    let b = NamedTempFile::new().unwrap();
    let mut state = AppStatesInner::new();

    assert!(state.lock_project(try_lock(&a)).done);
    assert!(state.is_project_locked());
    assert!(try_lock(&a).is_none());

    let switched = state.lock_project(try_lock(&b));
    assert!(switched.done);
    assert!(switched.released.is_some());
    drop(switched);
    assert!(state.is_project_locked());

    assert!(try_lock(&a).is_some());
    assert!(try_lock(&b).is_none());

    let unlocked = state.unlock_project();
    assert!(unlocked.done);
    drop(unlocked);
    assert!(!state.is_project_locked());
    assert!(try_lock(&b).is_some());
}

#[test]
fn locking_a_project_that_another_holds_changes_nothing() {
    let a = NamedTempFile::new().unwrap();
    let b = NamedTempFile::new().unwrap();
    let other = try_lock(&b);
    assert!(other.is_some());
    let mut state = AppStatesInner::new();
    assert!(state.lock_project(try_lock(&a)).done);
    assert!(!state.lock_project(try_lock(&b)).done);
    assert!(state.is_project_locked());
    assert!(try_lock(&a).is_none());
}
