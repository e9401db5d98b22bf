//! The lock of the open project: where its file lies, and the slot that
//! keeps the handle of the lock while the project is open.

use vstd::prelude::*;
use vstd::string::StringExecFns;

verus! {

/// The metadata directory of a project.
pub const PROJECT_META_DIR: &'static str = "ugmeta";

/// The name of the lock file in the metadata directory.
pub const PROJECT_LOCK_FILE: &'static str = "unigen.pid";

/// Where the lock file of a project lies: in `dir`, which lies in `project`.
#[derive(Debug)]
pub struct LockFilePath {
    /// The project directory, as it was given.
    pub project: String,
    /// The metadata directory, relative to the project directory.
    pub dir: &'static str,
    /// The lock file, relative to the metadata directory.
    pub file: &'static str,
}

/// Where the lock file of the project at `proj_path` lies.
pub fn project_lock_file_path(proj_path: &str) -> (path: LockFilePath)
    ensures
        path.project@ == proj_path@,
        path.dir@ == PROJECT_META_DIR@,
        path.file@ == PROJECT_LOCK_FILE@,
{
    LockFilePath {
        project: String::from_str(proj_path),
        dir: PROJECT_META_DIR,
        file: PROJECT_LOCK_FILE,
    }
}

/// What a change of the slot leaves the caller with.
#[derive(Debug)]
pub struct Switched<H> {
    /// Whether the change did what it was asked for.
    pub done: bool,
    /// The handle that left the slot, which the caller lets go of.
    pub released: Option<H>,
}

/// The state that the parts of the application share: whether it has
/// started up, and the handle of the lock of the open project. `H` is the
/// handle; to drop it is to release the lock.
#[derive(Debug)]
pub struct AppStatesInner<H> {
    initialized: bool,
    project_lock: Option<H>,
}

impl<H> AppStatesInner<H> {
    /// Whether the application has started up.
    pub closed spec fn initialized(&self) -> bool {
        self.initialized
    }

    /// The handle that the slot holds.
    pub closed spec fn held(&self) -> Option<H> {
        self.project_lock
    }

    /// The state of an application that has not started up and has no
    /// project open.
    pub fn new() -> (state: Self)
        ensures
            !state.initialized(),
            state.held() is None,
    {
        AppStatesInner { initialized: false, project_lock: None }
    }

    /// Whether the application has started up.
    pub fn is_initialized(&self) -> (r: bool)
        ensures
            r == self.initialized(),
    {
        self.initialized
    }

    /// Records whether the application has started up.
    pub fn set_initialized(&mut self, value: bool)
        ensures
            final(self).initialized() == value,
            final(self).held() == old(self).held(),
    {
        self.initialized = value;
    }

    /// Takes the outcome of an acquisition. A handle goes into the slot and
    /// the one that was there leaves it, so that a switch of projects needs
    /// no unlock. Without a handle nothing changes.
    pub fn lock_project(&mut self, acquired: Option<H>) -> (r: Switched<H>)
        ensures
            r.done == acquired is Some,
            final(self).initialized() == old(self).initialized(),
            acquired is Some ==> final(self).held() == acquired && r.released == old(
                self,
            ).held(),
            acquired is None ==> final(self).held() == old(self).held() && r.released is None,
    {
        match acquired {
            Some(handle) => {
                let released = self.project_lock.take();
                self.project_lock = Some(handle);
                Switched { done: true, released }
            },
            None => Switched { done: false, released: None },
        }
    }

    /// Empties the slot; says whether it held a lock.
    pub fn unlock_project(&mut self) -> (r: Switched<H>)
        ensures
            r.done == old(self).held() is Some,
            r.released == old(self).held(),
            final(self).held() is None,
            final(self).initialized() == old(self).initialized(),
    {
        let released = self.project_lock.take();
        Switched { done: released.is_some(), released }
    }

    /// Whether the slot holds a lock.
    pub fn is_project_locked(&self) -> (r: bool)
        ensures
            r == self.held() is Some,
    {
        self.project_lock.is_some()
    }
}

} // verus!
