//! The archive-selection slot: which diagnostic archive is currently active.
//!
//! At most one archive is active at a time. An empty path means "no archive
//! selected"; every read operation must then report an empty result rather
//! than fail. The slot itself performs no validation: whether the path names
//! a readable archive is decided at read time.

use vstd::prelude::*;

verus! {

/// The single mutable session record. Callers that share it across threads
/// wrap it in an exclusive lock and hold the lock only for the duration of a
/// read or write of the path, never across an extraction or a transcode.
pub struct Session {
    archive_path: String,
}

impl Session {
    /// The characters of the active archive path; empty means none.
    pub closed spec fn path(&self) -> Seq<char> {
        self.archive_path@
    }

    /// A fresh session starts with no archive selected.
    pub fn new() -> (s: Session)
        ensures
            s.path() == Seq::<char>::empty(),
    {
        Session { archive_path: String::new() }
    }

    /// Replaces the active path unconditionally; validation is deferred to
    /// read time.
    pub fn set_active_archive(&mut self, path: String)
        ensures
            final(self).path() == path@,
    {
        self.archive_path = path;
    }

    /// The active path, or the empty string when no archive is selected.
    pub fn get_active_archive(&self) -> (p: String)
        ensures
            p@ == self.path(),
    {
        self.archive_path.clone()
    }

    /// Whether an archive is currently selected.
    pub fn has_active_archive(&self) -> (b: bool)
        ensures
            b <==> self.path().len() > 0,
    {
        !self.archive_path.as_str().is_empty()
    }

    /// The path to open, or `None` when no archive is selected.
    pub fn active_archive(&self) -> (r: Option<String>)
        ensures
            r matches Some(p) ==> p@ == self.path() && self.path().len() > 0,
            r is None <==> self.path().len() == 0,
    {
        if self.has_active_archive() {
            Some(self.archive_path.clone())
        } else {
            None
        }
    }

    /// Records the outcome of the archive-selection dialog. A cancelled
    /// dialog (`None`) leaves the session unchanged and reports an empty
    /// path; a chosen path replaces the active one and is echoed back.
    pub fn apply_selection(&mut self, choice: Option<String>) -> (p: String)
        ensures
            choice matches Some(path) ==> final(self).path() == path@ && p@ == path@,
            choice is None ==> *final(self) == *old(self) && p@ == Seq::<char>::empty(),
    {
        match choice {
            Some(path) => {
                let echo = path.clone();
                self.archive_path = path;
                echo
            },
            None => String::new(),
        }
    }
}

} // verus!
