//! The append-only event log: where it lives, resolved once and kept.

use vstd::prelude::*;

verus! {

/// Name of the log file inside the application's log directory.
pub const OBSERVABILITY_LOG_FILE: &'static str = "observability.jsonl";

/// The log's state: the file's path once it has been resolved.
#[derive(Debug, Clone)]
pub struct ManagedObservability {
    file_path: Option<String>,
}

impl View for ManagedObservability {
    type V = Option<Seq<char>>;

    closed spec fn view(&self) -> Option<Seq<char>> {
        match self.file_path {
            Some(p) => Some(p@),
            None => None,
        }
    }
}

impl Default for ManagedObservability {
    fn default() -> (r: Self)
        ensures
            r@ is None,
    {
        ManagedObservability { file_path: None }
    }
}

impl ManagedObservability {
    pub fn new() -> (r: Self)
        ensures
            r@ is None,
    {
        ManagedObservability { file_path: None }
    }

    /// The path resolved earlier, if any.
    pub fn cached_path(&self) -> (r: Option<String>)
        ensures
            match r {
                Some(p) => self@ == Some(p@),
                None => self@ is None,
            },
    {
        match &self.file_path {
            Some(p) => Some(p.clone()),
            None => None,
        }
    }

    /// Resolves the log's path: the cached one when there is one, otherwise
    /// `resolved` (the file in the log directory, when the directory could
    /// be made), which is then kept.
    pub fn resolve_log_path(&mut self, resolved: Option<String>) -> (r: Option<String>)
        ensures
            old(self)@ is Some ==> final(self)@ == old(self)@ && r is Some && Some(r->0@) == old(self)@,
            old(self)@ is None ==> match resolved {
                Some(p) => final(self)@ == Some(p@) && r is Some && r->0@ == p@,
                None => final(self)@ is None && r is None,
            },
    {
        match &self.file_path {
            Some(p) => return Some(p.clone()),
            None => {},
        }
        match resolved {
            Some(p) => {
                let copy = p.clone();
                self.file_path = Some(p);
                Some(copy)
            },
            None => None,
        }
    }
}

} // verus!
