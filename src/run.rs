//! What a run decides around the scans: its targets, the size of the worker
//! pool, and how the end of each file's scan settles the run's outcome.
use vstd::prelude::*;

use crate::config::Config;

verus! {

/// Where a run looks for lines.
#[derive(Debug)]
pub enum Target {
    /// The one file at this path.
    File(String),
    /// Every path that this glob pattern, rooted at the working directory,
    /// resolves to.
    Search(String),
}

/// A failure that ends the whole run.
#[derive(Debug, PartialEq, Eq)]
pub enum RunError {
    /// The recursive search pattern is malformed.
    InvalidSearchPattern,
    /// The single target file could not be opened or read to the end.
    TargetFailed(String),
}

/// How the scan of one file ended.
#[derive(Debug, Clone, Copy, PartialEq, Eq, Structural)]
pub enum FileEnd {
    /// Every line was read.
    Completed,
    /// Opening or reading failed; outcomes already delivered stand.
    Failed,
}

/// The pattern a recursive run resolves: the file name at any depth.
pub open spec fn search_pattern(filename: Seq<char>) -> Seq<char> {
    seq!['*', '*', '/'] + filename
}

impl Config {
    /// The target of a run: the file itself, or in recursive mode the file
    /// name searched at any depth below the working directory.
    pub fn target(&self) -> (r: Target)
        ensures
            match r {
                Target::File(path) => !self@.recursive && path@ == self@.filename,
                Target::Search(pattern) => self@.recursive && pattern@ == search_pattern(
                    self@.filename,
                ),
            },
    {
        if self.recursive() {
            proof {
                reveal_strlit("**/");
            }
            let mut pattern = String::from_str("**/");
            pattern.append(self.filename());
            Target::Search(pattern)
        } else {
            Target::File(String::from_str(self.filename()))
        }
    }
}

/// The number of workers: the requested degree if one is given (non-zero),
/// else the host's parallelism, and never fewer than one.
pub fn pool_size(requested: usize, host: usize) -> (r: usize)
    ensures
        r >= 1,
        requested > 0 ==> r == requested,
        requested == 0 && host > 0 ==> r == host,
        requested == 0 && host == 0 ==> r == 1,
{
    if requested > 0 {
        requested
    } else if host > 0 {
        host
    } else {
        1
    }
}

/// The files a run has finished, by how their scan ended, in the order the
/// reports arrived.
pub struct RunSummary {
    completed: Vec<String>,
    failed: Vec<String>,
}

impl RunSummary {
    /// The names of the files scanned to the end.
    pub closed spec fn spec_completed(&self) -> Seq<Seq<char>> {
        self.completed@.map_values(|s: String| s@)
    }

    /// The names of the files whose scan failed.
    pub closed spec fn spec_failed(&self) -> Seq<Seq<char>> {
        self.failed@.map_values(|s: String| s@)
    }

    /// A summary of no files.
    pub fn new() -> (r: RunSummary)
        ensures
            r.spec_completed() == Seq::<Seq<char>>::empty(),
            r.spec_failed() == Seq::<Seq<char>>::empty(),
    {
        let r = RunSummary { completed: Vec::new(), failed: Vec::new() };
        assert(r.spec_completed() =~= Seq::<Seq<char>>::empty());
        assert(r.spec_failed() =~= Seq::<Seq<char>>::empty());
        r
    }

    /// Records how the scan of `file` ended; a failure touches no other file.
    pub fn record(&mut self, file: String, end: FileEnd)
        ensures
            end == FileEnd::Completed ==> final(self).spec_completed() == old(
                self,
            ).spec_completed().push(file@) && final(self).spec_failed() == old(self).spec_failed(),
            end == FileEnd::Failed ==> final(self).spec_failed() == old(self).spec_failed().push(
                file@,
            ) && final(self).spec_completed() == old(self).spec_completed(),
    {
        let ghost file_view = file@;
        match end {
            FileEnd::Completed => {
                self.completed.push(file);
                assert(self.spec_completed() =~= old(self).spec_completed().push(file_view));
            },
            FileEnd::Failed => {
                self.failed.push(file);
                assert(self.spec_failed() =~= old(self).spec_failed().push(file_view));
            },
        }
    }

    /// How many files were scanned to the end.
    pub fn completed_count(&self) -> (r: usize)
        ensures
            r == self.spec_completed().len(),
    {
        self.completed.len()
    }

    /// The files whose scan failed, in the order reported.
    pub fn failed_files(&self) -> (r: &Vec<String>)
        ensures
            r@.map_values(|s: String| s@) == self.spec_failed(),
    {
        &self.failed
    }

    /// The outcome of the run. A recursive run succeeds whatever befell
    /// single files, each failure having been reported on its own; a run on
    /// one file fails with that file when its scan failed.
    pub fn outcome(&self, recursive: bool) -> (r: Result<(), RunError>)
        ensures
            recursive ==> r is Ok,
            !recursive ==> (r is Ok <==> self.spec_failed().len() == 0),
            !recursive && self.spec_failed().len() > 0 ==> (r matches Err(
                RunError::TargetFailed(file),
            ) && file@ == self.spec_failed()[0]),
    {
        if recursive || self.failed.len() == 0 {
            Ok(())
        } else {
            Err(RunError::TargetFailed(self.failed[0].clone()))
        }
    }
}

} // verus!
