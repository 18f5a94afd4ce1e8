//! Deciding, entry by entry, what a removal run deletes and how it counts.
//!
//! The caller owns the disk. For each entry it looks up what is at the path,
//! asks which deletion to attempt, attempts it, and hands the result back;
//! the [`Remover`] keeps the position, the report and the order.

use std::path::Path;
use vstd::prelude::*;

use crate::report::{lemma_tally_push, lemma_tally_total, tally, Counts, EntryOutcome, Report};
use crate::sanitizer::{text_of, NormalizedPath};

verus! {

/// What was found at the path of an entry.
#[derive(Debug, Clone, Copy, PartialEq, Eq, Structural)]
pub enum EntryKind {
    /// Nothing exists there.
    Missing,
    /// A regular file.
    IsFile,
    /// A directory, or anything else that is no regular file.
    IsDirectory,
}

/// The deletion that the caller has to attempt for an entry.
#[derive(Debug, Clone, Copy, PartialEq, Eq, Structural)]
pub enum Action {
    /// Nothing is there to delete.
    Nothing,
    /// Delete the file.
    DeleteFile,
    /// Delete the directory and everything below it.
    DeleteTree,
}

/// The kind of an entry, from whether its path exists and whether it names a
/// regular file.
pub open spec fn kind_of(exists: bool, is_file: bool) -> EntryKind {
    if !exists {
        EntryKind::Missing
    } else if is_file {
        EntryKind::IsFile
    } else {
        EntryKind::IsDirectory
    }
}

/// Classifies an entry from the two lookups made on its path.
pub fn classify(exists: bool, is_file: bool) -> (kind: EntryKind)
    ensures
        kind == kind_of(exists, is_file),
{
    if !exists {
        EntryKind::Missing
    } else if is_file {
        EntryKind::IsFile
    } else {
        EntryKind::IsDirectory
    }
}

impl EntryKind {
    /// The deletion to attempt for an entry of this kind.
    pub open spec fn spec_action(self) -> Action {
        match self {
            EntryKind::Missing => Action::Nothing,
            EntryKind::IsFile => Action::DeleteFile,
            EntryKind::IsDirectory => Action::DeleteTree,
        }
    }

    /// The deletion to attempt for an entry of this kind.
    pub fn action(self) -> (action: Action)
        ensures
            action == self.spec_action(),
    {
        match self {
            EntryKind::Missing => Action::Nothing,
            EntryKind::IsFile => Action::DeleteFile,
            EntryKind::IsDirectory => Action::DeleteTree,
        }
    }
}

/// The outcome of an entry of the given kind whose deletion was attempted with
/// the given result. For a missing entry nothing was attempted and the result
/// does not count.
pub open spec fn outcome_of(kind: EntryKind, attempt: Result<(), String>) -> EntryOutcome {
    match kind {
        EntryKind::Missing => EntryOutcome::Absent,
        EntryKind::IsFile => match attempt {
            Ok(_) => EntryOutcome::RemovedFile,
            Err(reason) => EntryOutcome::FailedFile(reason),
        },
        EntryKind::IsDirectory => match attempt {
            Ok(_) => EntryOutcome::RemovedDirectory,
            Err(reason) => EntryOutcome::FailedDirectory(reason),
        },
    }
}

/// Turns the result of a deletion attempt into the outcome of the entry.
pub fn conclude(kind: EntryKind, attempt: Result<(), String>) -> (outcome: EntryOutcome)
    ensures
        outcome == outcome_of(kind, attempt),
{
    match kind {
        EntryKind::Missing => EntryOutcome::Absent,
        EntryKind::IsFile => match attempt {
            Ok(_) => EntryOutcome::RemovedFile,
            Err(reason) => EntryOutcome::FailedFile(reason),
        },
        EntryKind::IsDirectory => match attempt {
            Ok(_) => EntryOutcome::RemovedDirectory,
            Err(reason) => EntryOutcome::FailedDirectory(reason),
        },
    }
}

/// The line that tells the user about an entry that is still there or never
/// was: none for an entry that was removed or skipped.
pub open spec fn diagnostic_of(path: Seq<char>, outcome: EntryOutcome) -> Option<Seq<char>> {
    match outcome {
        EntryOutcome::Absent => Some("path does not exist: "@ + path),
        EntryOutcome::FailedFile(reason) => Some(
            "Failed to remove file "@ + path + ": "@ + reason@,
        ),
        EntryOutcome::FailedDirectory(reason) => Some(
            "Failed to remove directory "@ + path + ": "@ + reason@,
        ),
        _ => None,
    }
}

/// Writes the line that tells the user about an absent or failed entry.
pub fn diagnostic(path: &NormalizedPath, outcome: &EntryOutcome) -> (line: Option<String>)
    ensures
        text_of(line) == diagnostic_of(path@, *outcome),
{
    match outcome {
        EntryOutcome::Absent => {
            let mut line = "path does not exist: ".to_owned();
            line.append(path.as_str());
            Some(line)
        },
        EntryOutcome::FailedFile(reason) => {
            let mut line = "Failed to remove file ".to_owned();
            line.append(path.as_str());
            line.append(": ");
            line.append(reason.as_str());
            Some(line)
        },
        EntryOutcome::FailedDirectory(reason) => {
            let mut line = "Failed to remove directory ".to_owned();
            line.append(path.as_str());
            line.append(": ");
            line.append(reason.as_str());
            Some(line)
        },
        _ => None,
    }
}

/// The final component of a path as [`std::path::Path::file_name`] gives it,
/// or nothing where the path has none.
pub uninterp spec fn file_name_of(path: Seq<char>) -> Option<Seq<char>>;

/// Calls [`std::path::Path::file_name`] on `path`.
///
/// Not proved, but taken from that function: its result depends on the text
/// of the path alone.
#[verifier::external_body]
fn file_name(path: &str) -> (name: Option<String>)
    ensures
        text_of(name) == file_name_of(path@),
{
    match Path::new(path).file_name() {
        Some(name) => Some(name.to_string_lossy().into_owned()),
        None => None,
    }
}

/// The label shown while an entry is processed: its name, or `?` where it has
/// none.
pub open spec fn label_of(name: Option<Seq<char>>) -> Seq<char> {
    match name {
        Some(text) => text,
        None => "?"@,
    }
}

/// Picks the label for an entry from its file name.
pub fn label_from(name: Option<String>) -> (label: String)
    ensures
        label@ == label_of(text_of(name)),
{
    match name {
        Some(text) => text,
        None => "?".to_owned(),
    }
}

/// The label shown while the entry at `path` is processed.
pub fn label(path: &NormalizedPath) -> (label: String)
    ensures
        label@ == label_of(file_name_of(path@)),
{
    label_from(file_name(path.as_str()))
}

/// The texts of a list of paths, in order.
pub open spec fn texts(paths: Seq<NormalizedPath>) -> Seq<Seq<char>> {
    Seq::new(paths.len(), |i: int| paths[i]@)
}

/// One removal run over a list of paths: which entry is next, and what became
/// of those before it.
pub struct Remover {
    paths: Vec<NormalizedPath>,
    position: usize,
    report: Report,
    history: Ghost<Seq<EntryOutcome>>,
}

impl Remover {
    /// The run is consistent: the entries before the position, and no others,
    /// have an outcome, and the report counts exactly those outcomes.
    pub closed spec fn wf(&self) -> bool {
        &&& self.position <= self.paths.len()
        &&& self.history@.len() == self.position
        &&& self.report@ == tally(self.history@)
        &&& self.report.skipped == 0
    }

    /// The paths of the batch, in the order in which they are processed.
    pub closed spec fn entries(&self) -> Seq<Seq<char>> {
        texts(self.paths@)
    }

    /// The outcomes of the entries processed so far, in order.
    pub closed spec fn outcomes(&self) -> Seq<EntryOutcome> {
        self.history@
    }

    /// The counts of the outcomes so far.
    pub closed spec fn counts(&self) -> Counts {
        self.report@
    }

    /// Starts a run over `paths`: nothing is processed yet.
    pub fn new(paths: Vec<NormalizedPath>) -> (run: Remover)
        ensures
            run.wf(),
            run.entries() == texts(paths@),
            run.outcomes() == Seq::<EntryOutcome>::empty(),
            run.outcomes().len() <= run.entries().len(),
            run.counts() == Counts::zero(),
    {
        Remover { paths, position: 0, report: Report::new(), history: Ghost(Seq::empty()) }
    }

    /// The number of entries in the batch.
    pub fn total(&self) -> (total: u64)
        ensures
            total == self.entries().len(),
    {
        self.paths.len() as u64
    }

    /// The number of entries processed so far.
    pub fn processed(&self) -> (done: u64)
        requires
            self.wf(),
        ensures
            done == self.outcomes().len(),
            done <= self.entries().len(),
    {
        self.position as u64
    }

    /// Whether every entry of the batch has its outcome.
    pub fn is_finished(&self) -> (finished: bool)
        requires
            self.wf(),
        ensures
            finished == (self.outcomes().len() == self.entries().len()),
    {
        self.position == self.paths.len()
    }

    /// The entry to process next, if any is left.
    pub fn current(&self) -> (next: Option<&NormalizedPath>)
        requires
            self.wf(),
        ensures
            next.is_some() == (self.outcomes().len() < self.entries().len()),
            next.is_some() ==> next.unwrap()@ == self.entries()[self.outcomes().len() as int],
    {
        if self.position < self.paths.len() {
            Some(&self.paths[self.position])
        } else {
            None
        }
    }

    /// Gives the next entry its outcome, from what was found at its path and
    /// how the deletion went, and moves on to the entry after it, whatever the
    /// outcome was. Returns the line for the user, if the outcome calls for
    /// one. Once the batch is finished nothing changes any more: there are
    /// never more outcomes than entries.
    pub fn settle(&mut self, kind: EntryKind, attempt: Result<(), String>) -> (line: Option<
        String,
    >)
        requires
            old(self).wf(),
        ensures
            final(self).wf(),
            final(self).entries() == old(self).entries(),
            final(self).outcomes().len() <= final(self).entries().len(),
            old(self).outcomes().len() == old(self).entries().len() ==> {
                &&& final(self).outcomes() == old(self).outcomes()
                &&& final(self).counts() == old(self).counts()
                &&& line is None
            },
            old(self).outcomes().len() < old(self).entries().len() ==> {
                &&& final(self).outcomes() == old(self).outcomes().push(outcome_of(kind, attempt))
                &&& final(self).counts() == old(self).counts().bump(outcome_of(kind, attempt))
                &&& text_of(line) == diagnostic_of(
                    old(self).entries()[old(self).outcomes().len() as int],
                    outcome_of(kind, attempt),
                )
            },
    {
        if self.position >= self.paths.len() {
            return None;
        }
        let outcome = conclude(kind, attempt);
        let line = diagnostic(&self.paths[self.position], &outcome);
        proof {
            lemma_tally_total(self.history@);
            lemma_tally_push(self.history@, outcome);
        }
        self.report.record(&outcome);
        self.position = self.position + 1;
        self.history = Ghost(self.history@.push(outcome));
        line
    }

    /// The report of the run so far. Its six counters count the outcomes so
    /// far, each once, so they add up to the number of entries processed: to
    /// the size of the batch once the run is finished. No entry is skipped.
    pub fn report(&self) -> (report: Report)
        requires
            self.wf(),
        ensures
            report@ == self.counts(),
            report@ == tally(self.outcomes()),
            report@.total() == self.outcomes().len(),
            report.skipped == 0,
    {
        proof {
            lemma_tally_total(self.history@);
        }
        self.report
    }
}

} // verus!
