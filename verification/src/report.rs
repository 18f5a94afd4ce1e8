//! Outcomes of single entries and the report that counts them.

use vstd::prelude::*;

verus! {

/// What happened to one entry of a batch.
#[derive(Debug)]
pub enum EntryOutcome {
    /// The entry was a regular file and is gone.
    RemovedFile,
    /// The entry was a directory (or anything that is no regular file) and its
    /// whole tree is gone.
    RemovedDirectory,
    /// Deleting the file failed, for the reason given.
    FailedFile(String),
    /// Deleting the tree failed, for the reason given.
    FailedDirectory(String),
    /// Nothing exists at the path.
    Absent,
    /// The entry was filtered out before any attempt.
    Skipped,
}

/// How many entries of a batch ended in each way: the mathematical content of
/// a [`Report`].
pub struct Counts {
    pub successful_file: nat,
    pub successful_dir: nat,
    pub failed_file: nat,
    pub failed_dir: nat,
    pub absent: nat,
    pub skipped: nat,
}

impl Counts {
    /// The counts before any entry was processed.
    pub open spec fn zero() -> Counts {
        Counts {
            successful_file: 0,
            successful_dir: 0,
            failed_file: 0,
            failed_dir: 0,
            absent: 0,
            skipped: 0,
        }
    }

    /// The number of entries counted, whatever their outcome.
    pub open spec fn total(self) -> nat {
        self.successful_file + self.successful_dir + self.failed_file + self.failed_dir
            + self.absent + self.skipped
    }

    /// The counts after one more entry ended in `outcome`: the counter of that
    /// outcome grows by one and the others stay.
    pub open spec fn bump(self, outcome: EntryOutcome) -> Counts {
        match outcome {
            EntryOutcome::RemovedFile => Counts {
                successful_file: self.successful_file + 1,
                ..self
            },
            EntryOutcome::RemovedDirectory => Counts {
                successful_dir: self.successful_dir + 1,
                ..self
            },
            EntryOutcome::FailedFile(_) => Counts { failed_file: self.failed_file + 1, ..self },
            EntryOutcome::FailedDirectory(_) => Counts {
                failed_dir: self.failed_dir + 1,
                ..self
            },
            EntryOutcome::Absent => Counts { absent: self.absent + 1, ..self },
            EntryOutcome::Skipped => Counts { skipped: self.skipped + 1, ..self },
        }
    }

    /// Counter by counter, the sum of two counts.
    pub open spec fn plus(self, other: Counts) -> Counts {
        Counts {
            successful_file: self.successful_file + other.successful_file,
            successful_dir: self.successful_dir + other.successful_dir,
            failed_file: self.failed_file + other.failed_file,
            failed_dir: self.failed_dir + other.failed_dir,
            absent: self.absent + other.absent,
            skipped: self.skipped + other.skipped,
        }
    }
}

/// The counts of a batch whose entries ended, in order, in `outcomes`: a fold
/// from the left that starts at zero.
pub open spec fn tally(outcomes: Seq<EntryOutcome>) -> Counts
    decreases outcomes.len(),
{
    if outcomes.len() == 0 {
        Counts::zero()
    } else {
        tally(outcomes.drop_last()).bump(outcomes.last())
    }
}

/// Every entry is counted exactly once: the six counters of a batch add up to
/// the number of its entries.
pub proof fn lemma_tally_total(outcomes: Seq<EntryOutcome>)
    ensures
        tally(outcomes).total() == outcomes.len(),
    decreases outcomes.len(),
{
    if outcomes.len() > 0 {
        lemma_tally_total(outcomes.drop_last());
    }
}

/// Counting one more outcome after a batch is counting the batch, then the
/// outcome.
pub proof fn lemma_tally_push(outcomes: Seq<EntryOutcome>, outcome: EntryOutcome)
    ensures
        tally(outcomes.push(outcome)) == tally(outcomes).bump(outcome),
{
    assert(outcomes.push(outcome).drop_last() =~= outcomes);
}

/// The counts of two batches processed one after the other are the sums of
/// their counts, so a batch may be cut anywhere without changing its report.
pub proof fn lemma_tally_concat(first: Seq<EntryOutcome>, second: Seq<EntryOutcome>)
    ensures
        tally(first + second) == tally(first).plus(tally(second)),
    decreases second.len(),
{
    if second.len() == 0 {
        assert(first + second =~= first);
    } else {
        lemma_tally_concat(first, second.drop_last());
        assert((first + second).drop_last() =~= first + second.drop_last());
    }
}

/// The character that stands for a digit.
pub open spec fn digit_char(digit: nat) -> char {
    if digit == 0 {
        '0'
    } else if digit == 1 {
        '1'
    } else if digit == 2 {
        '2'
    } else if digit == 3 {
        '3'
    } else if digit == 4 {
        '4'
    } else if digit == 5 {
        '5'
    } else if digit == 6 {
        '6'
    } else if digit == 7 {
        '7'
    } else if digit == 8 {
        '8'
    } else {
        '9'
    }
}

/// A number written in decimal, without sign or leading zeros.
pub open spec fn decimal_text(n: nat) -> Seq<char>
    decreases n,
{
    if n < 10 {
        seq![digit_char(n)]
    } else {
        decimal_text(n / 10).push(digit_char(n % 10))
    }
}

/// The six counters written in decimal, in the order in which a run is
/// summed up: removed files, removed directories, failed files, failed
/// directories, absent, skipped.
pub open spec fn figure_texts(counts: Counts) -> Seq<Seq<char>> {
    seq![
        decimal_text(counts.successful_file),
        decimal_text(counts.successful_dir),
        decimal_text(counts.failed_file),
        decimal_text(counts.failed_dir),
        decimal_text(counts.absent),
        decimal_text(counts.skipped),
    ]
}

/// The line that sums a run up: the six figures, then what each stands for.
pub open spec fn summary_text(counts: Counts) -> Seq<char> {
    let figures = figure_texts(counts);
    "Final Report: "@ + figures[0] + "/"@ + figures[1] + "/"@ + figures[2] + "/"@ + figures[3]
        + "/"@ + figures[4] + "/"@ + figures[5] + " | sfile/sdir/ffile/fdir/missing/skipped"@
}

fn digit_text(digit: u64) -> (text: &'static str)
    requires
        digit < 10,
    ensures
        text@ == seq![digit_char(digit as nat)],
{
    proof {
        reveal_strlit("0");
        reveal_strlit("1");
        reveal_strlit("2");
        reveal_strlit("3");
        reveal_strlit("4");
        reveal_strlit("5");
        reveal_strlit("6");
        reveal_strlit("7");
        reveal_strlit("8");
        reveal_strlit("9");
    }
    let text = if digit == 0 {
        "0"
    } else if digit == 1 {
        "1"
    } else if digit == 2 {
        "2"
    } else if digit == 3 {
        "3"
    } else if digit == 4 {
        "4"
    } else if digit == 5 {
        "5"
    } else if digit == 6 {
        "6"
    } else if digit == 7 {
        "7"
    } else if digit == 8 {
        "8"
    } else {
        "9"
    };
    assert(text@ =~= seq![digit_char(digit as nat)]);
    text
}

/// Writes a number in decimal.
pub fn decimal(n: u64) -> (text: String)
    ensures
        text@ == decimal_text(n as nat),
{
    let mut text = digit_text(n % 10).to_owned();
    let mut rest: u64 = n / 10;
    assert(rest > 0 ==> decimal_text(n as nat) =~= decimal_text(rest as nat) + text@);
    while rest > 0
        invariant
            rest > 0 ==> decimal_text(n as nat) == decimal_text(rest as nat) + text@,
            rest == 0 ==> decimal_text(n as nat) == text@,
        decreases rest,
    {
        let mut longer = digit_text(rest % 10).to_owned();
        longer.append(text.as_str());
        proof {
            let digit = seq![digit_char((rest % 10) as nat)];
            if rest >= 10 {
                assert(decimal_text(rest as nat) + text@ =~= decimal_text((rest / 10) as nat) + (
                digit + text@));
            } else {
                assert(decimal_text(rest as nat) + text@ =~= digit + text@);
            }
        }
        text = longer;
        rest = rest / 10;
    }
    text
}

/// The outcome counters of one removal run.
#[derive(Debug, Clone, Copy, PartialEq, Eq, Structural)]
pub struct Report {
    pub successful_file: u64,
    pub successful_dir: u64,
    pub failed_file: u64,
    pub failed_dir: u64,
    pub absent: u64,
    pub skipped: u64,
}

impl View for Report {
    type V = Counts;

    open spec fn view(&self) -> Counts {
        Counts {
            successful_file: self.successful_file as nat,
            successful_dir: self.successful_dir as nat,
            failed_file: self.failed_file as nat,
            failed_dir: self.failed_dir as nat,
            absent: self.absent as nat,
            skipped: self.skipped as nat,
        }
    }
}

impl Report {
    /// An empty report: nothing was processed yet.
    pub fn new() -> (report: Report)
        ensures
            report@ == Counts::zero(),
    {
        Report {
            successful_file: 0,
            successful_dir: 0,
            failed_file: 0,
            failed_dir: 0,
            absent: 0,
            skipped: 0,
        }
    }

    /// Whether the counter that `outcome` falls under can still grow.
    pub open spec fn has_room(&self, outcome: EntryOutcome) -> bool {
        match outcome {
            EntryOutcome::RemovedFile => self.successful_file < u64::MAX,
            EntryOutcome::RemovedDirectory => self.successful_dir < u64::MAX,
            EntryOutcome::FailedFile(_) => self.failed_file < u64::MAX,
            EntryOutcome::FailedDirectory(_) => self.failed_dir < u64::MAX,
            EntryOutcome::Absent => self.absent < u64::MAX,
            EntryOutcome::Skipped => self.skipped < u64::MAX,
        }
    }

    /// Counts one more entry, which ended in `outcome`.
    pub fn record(&mut self, outcome: &EntryOutcome)
        requires
            old(self).has_room(*outcome),
        ensures
            final(self)@ == old(self)@.bump(*outcome),
    {
        match outcome {
            EntryOutcome::RemovedFile => {
                self.successful_file = self.successful_file + 1;
            },
            EntryOutcome::RemovedDirectory => {
                self.successful_dir = self.successful_dir + 1;
            },
            EntryOutcome::FailedFile(_) => {
                self.failed_file = self.failed_file + 1;
            },
            EntryOutcome::FailedDirectory(_) => {
                self.failed_dir = self.failed_dir + 1;
            },
            EntryOutcome::Absent => {
                self.absent = self.absent + 1;
            },
            EntryOutcome::Skipped => {
                self.skipped = self.skipped + 1;
            },
        }
    }

    /// The number of entries counted, if it fits in a `u64`.
    pub fn total(&self) -> (total: Option<u64>)
        ensures
            total.is_some() <==> self@.total() <= u64::MAX,
            total.is_some() ==> total.unwrap() == self@.total(),
    {
        let a = self.successful_file.checked_add(self.successful_dir)?;
        let b = a.checked_add(self.failed_file)?;
        let c = b.checked_add(self.failed_dir)?;
        let d = c.checked_add(self.absent)?;
        d.checked_add(self.skipped)
    }

    /// Writes the six counters in decimal, in the order of the summary.
    pub fn figures(&self) -> (figures: Vec<String>)
        ensures
            figures.len() == 6,
            forall|i: int| 0 <= i < 6 ==> (#[trigger] figures[i])@ == figure_texts(self@)[i],
    {
        let mut figures: Vec<String> = Vec::new();
        figures.push(decimal(self.successful_file));
        figures.push(decimal(self.successful_dir));
        figures.push(decimal(self.failed_file));
        figures.push(decimal(self.failed_dir));
        figures.push(decimal(self.absent));
        figures.push(decimal(self.skipped));
        figures
    }

    /// Writes the line that sums the run up.
    pub fn summary(&self) -> (line: String)
        ensures
            line@ == summary_text(self@),
    {
        let figures = self.figures();
        let mut line = "Final Report: ".to_owned();
        line.append(figures[0].as_str());
        line.append("/");
        line.append(figures[1].as_str());
        line.append("/");
        line.append(figures[2].as_str());
        line.append("/");
        line.append(figures[3].as_str());
        line.append("/");
        line.append(figures[4].as_str());
        line.append("/");
        line.append(figures[5].as_str());
        line.append(" | sfile/sdir/ffile/fdir/missing/skipped");
        line
    }
}

} // verus!
