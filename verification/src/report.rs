//! What is reported of a run: one report for each file, and their totals.

use crate::codec::DecodeError;
use crate::pipeline::Outcome;
use vstd::prelude::*;

verus! {

/// Why a file failed.
#[derive(Clone, Copy, Debug, PartialEq, Eq, Structural)]
pub enum Failure {
    /// The file could not be read.
    Unreadable,
    /// The file's content could not be decoded.
    Undecodable(DecodeError),
    /// The new content could not be written.
    Unwritable,
}

/// What became of one file.
#[derive(Clone, Copy, Debug, PartialEq, Eq, Structural)]
pub enum FileReport {
    /// The file was overwritten with a stream `saved` bytes shorter.
    Compressed { saved: usize, elapsed_nanos: u64 },
    /// The file was left as it was.
    Unchanged { elapsed_nanos: u64 },
    /// The file failed, and is as it was.
    Failed(Failure),
}

impl FileReport {
    /// The bytes that the file got shorter by: none unless it was
    /// compressed.
    pub open spec fn saved(self) -> nat {
        match self {
            FileReport::Compressed { saved, .. } => saved as nat,
            _ => 0,
        }
    }

    /// The time spent on the file, in nanoseconds. A failed file counts for
    /// nothing.
    pub open spec fn elapsed(self) -> nat {
        match self {
            FileReport::Compressed { elapsed_nanos, .. } => elapsed_nanos as nat,
            FileReport::Unchanged { elapsed_nanos } => elapsed_nanos as nat,
            FileReport::Failed(_) => 0,
        }
    }
}

/// The report on a file for which [`compress_file`] gave `result` after
/// `elapsed_nanos` nanoseconds. `written` says whether the new content, if
/// there is any, reached the file: where it did not, the file has failed and
/// nothing counts as saved.
///
/// [`compress_file`]: crate::pipeline::compress_file
pub fn conclude(result: &Result<Outcome, DecodeError>, written: bool, elapsed_nanos: u64) -> (report:
    FileReport)
    ensures
        report == (match *result {
            Ok(Outcome::Compressed { saved, .. }) => if written {
                FileReport::Compressed { saved, elapsed_nanos }
            } else {
                FileReport::Failed(Failure::Unwritable)
            },
            Ok(Outcome::Unchanged) => FileReport::Unchanged { elapsed_nanos },
            Err(e) => FileReport::Failed(Failure::Undecodable(e)),
        }),
{
    match result {
        Ok(Outcome::Compressed { saved, .. }) => if written {
            FileReport::Compressed { saved: *saved, elapsed_nanos }
        } else {
            FileReport::Failed(Failure::Unwritable)
        },
        Ok(Outcome::Unchanged) => FileReport::Unchanged { elapsed_nanos },
        Err(e) => FileReport::Failed(Failure::Undecodable(*e)),
    }
}

/// The bytes saved over all of `reports`.
pub open spec fn total_saved(reports: Seq<FileReport>) -> nat
    decreases reports.len(),
{
    if reports.len() == 0 {
        0
    } else {
        total_saved(reports.drop_last()) + reports.last().saved()
    }
}

/// The time spent over all of `reports`, in nanoseconds.
pub open spec fn total_elapsed(reports: Seq<FileReport>) -> nat
    decreases reports.len(),
{
    if reports.len() == 0 {
        0
    } else {
        total_elapsed(reports.drop_last()) + reports.last().elapsed()
    }
}

/// The totals of a run.
#[derive(Clone, Copy, Debug, PartialEq, Eq, Structural)]
pub struct Summary {
    /// The bytes saved over all files.
    pub saved: u128,
    /// The time spent over all files that did not fail, in nanoseconds.
    pub elapsed_nanos: u128,
}

/// The totals are bounded by the number of reports.
proof fn lemma_totals_bounded(reports: Seq<FileReport>)
    ensures
        total_saved(reports) <= reports.len() * usize::MAX,
        total_elapsed(reports) <= reports.len() * u64::MAX,
    decreases reports.len(),
{
    if reports.len() > 0 {
        lemma_totals_bounded(reports.drop_last());
        let n = reports.len() as int;
        assert((n - 1) * usize::MAX + usize::MAX == n * usize::MAX) by (nonlinear_arith);
        assert((n - 1) * u64::MAX + u64::MAX == n * u64::MAX) by (nonlinear_arith);
    }
}

/// The totals of a run, which are shown only where more than one file was
/// named: `None` for fewer than two reports, and else the sums of the bytes
/// saved and of the time spent, to which a failed file adds nothing.
pub fn summarize(reports: &[FileReport]) -> (summary: Option<Summary>)
    ensures
        summary is Some <==> reports@.len() > 1,
        summary matches Some(s) ==> s.saved == total_saved(reports@) && s.elapsed_nanos
            == total_elapsed(reports@),
{
    if reports.len() <= 1 {
        return None;
    }
    let mut saved: u128 = 0;
    let mut elapsed_nanos: u128 = 0;
    let mut i: usize = 0;
    while i < reports.len()
        invariant
            i <= reports.len(),
            saved == total_saved(reports@.take(i as int)),
            elapsed_nanos == total_elapsed(reports@.take(i as int)),
        decreases reports.len() - i,
    {
        proof {
            let next = reports@.take(i + 1);
            assert(next.drop_last() =~= reports@.take(i as int));
            assert(next.last() == reports@[i as int]);
            lemma_totals_bounded(next);
            assert(next.len() * usize::MAX <= u64::MAX * u64::MAX) by (nonlinear_arith)
                requires
                    next.len() <= u64::MAX,
            ;
            assert(next.len() * u64::MAX <= u64::MAX * u64::MAX) by (nonlinear_arith)
                requires
                    next.len() <= u64::MAX,
            ;
            assert(u64::MAX * u64::MAX < u128::MAX) by (nonlinear_arith);
        }
        match reports[i] {
            FileReport::Compressed { saved: s, elapsed_nanos: e } => {
                saved = saved + s as u128;
                elapsed_nanos = elapsed_nanos + e as u128;
            },
            FileReport::Unchanged { elapsed_nanos: e } => {
                elapsed_nanos = elapsed_nanos + e as u128;
            },
            FileReport::Failed(_) => {},
        }
        i += 1;
    }
    assert(reports@.take(i as int) =~= reports@);
    Some(Summary { saved, elapsed_nanos })
}

/// A report put in at any place adds its own bytes and time to the totals,
/// and changes nothing else.
pub proof fn lemma_totals_insert(reports: Seq<FileReport>, at: int, report: FileReport)
    requires
        0 <= at <= reports.len(),
    ensures
        total_saved(reports.insert(at, report)) == total_saved(reports) + report.saved(),
        total_elapsed(reports.insert(at, report)) == total_elapsed(reports) + report.elapsed(),
    decreases reports.len(),
{
    let longer = reports.insert(at, report);
    if at == reports.len() {
        assert(longer.drop_last() =~= reports);
    } else {
        assert(longer.drop_last() =~= reports.drop_last().insert(at, report));
        assert(longer.last() == reports.last());
        lemma_totals_insert(reports.drop_last(), at, report);
    }
}

/// A file that fails, wherever it stands among the others and whatever it
/// failed for, leaves the totals as they are without it.
pub proof fn lemma_failed_file_adds_nothing(reports: Seq<FileReport>, at: int, failure: Failure)
    requires
        0 <= at <= reports.len(),
    ensures
        total_saved(reports.insert(at, FileReport::Failed(failure))) == total_saved(reports),
        total_elapsed(reports.insert(at, FileReport::Failed(failure))) == total_elapsed(reports),
{
    lemma_totals_insert(reports, at, FileReport::Failed(failure));
}

} // verus!
