//! The recompression of one file's bytes: decode, encode again, and keep the
//! new stream only where it is strictly shorter.

use crate::codec::{
    compress_libdeflater, compress_zopfli, decodable, decompress, gzip_payload, libdeflate_fits,
    libdeflate_gzip, DecodeError, EncodeError,
};
use vstd::prelude::*;
use vstd::slice::slice_to_vec;

verus! {

/// A payload longer than this counts as large.
pub const LARGE_PAYLOAD: usize = 20_000;

/// The iteration count for a large payload.
pub const ITERATIONS_LARGE: u64 = 100;

/// The iteration count for any other payload.
pub const ITERATIONS_SMALL: u64 = 500;

/// The level at which the fast encoder runs.
pub const FAST_LEVEL: u8 = 9;

/// The iteration count for a payload of `payload_len` bytes where the caller
/// asked for none.
pub open spec fn default_iterations(payload_len: nat) -> u64 {
    if payload_len > LARGE_PAYLOAD {
        ITERATIONS_LARGE
    } else {
        ITERATIONS_SMALL
    }
}

/// The iteration count that the encoder is run with: the caller's, where
/// there is one, whatever the payload's length; else the default for that
/// length.
pub open spec fn chosen_iterations(forced: Option<u64>, payload_len: nat) -> u64 {
    match forced {
        Some(n) => n,
        None => default_iterations(payload_len),
    }
}

/// Computes [`chosen_iterations`].
pub fn effective_iterations(forced: Option<u64>, payload_len: usize) -> (n: u64)
    ensures
        n == chosen_iterations(forced, payload_len as nat),
        forced matches Some(f) ==> n == f,
        forced is None ==> n == (if payload_len > 20_000 {
            100u64
        } else {
            500u64
        }),
{
    match forced {
        Some(n) => n,
        None => if payload_len > LARGE_PAYLOAD {
            ITERATIONS_LARGE
        } else {
            ITERATIONS_SMALL
        },
    }
}

/// What becomes of a file, as a mathematical value.
pub ghost enum Verdict {
    /// The file gets new content, `saved` bytes shorter than the old.
    Replace { data: Seq<u8>, saved: nat },
    /// The file stays as it is.
    Keep,
}

/// What becomes of a file.
#[derive(Debug)]
pub enum Outcome {
    /// The file is to be overwritten with `data`, which is `saved` bytes
    /// shorter than what the file holds now.
    Compressed { data: Vec<u8>, saved: usize },
    /// The file is to be left alone.
    Unchanged,
}

impl View for Outcome {
    type V = Verdict;

    open spec fn view(&self) -> Verdict {
        match *self {
            Outcome::Compressed { data, saved } => Verdict::Replace {
                data: data@,
                saved: saved as nat,
            },
            Outcome::Unchanged => Verdict::Keep,
        }
    }
}

/// The verdict on a file that holds `before`, given a `candidate` to
/// replace it: the candidate wins only where it is strictly shorter.
pub open spec fn judge(before: Seq<u8>, candidate: Seq<u8>) -> Verdict {
    if candidate.len() < before.len() {
        Verdict::Replace { data: candidate, saved: (before.len() - candidate.len()) as nat }
    } else {
        Verdict::Keep
    }
}

/// What a file that held `before` holds once `verdict` is carried out.
pub open spec fn content_after(before: Seq<u8>, verdict: Verdict) -> Seq<u8> {
    match verdict {
        Verdict::Replace { data, .. } => data,
        Verdict::Keep => before,
    }
}

/// The number of bytes that `verdict` saves.
pub open spec fn saved_by(verdict: Verdict) -> nat {
    match verdict {
        Verdict::Replace { saved, .. } => saved,
        Verdict::Keep => 0,
    }
}

/// Compares a candidate with the file's present content and decides, as
/// [`judge`] says.
pub fn settle(before: &[u8], candidate: Vec<u8>) -> (outcome: Outcome)
    ensures
        outcome@ == judge(before@, candidate@),
{
    if candidate.len() < before.len() {
        let saved = before.len() - candidate.len();
        Outcome::Compressed { data: candidate, saved }
    } else {
        Outcome::Unchanged
    }
}

/// A file never grows: whatever the candidate, the content after the verdict
/// is at most as long as the content before, and shorter by exactly the
/// number of bytes that the verdict reports as saved.
pub proof fn lemma_never_grows(before: Seq<u8>, candidate: Seq<u8>)
    ensures
        content_after(before, judge(before, candidate)).len() <= before.len(),
        content_after(before, judge(before, candidate)).len() + saved_by(
            judge(before, candidate),
        ) == before.len(),
{
}

/// A second pass changes nothing: once a file holds what the verdict on a
/// candidate left there, the verdict on the same candidate is to keep it.
pub proof fn lemma_second_pass_keeps(before: Seq<u8>, candidate: Seq<u8>)
    ensures
        judge(content_after(before, judge(before, candidate)), candidate) == Verdict::Keep,
{
}

/// A verdict by [`judge`] keeps the payload, where the candidate has the
/// payload of the content before.
pub proof fn lemma_verdict_keeps_payload(before: Seq<u8>, candidate: Seq<u8>)
    requires
        gzip_payload(candidate) == gzip_payload(before),
    ensures
        gzip_payload(content_after(before, judge(before, candidate))) == gzip_payload(
            before,
        ),
{
}

/// The stream that stands for the encoder's work: the encoder's own, where
/// it gave one, and else `input` itself, so that an encoder's failure costs
/// nothing but the gain.
pub fn stream_or_input(input: &[u8], encoded: Result<Vec<u8>, EncodeError>) -> (stream: Vec<u8>)
    ensures
        stream@ == (match encoded {
            Ok(s) => s@,
            Err(_) => input@,
        }),
{
    match encoded {
        Ok(stream) => stream,
        Err(_) => slice_to_vec(input),
    }
}

/// The stream that the fast encoder puts up against a file that holds
/// `contents`, a gzip stream: libdeflater's stream for the payload at
/// [`FAST_LEVEL`], or `contents` itself where the encoder's buffer cannot be
/// had.
pub open spec fn fast_candidate(contents: Seq<u8>) -> Seq<u8> {
    let payload = gzip_payload(contents)->0;
    if libdeflate_fits(FAST_LEVEL, payload.len()) {
        libdeflate_gzip(FAST_LEVEL, payload)
    } else {
        contents
    }
}

/// What is handed to zopfli for one file.
#[derive(Debug)]
pub struct ZopfliJob {
    /// The bytes to encode.
    pub payload: Vec<u8>,
    /// The iteration count to encode them with.
    pub iterations: u64,
}

/// Prepares the encoding of a file with zopfli: decodes `input`, and chooses
/// the iteration count.
///
/// A [`decodable`] input always gives a job, and an input that cannot be
/// decoded never does. The job holds the payload of `input` and the count
/// that [`chosen_iterations`] gives: `force_iterations` itself where the
/// caller gave one, whatever the payload's length, and else the default for
/// that length.
pub fn plan_zopfli(input: &[u8], force_iterations: Option<u64>) -> (r: Result<
    ZopfliJob,
    DecodeError,
>)
    requires
        force_iterations matches Some(n) ==> n > 0,
    ensures
        match r {
            Ok(job) => {
                &&& gzip_payload(input@) == Some(job.payload@)
                &&& job.iterations == chosen_iterations(force_iterations, job.payload@.len())
                &&& force_iterations matches Some(n) ==> job.iterations == n
                &&& job.iterations > 0
            },
            Err(e) => e.explains(input@),
        },
        decodable(input@) ==> r is Ok,
{
    match decompress(input) {
        Ok(payload) => {
            let iterations = effective_iterations(force_iterations, payload.len());
            Ok(ZopfliJob { payload, iterations })
        },
        Err(e) => Err(e),
    }
}

/// Decodes `input` and encodes its payload again with zopfli: the job that
/// [`plan_zopfli`] prepares is what zopfli is run on.
///
/// A [`decodable`] input always gives a stream, and an input that cannot be
/// decoded never does. The stream has the payload of `input`: it is the
/// encoder's where the encoder succeeded, and `input` itself where it did
/// not.
pub fn optimise_zopfli(input: &[u8], force_iterations: Option<u64>) -> (r: Result<
    Vec<u8>,
    DecodeError,
>)
    requires
        force_iterations matches Some(n) ==> n > 0,
    ensures
        match r {
            Ok(stream) => gzip_payload(input@) is Some && gzip_payload(stream@) == gzip_payload(
                input@,
            ),
            Err(e) => e.explains(input@),
        },
        decodable(input@) ==> r is Ok,
{
    let job = match plan_zopfli(input, force_iterations) {
        Ok(job) => job,
        Err(e) => {
            return Err(e);
        },
    };
    let encoded = compress_zopfli(job.payload.as_slice(), job.iterations);
    Ok(stream_or_input(input, encoded))
}

/// Decodes `input` and encodes its payload again with libdeflater at
/// [`FAST_LEVEL`].
///
/// A [`decodable`] input always gives a stream, and an input that cannot be
/// decoded never does. The stream is [`fast_candidate`] of the input, which
/// has the input's payload.
pub fn optimise_libdeflater(input: &[u8]) -> (r: Result<Vec<u8>, DecodeError>)
    ensures
        match r {
            Ok(stream) => {
                &&& gzip_payload(input@) is Some
                &&& stream@ == fast_candidate(input@)
                &&& gzip_payload(stream@) == gzip_payload(input@)
            },
            Err(e) => e.explains(input@),
        },
        decodable(input@) ==> r is Ok,
{
    let contents = match decompress(input) {
        Ok(c) => c,
        Err(e) => {
            return Err(e);
        },
    };
    let encoded = compress_libdeflater(contents.as_slice(), FAST_LEVEL);
    Ok(stream_or_input(input, encoded))
}

/// Recompresses the content of one file.
///
/// `contents` is decoded and its payload encoded again, by zopfli where
/// `zopfli` is set and by libdeflater otherwise; `iterations` is the
/// caller's iteration count for zopfli, if any. The new stream is kept only
/// where it is strictly shorter than `contents`.
///
/// A [`decodable`] file always gets an outcome, and a file that cannot be
/// decoded gets the error. The outcome is the verdict of [`judge`] on a
/// stream that has the file's payload, so the file afterwards has the
/// payload that it had, and is no longer than it was.
///
/// With libdeflater the stream is [`fast_candidate`] of the file, so the
/// outcome depends on the file's content alone, and a second pass over what
/// the outcome leaves would leave it as it is. With zopfli, which stream is
/// judged is zopfli's choice.
pub fn compress_file(contents: &[u8], iterations: Option<u64>, zopfli: bool) -> (r: Result<
    Outcome,
    DecodeError,
>)
    requires
        iterations matches Some(n) ==> n > 0,
    ensures
        match r {
            Ok(outcome) => {
                let after = content_after(contents@, outcome@);
                &&& gzip_payload(contents@) is Some
                &&& exists|candidate: Seq<u8>|
                    gzip_payload(candidate) == gzip_payload(contents@) && outcome@
                        == #[trigger] judge(contents@, candidate)
                &&& gzip_payload(after) == gzip_payload(contents@)
                &&& after.len() <= contents@.len()
                &&& !zopfli ==> outcome@ == judge(contents@, fast_candidate(contents@))
                &&& !zopfli ==> judge(after, fast_candidate(after)) == Verdict::Keep
            },
            Err(e) => e.explains(contents@),
        },
        decodable(contents@) ==> r is Ok,
{
    let optimized = if zopfli {
        optimise_zopfli(contents, iterations)
    } else {
        optimise_libdeflater(contents)
    };
    match optimized {
        Ok(candidate) => Ok(settle(contents, candidate)),
        Err(e) => Err(e),
    }
}

} // verus!
