//! The batch stream driver: reads lines, runs the evaluator over one shared
//! deduplication tracker, writes accepted lines with a single `\n` after
//! each, and counts every line as written or skipped.

use vstd::prelude::*;
use vstd::string::StrSliceExecFns;

use crate::dedup::Deduplicator;
use crate::profile::TransformProfile;
use crate::transform::accepts;
use crate::transform::seen_after;
use crate::transform::transform_line;

verus! {

/// Stats from a processing run; every line read is either written or
/// skipped, never both.
#[derive(Debug, Clone, Copy, PartialEq, Eq, Structural)]
pub struct Stats {
    pub read: usize,
    pub written: usize,
    pub skipped: usize,
}

impl Default for Stats {
    /// A run that has processed nothing.
    fn default() -> (s: Self)
        ensures
            s.read == 0,
            s.written == 0,
            s.skipped == 0,
    {
        Stats { read: 0, written: 0, skipped: 0 }
    }
}

/// The single error kind of the batch path: reading, writing or flushing
/// failed. The run aborts at once, with everything already written staying
/// written; a run statistics counter that can no longer grow aborts the
/// same way.
#[derive(Debug, Clone, Copy, PartialEq, Eq, Structural)]
pub struct IoError;

/// A line with its terminator characters removed: one trailing `'\n'`, and
/// a `'\r'` before it if there is one. Only the terminator is touched.
pub open spec fn strip_terminator_spec(s: Seq<char>) -> Seq<char> {
    if s.len() > 0 && s.last() == '\n' {
        let t = s.drop_last();
        if t.len() > 0 && t.last() == '\r' {
            t.drop_last()
        } else {
            t
        }
    } else {
        s
    }
}

/// Removes the line terminator before evaluation, so that output is
/// normalized to single-`\n`-separated lines whatever the input convention.
fn strip_terminator(line: &str) -> (r: &str)
    ensures
        r@ == strip_terminator_spec(line@),
{
    let n = line.unicode_len();
    let mut end: usize = n;
    if end > 0 && line.get_char(end - 1) == '\n' {
        end = end - 1;
        if end > 0 && line.get_char(end - 1) == '\r' {
            end = end - 1;
        }
    }
    let r = line.substring_char(0, end);
    proof {
        assert(line@.subrange(0, end as int) =~= strip_terminator_spec(line@));
    }
    r
}

/// The tracker state after a whole batch of lines, evaluated in order
/// against one tracker that starts empty.
pub open spec fn batch_seen(lines: Seq<Seq<char>>, p: TransformProfile) -> Set<Seq<char>>
    decreases lines.len(),
{
    if lines.len() == 0 {
        Set::empty()
    } else {
        seen_after(lines.last(), p, batch_seen(lines.drop_last(), p))
    }
}

/// How many lines of a batch the evaluator accepts, in order, against one
/// tracker that starts empty.
pub open spec fn batch_written(lines: Seq<Seq<char>>, p: TransformProfile) -> nat
    decreases lines.len(),
{
    if lines.len() == 0 {
        0
    } else {
        batch_written(lines.drop_last(), p) + if accepts(
            lines.last(),
            p,
            batch_seen(lines.drop_last(), p),
        ) {
            1nat
        } else {
            0nat
        }
    }
}

/// Law: evaluating one more line extends the batch counts and tracker state
/// by exactly one evaluator step.
pub proof fn lemma_batch_step(lines: Seq<Seq<char>>, line: Seq<char>, p: TransformProfile)
    ensures
        batch_seen(lines.push(line), p) == seen_after(line, p, batch_seen(lines, p)),
        batch_written(lines.push(line), p) == batch_written(lines, p) + if accepts(
            line,
            p,
            batch_seen(lines, p),
        ) {
            1nat
        } else {
            0nat
        },
{
    assert(lines.push(line).drop_last() =~= lines);
    assert(lines.push(line).last() == line);
}

/// Relies on std::io::BufRead::read_line: appends one line, terminator
/// included, to the buffer and returns how many bytes it read, 0 meaning
/// end of input; an I/O failure is folded into `IoError`.
#[verifier::external_body]
fn read_one_line<R: std::io::BufRead>(reader: &mut R, line: &mut String) -> (r: Result<
    usize,
    IoError,
>)
    ensures
        r matches Ok(n) && n == 0 ==> final(line)@ == old(line)@,
{
    match reader.read_line(line) {
        Ok(n) => Ok(n),
        Err(_) => Err(IoError),
    }
}

/// Relies on std::io::Write::write_all: writes the whole byte block to the
/// sink or fails; an I/O failure is folded into `IoError`. Nothing is
/// promised of the sink, which only the caller observes.
#[verifier::external_body]
fn write_all_bytes<W: std::io::Write>(writer: &mut W, bytes: &[u8]) -> (r: Result<(), IoError>)
{
    match writer.write_all(bytes) {
        Ok(()) => Ok(()),
        Err(_) => Err(IoError),
    }
}

/// Relies on std::io::Write::flush: pushes buffered output to the sink; an
/// I/O failure is folded into `IoError`.
#[verifier::external_body]
fn flush_sink<W: std::io::Write>(writer: &mut W) -> (r: Result<(), IoError>)
{
    match writer.flush() {
        Ok(()) => Ok(()),
        Err(_) => Err(IoError),
    }
}

/// Process a stream line by line, writing results to the writer.
///
/// On success the counters add up: every line read was either written or
/// skipped, and the written and skipped counts are exactly those of some
/// batch of lines evaluated in order under this profile. On an I/O failure
/// the run aborts with `IoError` and no statistics.
pub fn process_stream<R: std::io::BufRead, W: std::io::Write>(
    mut reader: R,
    mut writer: W,
    profile: TransformProfile,
) -> (r: Result<Stats, IoError>)
    ensures
        r matches Ok(stats) ==> stats.written + stats.skipped == stats.read,
        r matches Ok(stats) ==> exists|lines: Seq<Seq<char>>|
            {
                &&& stats.read == lines.len()
                &&& stats.written == batch_written(lines, profile)
                &&& stats.skipped == lines.len() - batch_written(lines, profile)
            },
{
    let mut stats = Stats::default();
    let mut dedup = Deduplicator::new();
    let ghost mut lines: Seq<Seq<char>> = Seq::empty();
    loop
        invariant
            stats.written + stats.skipped == stats.read,
            stats.read == lines.len(),
            stats.written == batch_written(lines, profile),
            dedup@ == batch_seen(lines, profile),
        decreases usize::MAX - stats.read,
    {
        let mut line = String::new();
        let n = match read_one_line(&mut reader, &mut line) {
            Ok(n) => n,
            Err(e) => {
                return Err(e);
            },
        };
        if n == 0 {
            break ;
        }
        if stats.read == usize::MAX {
            return Err(IoError);
        }
        let content = strip_terminator(line.as_str());
        let result = transform_line(content, &profile, &mut dedup);
        proof {
            lemma_batch_step(lines, content@, profile);
            lines = lines.push(content@);
        }
        stats.read = stats.read + 1;
        match result {
            Some(out) => {
                match write_all_bytes(&mut writer, out.as_str().as_bytes()) {
                    Ok(()) => {},
                    Err(e) => {
                        return Err(e);
                    },
                }
                match write_all_bytes(&mut writer, "\n".as_bytes()) {
                    Ok(()) => {},
                    Err(e) => {
                        return Err(e);
                    },
                }
                stats.written = stats.written + 1;
            },
            None => {
                stats.skipped = stats.skipped + 1;
            },
        }
    }
    match flush_sink(&mut writer) {
        Ok(()) => {},
        Err(e) => {
            return Err(e);
        },
    }
    proof {
        assert(stats.read == lines.len() && stats.written == batch_written(lines, profile)
            && stats.skipped == lines.len() - batch_written(lines, profile));
    }
    Ok(stats)
}

} // verus!
