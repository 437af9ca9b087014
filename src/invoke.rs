//! The extractor invoker: what the tool is asked to do, and how its exit is
//! turned into raw record lines or an error.

use vstd::prelude::*;
use vstd::string::StringExecFns;
use vstd::utf8::{decode_utf8, valid_utf8};

use crate::text::utf8_text;

verus! {

broadcast use vstd::seq_lib::group_seq_properties;

/// The byte that separates records in the extractor's output.
pub const NEWLINE: u8 = 10;

/// The text reported when the extractor's error output is not valid UTF-8.
pub const NO_MESSAGE: &'static str = "<no error message>";

/// Why an extraction attempt yielded no usable records.
#[derive(Debug, PartialEq, Eq)]
pub enum ExtractionError {
    /// The named executable is not on the search path.
    ToolMissing(String),
    /// The extractor could not be run, or exited with a failure status; holds its error text.
    ToolFailed(String),
    /// A line of output is not a well-formed record; holds the decoder's message.
    DecodeFailed(String),
    /// The extractor succeeded but reported no record; holds the query text.
    NoResults(String),
    /// The stream asked for cannot be made: a synchronous stream was asked for
    /// (resolution is always asynchronous), or a descriptor that already issued
    /// its stream was asked for another.
    Unsupported,
    /// The transport could not be opened; holds the underlying failure.
    TransportFailed(String),
}

impl Clone for ExtractionError {
    fn clone(&self) -> (r: Self)
        ensures
            r == *self,
    {
        match self {
            ExtractionError::ToolMissing(s) => ExtractionError::ToolMissing(s.clone()),
            ExtractionError::ToolFailed(s) => ExtractionError::ToolFailed(s.clone()),
            ExtractionError::DecodeFailed(s) => ExtractionError::DecodeFailed(s.clone()),
            ExtractionError::NoResults(s) => ExtractionError::NoResults(s.clone()),
            ExtractionError::Unsupported => ExtractionError::Unsupported,
            ExtractionError::TransportFailed(s) => ExtractionError::TransportFailed(s.clone()),
        }
    }
}

/// The user-facing text of an error; each kind reads differently, so that a
/// content problem is told apart from an environment problem.
pub open spec fn message_text(e: ExtractionError) -> Seq<char> {
    match e {
        ExtractionError::ToolMissing(p) => "could not find executable '"@ + p@ + "' on path"@,
        ExtractionError::ToolFailed(t) => "the extractor failed: "@ + t@,
        ExtractionError::DecodeFailed(m) => "could not decode the extractor's output: "@ + m@,
        ExtractionError::NoResults(q) => "no results found for '"@ + q@ + "'"@,
        ExtractionError::Unsupported => "streams can only be created asynchronously"@,
        ExtractionError::TransportFailed(m) => "could not open the stream: "@ + m@,
    }
}

fn prefixed(head: &str, body: &String) -> (r: String)
    ensures
        r@ == head@ + body@,
{
    let mut r = String::from_str(head);
    r.append(body.as_str());
    r
}

fn joined(head: &str, body: &String, tail: &str) -> (r: String)
    ensures
        r@ == head@ + body@ + tail@,
{
    let mut r = String::from_str(head);
    r.append(body.as_str());
    r.append(tail);
    r
}

impl ExtractionError {
    /// The user-facing text of this error.
    pub fn message(&self) -> (r: String)
        ensures
            r@ == message_text(*self),
    {
        match self {
            ExtractionError::ToolMissing(p) => joined("could not find executable '", p, "' on path"),
            ExtractionError::ToolFailed(t) => prefixed("the extractor failed: ", t),
            ExtractionError::DecodeFailed(m) => prefixed("could not decode the extractor's output: ", m),
            ExtractionError::NoResults(q) => joined("no results found for '", q, "'"),
            ExtractionError::Unsupported => String::from_str("streams can only be created asynchronously"),
            ExtractionError::TransportFailed(m) => prefixed("could not open the stream: ", m),
        }
    }
}

/// How a run of the extractor ended, as seen by whoever ran it.
#[derive(Debug)]
pub enum RunOutcome {
    /// The executable was not found.
    NotFound,
    /// Spawning or waiting failed for another reason; holds the error text.
    SpawnFailed(String),
    /// The process exited; `success` tells whether its status was zero.
    Exited { success: bool, stdout: Vec<u8>, stderr: Vec<u8> },
}

/// One run of the extractor to perform: the program and its arguments.
#[derive(Debug)]
pub struct Invocation {
    pub program: String,
    pub args: Vec<String>,
    /// The query text that the arguments carry, for error reports.
    pub target: String,
}

/// The character views of a sequence of strings.
pub open spec fn texts(v: Seq<String>) -> Seq<Seq<char>> {
    v.map_values(|s: String| s@)
}

/// The byte views of a sequence of byte vectors.
pub open spec fn byte_lines(v: Seq<Vec<u8>>) -> Seq<Seq<u8>> {
    v.map_values(|l: Vec<u8>| l@)
}

/// The pieces of `s` between newline bytes, in order: `n` newlines make `n + 1`
/// pieces, some of which may be empty.
pub open spec fn pieces(s: Seq<u8>) -> Seq<Seq<u8>>
    decreases s.len(),
{
    if s.len() == 0 {
        seq![Seq::empty()]
    } else {
        let p = pieces(s.drop_last());
        if s.last() == NEWLINE {
            p.push(Seq::empty())
        } else {
            p.update(p.len() - 1, p.last().push(s.last()))
        }
    }
}

/// The non-empty pieces, in order.
pub open spec fn non_empty(p: Seq<Seq<u8>>) -> Seq<Seq<u8>> {
    p.filter(|l: Seq<u8>| l.len() > 0)
}

/// The record lines of an extractor's output: its non-empty newline-separated pieces.
pub open spec fn lines_of(s: Seq<u8>) -> Seq<Seq<u8>> {
    non_empty(pieces(s))
}

/// The text that a failed run reports: its error output, decoded.
pub open spec fn failure_text(stderr: Seq<u8>) -> Seq<char> {
    if valid_utf8(stderr) {
        decode_utf8(stderr)
    } else {
        NO_MESSAGE@
    }
}

proof fn lemma_pieces_len(s: Seq<u8>)
    ensures
        pieces(s).len() >= 1,
    decreases s.len(),
{
    if s.len() > 0 {
        lemma_pieces_len(s.drop_last());
    }
}

/// Splits the extractor's standard output into record lines, dropping empty ones.
pub fn split_lines(bytes: &Vec<u8>) -> (r: Vec<Vec<u8>>)
    ensures
        byte_lines(r@) == lines_of(bytes@),
{
    let mut out: Vec<Vec<u8>> = Vec::new();
    let mut cur: Vec<u8> = Vec::new();
    let n = bytes.len();
    proof {
        assert(bytes@.take(0) =~= Seq::<u8>::empty());
        assert(pieces(bytes@.take(0)).drop_last() =~= Seq::<Seq<u8>>::empty());
        assert(non_empty(Seq::<Seq<u8>>::empty()) =~= Seq::<Seq<u8>>::empty());
        assert(byte_lines(out@) =~= Seq::<Seq<u8>>::empty());
    }
    for i in 0..n
        invariant
            n == bytes@.len(),
            pieces(bytes@.take(i as int)).len() >= 1,
            cur@ == pieces(bytes@.take(i as int)).last(),
            byte_lines(out@) == non_empty(pieces(bytes@.take(i as int)).drop_last()),
    {
        let b = bytes[i];
        let ghost s = bytes@.take(i + 1);
        let ghost p = pieces(bytes@.take(i as int));
        proof {
            assert(s.drop_last() =~= bytes@.take(i as int));
            assert(s.last() == b);
            lemma_pieces_len(s);
        }
        if b == NEWLINE {
            proof {
                assert(p =~= p.drop_last().push(p.last()));
                p.drop_last().lemma_filter_push(p.last(), |l: Seq<u8>| l.len() > 0);
                assert(pieces(s).drop_last() =~= p);
            }
            if cur.len() > 0 {
                let ghost old_out = out@;
                out.push(cur);
                proof {
                    assert(byte_lines(out@) =~= byte_lines(old_out).push(p.last()));
                }
            }
            cur = Vec::new();
            proof {
                assert(cur@ =~= pieces(s).last());
            }
        } else {
            cur.push(b);
            proof {
                assert(pieces(s).drop_last() =~= p.drop_last());
            }
        }
    }
    let ghost p = pieces(bytes@);
    proof {
        assert(bytes@.take(n as int) =~= bytes@);
        assert(p =~= p.drop_last().push(p.last()));
        p.drop_last().lemma_filter_push(p.last(), |l: Seq<u8>| l.len() > 0);
    }
    if cur.len() > 0 {
        let ghost old_out = out@;
        out.push(cur);
        proof {
            assert(byte_lines(out@) =~= byte_lines(old_out).push(p.last()));
        }
    }
    out
}

/// Turns how a run ended into its record lines: a missing executable, a run
/// that could not complete and a failure status are errors; a successful run
/// yields the non-empty lines of its standard output.
pub fn output_lines(program: &str, outcome: RunOutcome) -> (r: Result<Vec<Vec<u8>>, ExtractionError>)
    ensures
        match outcome {
            RunOutcome::NotFound => r matches Err(ExtractionError::ToolMissing(p)) && p@ == program@,
            RunOutcome::SpawnFailed(t) => r == Err::<Vec<Vec<u8>>, _>(ExtractionError::ToolFailed(t)),
            RunOutcome::Exited { success, stdout, stderr } => if success {
                r matches Ok(lines) && byte_lines(lines@) == lines_of(stdout@)
            } else {
                r matches Err(ExtractionError::ToolFailed(t)) && t@ == failure_text(stderr@)
            },
        },
{
    match outcome {
        RunOutcome::NotFound => Err(ExtractionError::ToolMissing(String::from_str(program))),
        RunOutcome::SpawnFailed(t) => Err(ExtractionError::ToolFailed(t)),
        RunOutcome::Exited { success, stdout, stderr } => {
            if success {
                Ok(split_lines(&stdout))
            } else {
                match utf8_text(stderr.as_slice()) {
                    Some(t) => Err(ExtractionError::ToolFailed(t)),
                    None => Err(ExtractionError::ToolFailed(String::from_str(NO_MESSAGE))),
                }
            }
        },
    }
}

} // verus!
