//! The version line of an external media tool, read from what a run of the
//! tool with its version flag produced.

use vstd::prelude::*;
use vstd::std_specs::iter::IteratorSpec;
use vstd::string::*;
use vstd::utf8::*;
use crate::error::{ErrorModel, HelperError};

verus! {

/// The single argument that asks the tool for its version.
pub const VERSION_FLAG: &'static str = "-version";

/// The text reported when the tool printed nothing.
pub const UNKNOWN_VERSION: &'static str = "Unknown version";

/// What became of one run of the tool.
#[derive(Debug, PartialEq, Eq)]
pub enum CommandOutcome {
    /// The process could not be started; the operating system's description
    /// of the reason.
    NotLaunched(String),
    /// The process ran to its end: whether its exit status was zero, and the
    /// bytes it wrote to standard output.
    Exited { success: bool, stdout: Vec<u8> },
}

/// A `CommandOutcome` as a mathematical value.
pub enum OutcomeModel {
    NotLaunched(Seq<char>),
    Exited { success: bool, stdout: Seq<u8> },
}

impl View for CommandOutcome {
    type V = OutcomeModel;

    open spec fn view(&self) -> OutcomeModel {
        match self {
            CommandOutcome::NotLaunched(description) => OutcomeModel::NotLaunched(description@),
            CommandOutcome::Exited { success, stdout } => OutcomeModel::Exited {
                success: *success,
                stdout: stdout@,
            },
        }
    }
}

/// The text that lossy UTF-8 decoding makes of a byte sequence: well-formed
/// parts decoded, each malformed part replaced by U+FFFD.
pub uninterp spec fn utf8_lossy(bytes: Seq<u8>) -> Seq<char>;

/// Calls `String::from_utf8_lossy` and takes ownership of what it returns.
///
/// Trusted: the result depends on the bytes alone, and bytes that are valid
/// UTF-8 decode to exactly the characters they encode.
#[verifier::external_body]
fn decode_lossy(bytes: &[u8]) -> (text: String)
    ensures
        text@ == utf8_lossy(bytes@),
        valid_utf8(bytes@) ==> text@ == decode_utf8(bytes@),
{
    String::from_utf8_lossy(bytes).into_owned()
}

/// `end` is where the first line of `text` stops: the index of the first line
/// feed, or the length of `text` where it holds none.
pub open spec fn is_first_line_end(text: Seq<char>, end: int) -> bool {
    &&& 0 <= end <= text.len()
    &&& forall|i: int| 0 <= i < end ==> text[i] != '\n'
    &&& end < text.len() ==> text[end] == '\n'
}

/// Where the first line of `text` stops.
pub open spec fn first_line_end(text: Seq<char>) -> int {
    choose|end: int| is_first_line_end(text, end)
}

/// The first line of `text`, without its line ending. A line ends at a line
/// feed; a carriage return directly before that line feed belongs to the
/// ending. Empty text has no first line.
pub open spec fn spec_first_line(text: Seq<char>) -> Option<Seq<char>> {
    if text.len() == 0 {
        None
    } else {
        let end = first_line_end(text);
        if 0 < end < text.len() && text[end - 1] == '\r' {
            Some(text.subrange(0, end - 1))
        } else {
            Some(text.subrange(0, end))
        }
    }
}

/// The version line of the tool's output: its first line, or the fallback
/// text where there is none.
pub open spec fn spec_version_line(text: Seq<char>) -> Seq<char> {
    match spec_first_line(text) {
        Some(line) => line,
        None => UNKNOWN_VERSION@,
    }
}

/// What a run of the tool reports: its version line, or why there is none.
pub open spec fn reported_version(outcome: OutcomeModel) -> Result<Seq<char>, ErrorModel> {
    match outcome {
        OutcomeModel::NotLaunched(description) => Err(ErrorModel::LaunchFailure(description)),
        OutcomeModel::Exited { success, stdout } => if success {
            Ok(spec_version_line(utf8_lossy(stdout)))
        } else {
            Err(ErrorModel::ExecutionFailure)
        },
    }
}

/// No text has two places where its first line stops: an index that is one
/// is the one that `first_line_end` names.
pub proof fn lemma_first_line_end_unique(text: Seq<char>, end: int)
    requires
        is_first_line_end(text, end),
    ensures
        first_line_end(text) == end,
{
    let chosen = first_line_end(text);
    assert(is_first_line_end(text, chosen));
    if chosen < end {
        assert(text[chosen] == '\n');
    } else if end < chosen {
        assert(text[end] == '\n');
    }
}

/// Finds where the first line of `text` stops, counted in characters; `n` is
/// the number of characters in `text`.
fn scan_first_line(text: &str, n: usize) -> (end: usize)
    requires
        n == text@.len(),
    ensures
        end as int == first_line_end(text@),
        is_first_line_end(text@, end as int),
{
    broadcast use group_string_axioms;

    let mut end: usize = 0;
    let mut chars = text.chars();
    loop
        invariant_except_break
            chars.remaining() == text@.skip(end as int),
        invariant
            n == text@.len(),
            end <= n,
            forall|i: int| 0 <= i < end ==> text@[i] != '\n',
        ensures
            is_first_line_end(text@, end as int),
        decreases n - end,
    {
        match chars.next() {
            None => {
                break ;
            },
            Some(c) => {
                if c == '\n' {
                    break ;
                }
                end = end + 1;
            },
        }
    }
    proof {
        lemma_first_line_end_unique(text@, end as int);
    }
    end
}

/// The first line of `text` without its line ending, or `None` for empty text.
pub fn first_line(text: &str) -> (line: Option<String>)
    ensures
        match line {
            Some(found) => spec_first_line(text@) == Some(found@),
            None => spec_first_line(text@) is None,
        },
{
    let n = text.unicode_len();
    if n == 0 {
        return None;
    }
    let end = scan_first_line(text, n);
    if 0 < end && end < n && text.get_char(end - 1) == '\r' {
        Some(String::from_str(text.substring_char(0, end - 1)))
    } else {
        Some(String::from_str(text.substring_char(0, end)))
    }
}

/// The version line of the tool's decoded output: its first line, or
/// "Unknown version" where the output is empty.
pub fn version_line(text: &str) -> (line: String)
    ensures
        line@ == spec_version_line(text@),
{
    match first_line(text) {
        Some(found) => found,
        None => String::from_str(UNKNOWN_VERSION),
    }
}

/// Reports the tool's version from the outcome of running it with
/// `VERSION_FLAG`.
///
/// A run that could not start is a launch failure, with the operating
/// system's description. A run that ended with a status other than zero is an
/// execution failure, whatever it printed. Otherwise the result is the version
/// line of the output, decoded as UTF-8 with malformed parts replaced: of
/// well-formed output its first line as it stands, of empty output the
/// fallback text.
pub fn get_ffmpeg_version(outcome: CommandOutcome) -> (version: Result<String, HelperError>)
    ensures
        match version {
            Ok(line) => reported_version(outcome@) == Ok::<Seq<char>, ErrorModel>(line@),
            Err(error) => reported_version(outcome@) == Err::<Seq<char>, ErrorModel>(error@),
        },
        outcome@ matches OutcomeModel::Exited { success: true, stdout } ==> (valid_utf8(stdout)
            ==> (version matches Ok(line) && line@ == spec_version_line(decode_utf8(stdout)))),
        outcome@ matches OutcomeModel::Exited { success: true, stdout } ==> (stdout.len() == 0
            ==> (version matches Ok(line) && line@ == UNKNOWN_VERSION@)),
{
    match outcome {
        CommandOutcome::NotLaunched(description) => Err(HelperError::LaunchFailure(description)),
        CommandOutcome::Exited { success, stdout } => {
            if !success {
                Err(HelperError::ExecutionFailure)
            } else {
                let text = decode_lossy(stdout.as_slice());
                Ok(version_line(text.as_str()))
            }
        },
    }
}

/// Text that begins with a line, a line feed after it, has that line as its
/// first line, whatever follows. A carriage return at the end of the line
/// would belong to the line ending, so the line here has none.
pub proof fn lemma_first_line_before_line_feed(line: Seq<char>, rest: Seq<char>)
    requires
        !line.contains('\n'),
        line.len() > 0 ==> line.last() != '\r',
    ensures
        spec_first_line(line + seq!['\n'] + rest) == Some(line),
        spec_first_line(line + seq!['\r', '\n'] + rest) == Some(line),
        spec_version_line(line + seq!['\n'] + rest) == line,
{
    let text = line + seq!['\n'] + rest;
    assert forall|i: int| 0 <= i < line.len() implies text[i] != '\n' by {
        assert(line.contains(line[i]));
    }
    lemma_first_line_end_unique(text, line.len() as int);
    assert(text.subrange(0, line.len() as int) == line);

    let crlf = line + seq!['\r', '\n'] + rest;
    assert forall|i: int| 0 <= i < line.len() + 1 implies crlf[i] != '\n' by {
        if i < line.len() {
            assert(line.contains(line[i]));
        }
    }
    lemma_first_line_end_unique(crlf, line.len() as int + 1);
    assert(crlf.subrange(0, line.len() as int) == line);
}

/// Text without a line feed is its own first line, unless it is empty: then it
/// has no first line, and the version line is the fallback text.
pub proof fn lemma_first_line_without_line_feed(text: Seq<char>)
    requires
        !text.contains('\n'),
    ensures
        text.len() > 0 ==> spec_first_line(text) == Some(text),
        text.len() == 0 ==> spec_first_line(text) is None && spec_version_line(text)
            == UNKNOWN_VERSION@,
{
    assert forall|i: int| 0 <= i < text.len() implies text[i] != '\n' by {
        assert(text.contains(text[i]));
    }
    lemma_first_line_end_unique(text, text.len() as int);
    assert(text.subrange(0, text.len() as int) == text);
}

/// A run that could not start is reported as a launch failure and never as a
/// version; a run that ended with a status other than zero is reported as an
/// execution failure, whatever it printed.
pub proof fn lemma_failed_runs_report_errors(description: Seq<char>, stdout: Seq<u8>)
    ensures
        reported_version(OutcomeModel::NotLaunched(description)) == Err::<Seq<char>, ErrorModel>(
            ErrorModel::LaunchFailure(description),
        ),
        reported_version(OutcomeModel::Exited { success: false, stdout }) == Err::<
            Seq<char>,
            ErrorModel,
        >(ErrorModel::ExecutionFailure),
{
}

} // verus!
