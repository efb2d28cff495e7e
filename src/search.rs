//! The search tool's side: which command runs, how its exit is read, and how
//! its JSON record stream becomes a list of matches.
use vstd::prelude::*;
use vstd::string::StringSliceAdditionalSpecFns;
use vstd::utf8::valid_utf8;
use crate::json::{
    decode_value, get_field, get_text, get_unsigned, is_text, json_field, json_parse, json_text,
    json_unsigned,
};
use crate::text::utf8_text;

verus! {

/// The program that performs the search.
pub const SEARCH_COMMAND: &'static str = "rg";

/// The flag that asks the search program for JSON records.
pub const JSON_FLAG: &'static str = "--json";

/// The byte that ends a record of the stream.
pub const NEWLINE: u8 = 10;

/// One hit of the search: a file and a 1-based line in it.
#[derive(Debug, Clone, PartialEq, Eq)]
pub struct Match {
    pub file: String,
    pub line_number: u16,
}

impl View for Match {
    type V = (Seq<char>, u16);

    open spec fn view(&self) -> (Seq<char>, u16) {
        (self.file@, self.line_number)
    }
}

/// Why a record stream could not be read.
pub enum LineFail {
    /// A non-empty line holds no JSON document.
    BadJson,
    /// A match record lacks the named field, or holds a value of the wrong
    /// kind there.
    Missing(Seq<char>),
}

/// The pieces of `b` between newline bytes, scanning from position `i` with
/// the current piece starting at `start`.
pub open spec fn pieces(b: Seq<u8>, start: int, i: int) -> Seq<Seq<u8>>
    decreases b.len() - i,
{
    if i >= b.len() {
        seq![b.subrange(start, b.len() as int)]
    } else if b[i] == NEWLINE {
        seq![b.subrange(start, i)] + pieces(b, i + 1, i + 1)
    } else {
        pieces(b, start, i + 1)
    }
}

/// The lines of a stream: the pieces between newline bytes, the last one
/// included (it is empty when the stream ends with a newline).
pub open spec fn lines_of(b: Seq<u8>) -> Seq<Seq<u8>> {
    pieces(b, 0, 0)
}

/// The member reached from `v` through `key`, where `v` is there at all.
pub open spec fn member(v: Option<serde_json::Value>, key: Seq<char>) -> Option<
    serde_json::Value,
> {
    match v {
        Some(x) => json_field(x, key),
        None => None,
    }
}

/// The record's `type` field is the string `match`.
pub open spec fn is_match_record(v: serde_json::Value) -> bool {
    match json_field(v, "type"@) {
        Some(t) => json_text(t) == Some("match"@),
        None => false,
    }
}

/// The text at `data.path.text`.
pub open spec fn path_of(v: serde_json::Value) -> Option<Seq<char>> {
    match member(member(Some(v), "data"@), "path"@) {
        Some(p) => match json_field(p, "text"@) {
            Some(t) => json_text(t),
            None => None,
        },
        None => None,
    }
}

/// The non-negative integer at `data.line_number`.
pub open spec fn line_number_of(v: serde_json::Value) -> Option<u64> {
    match member(Some(v), "data"@) {
        Some(d) => match json_field(d, "line_number"@) {
            Some(n) => json_unsigned(n),
            None => None,
        },
        None => None,
    }
}

/// What one decoded record contributes: nothing for a record of another
/// kind, a match for a complete match record.
pub open spec fn record_outcome(v: serde_json::Value) -> Result<Option<(Seq<char>, u16)>, LineFail> {
    if !is_match_record(v) {
        Ok(None)
    } else {
        match path_of(v) {
            None => Err(LineFail::Missing("data.path.text"@)),
            Some(p) => match line_number_of(v) {
                Some(n) => if 1 <= n && n <= u16::MAX {
                    Ok(Some((p, n as u16)))
                } else {
                    Err(LineFail::Missing("data.line_number"@))
                },
                None => Err(LineFail::Missing("data.line_number"@)),
            },
        }
    }
}

/// What one line contributes; an empty line contributes nothing.
pub open spec fn line_outcome(line: Seq<u8>) -> Result<Option<(Seq<char>, u16)>, LineFail> {
    if line.len() == 0 {
        Ok(None)
    } else {
        match json_parse(line) {
            None => Err(LineFail::BadJson),
            Some(v) => record_outcome(v),
        }
    }
}

/// `rest` with the matches of `found` put in front, or its failure.
pub open spec fn after(found: Seq<(Seq<char>, u16)>, rest: Result<Seq<(Seq<char>, u16)>, LineFail>) -> Result<
    Seq<(Seq<char>, u16)>,
    LineFail,
> {
    match rest {
        Ok(ms) => Ok(found + ms),
        Err(e) => Err(e),
    }
}

/// The matches of the lines in order, or the failure of the first line that
/// fails.
pub open spec fn parse_lines(ls: Seq<Seq<u8>>) -> Result<Seq<(Seq<char>, u16)>, LineFail>
    decreases ls.len(),
{
    if ls.len() == 0 {
        Ok(Seq::empty())
    } else {
        match line_outcome(ls[0]) {
            Err(e) => Err(e),
            Ok(None) => parse_lines(ls.drop_first()),
            Ok(Some(m)) => after(seq![m], parse_lines(ls.drop_first())),
        }
    }
}

/// The matches of a whole record stream.
pub open spec fn parse_stream(b: Seq<u8>) -> Result<Seq<(Seq<char>, u16)>, LineFail> {
    parse_lines(lines_of(b))
}

/// Why the search came to nothing usable.
#[derive(Debug)]
#[allow(inconsistent_fields)]
pub enum SearchError {
    /// The search program could not be started at all.
    CommandError { command: String, reason: String },
    /// The search program ran and exited with a code that means failure.
    CommandResultError { command: String, args: Vec<String>, stdout: Vec<u8>, stderr: Vec<u8> },
    /// The program's output is not UTF-8 text.
    NonUtf8Results { source: std::str::Utf8Error },
    /// A line of the output holds no JSON document.
    ResultsParseError { source: serde_json::Error },
    /// A match record lacks a required field, or holds a value of the wrong
    /// kind in it.
    MissingField { field: String },
}

/// `e` is the error that stands for the stream failure `f`.
pub open spec fn fail_agrees(e: SearchError, f: LineFail) -> bool {
    match f {
        LineFail::BadJson => e is ResultsParseError,
        LineFail::Missing(name) => match e {
            SearchError::MissingField { field } => field@ == name,
            _ => false,
        },
    }
}

/// `r` is what the model `m` of one record or line says.
pub open spec fn outcome_agrees(
    r: Result<Option<Match>, SearchError>,
    m: Result<Option<(Seq<char>, u16)>, LineFail>,
) -> bool {
    match m {
        Ok(None) => r == Ok::<Option<Match>, SearchError>(None),
        Ok(Some(x)) => r is Ok && r->Ok_0 is Some && r->Ok_0->Some_0@ == x,
        Err(f) => r is Err && fail_agrees(r->Err_0, f),
    }
}

/// The views of a list of matches.
pub open spec fn views(v: Seq<Match>) -> Seq<(Seq<char>, u16)> {
    v.map_values(|m: Match| m@)
}

/// `r` is what the model `m` of a whole stream says.
pub open spec fn stream_agrees(r: Result<Vec<Match>, SearchError>, m: Result<Seq<(Seq<char>, u16)>, LineFail>) -> bool {
    match m {
        Ok(ms) => r is Ok && views(r->Ok_0@) == ms,
        Err(f) => r is Err && fail_agrees(r->Err_0, f),
    }
}

/// Reads one decoded record: a match record gives its match, a record of
/// another kind gives nothing.
pub fn parse_record(v: &serde_json::Value) -> (r: Result<Option<Match>, SearchError>)
    ensures
        outcome_agrees(r, record_outcome(*v)),
{
    let is_match = match get_field(v, "type") {
        Some(t) => is_text(t, "match"),
        None => false,
    };
    if !is_match {
        return Ok(None);
    }
    let data = get_field(v, "data");
    let path = match data {
        Some(d) => get_field(d, "path"),
        None => None,
    };
    let text = match path {
        Some(p) => match get_field(p, "text") {
            Some(t) => get_text(t),
            None => None,
        },
        None => None,
    };
    let file = match text {
        Some(t) => t.to_owned(),
        None => {
            return Err(SearchError::MissingField { field: "data.path.text".to_owned() });
        },
    };
    let number = match data {
        Some(d) => match get_field(d, "line_number") {
            Some(n) => get_unsigned(n),
            None => None,
        },
        None => None,
    };
    match number {
        Some(n) => {
            if 1 <= n && n <= u16::MAX as u64 {
                Ok(Some(Match { file, line_number: n as u16 }))
            } else {
                Err(SearchError::MissingField { field: "data.line_number".to_owned() })
            }
        },
        None => Err(SearchError::MissingField { field: "data.line_number".to_owned() }),
    }
}

/// Reads one line of the stream; an empty line gives nothing.
pub fn parse_line(line: &[u8]) -> (r: Result<Option<Match>, SearchError>)
    ensures
        outcome_agrees(r, line_outcome(line@)),
{
    if line.len() == 0 {
        return Ok(None);
    }
    match decode_value(line) {
        Ok(v) => parse_record(&v),
        Err(e) => Err(SearchError::ResultsParseError { source: e }),
    }
}

/// Unfolds the pieces at a newline: the line that ends there, then the rest.
proof fn lemma_pieces_newline(b: Seq<u8>, start: int, i: int)
    requires
        0 <= i < b.len(),
        b[i] == NEWLINE,
    ensures
        pieces(b, start, i) == seq![b.subrange(start, i)] + pieces(b, i + 1, i + 1),
{
}

/// Unfolds the lines in front of a list: the first line's outcome, then the
/// rest.
proof fn lemma_parse_front(
    acc: Seq<(Seq<char>, u16)>,
    line: Seq<u8>,
    rest: Seq<Seq<u8>>,
)
    requires
        line_outcome(line) is Ok,
    ensures
        after(acc, parse_lines(seq![line] + rest)) == match line_outcome(line) {
            Ok(Some(m)) => after(acc.push(m), parse_lines(rest)),
            _ => after(acc, parse_lines(rest)),
        },
{
    let ls = seq![line] + rest;
    assert(ls[0] == line);
    assert(ls.drop_first() =~= rest);
    match line_outcome(line) {
        Ok(Some(m)) => {
            match parse_lines(rest) {
                Ok(ms) => {
                    assert(acc + (seq![m] + ms) =~= acc.push(m) + ms);
                },
                Err(_) => {},
            }
        },
        _ => {},
    }
}

/// Reads a whole record stream: the matches of its match records, in order.
/// Empty lines and records of other kinds give nothing; the first line that
/// is no JSON document, or a match record that lacks a field, ends it with an
/// error.
pub fn parse_results(unparsed: &str) -> (r: Result<Vec<Match>, SearchError>)
    ensures
        stream_agrees(r, parse_stream(unparsed.spec_bytes())),
{
    let b = unparsed.as_bytes();
    let mut matches: Vec<Match> = Vec::new();
    let mut start: usize = 0;
    let mut i: usize = 0;
    while i < b.len()
        invariant
            start <= i <= b@.len(),
            b@ == unparsed.spec_bytes(),
            parse_stream(b@) == after(views(matches@), parse_lines(pieces(b@, start as int, i as int))),
        decreases b@.len() - i,
    {
        if b[i] == NEWLINE {
            let line = &b[start..i];
            proof {
                lemma_pieces_newline(b@, start as int, i as int);
                assert(line@ == b@.subrange(start as int, i as int));
            }
            let got = parse_line(line);
            match got {
                Err(e) => {
                    return Err(e);
                },
                Ok(found) => {
                    proof {
                        lemma_parse_front(views(matches@), line@, pieces(b@, i + 1, i + 1));
                    }
                    match found {
                        Some(m) => {
                            let ghost before = matches@;
                            matches.push(m);
                            proof {
                                assert(views(matches@) =~= views(before).push(m@));
                            }
                        },
                        None => {},
                    }
                },
            }
            start = i + 1;
        }
        i = i + 1;
    }
    let line = &b[start..b.len()];
    proof {
        assert(pieces(b@, start as int, i as int) == seq![line@] + Seq::<Seq<u8>>::empty());
    }
    let got = parse_line(line);
    match got {
        Err(e) => Err(e),
        Ok(found) => {
            proof {
                lemma_parse_front(views(matches@), line@, Seq::empty());
            }
            match found {
                Some(m) => {
                    let ghost before = matches@;
                    matches.push(m);
                    proof {
                        assert(views(matches@) =~= views(before).push(m@));
                        assert(views(matches@) + Seq::empty() =~= views(matches@));
                    }
                },
                None => {
                    proof {
                        assert(views(matches@) + Seq::empty() =~= views(matches@));
                    }
                },
            }
            Ok(matches)
        },
    }
}

/// How the search program's run ended.
pub enum Outcome {
    /// It could not be started; `reason` says why.
    NotStarted { reason: String },
    /// It ran and exited with `code` (`None` when a signal ended it), having
    /// written `stdout` and `stderr`.
    Exited { code: Option<i32>, stdout: Vec<u8>, stderr: Vec<u8> },
}

/// What an exit code of the search program means.
#[derive(Debug, Clone, Copy, PartialEq, Eq, Structural)]
pub enum ExitClass {
    /// It ran and found matches: its output is the record stream.
    Success,
    /// It ran and found nothing.
    EmptySuccess,
    /// It failed.
    Failure,
}

/// `0` is success, `1` is a search that found nothing, anything else
/// (and no code at all) is failure.
pub open spec fn exit_class(code: Option<i32>) -> ExitClass {
    match code {
        Some(0) => ExitClass::Success,
        Some(1) => ExitClass::EmptySuccess,
        _ => ExitClass::Failure,
    }
}

/// Reads an exit code of the search program.
pub fn classify_exit(code: Option<i32>) -> (r: ExitClass)
    ensures
        r == exit_class(code),
{
    match code {
        Some(0) => ExitClass::Success,
        Some(1) => ExitClass::EmptySuccess,
        _ => ExitClass::Failure,
    }
}

/// `args` is `user` with the JSON flag put after it.
pub open spec fn with_json_flag(args: Seq<String>, user: Seq<String>) -> bool {
    &&& args.len() == user.len() + 1
    &&& args.drop_last() == user
    &&& args.last()@ == JSON_FLAG@
}

/// The arguments the search program runs with: the caller's, unchanged, then
/// the JSON flag.
pub fn search_args(grep_args: Vec<String>) -> (r: Vec<String>)
    ensures
        with_json_flag(r@, grep_args@),
{
    let mut args = grep_args;
    args.push(JSON_FLAG.to_owned());
    assert(args@.drop_last() =~= grep_args@);
    args
}

/// Turns a run of the search program into its matches: the records of its
/// output when it exits with 0, none when it exits with 1, and an error that
/// carries the command, its arguments and both outputs for any other exit.
pub fn run_rg(grep_args: Vec<String>, outcome: Outcome) -> (r: Result<Vec<Match>, SearchError>)
    ensures
        match outcome {
            Outcome::NotStarted { reason } => match r {
                Err(SearchError::CommandError { command, reason: why }) => command@
                    == SEARCH_COMMAND@ && why == reason,
                _ => false,
            },
            Outcome::Exited { code, stdout, stderr } => match exit_class(code) {
                ExitClass::EmptySuccess => r is Ok && r->Ok_0@.len() == 0,
                ExitClass::Failure => match r {
                    Err(SearchError::CommandResultError { command, args, stdout: out, stderr: err }) => {
                        &&& command@ == SEARCH_COMMAND@
                        &&& with_json_flag(args@, grep_args@)
                        &&& out == stdout
                        &&& err == stderr
                    },
                    _ => false,
                },
                ExitClass::Success => if valid_utf8(stdout@) {
                    stream_agrees(r, parse_stream(stdout@))
                } else {
                    r is Err && r->Err_0 is NonUtf8Results
                },
            },
        },
{
    match outcome {
        Outcome::NotStarted { reason } => {
            Err(SearchError::CommandError { command: SEARCH_COMMAND.to_owned(), reason })
        },
        Outcome::Exited { code, stdout, stderr } => match classify_exit(code) {
            ExitClass::EmptySuccess => Ok(Vec::new()),
            ExitClass::Failure => Err(
                SearchError::CommandResultError {
                    command: SEARCH_COMMAND.to_owned(),
                    args: search_args(grep_args),
                    stdout,
                    stderr,
                },
            ),
            ExitClass::Success => match utf8_text(stdout.as_slice()) {
                Ok(text) => parse_results(text),
                Err(e) => Err(SearchError::NonUtf8Results { source: e }),
            },
        },
    }
}

/// How many of the lines are not empty.
pub open spec fn count_nonempty(ls: Seq<Seq<u8>>) -> nat
    decreases ls.len(),
{
    if ls.len() == 0 {
        0
    } else {
        (if ls[0].len() > 0 {
            1nat
        } else {
            0nat
        }) + count_nonempty(ls.drop_first())
    }
}

/// Line `j` of `ls` is a non-empty match record whose match is `m`.
pub open spec fn match_line(ls: Seq<Seq<u8>>, j: int, m: (Seq<char>, u16)) -> bool {
    &&& 0 <= j < ls.len()
    &&& ls[j].len() > 0
    &&& match json_parse(ls[j]) {
        Some(v) => is_match_record(v) && record_outcome(v) == Ok::<
            Option<(Seq<char>, u16)>,
            LineFail,
        >(Some(m)),
        None => false,
    }
}

/// Some line of `ls` is a non-empty match record whose match is `m`.
pub open spec fn from_match_line(ls: Seq<Seq<u8>>, m: (Seq<char>, u16)) -> bool {
    exists|j: int| #[trigger] match_line(ls, j, m)
}

/// A successful parse of a list of lines gives at most one match per
/// non-empty line, and each match comes from a line whose record is of the
/// match kind.
pub proof fn lemma_parse_lines_sources(ls: Seq<Seq<u8>>)
    ensures
        parse_lines(ls) is Ok ==> {
            let ms = parse_lines(ls)->Ok_0;
            &&& ms.len() <= count_nonempty(ls)
            &&& forall|k: int| 0 <= k < ms.len() ==> #[trigger] from_match_line(ls, ms[k])
        },
    decreases ls.len(),
{
    if ls.len() > 0 && parse_lines(ls) is Ok {
        let rest = ls.drop_first();
        lemma_parse_lines_sources(rest);
        let ms = parse_lines(ls)->Ok_0;
        let rs = parse_lines(rest)->Ok_0;
        assert forall|k: int| 0 <= k < rs.len() implies #[trigger] from_match_line(ls, rs[k]) by {
            assert(from_match_line(rest, rs[k]));
            let j = choose|j: int| #[trigger] match_line(rest, j, rs[k]);
            assert(ls[j + 1] == rest[j]);
            assert(match_line(ls, j + 1, rs[k]));
        }
        match line_outcome(ls[0]) {
            Ok(Some(m)) => {
                assert(ms == seq![m] + rs);
                assert(match_line(ls, 0, m));
                assert forall|k: int| 0 <= k < ms.len() implies #[trigger] from_match_line(ls, ms[k]) by {
                    if k == 0 {
                        assert(match_line(ls, 0, ms[k]));
                    } else {
                        assert(ms[k] == rs[k - 1]);
                        assert(from_match_line(ls, rs[k - 1]));
                    }
                }
            },
            _ => {
                assert(ms == rs);
            },
        }
    }
}

/// Parsing a record stream gives at most one match per non-empty line, and
/// every match comes from a line whose `type` is `match`.
pub proof fn lemma_parse_stream_sources(b: Seq<u8>)
    ensures
        parse_stream(b) is Ok ==> {
            let ms = parse_stream(b)->Ok_0;
            &&& ms.len() <= count_nonempty(lines_of(b))
            &&& forall|k: int| 0 <= k < ms.len() ==> #[trigger] from_match_line(lines_of(b), ms[k])
        },
{
    lemma_parse_lines_sources(lines_of(b));
}

} // verus!
