//! Classification of the archival command's structured log stream, used by
//! the lightweight repository-reachability check: which log lines matter,
//! which error wins, and how the exit status is folded in.
//!
//! Each log line is one JSON document. The JSON text is parsed by an
//! outside library behind one trusted item whose result is named, so the
//! outcome of a whole stream is a stated function of its bytes; everything
//! the lines' shape and priority rules decide is verified here.

use vstd::prelude::*;
use vstd::string::*;
use vstd::slice::*;
use crate::backup::{push_dec_i32, push_dec_u64, push_oct_u64, int_chars, dec_digits, oct_digits, CommandPlan, TermStatus};

verus! {

/// The possible errors from checking a repository.
#[derive(Debug, PartialEq, Eq)]
pub enum Error {
    /// A passphrase is needed and was not provided, or the provided
    /// passphrase was incorrect.
    Passphrase,
    /// The archival command reported another error regarding the
    /// repository, with its message.
    Repository(String),
    /// There was an error spawning or communicating with the archival
    /// command.
    Spawn(i32),
    /// The archival command produced a line of output that is not valid
    /// JSON or not a well-formed log message.
    Json,
    /// The archival command terminated with exit code 2 but did not print
    /// an error message.
    ErrorStatusWithoutMessage,
    /// The archival command terminated with an undocumented exit code.
    UnknownExitCode(i32),
    /// The archival command terminated due to a fatal signal.
    Signal(i32),
    /// The archival command terminated for an unknown reason.
    Unknown,
}

/// The description of a check error; a repository error carries its own
/// message.
pub open spec fn spec_check_message(e: Error) -> Seq<char> {
    match e {
        Error::Passphrase => "incorrect passphrase"@,
        Error::Repository(m) => m@,
        Error::Spawn(_) => "failed to spawn Borg executable"@,
        Error::Json => "Borg output is invalid JSON"@,
        Error::ErrorStatusWithoutMessage =>
            "borg returned exit code 2 (error) without an error message"@,
        Error::UnknownExitCode(code) => "borg returned unknown exit code "@ + int_chars(
            code as int,
        ),
        Error::Signal(signal) => "borg terminated due to signal "@ + int_chars(signal as int),
        Error::Unknown => "borg terminated due to unknown reason"@,
    }
}

impl Error {
    /// A description of the error.
    pub fn message(&self) -> (r: String)
        ensures
            r@ == spec_check_message(*self),
    {
        match self {
            Error::Passphrase => String::from_str("incorrect passphrase"),
            Error::Repository(m) => m.clone(),
            Error::Spawn(_) => String::from_str("failed to spawn Borg executable"),
            Error::Json => String::from_str("Borg output is invalid JSON"),
            Error::ErrorStatusWithoutMessage => String::from_str(
                "borg returned exit code 2 (error) without an error message",
            ),
            Error::UnknownExitCode(code) => {
                let mut s = String::from_str("borg returned unknown exit code ");
                push_dec_i32(&mut s, *code);
                s
            },
            Error::Signal(signal) => {
                let mut s = String::from_str("borg terminated due to signal ");
                push_dec_i32(&mut s, *signal);
                s
            },
            Error::Unknown => String::from_str("borg terminated due to unknown reason"),
        }
    }
}

/// Whether two strings have the same characters.
pub fn str_eq(a: &str, b: &str) -> (r: bool)
    ensures
        r == (a@ == b@),
{
    let na = a.unicode_len();
    let nb = b.unicode_len();
    if na != nb {
        return false;
    }
    let mut i: usize = 0;
    while i < na
        invariant
            na == a@.len(),
            nb == b@.len(),
            na == nb,
            i <= na,
            forall|j: int| 0 <= j < i ==> a@[j] == b@[j],
        decreases na - i,
    {
        if a.get_char(i) != b.get_char(i) {
            return false;
        }
        i = i + 1;
    }
    proof {
        assert(a@ =~= b@);
    }
    true
}

/// What a named field of a JSON log line holds.
#[derive(Debug, PartialEq, Eq)]
pub enum JsonField {
    /// The line is not an object, or the key is not present.
    Absent,
    /// The field holds this string.
    Text(String),
    /// The field holds JSON `null`.
    Null,
    /// The field holds a value of any other type.
    Other,
}

#[verifier::external_type_specification]
#[verifier::external_body]
pub struct ExJsonValue(serde_json::Value);

/// The `type`, `levelname`, `message` and `msgid` fields of one log line,
/// or nothing when the line is not one well-formed JSON document. Both the
/// JSON grammar and a lookup under a fixed key are functions of the line's
/// bytes alone, so the whole reading is.
pub uninterp spec fn line_fields_of(line: Seq<u8>) -> Option<
    (JsonField, JsonField, JsonField, JsonField),
>;

/// Relies on `serde_json::Value::get` with a string index: the value under
/// `key` when the line is an object with that key, absent otherwise. The
/// match only tells the value's variants apart; this is the conversion
/// step of [`read_line_fields`], which is its only caller.
#[verifier::external_body]
fn json_field(v: &serde_json::Value, key: &str) -> (r: JsonField) {
    match v.get(key) {
        None => JsonField::Absent,
        Some(serde_json::Value::String(s)) => JsonField::Text(s.clone()),
        Some(serde_json::Value::Null) => JsonField::Null,
        Some(_) => JsonField::Other,
    }
}

/// Relies on `serde_json::from_slice` for `serde_json::Value`, which
/// returns an error, and never panics, unless the bytes are one
/// well-formed JSON document; the four field reads are [`json_field`].
#[verifier::external_body]
fn read_line_fields(line: &[u8]) -> (r: Option<(JsonField, JsonField, JsonField, JsonField)>)
    ensures
        r == line_fields_of(line@),
{
    let v: serde_json::Value = match serde_json::from_slice(line) {
        Ok(v) => v,
        Err(_) => return None,
    };
    Some((
        json_field(&v, "type"),
        json_field(&v, "levelname"),
        json_field(&v, "message"),
        json_field(&v, "msgid"),
    ))
}

/// A severity level of a log event. An unrecognized level name is ranked
/// above every known one.
#[derive(Clone, Copy, Debug, PartialEq, Eq, Structural)]
pub enum LogLevel {
    Debug,
    Info,
    Warning,
    Error,
    Critical,
    Unknown,
}

/// The rank of a severity level.
pub open spec fn severity(l: LogLevel) -> int {
    match l {
        LogLevel::Debug => 0,
        LogLevel::Info => 1,
        LogLevel::Warning => 2,
        LogLevel::Error => 3,
        LogLevel::Critical => 4,
        LogLevel::Unknown => 5,
    }
}

/// The level a level name denotes.
pub open spec fn spec_level_of(s: Seq<char>) -> LogLevel {
    if s == "DEBUG"@ {
        LogLevel::Debug
    } else if s == "INFO"@ {
        LogLevel::Info
    } else if s == "WARNING"@ {
        LogLevel::Warning
    } else if s == "ERROR"@ {
        LogLevel::Error
    } else if s == "CRITICAL"@ {
        LogLevel::Critical
    } else {
        LogLevel::Unknown
    }
}

/// Decodes a level name.
pub fn level_of_str(s: &str) -> (r: LogLevel)
    ensures
        r == spec_level_of(s@),
{
    if str_eq(s, "DEBUG") {
        LogLevel::Debug
    } else if str_eq(s, "INFO") {
        LogLevel::Info
    } else if str_eq(s, "WARNING") {
        LogLevel::Warning
    } else if str_eq(s, "ERROR") {
        LogLevel::Error
    } else if str_eq(s, "CRITICAL") {
        LogLevel::Critical
    } else {
        LogLevel::Unknown
    }
}

/// Whether a level ranks at least as high as an error.
pub fn is_error_level(l: LogLevel) -> (r: bool)
    ensures
        r == (severity(l) >= 3),
{
    match l {
        LogLevel::Error => true,
        LogLevel::Critical => true,
        LogLevel::Unknown => true,
        _ => false,
    }
}

/// One classified log line.
#[derive(Debug, PartialEq, Eq)]
pub enum LineRecord {
    /// A log message: its severity, its text, and whether it is the
    /// distinguished wrong-passphrase message.
    Message { level: LogLevel, message: String, passphrase_wrong: bool },
    /// A line of another type; ignored.
    Other,
}

/// The log line the four fields denote, with the rules of the log format:
/// the line's type must be a string; a line of a type other than
/// `log_message` is ignored; a log message must carry its level name and
/// its text as strings; the message identifier may be absent or null, and
/// must otherwise be a string.
pub open spec fn spec_record_from_fields(
    t: JsonField,
    level: JsonField,
    message: JsonField,
    msgid: JsonField,
) -> Result<LineRecord, ()> {
    match t {
        JsonField::Text(s) => if s@ != "log_message"@ {
            Ok(LineRecord::Other)
        } else {
            match (level, message) {
                (JsonField::Text(ls), JsonField::Text(ms)) => match msgid {
                    JsonField::Other => Err(()),
                    _ => Ok(
                        LineRecord::Message {
                            level: spec_level_of(ls@),
                            message: ms,
                            passphrase_wrong: (msgid matches JsonField::Text(xs) && xs@
                                == "PassphraseWrong"@),
                        },
                    ),
                },
                _ => Err(()),
            }
        },
        _ => Err(()),
    }
}

/// Assembles a log line from its fields.
pub fn record_from_fields(
    t: JsonField,
    level: JsonField,
    message: JsonField,
    msgid: JsonField,
) -> (r: Result<LineRecord, ()>)
    ensures
        r == spec_record_from_fields(t, level, message, msgid),
{
    match t {
        JsonField::Text(s) => {
            if !str_eq(s.as_str(), "log_message") {
                return Ok(LineRecord::Other);
            }
            let level_s = match level {
                JsonField::Text(ls) => ls,
                _ => {
                    return Err(());
                },
            };
            let message_s = match message {
                JsonField::Text(ms) => ms,
                _ => {
                    return Err(());
                },
            };
            let pw = match &msgid {
                JsonField::Text(xs) => str_eq(xs.as_str(), "PassphraseWrong"),
                JsonField::Other => {
                    return Err(());
                },
                _ => false,
            };
            Ok(
                LineRecord::Message {
                    level: level_of_str(level_s.as_str()),
                    message: message_s,
                    passphrase_wrong: pw,
                },
            )
        },
        _ => Err(()),
    }
}

/// Whether a log line is reported as a repository error: a message that
/// ranks as an error and is not the wrong-passphrase message.
pub open spec fn is_reportable(rec: LineRecord) -> bool {
    match rec {
        LineRecord::Message { level, passphrase_wrong, .. } => !passphrase_wrong && severity(level)
            >= 3,
        LineRecord::Other => false,
    }
}

/// The text of a log message.
pub open spec fn message_of(rec: LineRecord) -> String {
    match rec {
        LineRecord::Message { message, .. } => message,
        LineRecord::Other => arbitrary(),
    }
}

/// The text of the first reportable log message, if any.
pub open spec fn spec_first_error(records: Seq<LineRecord>) -> Option<String>
    decreases records.len(),
{
    if records.len() == 0 {
        None
    } else if is_reportable(records[0]) {
        Some(message_of(records[0]))
    } else {
        spec_first_error(records.drop_first())
    }
}

/// Whether the wrong-passphrase message occurs among the lines.
pub open spec fn spec_seen_passphrase_wrong(records: Seq<LineRecord>) -> bool {
    exists|i: int|
        0 <= i < records.len() && (#[trigger] records[i]) matches LineRecord::Message {
            passphrase_wrong: true,
            ..
        }
}

/// What the classified log lines amount to: the first reportable message
/// wins, then a seen wrong-passphrase message, then success.
pub open spec fn spec_outcome(records: Seq<LineRecord>) -> Result<(), Error> {
    match spec_first_error(records) {
        Some(m) => Err(Error::Repository(m)),
        None => if spec_seen_passphrase_wrong(records) {
            Err(Error::Passphrase)
        } else {
            Ok(())
        },
    }
}

/// The first reportable message of concatenated line sequences is the
/// first sequence's, if it has one.
proof fn lemma_first_error_append(a: Seq<LineRecord>, b: Seq<LineRecord>)
    ensures
        spec_first_error(a + b) == (match spec_first_error(a) {
            Some(m) => Some(m),
            None => spec_first_error(b),
        }),
    decreases a.len(),
{
    if a.len() == 0 {
        assert(a + b =~= b);
    } else {
        assert((a + b).drop_first() =~= a.drop_first() + b);
        lemma_first_error_append(a.drop_first(), b);
    }
}

/// Folds classified log lines into the check outcome.
pub fn classify_records(mut records: Vec<LineRecord>) -> (r: Result<(), Error>)
    ensures
        r == spec_outcome(records@),
{
    let n = records.len();
    let mut first_idx: Option<usize> = None;
    let mut seen_passphrase_wrong = false;
    let mut i: usize = 0;
    while i < n
        invariant
            n == records@.len(),
            i <= n,
            first_idx matches Some(k) ==> k < i && is_reportable(records@[k as int])
                && spec_first_error(records@.subrange(0, i as int)) == Some(
                message_of(records@[k as int]),
            ),
            first_idx is None ==> spec_first_error(records@.subrange(0, i as int)) is None,
            seen_passphrase_wrong == spec_seen_passphrase_wrong(records@.subrange(0, i as int)),
        decreases n - i,
    {
        let ghost prefix = records@.subrange(0, i as int);
        match &records[i] {
            LineRecord::Message { level, passphrase_wrong, .. } => {
                if *passphrase_wrong {
                    seen_passphrase_wrong = true;
                } else if is_error_level(*level) {
                    if first_idx.is_none() {
                        first_idx = Some(i);
                    }
                }
            },
            LineRecord::Other => {},
        }
        i = i + 1;
        proof {
            let prefix2 = records@.subrange(0, i as int);
            let rec = records@[i - 1];
            assert(prefix2 =~= prefix + seq![rec]);
            lemma_first_error_append(prefix, seq![rec]);
            assert(seq![rec].drop_first() =~= Seq::<LineRecord>::empty());
            assert(spec_first_error(Seq::<LineRecord>::empty()) is None);
            if spec_seen_passphrase_wrong(prefix2) {
                let j = choose|j: int|
                    0 <= j < prefix2.len() && (#[trigger] prefix2[j]) matches LineRecord::Message {
                        passphrase_wrong: true,
                        ..
                    };
                if j < prefix.len() {
                    assert(prefix[j] == prefix2[j]);
                    assert(spec_seen_passphrase_wrong(prefix));
                } else {
                    assert(prefix2[j] == rec);
                }
            }
            if spec_seen_passphrase_wrong(prefix) {
                let j = choose|j: int|
                    0 <= j < prefix.len() && (#[trigger] prefix[j]) matches LineRecord::Message {
                        passphrase_wrong: true,
                        ..
                    };
                assert(prefix2[j] == prefix[j]);
                assert(spec_seen_passphrase_wrong(prefix2));
            }
            if rec matches LineRecord::Message { passphrase_wrong: true, .. } {
                assert(prefix2[prefix.len() as int] == rec);
                assert(spec_seen_passphrase_wrong(prefix2));
            }
        }
    }
    proof {
        assert(records@.subrange(0, n as int) =~= records@);
    }
    match first_idx {
        Some(k) => match records.swap_remove(k) {
            LineRecord::Message { message, .. } => Err(Error::Repository(message)),
            LineRecord::Other => vstd::pervasive::unreached(),
        },
        None => if seen_passphrase_wrong {
            Err(Error::Passphrase)
        } else {
            Ok(())
        },
    }
}

/// How many bytes the first line of a stream takes: through its newline,
/// or all of a stream whose last line is unterminated.
pub open spec fn spec_line_len(s: Seq<u8>) -> int
    decreases s.len(),
{
    if s.len() == 0 {
        0
    } else if s[0] == 10 {
        1
    } else {
        1 + spec_line_len(s.drop_first())
    }
}

/// The first line of a nonempty stream takes at least one byte and at most
/// the whole stream.
proof fn lemma_line_len_bounds(s: Seq<u8>)
    ensures
        s.len() > 0 ==> 1 <= spec_line_len(s) <= s.len(),
    decreases s.len(),
{
    if s.len() > 0 && s[0] != 10 {
        lemma_line_len_bounds(s.drop_first());
        if s.drop_first().len() == 0 {
            assert(spec_line_len(s.drop_first()) == 0);
        }
    }
}

/// A scan that saw no newline in the first `k` bytes and stopped at a
/// newline or at the end has found the first line's length.
proof fn lemma_line_len_of_scan(s: Seq<u8>, k: int)
    requires
        0 <= k <= s.len(),
        forall|j: int| 0 <= j < k ==> s[j] != 10,
        k == s.len() || s[k] == 10,
    ensures
        spec_line_len(s) == if k < s.len() {
            k + 1
        } else {
            k
        },
    decreases k,
{
    if k > 0 {
        lemma_line_len_of_scan(s.drop_first(), k - 1);
    }
}

/// The lines of a stream: each through its newline, the last possibly
/// unterminated, and no line empty.
pub open spec fn spec_split_lines(s: Seq<u8>) -> Seq<Seq<u8>>
    decreases s.len(),
    via spec_split_lines_decreases
{
    if s.len() == 0 {
        Seq::empty()
    } else {
        seq![s.subrange(0, spec_line_len(s))] + spec_split_lines(
            s.subrange(spec_line_len(s), s.len() as int),
        )
    }
}

#[via_fn]
proof fn spec_split_lines_decreases(s: Seq<u8>) {
    lemma_line_len_bounds(s);
}

/// The log lines the raw lines denote: nothing when some line is not one
/// well-formed JSON document or breaks the log format.
pub open spec fn spec_records_of_lines(lines: Seq<Seq<u8>>) -> Option<Seq<LineRecord>>
    decreases lines.len(),
{
    if lines.len() == 0 {
        Some(Seq::empty())
    } else {
        match line_fields_of(lines[0]) {
            None => None,
            Some(fields) => match spec_record_from_fields(
                fields.0,
                fields.1,
                fields.2,
                fields.3,
            ) {
                Err(_) => None,
                Ok(rec) => match spec_records_of_lines(lines.drop_first()) {
                    None => None,
                    Some(rest) => Some(seq![rec] + rest),
                },
            },
        }
    }
}

/// What a whole log stream amounts to: a line that does not parse or
/// breaks the log format fails the check; otherwise the classified lines
/// decide, by the priority of [`spec_outcome`].
pub open spec fn spec_handle_output(s: Seq<u8>) -> Result<(), Error> {
    match spec_records_of_lines(spec_split_lines(s)) {
        None => Err(Error::Json),
        Some(records) => spec_outcome(records),
    }
}

/// Handles the log output of a reachability probe: one JSON document per
/// line.
pub fn handle_output(stderr: &[u8]) -> (r: Result<(), Error>)
    ensures
        r == spec_handle_output(stderr@),
{
    let n = stderr.len();
    let mut records: Vec<LineRecord> = Vec::new();
    let mut start: usize = 0;
    proof {
        assert(stderr@.subrange(0, n as int) =~= stderr@);
        match spec_records_of_lines(spec_split_lines(stderr@)) {
            Some(rest) => {
                assert(records@ + rest =~= rest);
            },
            None => {},
        }
    }
    while start < n
        invariant
            n == stderr@.len(),
            start <= n,
            spec_records_of_lines(spec_split_lines(stderr@)) == (match spec_records_of_lines(
                spec_split_lines(stderr@.subrange(start as int, n as int)),
            ) {
                None => None::<Seq<LineRecord>>,
                Some(rest) => Some(records@ + rest),
            }),
        decreases n - start,
    {
        let ghost suffix = stderr@.subrange(start as int, n as int);
        let mut end: usize = start;
        while end < n && *slice_index_get(stderr, end) != 10
            invariant
                n == stderr@.len(),
                start <= end <= n,
                forall|j: int| start <= j < end ==> stderr@[j] != 10,
            decreases n - end,
        {
            end = end + 1;
        }
        proof {
            assert(forall|j: int|
                0 <= j < end - start ==> #[trigger] suffix[j] == stderr@[start + j]);
            lemma_line_len_of_scan(suffix, end - start);
        }
        if end < n {
            end = end + 1;
        }
        proof {
            assert(spec_line_len(suffix) == end - start);
            lemma_line_len_bounds(suffix);
        }
        let line = slice_subrange(stderr, start, end);
        let ghost line_view = suffix.subrange(0, spec_line_len(suffix));
        let ghost rest_view = suffix.subrange(spec_line_len(suffix), suffix.len() as int);
        proof {
            assert(line@ =~= line_view);
            assert(rest_view =~= stderr@.subrange(end as int, n as int));
            assert(spec_split_lines(suffix) == seq![line_view] + spec_split_lines(rest_view));
            assert((seq![line_view] + spec_split_lines(rest_view))[0] == line_view);
            assert((seq![line_view] + spec_split_lines(rest_view)).drop_first()
                =~= spec_split_lines(rest_view));
        }
        let fields = match read_line_fields(line) {
            Some(fields) => fields,
            None => {
                return Err(Error::Json);
            },
        };
        let (t, level, message, msgid) = fields;
        match record_from_fields(t, level, message, msgid) {
            Ok(rec) => {
                let ghost old_records = records@;
                records.push(rec);
                start = end;
                proof {
                    match spec_records_of_lines(spec_split_lines(rest_view)) {
                        Some(rest) => {
                            assert(old_records + (seq![rec] + rest) =~= records@ + rest);
                        },
                        None => {},
                    }
                }
            },
            Err(_) => {
                return Err(Error::Json);
            },
        }
    }
    proof {
        assert(stderr@.subrange(start as int, n as int) =~= Seq::<u8>::empty());
        assert(spec_split_lines(Seq::<u8>::empty()) == Seq::<Seq<u8>>::empty());
        assert(spec_records_of_lines(Seq::<Seq<u8>>::empty()) == Some(Seq::<LineRecord>::empty()));
        assert(records@ + Seq::<LineRecord>::empty() =~= records@);
    }
    classify_records(records)
}

/// The outcome the exit status of a reachability probe maps to, when the
/// log stream carried no message: exit codes 0 and 1 pass the check, exit
/// code 2 is the documented error exit — reported as an error without a
/// message — and anything else is an anomaly.
pub open spec fn spec_finish_exit(status: TermStatus) -> Result<(), Error> {
    match status {
        TermStatus::Exited(code) => if code == 0 || code == 1 {
            Ok(())
        } else if code == 2 {
            Err(Error::ErrorStatusWithoutMessage)
        } else {
            Err(Error::UnknownExitCode(code))
        },
        TermStatus::Signaled(signal) => Err(Error::Signal(signal)),
        TermStatus::Unknown => Err(Error::Unknown),
    }
}

/// Combines what the log stream said with the termination status: a
/// message captured from the stream is the more detailed information and
/// wins; only a silent stream lets the exit status decide.
pub fn finish_check(handled: Result<(), Error>, status: TermStatus) -> (r: Result<(), Error>)
    ensures
        handled matches Err(e) ==> (r matches Err(e2) && e2 == e),
        handled is Ok ==> r == spec_finish_exit(status),
{
    match handled {
        Err(e) => Err(e),
        Ok(_) => match status {
            TermStatus::Exited(code) => {
                if code == 0 || code == 1 {
                    Ok(())
                } else if code == 2 {
                    Err(Error::ErrorStatusWithoutMessage)
                } else {
                    Err(Error::UnknownExitCode(code))
                }
            },
            TermStatus::Signaled(signal) => Err(Error::Signal(signal)),
            TermStatus::Unknown => Err(Error::Unknown),
        },
    }
}

/// Whether the probe's child process should be killed before waiting:
/// only when reading or decoding its output failed, since the child may
/// then still be running.
pub fn should_kill(outcome: &Result<(), Error>) -> (r: bool)
    ensures
        r == (*outcome matches Err(Error::Spawn(_)) || *outcome == Err::<(), Error>(Error::Json)),
{
    match outcome {
        Err(Error::Spawn(_)) => true,
        Err(Error::Json) => true,
        _ => false,
    }
}

/// The exact argument vector of a reachability probe.
pub open spec fn spec_check_plan_args(umask: u16) -> Seq<Seq<char>> {
    seq!["--log-json"@, "--umask"@, "0"@ + oct_digits(umask as nat), "info"@]
}

/// Builds the spawn plan for a reachability probe: the `info` operation
/// with JSON logging, the repository location and the credential
/// descriptor's number in the environment. As with a backup run, the
/// secret is not an input.
pub fn build_check_plan(repository: &str, umask: u16, passphrase_fd: u64) -> (r: CommandPlan)
    ensures
        r.program@ == "borg"@,
        r.args.deep_view() == spec_check_plan_args(umask),
        r.env@.len() == 2,
        r.env@[0].0@ == "BORG_PASSPHRASE_FD"@ && r.env@[0].1@ == dec_digits(passphrase_fd as nat),
        r.env@[1].0@ == "BORG_REPO"@ && r.env@[1].1@ == repository@,
{
    let mut args: Vec<String> = Vec::new();
    args.push(String::from_str("--log-json"));
    args.push(String::from_str("--umask"));
    let mut umask_arg = String::from_str("0");
    push_oct_u64(&mut umask_arg, umask as u64);
    args.push(umask_arg);
    args.push(String::from_str("info"));
    proof {
        assert(args.deep_view() =~~= spec_check_plan_args(umask));
    }
    let mut fd_value = String::new();
    push_dec_u64(&mut fd_value, passphrase_fd);
    let mut env: Vec<(String, String)> = Vec::new();
    env.push((String::from_str("BORG_PASSPHRASE_FD"), fd_value));
    env.push((String::from_str("BORG_REPO"), String::from_str(repository)));
    CommandPlan { program: String::from_str("borg"), args, env }
}

/// What the caller should do after one reachability check with an optional
/// passphrase: keep that passphrase, prompt for one and retry, or fail.
#[derive(Debug, PartialEq, Eq)]
pub enum RetryStep {
    /// The check passed: the passphrase used, if any, is the right one.
    Accept,
    /// A passphrase is needed or the one used was wrong: prompt and retry.
    Prompt,
    /// The check failed for another reason.
    Fail(Error),
}

/// Decides the passphrase-retry loop's next move from one check outcome.
pub fn passphrase_retry_step(outcome: Result<(), Error>) -> (r: RetryStep)
    ensures
        outcome is Ok ==> r == RetryStep::Accept,
        outcome matches Err(e) ==> (if e == Error::Passphrase {
            r == RetryStep::Prompt
        } else {
            r matches RetryStep::Fail(e2) && e2 == e
        }),
{
    match outcome {
        Ok(_) => RetryStep::Accept,
        Err(Error::Passphrase) => RetryStep::Prompt,
        Err(e) => RetryStep::Fail(e),
    }
}

} // verus!

