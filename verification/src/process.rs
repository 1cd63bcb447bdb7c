//! What becomes of the helper programs that are run: `curl`, `jq`, `base64`
//! and PowerShell.
use vstd::prelude::*;
use vstd::slice::slice_subrange;

use crate::escape::{truncate, truncated};
use crate::number::{decimal, parse_unsigned, push_decimal, read_unsigned};
use crate::text::{
    chars_of, copy_text, find_last, last_match, last_match_is_last, lines_of, optional,
    result_text, same_text, split_lines, string_of, text_from_bytes, text_of_bytes, texts, trim,
    trim_text, trimmed, unit_text,
};

verus! {

/// How far a program came that could not be run to its end.
#[derive(Debug, Clone, Copy)]
pub enum Stage {
    /// It was not started.
    Start,
    /// Its input could not be written.
    Input,
    /// Its end could not be waited for.
    Wait,
}

/// What a program left behind when it ended.
#[derive(Debug)]
pub struct ProcessOutput {
    /// Whether it ended with success.
    pub success: bool,
    /// Its exit status, as shown to people.
    pub status: String,
    pub stdout: Vec<u8>,
    pub stderr: Vec<u8>,
}

/// The running of a program.
#[derive(Debug)]
pub enum ProcessRun {
    /// It could not be run; the text says why.
    Failed(Stage, String),
    Finished(ProcessOutput),
}

/// What a program wrote to its standard output.
pub open spec fn output_text(output: ProcessOutput) -> Seq<char> {
    text_of_bytes(output.stdout@)
}

/// The beginning of what a program wrote to its standard error.
pub open spec fn complaint(output: ProcessOutput) -> Seq<char> {
    truncated(text_of_bytes(output.stderr@), 800)
}

/// The report of a program that could not be run.
pub open spec fn run_failure(program: Seq<char>, stage: Stage, reason: Seq<char>) -> Seq<char> {
    program + (match stage {
        Stage::Start => " 실행 실패: "@,
        Stage::Input => " stdin 쓰기 실패: "@,
        Stage::Wait => " 대기 실패: "@,
    }) + reason
}

/// Reports a program that could not be run.
pub fn report_failure(program: &str, stage: Stage, reason: &str) -> (r: String)
    ensures
        r@ == run_failure(program@, stage, reason@),
{
    let mut out = copy_text(program);
    match stage {
        Stage::Start => out.append(" 실행 실패: "),
        Stage::Input => out.append(" stdin 쓰기 실패: "),
        Stage::Wait => out.append(" 대기 실패: "),
    }
    out.append(reason);
    out
}

/// What a program complained of.
fn report_complaint(output: &ProcessOutput) -> (r: String)
    ensures
        r@ == complaint(*output),
{
    let text = text_from_bytes(output.stderr.as_slice());
    truncate(text.as_str(), 800)
}

// ---------------------------------------------------------------------------
// PowerShell
// ---------------------------------------------------------------------------

/// What comes of a PowerShell command that is waited for.
pub open spec fn powershell_outcome(run: ProcessRun) -> Result<(), Seq<char>> {
    match run {
        ProcessRun::Failed(stage, reason) => Err(run_failure("powershell.exe"@, stage, reason@)),
        ProcessRun::Finished(output) => if output.success {
            Ok(())
        } else {
            Err("powershell 실패: "@ + complaint(output))
        },
    }
}

/// Judges the run of a PowerShell command that is waited for.
pub fn powershell_result(run: &ProcessRun) -> (r: Result<(), String>)
    ensures
        unit_text(r) == powershell_outcome(*run),
{
    match run {
        ProcessRun::Failed(stage, reason) => Err(
            report_failure("powershell.exe", *stage, reason.as_str()),
        ),
        ProcessRun::Finished(output) => if output.success {
            Ok(())
        } else {
            let mut out = copy_text("powershell 실패: ");
            out.append(report_complaint(output).as_str());
            Err(out)
        },
    }
}

// ---------------------------------------------------------------------------
// base64
// ---------------------------------------------------------------------------

/// What comes of a run of `base64`.
pub open spec fn base64_outcome(run: ProcessRun) -> Result<Seq<char>, Seq<char>> {
    match run {
        ProcessRun::Failed(stage, reason) => Err(run_failure("base64"@, stage, reason@)),
        ProcessRun::Finished(output) => if output.success {
            Ok(output_text(output))
        } else {
            Err("base64 실패: "@ + complaint(output))
        },
    }
}

/// Judges a run of `base64`.
pub fn base64_result(run: &ProcessRun) -> (r: Result<String, String>)
    ensures
        result_text(r) == base64_outcome(*run),
{
    match run {
        ProcessRun::Failed(stage, reason) => Err(
            report_failure("base64", *stage, reason.as_str()),
        ),
        ProcessRun::Finished(output) => if output.success {
            Ok(text_from_bytes(output.stdout.as_slice()))
        } else {
            let mut out = copy_text("base64 실패: ");
            out.append(report_complaint(output).as_str());
            Err(out)
        },
    }
}

// ---------------------------------------------------------------------------
// jq
// ---------------------------------------------------------------------------

/// The contents of a list of lines or of the text of an error.
pub open spec fn lines_text(value: Result<Vec<String>, String>) -> Result<
    Seq<Seq<char>>,
    Seq<char>,
> {
    match value {
        Ok(lines) => Ok(texts(lines@)),
        Err(e) => Err(e@),
    }
}

/// What comes of a run of `jq`: the lines that it wrote.
pub open spec fn jq_outcome(run: ProcessRun) -> Result<Seq<Seq<char>>, Seq<char>> {
    match run {
        ProcessRun::Failed(stage, reason) => Err(run_failure("jq"@, stage, reason@)),
        ProcessRun::Finished(output) => if output.success {
            Ok(lines_of(output_text(output)))
        } else {
            Err("jq 실패: "@ + complaint(output))
        },
    }
}

/// Judges a run of `jq`.
pub fn jq_lines(run: &ProcessRun) -> (r: Result<Vec<String>, String>)
    ensures
        lines_text(r) == jq_outcome(*run),
{
    match run {
        ProcessRun::Failed(stage, reason) => Err(report_failure("jq", *stage, reason.as_str())),
        ProcessRun::Finished(output) => if output.success {
            let text = text_from_bytes(output.stdout.as_slice());
            let chars = chars_of(text.as_str());
            Ok(split_lines(chars.as_slice()))
        } else {
            let mut out = copy_text("jq 실패: ");
            out.append(report_complaint(output).as_str());
            Err(out)
        },
    }
}

/// Whether a line of `jq` holds a value: it is neither blank nor `null`.
pub open spec fn holds_value(line: Seq<char>) -> bool {
    trimmed(line).len() > 0 && trimmed(line) != "null"@
}

/// The first line that holds a value.
pub open spec fn first_value(lines: Seq<Seq<char>>) -> Option<Seq<char>>
    decreases lines.len(),
{
    if lines.len() == 0 {
        None
    } else if holds_value(lines[0]) {
        Some(lines[0])
    } else {
        first_value(lines.skip(1))
    }
}

/// Picks the first line that holds a value.
pub fn jq_first_string(lines: &Vec<String>) -> (r: Option<String>)
    ensures
        optional(r) == first_value(texts(lines@)),
{
    let ghost all = texts(lines@);
    assert(all.skip(0) =~= all);
    let mut i: usize = 0;
    while i < lines.len()
        invariant
            i <= lines@.len(),
            all == texts(lines@),
            first_value(all) == first_value(all.skip(i as int)),
        decreases lines@.len() - i,
    {
        let line = lines[i].as_str();
        let word = trim_text(line);
        assert(line@ == all.skip(i as int)[0]);
        if !word.as_str().is_empty() && !same_text(word.as_str(), "null") {
            return Some(copy_text(line));
        }
        assert(all.skip(i as int).skip(1) =~= all.skip(i + 1));
        i += 1;
    }
    None
}

// ---------------------------------------------------------------------------
// curl
// ---------------------------------------------------------------------------

/// What `curl` is told to write between the body of a reply and its status.
pub const STATUS_MARK: &'static str = "\n__HTTP_STATUS__:";

/// The status that follows the mark: zero where it is no number.
pub open spec fn status_code(text: Seq<char>) -> nat {
    match read_unsigned(trimmed(text), 65535) {
        Some(n) => n,
        None => 0,
    }
}

/// What a reply that carries its status at the end amounts to.
pub open spec fn marked_reply(text: Seq<char>) -> Result<Seq<char>, Seq<char>> {
    match last_match(text, STATUS_MARK@) {
        None => Err("OpenAI HTTP 상태를 읽지 못했습니다: "@ + truncated(text, 800)),
        Some(p) => {
            let body = text.take(p);
            let status = status_code(text.skip(p + STATUS_MARK@.len()));
            if 200 <= status < 300 {
                Ok(body)
            } else {
                Err("OpenAI HTTP "@ + decimal(status) + ": "@ + truncated(body, 1200))
            }
        },
    }
}

/// What comes of a call of the OpenAI API; `label` opens the report of a run
/// of `curl` that ended without success.
pub open spec fn openai_outcome(label: Seq<char>, run: ProcessRun) -> Result<Seq<char>, Seq<char>> {
    match run {
        ProcessRun::Failed(stage, reason) => Err(run_failure("curl"@, stage, reason@)),
        ProcessRun::Finished(output) => if !output.success {
            Err(label + ": status="@ + output.status@ + " stderr="@ + complaint(output))
        } else {
            marked_reply(output_text(output))
        },
    }
}

/// Separates the body of a reply from the status at its end.
pub fn split_reply(text: &str) -> (r: Result<String, String>)
    ensures
        result_text(r) == marked_reply(text@),
{
    let chars = chars_of(text);
    let mark = chars_of(STATUS_MARK);
    match find_last(chars.as_slice(), mark.as_slice()) {
        None => {
            let mut out = copy_text("OpenAI HTTP 상태를 읽지 못했습니다: ");
            out.append(truncate(text, 800).as_str());
            Err(out)
        },
        Some(p) => {
            proof {
                last_match_is_last(text@, STATUS_MARK@);
            }
            let body = string_of(slice_subrange(chars.as_slice(), 0, p));
            let rest = trim(slice_subrange(chars.as_slice(), p + mark.len(), chars.len()));
            let status: u64 = match parse_unsigned(rest, 65535) {
                Some(n) => n,
                None => 0,
            };
            assert(body@ =~= text@.take(p as int));
            if 200 <= status && status < 300 {
                Ok(body)
            } else {
                let mut out = copy_text("OpenAI HTTP ");
                push_decimal(&mut out, status as u128);
                out.append(": ");
                out.append(truncate(body.as_str(), 1200).as_str());
                Err(out)
            }
        },
    }
}

/// Judges a call of the OpenAI API.
fn openai_reply(label: &str, run: &ProcessRun) -> (r: Result<String, String>)
    ensures
        result_text(r) == openai_outcome(label@, *run),
{
    match run {
        ProcessRun::Failed(stage, reason) => Err(report_failure("curl", *stage, reason.as_str())),
        ProcessRun::Finished(output) => if !output.success {
            let mut out = copy_text(label);
            out.append(": status=");
            out.append(output.status.as_str());
            out.append(" stderr=");
            out.append(report_complaint(output).as_str());
            Err(out)
        } else {
            let text = text_from_bytes(output.stdout.as_slice());
            split_reply(text.as_str())
        },
    }
}

/// Judges a call that classifies a prompt.
pub fn call_openai_responses_api(run: &ProcessRun) -> (r: Result<String, String>)
    ensures
        result_text(r) == openai_outcome("OpenAI API 호출 실패"@, *run),
{
    openai_reply("OpenAI API 호출 실패", run)
}

/// Judges a call that takes part in using the computer.
pub fn call_openai_json(run: &ProcessRun) -> (r: Result<String, String>)
    ensures
        result_text(r) == openai_outcome("OpenAI 호출 실패"@, *run),
{
    openai_reply("OpenAI 호출 실패", run)
}

} // verus!
