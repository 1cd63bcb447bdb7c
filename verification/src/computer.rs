//! Letting a model use the computer: the loop that sets it a task, carries out
//! the actions that it calls for, and shows it the screen, until it makes no
//! further call or Excel is seen to run.
//!
//! The loop is a sequence of moves. Each [`Move`] says what has to be done
//! next, and the function named in its documentation takes the result and
//! gives the move after it. A run that opens Excel reads, in its log:
//!
//! ```text
//! mode=OpenAI computer tool
//! model=gpt-5.5
//! store=true (computer loop previous_response_id 필요)
//! step=1 action=screenshot
//! step=2 action=keypress WIN+R
//! step=2 action=type excel
//! step=2 action=keypress ENTER
//! verify=EXCEL.EXE 감지됨
//! ```
use vstd::prelude::*;

use crate::number::{decimal, push_decimal};
use crate::openai::{
    call_openai_computer_initial, call_openai_computer_screenshot, screen_payload, task_payload,
    COMPUTER_TASK,
};
use crate::process::{first_value, jq_first_string, lines_text};
use crate::text::{
    chars_of, copy_text, replace_char, result_text, texts, unit_text, with_replaced,
};

verus! {

/// How long to wait after the actions of a step, in milliseconds, before Excel
/// is looked for.
pub const SETTLE_MS: u64 = 1000;

/// What is said where no API key is set.
pub const NO_API_KEY: &'static str = "OPENAI_API_KEY 환경변수가 로컬 agent에 없습니다.";

/// What is said where a reply has no identifier.
pub const NO_RESPONSE_ID: &'static str = "OpenAI response id를 찾지 못했습니다.";

/// What the log begins with.
pub const LOG_START: &'static str =
    "mode=OpenAI computer tool\nmodel=gpt-5.5\nstore=true (computer loop previous_response_id 필요)\n";

/// What is logged once Excel is seen to run.
pub const EXCEL_SEEN: &'static str = "verify=EXCEL.EXE 감지됨\n";

/// How far a run has come.
pub struct RunModel {
    /// The number of the step, from 1.
    pub step: int,
    pub log: Seq<char>,
}

/// What has to be done next.
pub enum MoveModel {
    AskModel(RunModel, Seq<char>, bool),
    FindCall(RunModel, Seq<char>),
    FindActions(RunModel, Seq<char>, Seq<char>),
    Perform(RunModel, Seq<char>, Seq<char>, Seq<Seq<char>>),
    LookForExcel(RunModel, Seq<char>, Seq<char>, int),
    Capture(RunModel, Seq<char>, Seq<char>),
    FindResponseId(RunModel, Seq<char>, Seq<char>, Seq<char>),
    LookAgain(RunModel, Seq<char>),
    Finished(Result<Seq<char>, Seq<char>>),
}

/// How far a run has come.
#[derive(Debug)]
pub struct Run {
    pub step: u64,
    pub log: String,
}

impl View for Run {
    type V = RunModel;

    open spec fn view(&self) -> RunModel {
        RunModel { step: self.step as int, log: self.log@ }
    }
}

/// What has to be done next.
#[derive(Debug)]
pub enum Move {
    /// Send `payload` to the model, then [`model_replied`]. `opening` marks
    /// the first call of a run.
    AskModel { run: Run, payload: String, opening: bool },
    /// Look for a call in the reply `body`, then [`call_found`].
    FindCall { run: Run, body: String },
    /// Look for the actions in the reply `body`, then [`actions_found`].
    FindActions { run: Run, body: String, call_id: String },
    /// Carry out the action lines, then [`performed`].
    Perform { run: Run, body: String, call_id: String, lines: Vec<String> },
    /// Wait `pause_ms` milliseconds and see whether Excel runs, then
    /// [`excel_looked_for`].
    LookForExcel { run: Run, body: String, call_id: String, pause_ms: u64 },
    /// Take a picture of the screen, then [`captured`].
    Capture { run: Run, body: String, call_id: String },
    /// Look for the identifier of the reply `body`, then [`response_id_found`].
    FindResponseId { run: Run, body: String, call_id: String, screenshot: String },
    /// See whether Excel runs, then [`excel_looked_for_again`].
    LookAgain { run: Run, body: String },
    /// The run is over: its log, or the report of what went wrong.
    Finished(Result<String, String>),
}

impl View for Move {
    type V = MoveModel;

    open spec fn view(&self) -> MoveModel {
        match *self {
            Move::AskModel { run, payload, opening } => MoveModel::AskModel(
                run@,
                payload@,
                opening,
            ),
            Move::FindCall { run, body } => MoveModel::FindCall(run@, body@),
            Move::FindActions { run, body, call_id } => MoveModel::FindActions(
                run@,
                body@,
                call_id@,
            ),
            Move::Perform { run, body, call_id, lines } => MoveModel::Perform(
                run@,
                body@,
                call_id@,
                texts(lines@),
            ),
            Move::LookForExcel { run, body, call_id, pause_ms } => MoveModel::LookForExcel(
                run@,
                body@,
                call_id@,
                pause_ms as int,
            ),
            Move::Capture { run, body, call_id } => MoveModel::Capture(run@, body@, call_id@),
            Move::FindResponseId { run, body, call_id, screenshot } => MoveModel::FindResponseId(
                run@,
                body@,
                call_id@,
                screenshot@,
            ),
            Move::LookAgain { run, body } => MoveModel::LookAgain(run@, body@),
            Move::Finished(result) => MoveModel::Finished(result_text(result)),
        }
    }
}

/// The first move of a run.
pub open spec fn first_move(has_key: bool, prompt: Seq<char>) -> MoveModel {
    if has_key {
        MoveModel::AskModel(
            RunModel { step: 1, log: LOG_START@ },
            task_payload(COMPUTER_TASK@ + prompt),
            true,
        )
    } else {
        MoveModel::Finished(Err(NO_API_KEY@))
    }
}

/// Starts a run; it needs an API key.
pub fn run_computer_use_excel(has_key: bool, prompt: &str) -> (r: Move)
    ensures
        r@ == first_move(has_key, prompt@),
{
    if has_key {
        let mut task = copy_text(COMPUTER_TASK);
        task.append(prompt);
        Move::AskModel {
            run: Run { step: 1, log: copy_text(LOG_START) },
            payload: call_openai_computer_initial(task.as_str()),
            opening: true,
        }
    } else {
        Move::Finished(Err(copy_text(NO_API_KEY)))
    }
}

/// The move after the model has been asked.
pub open spec fn after_model(
    run: RunModel,
    opening: bool,
    reply: Result<Seq<char>, Seq<char>>,
) -> MoveModel {
    match reply {
        Err(e) => MoveModel::Finished(Err(e)),
        Ok(body) => if opening {
            MoveModel::FindCall(run, body)
        } else {
            MoveModel::LookAgain(run, body)
        },
    }
}

/// Takes the reply of the model.
pub fn model_replied(run: Run, opening: bool, reply: Result<String, String>) -> (r: Move)
    ensures
        r@ == after_model(run@, opening, result_text(reply)),
{
    match reply {
        Err(e) => Move::Finished(Err(e)),
        Ok(body) => if opening {
            Move::FindCall { run, body }
        } else {
            Move::LookAgain { run, body }
        },
    }
}

/// The log of a run that ends because the model makes no further call.
pub open spec fn ended(run: RunModel) -> Seq<char> {
    run.log + "step="@ + decimal(run.step as nat) + " computer_call 없음, 종료\n"@
}

/// Ends a run at its step.
fn end_run(run: Run) -> (r: String)
    ensures
        r@ == ended(run@),
{
    let mut log = run.log;
    log.append("step=");
    push_decimal(&mut log, run.step as u128);
    log.append(" computer_call 없음, 종료\n");
    log
}

/// The move after a call has been looked for; the run ends where there is none.
pub open spec fn after_call(
    run: RunModel,
    body: Seq<char>,
    lines: Result<Seq<Seq<char>>, Seq<char>>,
) -> MoveModel {
    match lines {
        Err(e) => MoveModel::Finished(Err(e)),
        Ok(found) => match first_value(found) {
            None => MoveModel::Finished(Ok(ended(run))),
            Some(call_id) => MoveModel::FindActions(run, body, call_id),
        },
    }
}

/// Takes what was found of a call.
pub fn call_found(run: Run, body: String, lines: Result<Vec<String>, String>) -> (r: Move)
    ensures
        r@ == after_call(run@, body@, lines_text(lines)),
{
    match lines {
        Err(e) => Move::Finished(Err(e)),
        Ok(found) => match jq_first_string(&found) {
            None => Move::Finished(Ok(end_run(run))),
            Some(call_id) => Move::FindActions { run, body, call_id },
        },
    }
}

/// What is logged of the actions of a step: a line for each.
pub open spec fn action_log(step: nat, lines: Seq<Seq<char>>) -> Seq<char> {
    lines.flat_map(
        |line: Seq<char>|
            "step="@ + decimal(step) + " action="@ + with_replaced(line, '\t', ' ') + "\n"@,
    )
}

/// Writes what is logged of the actions of a step.
fn write_action_log(step: u64, lines: &Vec<String>) -> (r: String)
    ensures
        r@ == action_log(step as nat, texts(lines@)),
{
    let ghost all = texts(lines@);
    let ghost f = |line: Seq<char>|
        "step="@ + decimal(step as nat) + " action="@ + with_replaced(line, '\t', ' ') + "\n"@;
    let mut out = String::new();
    let mut i: usize = 0;
    while i < lines.len()
        invariant
            i <= lines@.len(),
            all == texts(lines@),
            f == (|line: Seq<char>|
                "step="@ + decimal(step as nat) + " action="@ + with_replaced(line, '\t', ' ')
                    + "\n"@),
            out@ == all.take(i as int).flat_map(f),
        decreases lines@.len() - i,
    {
        let chars = chars_of(lines[i].as_str());
        let mut entry = copy_text("step=");
        push_decimal(&mut entry, step as u128);
        entry.append(" action=");
        entry.append(replace_char(chars.as_slice(), '\t', ' ').as_str());
        entry.append("\n");
        out.append(entry.as_str());
        proof {
            assert(entry@ == f(all[i as int]));
            all.lemma_flat_map_take_append(f, i as int);
        }
        i += 1;
    }
    assert(all.take(i as int) =~= all);
    out
}

/// The move after the actions have been looked for. A call without actions is
/// answered like any other, with nothing to carry out.
pub open spec fn after_actions(
    run: RunModel,
    body: Seq<char>,
    call_id: Seq<char>,
    lines: Result<Seq<Seq<char>>, Seq<char>>,
) -> MoveModel {
    match lines {
        Err(e) => MoveModel::Finished(Err(e)),
        Ok(found) => MoveModel::Perform(
            RunModel { step: run.step, log: run.log + action_log(run.step as nat, found) },
            body,
            call_id,
            found,
        ),
    }
}

/// Takes what was found of the actions.
pub fn actions_found(
    run: Run,
    body: String,
    call_id: String,
    lines: Result<Vec<String>, String>,
) -> (r: Move)
    ensures
        r@ == after_actions(run@, body@, call_id@, lines_text(lines)),
{
    match lines {
        Err(e) => Move::Finished(Err(e)),
        Ok(found) => {
            let mut log = run.log;
            log.append(write_action_log(run.step, &found).as_str());
            Move::Perform { run: Run { step: run.step, log }, body, call_id, lines: found }
        },
    }
}

/// The move after the actions have been carried out: only where all of them
/// ended well is their effect waited for.
pub open spec fn after_actions_done(
    run: RunModel,
    body: Seq<char>,
    call_id: Seq<char>,
    done: Result<(), Seq<char>>,
) -> MoveModel {
    match done {
        Err(e) => MoveModel::Finished(Err(e)),
        Ok(()) => MoveModel::LookForExcel(run, body, call_id, SETTLE_MS as int),
    }
}

/// Takes the result of carrying out the actions.
pub fn performed(run: Run, body: String, call_id: String, done: Result<(), String>) -> (r: Move)
    ensures
        r@ == after_actions_done(run@, body@, call_id@, unit_text(done)),
{
    match done {
        Err(e) => Move::Finished(Err(e)),
        Ok(()) => Move::LookForExcel { run, body, call_id, pause_ms: SETTLE_MS },
    }
}

/// The move after Excel has been looked for; the run ends where it was seen.
pub open spec fn after_look(
    run: RunModel,
    body: Seq<char>,
    call_id: Seq<char>,
    seen: bool,
) -> MoveModel {
    if seen {
        MoveModel::Finished(Ok(run.log + EXCEL_SEEN@))
    } else {
        MoveModel::Capture(run, body, call_id)
    }
}

/// Takes the answer whether Excel runs.
pub fn excel_looked_for(run: Run, body: String, call_id: String, seen: bool) -> (r: Move)
    ensures
        r@ == after_look(run@, body@, call_id@, seen),
{
    if seen {
        let mut log = run.log;
        log.append(EXCEL_SEEN);
        Move::Finished(Ok(log))
    } else {
        Move::Capture { run, body, call_id }
    }
}

/// The move after a picture of the screen has been taken.
pub open spec fn after_capture(
    run: RunModel,
    body: Seq<char>,
    call_id: Seq<char>,
    picture: Result<Seq<char>, Seq<char>>,
) -> MoveModel {
    match picture {
        Err(e) => MoveModel::Finished(Err(e)),
        Ok(screenshot) => MoveModel::FindResponseId(run, body, call_id, screenshot),
    }
}

/// Takes the picture of the screen.
pub fn captured(run: Run, body: String, call_id: String, picture: Result<String, String>) -> (r:
    Move)
    ensures
        r@ == after_capture(run@, body@, call_id@, result_text(picture)),
{
    match picture {
        Err(e) => Move::Finished(Err(e)),
        Ok(screenshot) => Move::FindResponseId { run, body, call_id, screenshot },
    }
}

/// The move after the identifier of the reply has been looked for.
pub open spec fn after_response_id(
    run: RunModel,
    call_id: Seq<char>,
    screenshot: Seq<char>,
    lines: Result<Seq<Seq<char>>, Seq<char>>,
) -> MoveModel {
    match lines {
        Err(e) => MoveModel::Finished(Err(e)),
        Ok(found) => match first_value(found) {
            None => MoveModel::Finished(Err(NO_RESPONSE_ID@)),
            Some(id) => MoveModel::AskModel(run, screen_payload(id, call_id, screenshot), false),
        },
    }
}

/// Takes what was found of the identifier.
pub fn response_id_found(
    run: Run,
    call_id: String,
    screenshot: String,
    lines: Result<Vec<String>, String>,
) -> (r: Move)
    ensures
        r@ == after_response_id(run@, call_id@, screenshot@, lines_text(lines)),
{
    match lines {
        Err(e) => Move::Finished(Err(e)),
        Ok(found) => match jq_first_string(&found) {
            None => Move::Finished(Err(copy_text(NO_RESPONSE_ID))),
            Some(id) => Move::AskModel {
                run,
                payload: call_openai_computer_screenshot(
                    id.as_str(),
                    call_id.as_str(),
                    screenshot.as_str(),
                ),
                opening: false,
            },
        },
    }
}

/// The number of the step after another. Counting stops at the largest number
/// that a counter holds; the steps go on.
pub open spec fn next_number(step: int) -> int {
    if step < u64::MAX {
        step + 1
    } else {
        step
    }
}

/// The move after Excel has been looked for again: the next step begins with
/// the reply that the model gave to the picture.
pub open spec fn after_second_look(run: RunModel, body: Seq<char>, seen: bool) -> MoveModel {
    let log = if seen {
        run.log + EXCEL_SEEN@
    } else {
        run.log
    };
    MoveModel::FindCall(RunModel { step: next_number(run.step), log }, body)
}

/// Takes the answer whether Excel runs, at the end of a step.
pub fn excel_looked_for_again(run: Run, body: String, seen: bool) -> (r: Move)
    ensures
        r@ == after_second_look(run@, body@, seen),
{
    let mut log = run.log;
    if seen {
        log.append(EXCEL_SEEN);
    }
    Move::FindCall { run: Run { step: run.step.saturating_add(1), log }, body }
}

} // verus!
