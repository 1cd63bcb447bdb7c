//! Laws about contents: what a value stands for in the contracts is all that it
//! holds, field by field.
use vstd::prelude::*;

use crate::agent::{AgentSettings, AgentStep, AgentStepModel, Target, TargetModel};
use crate::computer::{Move, MoveModel, Run};
use crate::device::{
    step_list, steps_text, ActionPlan, DeviceStep, PlanStep, PlanStepModel,
};
use crate::gateway::{Forward, GatewaySettings, GatewayStep, GatewayStepModel, Pending};
use crate::http::{Head, HttpRequest, ReadOutcome, ReadProgress, RequestReader, Response};
use crate::launcher::{
    answer_of, Action, ActionModel, LauncherSettings, LauncherStep, LauncherStepModel,
};
use crate::process::lines_text;
use crate::temp::{TempStep, TempStepModel};
use crate::text::{optional, optional_str, result_text, texts, unit_text};
use crate::url::field_texts;
use crate::windows::{launch_text, Launch, Opening, OpeningModel};
use crate::{agent, launcher};

verus! {

// ---------------------------------------------------------------------------
// Text
// ---------------------------------------------------------------------------

/// A text that may be missing stands for its contents, all of them, and a result
/// for its contents or those of its error.
pub proof fn texts_stand_for_their_contents(s: String, t: &str, list: Seq<String>, i: int)
    ensures
        optional(Some(s)) == Some(s@),
        optional(None) is None,
        optional_str(Some(t)) == Some(t@),
        optional_str(None) is None,
        result_text(Ok(s)) == Ok::<Seq<char>, Seq<char>>(s@),
        result_text(Err(s)) == Err::<Seq<char>, Seq<char>>(s@),
        unit_text(Ok(())) is Ok,
        unit_text(Err(s)) == Err::<(), Seq<char>>(s@),
        texts(list).len() == list.len(),
        0 <= i < list.len() ==> texts(list)[i] == list[i]@,
{
}

/// A list of lines stands for all of its lines, and a form for all of its fields.
pub proof fn lists_stand_for_their_items(
    lines: Vec<String>,
    e: String,
    fields: Seq<(&str, &str)>,
    i: int,
)
    ensures
        lines_text(Ok(lines)) matches Ok(found) && found.len() == lines@.len() && (0 <= i
            < found.len() ==> found[i] == lines@[i]@),
        lines_text(Err(e)) matches Err(text) && text == e@,
        field_texts(fields).len() == fields.len(),
        0 <= i < fields.len() ==> field_texts(fields)[i] == (fields[i].0@, fields[i].1@),
{
}

/// What a prompt was classified as stands for itself.
pub proof fn decisions_stand_for_themselves(
    asked: agent::PromptAction,
    named: launcher::PromptAction,
    e: String,
)
    ensures
        agent::decision_text(Ok(asked)) == Ok::<_, Seq<char>>(asked),
        agent::decision_text(Err(e)) matches Err(text) && text == e@,
        launcher::decision_text(Ok(named)) == Ok::<_, Seq<char>>(named),
        launcher::decision_text(Err(e)) matches Err(text) && text == e@,
{
}

// ---------------------------------------------------------------------------
// Requests and answers
// ---------------------------------------------------------------------------

/// A request and a response stand for all of their fields.
pub proof fn messages_stand_for_their_fields(
    request: HttpRequest,
    response: Response,
    head: Head,
    reader: RequestReader,
)
    ensures
        request@.method == request.method@ && request@.path == request.path@ && request@.headers
            == request.headers@ && request@.body == request.body@,
        response@.status == response.status@ && response@.content_type == response.content_type@
            && response@.body == response.body@,
        head@.method == head.method@ && head@.path == head.path@ && head@.headers == head.headers@,
        (ReadProgress::Ready(request))@ == ReadOutcome::Ready(request@),
        (ReadProgress::More(reader))@ == ReadOutcome::More(reader@),
        (ReadProgress::Closed)@ is Closed,
{
}

/// The settings stand for each of the settings.
pub proof fn settings_stand_for_themselves(
    agent: AgentSettings,
    launcher: LauncherSettings,
    gateway: GatewaySettings,
)
    ensures
        agent@.token == optional(agent.token),
        agent@.path_prefix == optional(agent.path_prefix),
        agent@.google_sheets_url == optional(agent.google_sheets_url),
        agent@.excel_web_url == optional(agent.excel_web_url),
        agent@.viewer_source == optional(agent.viewer_source),
        launcher@.model == optional(launcher.model),
        launcher@.google_sheets_url == optional(launcher.google_sheets_url),
        launcher@.excel_web_url == optional(launcher.excel_web_url),
        launcher@.viewer_source == optional(launcher.viewer_source),
        gateway@.token == optional(gateway.token),
        gateway@.path_prefix == optional(gateway.path_prefix),
        gateway@.public_url == optional(gateway.public_url),
{
}

/// What the agent does about a request stands for itself.
pub proof fn agent_steps_stand_for_themselves(
    response: Response,
    prompt: String,
    target: Target,
    src: Option<String>,
)
    ensures
        (AgentStep::Respond(response))@ == AgentStepModel::Respond(response@),
        (AgentStep::Classify(prompt))@ == AgentStepModel::Classify(prompt@),
        (AgentStep::UseComputer(prompt))@ == AgentStepModel::UseComputer(prompt@),
        (AgentStep::Open(target))@ == AgentStepModel::Open(target@),
        (Target::Excel)@ is Excel,
        (Target::Csv)@ is Csv,
        (Target::GoogleSheets)@ is GoogleSheets,
        (Target::ExcelWeb)@ is ExcelWeb,
        (Target::Viewer(src))@ == TargetModel::Viewer(optional(src)),
{
}

/// What the launcher does about a request stands for itself.
pub proof fn launcher_steps_stand_for_themselves(
    status: &'static str,
    content_type: &'static str,
    body: String,
    action: Action,
    src: Option<String>,
)
    ensures
        answer_of((status, content_type, body)).status == status@,
        answer_of((status, content_type, body)).content_type == content_type@,
        answer_of((status, content_type, body)).body == body@,
        (LauncherStep::Respond((status, content_type, body)))@ == LauncherStepModel::Respond(
            answer_of((status, content_type, body)),
        ),
        (LauncherStep::Classify(body))@ == LauncherStepModel::Classify(body@),
        (LauncherStep::Open(action))@ == LauncherStepModel::Open(action@),
        (Action::Excel)@ is Excel,
        (Action::Csv)@ is Csv,
        (Action::GoogleSheets)@ is GoogleSheets,
        (Action::NewGoogleSheets)@ is NewGoogleSheets,
        (Action::ExcelWeb)@ is ExcelWeb,
        (Action::Viewer(src))@ == ActionModel::Viewer(optional(src)),
{
}

/// What the gateway does about a request stands for itself.
pub proof fn gateway_steps_stand_for_themselves(
    response: Response,
    forward: Forward,
    pending: Pending,
)
    ensures
        (GatewayStep::Respond(response))@ == GatewayStepModel::Respond(response@),
        (GatewayStep::Forward(pending))@ == GatewayStepModel::Forward(pending@),
        pending@.forward == pending.forward@ && pending@.done == pending.done@ && pending@.failed
            == pending.failed@ && pending@.prompt == pending.prompt@,
        forward@.url == forward.url@ && forward@.form == forward.form@ && forward@.timeout
            == forward.timeout@,
{
}

// ---------------------------------------------------------------------------
// Opening and using the computer
// ---------------------------------------------------------------------------

/// A launch stands for its command and its message, and an opening for itself.
pub proof fn openings_stand_for_themselves(launch: Launch, e: String)
    ensures
        launch@.command == launch.command@ && launch@.message == launch.message@,
        launch_text(Ok(launch)) matches Ok(model) && model == launch@,
        launch_text(Err(e)) matches Err(text) && text == e@,
        (Opening::WriteCsv)@ is WriteCsv,
        (Opening::Launch(launch))@ == OpeningModel::Launch(launch@),
        (Opening::Refused(e))@ == OpeningModel::Refused(e@),
{
}

/// A step stands for its command and its pause, and a plan for all of its steps
/// and its error.
pub proof fn plans_stand_for_their_steps(
    step: DeviceStep,
    steps: Vec<DeviceStep>,
    plan: ActionPlan,
    result: Result<(), String>,
    e: String,
    i: int,
)
    ensures
        step@.command == optional(step.command) && step@.pause_ms == step.pause_ms,
        step_list(steps@).len() == steps@.len(),
        0 <= i < steps@.len() ==> step_list(steps@)[i] == steps@[i]@,
        steps_text(Ok(steps)) matches Ok(list) && list == step_list(steps@),
        steps_text(Err(e)) matches Err(text) && text == e@,
        plan@.steps == step_list(plan.steps@) && plan@.error == optional(plan.error),
        (PlanStep::Run(step))@ == PlanStepModel::Run(step@),
        (PlanStep::Finished(result))@ == PlanStepModel::Finished(unit_text(result)),
{
}

/// A move stands for all that it goes on with.
pub proof fn moves_stand_for_themselves(
    run: Run,
    body: String,
    call_id: String,
    screenshot: String,
    lines: Vec<String>,
    opening: bool,
    pause_ms: u64,
    result: Result<String, String>,
)
    ensures
        run@.step == run.step && run@.log == run.log@,
        (Move::AskModel { run, payload: body, opening })@ == MoveModel::AskModel(
            run@,
            body@,
            opening,
        ),
        (Move::FindCall { run, body })@ == MoveModel::FindCall(run@, body@),
        (Move::FindActions { run, body, call_id })@ == MoveModel::FindActions(
            run@,
            body@,
            call_id@,
        ),
        (Move::Perform { run, body, call_id, lines })@ == MoveModel::Perform(
            run@,
            body@,
            call_id@,
            texts(lines@),
        ),
        (Move::LookForExcel { run, body, call_id, pause_ms })@ == MoveModel::LookForExcel(
            run@,
            body@,
            call_id@,
            pause_ms as int,
        ),
        (Move::Capture { run, body, call_id })@ == MoveModel::Capture(run@, body@, call_id@),
        (Move::FindResponseId { run, body, call_id, screenshot })@ == MoveModel::FindResponseId(
            run@,
            body@,
            call_id@,
            screenshot@,
        ),
        (Move::LookAgain { run, body })@ == MoveModel::LookAgain(run@, body@),
        (Move::Finished(result))@ == MoveModel::Finished(result_text(result)),
{
}

/// What follows an attempt at a temporary file stands for itself.
pub proof fn attempts_stand_for_themselves(attempt: u32, e: String)
    ensures
        (TempStep::Done)@ is Done,
        (TempStep::Retry(attempt))@ == TempStepModel::Retry(attempt as nat),
        (TempStep::Failed(e))@ == TempStepModel::Failed(e@),
{
}

} // verus!
