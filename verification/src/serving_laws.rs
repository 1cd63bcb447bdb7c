//! Laws about what the programs do: which requests lead to an action, what the
//! agent understands of what the gateway sends, and how long the model goes on
//! using the computer.
use vstd::prelude::*;
use vstd::utf8::encode_utf8;

use crate::agent::{
    agent_step, carries_token, endpoint_of, opening_of, prompt_step, refusal, AgentSettingsModel,
    AgentStepModel, Endpoint, PromptAction, TargetModel,
};
use crate::bridge::{path_below, route_below, route_prefix, token_text};
use crate::computer::{
    after_actions, after_actions_done, after_call, after_capture, after_look, after_model,
    after_response_id, after_second_look, action_log, ended, first_move, next_number, MoveModel,
    RunModel, SETTLE_MS,
};
use crate::device::{
    line_steps, plan_of, step_after, typeable, typed, PlanModel, PlanStepModel,
};
use crate::encoding_laws::sent_form_round_trip;
use crate::gateway::{
    document_asked, forward_of, gateway_step, prompt_fields, submitted_prompt, ForwardModel,
    GatewaySettingsModel, GatewayStepModel, WORKBOOK_TYPE,
};
use crate::http::{field, header_fields, RequestModel, ResponseModel};
use crate::openai::{output_area, screen_payload};
use crate::process::first_value;
use crate::text::{
    after, before, begins_with, last_match, last_match_is_last, lower, occurs_at, position_at,
    trimmed, trimmed_end, trimmed_end_of, trimmed_start,
};
use crate::windows::{
    csv_launch, open_in_browser, open_in_excel, windows_path, CsvWrite, OpeningModel,
    OPEN_EXCEL_COMMAND,
};
use crate::{gateway, launcher};

verus! {

// ---------------------------------------------------------------------------
// Routes
// ---------------------------------------------------------------------------

/// Cutting characters off the end leaves none there.
proof fn cut_end(s: Seq<char>, ch: char)
    ensures
        trimmed_end_of(s, ch).len() > 0 ==> trimmed_end_of(s, ch).last() != ch,
    decreases s.len(),
{
    if s.len() > 0 && s.last() == ch {
        cut_end(s.drop_last(), ch);
    }
}

/// A prefix is empty, or it begins with a slash and does not end with one.
pub proof fn prefix_shape(configured: Option<Seq<char>>)
    ensures
        route_prefix(configured).len() == 0 || (route_prefix(configured)[0] == '/' && route_prefix(
            configured,
        ).last() != '/'),
{
    reveal_strlit("/");
    match configured {
        Some(value) => cut_end(trimmed(value), '/'),
        None => {},
    }
}

/// Each page links to the routes that are served: the path that is written for
/// a route leads back to that route.
pub proof fn written_paths_lead_back(configured: Option<Seq<char>>, route: Seq<char>)
    requires
        !route_prefix(configured).contains('?'),
        begins_with(route, "/"@),
        !route.contains('?'),
    ensures
        route_below(
            route_prefix(configured),
            path_below(route_prefix(configured), route),
        ) == route,
{
    reveal_strlit("/");
    let prefix = route_prefix(configured);
    let path = path_below(prefix, route);
    assert forall|i: int| 0 <= i < path.len() implies path[i] != '?' by {
        if prefix.len() == 0 {
            assert(route.contains(route[i]));
        } else if i < prefix.len() {
            assert(path[i] == prefix[i]);
            assert(prefix.contains(prefix[i]));
        } else {
            assert(path[i] == route[i - prefix.len()]);
            assert(route.contains(route[i - prefix.len()]));
        }
    }
    position_at(path, '?', path.len() as int);
    assert(before(path, '?') =~= path);
    assert(route.subrange(0, 1) =~= "/"@);
    assert(route[0] == '/') by {
        assert(route.subrange(0, 1)[0] == route[0]);
    }
    if prefix.len() > 0 && route != "/"@ {
        assert(path =~= prefix + route);
        assert(path.subrange(0, prefix.len() as int) =~= prefix);
        assert(path[prefix.len() as int] == route[0]);
        assert(path.skip(prefix.len() as int) =~= route);
    }
}

/// A route is also served without the prefix: a path of one name is its own
/// route, unless it is the prefix itself.
pub proof fn routes_are_served_without_the_prefix(configured: Option<Seq<char>>, name: Seq<char>)
    requires
        !name.contains('/'),
        !name.contains('?'),
        route_prefix(configured) != "/"@ + name,
    ensures
        route_below(route_prefix(configured), "/"@ + name) == "/"@ + name,
{
    reveal_strlit("/");
    let prefix = route_prefix(configured);
    let path = "/"@ + name;
    prefix_shape(configured);
    assert forall|i: int| 0 <= i < path.len() implies path[i] != '?' && (0 < i ==> path[i]
        != '/') by {
        if i > 0 {
            assert(path[i] == name[i - 1]);
            assert(name.contains(name[i - 1]));
        }
    }
    position_at(path, '?', path.len() as int);
    assert(before(path, '?') =~= path);
}

/// The query of a path does not change the route that it names.
pub proof fn query_does_not_change_route(prefix: Seq<char>, path: Seq<char>, query: Seq<char>)
    requires
        !path.contains('?'),
    ensures
        route_below(prefix, path + seq!['?'] + query) == route_below(prefix, path),
{
    let whole = path + seq!['?'] + query;
    assert forall|i: int| 0 <= i < path.len() implies whole[i] != '?' && path[i] != '?' by {
        assert(path.contains(path[i]));
    }
    position_at(whole, '?', path.len() as int);
    position_at(path, '?', path.len() as int);
    assert(before(whole, '?') =~= path);
    assert(before(path, '?') =~= path);
}

// ---------------------------------------------------------------------------
// The agent and its token
// ---------------------------------------------------------------------------

/// Whether the agent acts on a request rather than answering it at once.
pub open spec fn acts(step: AgentStepModel) -> bool {
    !(step is Respond)
}

/// The agent acts only on requests that carry the token. All others that name
/// something it serves are refused, except the health check.
pub proof fn only_the_token_opens(request: RequestModel, settings: AgentSettingsModel)
    ensures
        acts(agent_step(request, settings)) ==> carries_token(request, token_text(settings.token)),
        ({
            let endpoint = endpoint_of(
                request.method,
                route_below(route_prefix(settings.path_prefix), request.path),
            );
            &&& endpoint is Some && endpoint != Some(Endpoint::Health) && !carries_token(
                request,
                token_text(settings.token),
            ) ==> agent_step(request, settings) == AgentStepModel::Respond(refusal())
            &&& endpoint is Some && endpoint != Some(Endpoint::Health) && carries_token(
                request,
                token_text(settings.token),
            ) ==> acts(agent_step(request, settings))
        }),
{
}

/// The answer to the health check depends neither on the token nor on anything
/// else that is set.
pub proof fn health_needs_no_token(
    request: RequestModel,
    settings: AgentSettingsModel,
    others: AgentSettingsModel,
)
    requires
        settings.path_prefix == others.path_prefix,
        endpoint_of(
            request.method,
            route_below(route_prefix(settings.path_prefix), request.path),
        ) == Some(Endpoint::Health),
    ensures
        !acts(agent_step(request, settings)),
        agent_step(request, settings) == agent_step(request, others),
{
}

/// A prompt opens something exactly where the model named an action other than
/// a refusal. In particular nothing is opened where it could not be asked.
pub proof fn denied_prompts_open_nothing(
    prompt: Seq<char>,
    classified: Result<PromptAction, Seq<char>>,
)
    ensures
        acts(prompt_step(prompt, classified)) <==> classified is Ok && classified
            != Ok::<PromptAction, Seq<char>>(PromptAction::Deny),
        prompt_step(prompt, classified) is Open || prompt_step(prompt, classified) is Respond,
{
}

/// The same of the launcher.
pub proof fn denied_prompts_launch_nothing(
    prompt: Seq<char>,
    classified: Result<launcher::PromptAction, Seq<char>>,
)
    ensures
        launcher::classified_step(prompt, classified) is Open <==> classified is Ok
            && classified != Ok::<launcher::PromptAction, Seq<char>>(
            launcher::PromptAction::Deny,
        ),
        !(launcher::classified_step(prompt, classified) is Classify),
{
}

/// Whether a command is one of those that the programs may start: Excel, or a
/// page in the browser.
pub open spec fn allowed(command: Seq<char>) -> bool {
    ||| command == OPEN_EXCEL_COMMAND@
    ||| exists|path: Seq<char>| command == open_in_excel(path)
    ||| exists|url: Seq<char>| command == open_in_browser(url)
}

/// Whatever is asked for, the agent starts nothing but Excel and pages in the
/// browser.
pub proof fn agent_starts_allowed_commands(target: TargetModel, settings: AgentSettingsModel)
    ensures
        opening_of(target, settings) matches OpeningModel::Launch(launch) ==> allowed(
            launch.command,
        ),
{
}

/// Whatever is asked for, the launcher starts nothing but Excel and pages in
/// the browser.
pub proof fn launcher_starts_allowed_commands(
    action: launcher::ActionModel,
    settings: launcher::LauncherSettingsModel,
)
    ensures
        launcher::opening_of(action, settings) matches OpeningModel::Launch(launch)
            ==> allowed(launch.command),
{
}

/// Excel is started with the sample table only once the table was written.
pub proof fn sample_table_is_written_first(
    path: Seq<char>,
    shown: Seq<char>,
    write: CsvWrite,
    done: Seq<char>,
)
    ensures
        csv_launch(path, shown, write, done) matches Ok(launch) ==> write is Written && allowed(
            launch.command,
        ),
{
}

// ---------------------------------------------------------------------------
// From the gateway to the agent
// ---------------------------------------------------------------------------

/// Whether `request` is what the agent receives of `forward`: the form, sent
/// with the token to a path that names the endpoint.
pub open spec fn delivered(
    request: RequestModel,
    forward: ForwardModel,
    endpoint: Seq<char>,
    settings: AgentSettingsModel,
) -> bool {
    &&& request.method == "POST"@
    &&& route_below(route_prefix(settings.path_prefix), request.path) == "/"@ + endpoint
    &&& field(request.headers, "x-excel-bridge-token"@) == Some(token_text(settings.token))
    &&& request.body == encode_utf8(forward.form)
}

proof fn reveal_endpoints()
    ensures
        "/"@ + "run"@ == "/run"@,
        "/"@ + "run-computer"@ == "/run-computer"@,
        "/"@ + "open-google-sheets"@ == "/open-google-sheets"@,
        "/"@ + "open-ms-excel-web"@ == "/open-ms-excel-web"@,
        "/"@ + "open-ms-office-viewer"@ == "/open-ms-office-viewer"@,
        "/run"@.len() == 4,
        "/run-computer"@.len() == 13,
        "/health"@.len() == 7,
        "/open-excel"@.len() == 11,
        "/open-google-sheets"@.len() == 19,
        "/open-ms-excel-web"@.len() == 18,
        "/open-ms-office-viewer"@.len() == 22,
{
    reveal_strlit("/");
    reveal_strlit("run");
    reveal_strlit("run-computer");
    reveal_strlit("open-google-sheets");
    reveal_strlit("open-ms-excel-web");
    reveal_strlit("open-ms-office-viewer");
    reveal_strlit("/run");
    reveal_strlit("/run-computer");
    reveal_strlit("/health");
    reveal_strlit("/open-excel");
    reveal_strlit("/open-google-sheets");
    reveal_strlit("/open-ms-excel-web");
    reveal_strlit("/open-ms-office-viewer");
    assert("/"@ + "run"@ =~= "/run"@);
    assert("/"@ + "run-computer"@ =~= "/run-computer"@);
    assert("/"@ + "open-google-sheets"@ =~= "/open-google-sheets"@);
    assert("/"@ + "open-ms-excel-web"@ =~= "/open-ms-excel-web"@);
    assert("/"@ + "open-ms-office-viewer"@ =~= "/open-ms-office-viewer"@);
}

/// A prompt that the gateway passes on reaches the agent unchanged, to be
/// classified.
proof fn prompts_reach_the_agent(
    agent_url: Seq<char>,
    prompt: Seq<char>,
    request: RequestModel,
    settings: AgentSettingsModel,
)
    requires
        delivered(
            request,
            forward_of(agent_url, "run"@, prompt_fields(prompt)),
            "run"@,
            settings,
        ),
    ensures
        agent_step(request, settings) == AgentStepModel::Classify(prompt),
{
    reveal_endpoints();
    sent_form_round_trip(prompt_fields(prompt), "prompt"@);
}

/// A prompt for the use of the computer reaches the agent unchanged.
proof fn computer_prompts_reach_the_agent(
    agent_url: Seq<char>,
    prompt: Seq<char>,
    request: RequestModel,
    settings: AgentSettingsModel,
)
    requires
        delivered(
            request,
            forward_of(agent_url, "run-computer"@, prompt_fields(prompt)),
            "run-computer"@,
            settings,
        ),
    ensures
        agent_step(request, settings) == AgentStepModel::UseComputer(prompt),
{
    reveal_endpoints();
    sent_form_round_trip(prompt_fields(prompt), "prompt"@);
}

/// The pages that the gateway asks for are opened by the agent.
proof fn pages_reach_the_agent(
    forward: ForwardModel,
    request: RequestModel,
    settings: AgentSettingsModel,
)
    ensures
        delivered(request, forward, "open-google-sheets"@, settings) ==> agent_step(
            request,
            settings,
        ) == AgentStepModel::Open(TargetModel::GoogleSheets),
        delivered(request, forward, "open-ms-excel-web"@, settings) ==> agent_step(
            request,
            settings,
        ) == AgentStepModel::Open(TargetModel::ExcelWeb),
{
    reveal_endpoints();
}

/// The document that the gateway names is the one that the agent opens in the
/// viewer.
proof fn documents_reach_the_agent(
    agent_url: Seq<char>,
    source: Seq<char>,
    request: RequestModel,
    settings: AgentSettingsModel,
)
    requires
        delivered(
            request,
            forward_of(agent_url, "open-ms-office-viewer"@, seq![("src"@, source)]),
            "open-ms-office-viewer"@,
            settings,
        ),
    ensures
        agent_step(request, settings) == AgentStepModel::Open(TargetModel::Viewer(Some(source))),
{
    reveal_endpoints();
    sent_form_round_trip(seq![("src"@, source)], "src"@);
}

/// The endpoint of the agent that a request to the gateway is passed on to.
pub open spec fn passed_on_to(endpoint: gateway::Endpoint) -> Option<Seq<char>> {
    match endpoint {
        gateway::Endpoint::Prompt => Some("run"@),
        gateway::Endpoint::PromptComputer => Some("run-computer"@),
        gateway::Endpoint::OpenGoogleSheets => Some("open-google-sheets"@),
        gateway::Endpoint::OpenExcelWeb => Some("open-ms-excel-web"@),
        gateway::Endpoint::OpenViewer => Some("open-ms-office-viewer"@),
        _ => None,
    }
}

/// What a request to the gateway asks of the agent.
pub open spec fn meant(
    endpoint: gateway::Endpoint,
    request: RequestModel,
    settings: GatewaySettingsModel,
) -> AgentStepModel {
    match endpoint {
        gateway::Endpoint::Prompt => AgentStepModel::Classify(submitted_prompt(request)),
        gateway::Endpoint::PromptComputer => AgentStepModel::UseComputer(
            submitted_prompt(request),
        ),
        gateway::Endpoint::OpenGoogleSheets => AgentStepModel::Open(
            TargetModel::GoogleSheets,
        ),
        gateway::Endpoint::OpenExcelWeb => AgentStepModel::Open(TargetModel::ExcelWeb),
        _ => AgentStepModel::Open(
            TargetModel::Viewer(Some(document_asked(request, settings.public_url))),
        ),
    }
}

/// What the gateway passes on, the agent does: where a request to the gateway
/// leads to a form, and the form is delivered to the endpoint of the agent with
/// the token, the agent does what was meant, with the prompt or the document
/// that was submitted.
pub proof fn gateway_requests_reach_the_agent(
    request: RequestModel,
    agent_url: Seq<char>,
    settings: GatewaySettingsModel,
    sample: Seq<u8>,
    endpoint: gateway::Endpoint,
    received: RequestModel,
    agent: AgentSettingsModel,
)
    requires
        gateway::endpoint_of(
            request.method,
            route_below(route_prefix(settings.path_prefix), request.path),
        ) == Some(endpoint),
        passed_on_to(endpoint) is Some,
        gateway_step(request, agent_url, settings, sample) matches GatewayStepModel::Forward(
            pending,
        ) && delivered(received, pending.forward, passed_on_to(endpoint)->0, agent),
    ensures
        agent_step(received, agent) == meant(endpoint, request, settings),
{
    let prompt = submitted_prompt(request);
    let source = document_asked(request, settings.public_url);
    match gateway_step(request, agent_url, settings, sample) {
        GatewayStepModel::Forward(pending) => {
            match endpoint {
                gateway::Endpoint::Prompt => {
                    prompts_reach_the_agent(agent_url, prompt, received, agent);
                },
                gateway::Endpoint::PromptComputer => {
                    computer_prompts_reach_the_agent(agent_url, prompt, received, agent);
                },
                gateway::Endpoint::OpenViewer => {
                    documents_reach_the_agent(agent_url, source, received, agent);
                },
                _ => {
                    pages_reach_the_agent(pending.forward, received, agent);
                },
            }
        },
        _ => {},
    }
}

/// The gateway passes on exactly the requests that name something for the agent
/// to do, save those that submit an empty prompt.
pub proof fn empty_prompts_are_not_passed_on(
    request: RequestModel,
    agent_url: Seq<char>,
    settings: GatewaySettingsModel,
    sample: Seq<u8>,
)
    ensures
        ({
            let endpoint = gateway::endpoint_of(
                request.method,
                route_below(route_prefix(settings.path_prefix), request.path),
            );
            let takes_prompt = endpoint == Some(gateway::Endpoint::Prompt) || endpoint
                == Some(gateway::Endpoint::PromptComputer);
            gateway_step(request, agent_url, settings, sample) is Forward <==> endpoint is Some
                && passed_on_to(endpoint->0) is Some && (takes_prompt ==> submitted_prompt(
                request,
            ).len() > 0)
        }),
{
}

/// The gateway serves the sample workbook to everyone, at the path that it
/// names below its prefix and without the prefix too.
pub proof fn sample_workbook_is_served(
    request: RequestModel,
    agent_url: Seq<char>,
    settings: GatewaySettingsModel,
    sample: Seq<u8>,
)
    requires
        request.method == "GET"@,
        !route_prefix(settings.path_prefix).contains('?'),
        route_prefix(settings.path_prefix) != "/sample.xlsx"@,
        request.path == "/sample.xlsx"@ || request.path == path_below(
            route_prefix(settings.path_prefix),
            "/sample.xlsx"@,
        ),
    ensures
        gateway_step(request, agent_url, settings, sample) == GatewayStepModel::Respond(
            ResponseModel { status: "200 OK"@, content_type: WORKBOOK_TYPE@, body: sample },
        ),
{
    reveal_strlit("/");
    reveal_strlit("/health");
    reveal_strlit("/sample.xlsx");
    let name = "/sample.xlsx"@.skip(1);
    assert("/"@ + name =~= "/sample.xlsx"@);
    assert("/sample.xlsx"@.subrange(0, 1) =~= "/"@);
    assert forall|i: int| 0 <= i < name.len() implies name[i] != '/' && name[i] != '?' by {}
    assert forall|i: int| 0 <= i < "/sample.xlsx"@.len() implies "/sample.xlsx"@[i] != '?' by {}
    routes_are_served_without_the_prefix(settings.path_prefix, name);
    written_paths_lead_back(settings.path_prefix, "/sample.xlsx"@);
}

/// The header that the gateway sends is the one that the agent looks for; white
/// space around the token is lost on the way.
pub proof fn token_header_is_found(token: Seq<char>)
    ensures
        field(
            header_fields(seq!["X-Excel-Bridge-Token: "@ + token]),
            "x-excel-bridge-token"@,
        ) == Some(trimmed(token)),
{
    reveal_strlit("X-Excel-Bridge-Token: ");
    reveal_strlit("x-excel-bridge-token");
    let line = "X-Excel-Bridge-Token: "@ + token;
    let lines = seq![line];
    let name = "X-Excel-Bridge-Token: "@.take(20);
    assert(line[20] == ':');
    assert forall|i: int| 0 <= i < 20 implies line[i] != ':' by {
        assert(line[i] == "X-Excel-Bridge-Token: "@[i]);
    }
    position_at(line, ':', 20);
    assert(line.contains(':'));
    assert(before(line, ':') =~= name);
    assert(after(line, ':') =~= seq![' '] + token);
    assert((seq![' '] + token).skip(1) =~= token);
    assert(trimmed_start(name) == name);
    assert(trimmed_end(name) == name);
    assert(lower(name) =~= "x-excel-bridge-token"@);
    assert(lines.drop_last() =~= Seq::empty());
    assert(header_fields(lines.drop_last()) == Map::<Seq<char>, Seq<char>>::empty());
}

// ---------------------------------------------------------------------------
// What the model answers
// ---------------------------------------------------------------------------

/// Only the answer of the model counts, not what stands before it in the reply:
/// the area that is searched begins with the last mark of an answer.
pub proof fn answer_stands_at_the_last_mark(start: Seq<char>, answer: Seq<char>)
    requires
        forall|i: int|
            0 < i ==> !#[trigger] occurs_at(
                "\"output_text\""@ + answer,
                "\"output_text\""@,
                i,
            ),
    ensures
        output_area(start + ("\"output_text\""@ + answer)) == "\"output_text\""@ + answer,
{
    let mark = "\"output_text\""@;
    let area = mark + answer;
    let body = start + area;
    let p = start.len() as int;
    last_match_is_last(body, mark);
    assert(body.subrange(p, p + mark.len()) =~= mark);
    assert(occurs_at(body, mark, p));
    match last_match(body, mark) {
        Some(q) => {
            if q > p {
                assert(body.subrange(q, q + mark.len()) =~= area.subrange(
                    q - p,
                    q - p + mark.len(),
                ));
                assert(occurs_at(area, mark, q - p));
            }
            assert(q == p);
        },
        None => {},
    }
    assert(body.skip(p) =~= area);
}

// ---------------------------------------------------------------------------
// Using the computer
// ---------------------------------------------------------------------------

/// How many moves are left at most until a step is over.
pub open spec fn moves_left(next: MoveModel) -> int {
    match next {
        MoveModel::AskModel(_, _, opening) => if opening {
            9
        } else {
            2
        },
        MoveModel::FindCall(_, _) => 8,
        MoveModel::FindActions(_, _, _) => 7,
        MoveModel::Perform(_, _, _, _) => 6,
        MoveModel::LookForExcel(_, _, _, _) => 5,
        MoveModel::Capture(_, _, _) => 4,
        MoveModel::FindResponseId(_, _, _, _) => 3,
        MoveModel::LookAgain(_, _) => 1,
        MoveModel::Finished(_) => 0,
    }
}

/// The number of the step that a move belongs to, if the run is not over.
pub open spec fn step_of(next: MoveModel) -> Option<int> {
    match next {
        MoveModel::AskModel(run, _, _) => Some(run.step),
        MoveModel::FindCall(run, _) => Some(run.step),
        MoveModel::FindActions(run, _, _) => Some(run.step),
        MoveModel::Perform(run, _, _, _) => Some(run.step),
        MoveModel::LookForExcel(run, _, _, _) => Some(run.step),
        MoveModel::Capture(run, _, _) => Some(run.step),
        MoveModel::FindResponseId(run, _, _, _) => Some(run.step),
        MoveModel::LookAgain(run, _) => Some(run.step),
        MoveModel::Finished(_) => None,
    }
}

/// The log of the run that a move belongs to, also where it ended well.
pub open spec fn log_of(next: MoveModel) -> Option<Seq<char>> {
    match next {
        MoveModel::AskModel(run, _, _) => Some(run.log),
        MoveModel::FindCall(run, _) => Some(run.log),
        MoveModel::FindActions(run, _, _) => Some(run.log),
        MoveModel::Perform(run, _, _, _) => Some(run.log),
        MoveModel::LookForExcel(run, _, _, _) => Some(run.log),
        MoveModel::Capture(run, _, _) => Some(run.log),
        MoveModel::FindResponseId(run, _, _, _) => Some(run.log),
        MoveModel::LookAgain(run, _) => Some(run.log),
        MoveModel::Finished(Ok(log)) => Some(log),
        MoveModel::Finished(Err(_)) => None,
    }
}

/// A move follows another as it should: the run is over, or fewer moves of the
/// same step are left, or the step is over and the next one begins. What was
/// logged stays logged.
pub open spec fn follows(earlier: MoveModel, next: MoveModel) -> bool {
    &&& {
        ||| next is Finished
        ||| step_of(next) == step_of(earlier) && 0 <= moves_left(next) < moves_left(earlier)
        ||| earlier is LookAgain && next is FindCall && step_of(next) == Some(
            next_number(step_of(earlier)->0),
        )
    }
    &&& log_of(next) matches Some(log) ==> (log_of(earlier) matches Some(start) && start.is_prefix_of(
        log,
    ))
}

/// What happened after a move.
pub enum Happened {
    Replied(Result<Seq<char>, Seq<char>>),
    Found(Result<Seq<Seq<char>>, Seq<char>>),
    Done(Result<(), Seq<char>>),
    Seen(bool),
    Pictured(Result<Seq<char>, Seq<char>>),
}

/// The move that follows what happened, if that is what the move was about.
pub open spec fn next_move(earlier: MoveModel, happened: Happened) -> Option<MoveModel> {
    match (earlier, happened) {
        (MoveModel::AskModel(run, _, opening), Happened::Replied(reply)) => Some(
            after_model(run, opening, reply),
        ),
        (MoveModel::FindCall(run, body), Happened::Found(lines)) => Some(
            after_call(run, body, lines),
        ),
        (MoveModel::FindActions(run, body, call_id), Happened::Found(lines)) => Some(
            after_actions(run, body, call_id, lines),
        ),
        (MoveModel::Perform(run, body, call_id, _), Happened::Done(done)) => Some(
            after_actions_done(run, body, call_id, done),
        ),
        (MoveModel::LookForExcel(run, body, call_id, _), Happened::Seen(seen)) => Some(
            after_look(run, body, call_id, seen),
        ),
        (MoveModel::Capture(run, body, call_id), Happened::Pictured(picture)) => Some(
            after_capture(run, body, call_id, picture),
        ),
        (
            MoveModel::FindResponseId(run, _, call_id, screenshot),
            Happened::Found(lines),
        ) => Some(after_response_id(run, call_id, screenshot, lines)),
        (MoveModel::LookAgain(run, body), Happened::Seen(seen)) => Some(
            after_second_look(run, body, seen),
        ),
        _ => None,
    }
}

/// Each step of a run comes to an end, whatever happens, and the log is only
/// ever added to.
pub proof fn computer_steps_end(earlier: MoveModel, happened: Happened)
    ensures
        next_move(earlier, happened) matches Some(next) ==> follows(earlier, next),
{
    match next_move(earlier, happened) {
        Some(next) => {
            match log_of(earlier) {
                Some(start) => {
                    match log_of(next) {
                        Some(log) => {
                            assert(log.subrange(0, start.len() as int) =~= start);
                        },
                        None => {},
                    }
                },
                None => {},
            }
        },
        None => {},
    }
}

/// A run ends well exactly where Excel is seen after the actions of a step, or
/// where a reply of the model makes no call. In no other way does a run stop
/// while a call is open, but for an error.
pub proof fn computer_use_ends_well_when_done(earlier: MoveModel, happened: Happened)
    ensures
        (next_move(earlier, happened) matches Some(MoveModel::Finished(Ok(_)))) <==> {
            ||| earlier is LookForExcel && happened == Happened::Seen(true)
            ||| earlier is FindCall && (happened matches Happened::Found(Ok(lines)) && first_value(
                lines,
            ) is None)
        },
{
}

/// A run starts at its first step, and does not start without an API key.
pub proof fn computer_use_starts(has_key: bool, prompt: Seq<char>)
    ensures
        has_key <==> first_move(has_key, prompt) is AskModel,
        has_key ==> step_of(first_move(has_key, prompt)) == Some(1int),
        !has_key ==> first_move(has_key, prompt) is Finished,
{
}

/// The move that follows several things that happened one after another.
pub open spec fn played(earlier: MoveModel, events: Seq<Happened>) -> Option<MoveModel>
    decreases events.len(),
{
    if events.len() == 0 {
        Some(earlier)
    } else {
        match next_move(earlier, events[0]) {
            Some(next) => played(next, events.skip(1)),
            None => None,
        }
    }
}

/// What happens in a step that goes well, without Excel being seen.
pub struct Turn {
    /// What is found of the call in the reply of the model.
    pub calls: Seq<Seq<char>>,
    /// The actions that the call asks for.
    pub actions: Seq<Seq<char>>,
    /// The picture of the screen that is taken after them.
    pub screenshot: Seq<char>,
    /// What is found of the identifier of the reply.
    pub ids: Seq<Seq<char>>,
    /// What the model replies to the picture.
    pub reply: Seq<char>,
}

/// Whether the reply of a turn makes a call and has an identifier.
pub open spec fn makes_a_call(turn: Turn) -> bool {
    first_value(turn.calls) is Some && first_value(turn.ids) is Some
}

/// What happens in a turn up to the sending of the picture.
pub open spec fn events_before_answer(turn: Turn) -> Seq<Happened> {
    seq![
        Happened::Found(Ok(turn.calls)),
        Happened::Found(Ok(turn.actions)),
        Happened::Done(Ok(())),
        Happened::Seen(false),
        Happened::Pictured(Ok(turn.screenshot)),
        Happened::Found(Ok(turn.ids)),
    ]
}

/// What happens in a turn.
pub open spec fn events_of(turn: Turn) -> Seq<Happened> {
    events_before_answer(turn) + seq![Happened::Replied(Ok(turn.reply)), Happened::Seen(false)]
}

/// The run after the actions of a turn have been logged.
pub open spec fn run_with_actions(run: RunModel, turn: Turn) -> RunModel {
    RunModel { step: run.step, log: run.log + action_log(run.step as nat, turn.actions) }
}

/// The run after a turn.
pub open spec fn run_after(run: RunModel, turn: Turn) -> RunModel {
    RunModel { step: next_number(run.step), log: run_with_actions(run, turn).log }
}

proof fn played_on(earlier: MoveModel, first: Seq<Happened>, rest: Seq<Happened>)
    ensures
        played(earlier, first + rest) == (match played(earlier, first) {
            Some(next) => played(next, rest),
            None => None,
        }),
    decreases first.len(),
{
    if first.len() == 0 {
        assert(first + rest =~= rest);
    } else {
        assert((first + rest)[0] == first[0]);
        assert((first + rest).skip(1) =~= first.skip(1) + rest);
        match next_move(earlier, first[0]) {
            Some(next) => played_on(next, first.skip(1), rest),
            None => {},
        }
    }
}

proof fn played_one(earlier: MoveModel, event: Happened, rest: Seq<Happened>)
    ensures
        played(earlier, seq![event] + rest) == (match next_move(earlier, event) {
            Some(next) => played(next, rest),
            None => None,
        }),
{
    assert((seq![event] + rest).skip(1) =~= rest);
}

/// Every call of the model is answered, also one without actions: its actions
/// are carried out, then the screen is pictured, and the picture is sent as the
/// answer to that call of that reply.
pub proof fn calls_are_answered(run: RunModel, body: Seq<char>, turn: Turn)
    requires
        makes_a_call(turn),
    ensures
        played(MoveModel::FindCall(run, body), events_before_answer(turn)) == Some(
            MoveModel::AskModel(
                run_with_actions(run, turn),
                screen_payload(
                    first_value(turn.ids)->0,
                    first_value(turn.calls)->0,
                    turn.screenshot,
                ),
                false,
            ),
        ),
        played(MoveModel::FindCall(run, body), events_of(turn)) == Some(
            MoveModel::FindCall(run_after(run, turn), turn.reply),
        ),
{
    let call_id = first_value(turn.calls)->0;
    let id = first_value(turn.ids)->0;
    let acted = run_with_actions(run, turn);
    let e5 = seq![Happened::Found(Ok(turn.ids))];
    let e4 = seq![Happened::Pictured(Ok(turn.screenshot))] + e5;
    let e3 = seq![Happened::Seen(false)] + e4;
    let e2 = seq![Happened::Done(Ok(()))] + e3;
    let e1 = seq![Happened::Found(Ok(turn.actions))] + e2;
    let e0 = seq![Happened::Found(Ok(turn.calls))] + e1;
    assert(e0 =~= events_before_answer(turn));
    let m0 = MoveModel::FindCall(run, body);
    let m1 = MoveModel::FindActions(run, body, call_id);
    let m2 = MoveModel::Perform(acted, body, call_id, turn.actions);
    let m3 = MoveModel::LookForExcel(acted, body, call_id, SETTLE_MS as int);
    let m4 = MoveModel::Capture(acted, body, call_id);
    let m5 = MoveModel::FindResponseId(acted, body, call_id, turn.screenshot);
    let m6 = MoveModel::AskModel(acted, screen_payload(id, call_id, turn.screenshot), false);
    played_one(m0, Happened::Found(Ok(turn.calls)), e1);
    played_one(m1, Happened::Found(Ok(turn.actions)), e2);
    played_one(m2, Happened::Done(Ok(())), e3);
    played_one(m3, Happened::Seen(false), e4);
    played_one(m4, Happened::Pictured(Ok(turn.screenshot)), e5);
    assert(e5.skip(1) =~= Seq::empty());
    assert(played(m5, e5) == played(m6, e5.skip(1)));
    let f1 = seq![Happened::Seen(false)];
    let f0 = seq![Happened::Replied(Ok(turn.reply)), Happened::Seen(false)];
    assert(f0 =~= seq![Happened::Replied(Ok(turn.reply))] + f1);
    played_on(m0, e0, f0);
    played_one(m6, Happened::Replied(Ok(turn.reply)), f1);
    assert(f1.skip(1) =~= Seq::empty());
    let m7 = MoveModel::LookAgain(acted, turn.reply);
    let m8 = MoveModel::FindCall(run_after(run, turn), turn.reply);
    assert(next_move(m7, Happened::Seen(false)) == Some(m8));
    assert(played(m7, f1) == played(m8, f1.skip(1)));
}

/// What happens in several turns.
pub open spec fn events_of_turns(turns: Seq<Turn>) -> Seq<Happened>
    decreases turns.len(),
{
    if turns.len() == 0 {
        Seq::empty()
    } else {
        events_of(turns[0]) + events_of_turns(turns.skip(1))
    }
}

/// The run after several turns.
pub open spec fn run_after_turns(run: RunModel, turns: Seq<Turn>) -> RunModel
    decreases turns.len(),
{
    if turns.len() == 0 {
        run
    } else {
        run_after_turns(run_after(run, turns[0]), turns.skip(1))
    }
}

/// The reply that is looked into after several turns that began with `body`.
pub open spec fn last_reply(body: Seq<char>, turns: Seq<Turn>) -> Seq<char> {
    if turns.len() == 0 {
        body
    } else {
        turns.last().reply
    }
}

proof fn turns_go_on(run: RunModel, body: Seq<char>, turns: Seq<Turn>)
    requires
        forall|i: int| 0 <= i < turns.len() ==> makes_a_call(#[trigger] turns[i]),
    ensures
        played(MoveModel::FindCall(run, body), events_of_turns(turns)) == Some(
            MoveModel::FindCall(run_after_turns(run, turns), last_reply(body, turns)),
        ),
    decreases turns.len(),
{
    if turns.len() > 0 {
        let rest = turns.skip(1);
        assert forall|i: int| 0 <= i < rest.len() implies makes_a_call(#[trigger] rest[i]) by {
            assert(rest[i] == turns[i + 1]);
        }
        calls_are_answered(run, body, turns[0]);
        turns_go_on(run_after(run, turns[0]), turns[0].reply, rest);
        played_on(
            MoveModel::FindCall(run, body),
            events_of(turns[0]),
            events_of_turns(rest),
        );
        assert(last_reply(turns[0].reply, rest) == last_reply(body, turns)) by {
            if rest.len() > 0 {
                assert(rest.last() == turns.last());
            }
        }
    }
}

/// A run goes on as long as the model makes calls, however many: where Excel is
/// never seen and nothing fails, it is over only once a reply makes no call, and
/// it then ends well, with its log.
pub proof fn computer_use_goes_on_while_there_are_calls(
    run: RunModel,
    body: Seq<char>,
    turns: Seq<Turn>,
    calls: Seq<Seq<char>>,
)
    requires
        forall|i: int| 0 <= i < turns.len() ==> makes_a_call(#[trigger] turns[i]),
        first_value(calls) is None,
    ensures
        played(MoveModel::FindCall(run, body), events_of_turns(turns)) == Some(
            MoveModel::FindCall(run_after_turns(run, turns), last_reply(body, turns)),
        ),
        played(
            MoveModel::FindCall(run, body),
            events_of_turns(turns).push(Happened::Found(Ok(calls))),
        ) == Some(MoveModel::Finished(Ok(ended(run_after_turns(run, turns))))),
{
    turns_go_on(run, body, turns);
    let last = seq![Happened::Found(Ok(calls))];
    played_on(MoveModel::FindCall(run, body), events_of_turns(turns), last);
    assert(events_of_turns(turns) + last =~= events_of_turns(turns).push(
        Happened::Found(Ok(calls)),
    ));
    assert(last.skip(1) =~= Seq::empty());
    let at = MoveModel::FindCall(run_after_turns(run, turns), last_reply(body, turns));
    let over = MoveModel::Finished(Ok(ended(run_after_turns(run, turns))));
    assert(next_move(at, last[0]) == Some(over));
    assert(played(over, last.skip(1)) == Some(over));
}

// ---------------------------------------------------------------------------
// Keyboard and mouse
// ---------------------------------------------------------------------------

/// Only allowed characters are ever typed, and all of those that a text holds.
pub proof fn only_allowed_characters_are_typed(text: Seq<char>)
    ensures
        forall|i: int| 0 <= i < typed(text).len() ==> typeable(#[trigger] typed(text)[i]),
        (forall|i: int| 0 <= i < text.len() ==> typeable(#[trigger] text[i])) ==> typed(text)
            == text,
    decreases text.len(),
{
    let p = |ch: char| typeable(ch);
    assert forall|i: int| 0 <= i < typed(text).len() implies typeable(
        #[trigger] typed(text)[i],
    ) by {
        text.lemma_filter_pred(p, i);
    }
    if forall|i: int| 0 <= i < text.len() ==> typeable(#[trigger] text[i]) {
        reveal(Seq::filter);
        if text.len() > 0 {
            let rest = text.drop_last();
            assert forall|i: int| 0 <= i < rest.len() implies typeable(#[trigger] rest[i]) by {
                assert(rest[i] == text[i]);
            }
            only_allowed_characters_are_typed(rest);
            assert(typed(text) =~= rest.push(text.last()));
            assert(rest.push(text.last()) =~= text);
        } else {
            assert(typed(text) =~= text);
        }
    }
}

/// The actions of a list are carried out in order, up to the first that is in
/// error; its error is the error of the list.
pub proof fn actions_stop_at_the_first_error(lines: Seq<Seq<char>>, more: Seq<Seq<char>>)
    ensures
        plan_of(lines).error is Some ==> plan_of(lines + more) == plan_of(lines),
        plan_of(lines).error is None ==> plan_of(lines + more) == (PlanModel {
            steps: plan_of(lines).steps + plan_of(more).steps,
            error: plan_of(more).error,
        }),
    decreases lines.len(),
{
    if lines.len() == 0 {
        assert(lines + more =~= more);
        assert(plan_of(lines).steps + plan_of(more).steps =~= plan_of(more).steps);
    } else {
        let rest = lines.skip(1);
        assert((lines + more).skip(1) =~= rest + more);
        assert((lines + more)[0] == lines[0]);
        actions_stop_at_the_first_error(rest, more);
        match line_steps(lines[0]) {
            Ok(steps) => {
                assert(steps + (plan_of(rest).steps + plan_of(more).steps) =~= steps + plan_of(
                    rest,
                ).steps + plan_of(more).steps);
            },
            Err(_) => {},
        }
    }
}

/// How many steps of a list are run, and what comes of it, where `done` steps
/// have been run, the last of which ended as `last` says, and step `i` ends as
/// `ends(i)` says.
pub open spec fn carried_out(
    plan: PlanModel,
    ends: spec_fn(int) -> Result<(), Seq<char>>,
    done: int,
    last: Result<(), Seq<char>>,
) -> (int, Result<(), Seq<char>>)
    decreases plan.steps.len() - done,
{
    match step_after(plan, done, last) {
        PlanStepModel::Finished(result) => (done, result),
        PlanStepModel::Run(_) => carried_out(plan, ends, done + 1, ends(done)),
    }
}

/// What comes of a list of which every step ended well.
pub open spec fn list_result(plan: PlanModel) -> Result<(), Seq<char>> {
    match plan.error {
        Some(e) => Err(e),
        None => Ok(()),
    }
}

proof fn carried_out_from(
    plan: PlanModel,
    ends: spec_fn(int) -> Result<(), Seq<char>>,
    done: int,
    last: Result<(), Seq<char>>,
    stop: int,
)
    requires
        0 <= done <= stop <= plan.steps.len(),
        last is Ok,
        forall|i: int| done <= i < stop ==> #[trigger] ends(i) is Ok,
        stop < plan.steps.len() ==> ends(stop) is Err,
    ensures
        carried_out(plan, ends, done, last) == (if stop < plan.steps.len() {
            (stop + 1, ends(stop))
        } else {
            (stop, list_result(plan))
        }),
    decreases stop - done,
{
    if done < stop {
        assert(ends(done) is Ok);
        carried_out_from(plan, ends, done + 1, ends(done), stop);
    } else if stop < plan.steps.len() {
        assert(carried_out(plan, ends, stop + 1, ends(stop)) == (stop + 1, ends(stop)));
    }
}

/// The first step that fails ends a list of actions: its error is the result,
/// before that of a line that could not be read, and no later step is run.
pub proof fn failed_actions_end_the_list(
    plan: PlanModel,
    ends: spec_fn(int) -> Result<(), Seq<char>>,
    failed: int,
)
    requires
        0 <= failed < plan.steps.len(),
        ends(failed) is Err,
        forall|i: int| 0 <= i < failed ==> #[trigger] ends(i) is Ok,
    ensures
        carried_out(plan, ends, 0, Ok(())) == (failed + 1, ends(failed)),
{
    carried_out_from(plan, ends, 0, Ok(()), failed);
}

/// Where no step fails, all steps of a list are run, and the result is the error
/// of the line that could not be read, if there is one.
pub proof fn all_actions_are_carried_out(
    plan: PlanModel,
    ends: spec_fn(int) -> Result<(), Seq<char>>,
)
    requires
        forall|i: int| 0 <= i < plan.steps.len() ==> #[trigger] ends(i) is Ok,
    ensures
        carried_out(plan, ends, 0, Ok(())) == (plan.steps.len() as int, list_result(plan)),
{
    carried_out_from(plan, ends, 0, Ok(()), plan.steps.len() as int);
}

/// Whether every line of a list can be read.
pub open spec fn all_readable(lines: Seq<Seq<char>>) -> bool {
    forall|i: int| 0 <= i < lines.len() ==> #[trigger] line_steps(lines[i]) is Ok
}

proof fn error_of_plan(lines: Seq<Seq<char>>)
    ensures
        plan_of(lines).error is None <==> all_readable(lines),
    decreases lines.len(),
{
    if lines.len() > 0 {
        let rest = lines.skip(1);
        error_of_plan(rest);
        if all_readable(lines) {
            assert forall|i: int| 0 <= i < rest.len() implies #[trigger] line_steps(
                rest[i],
            ) is Ok by {
                assert(line_steps(lines[i + 1]) is Ok);
            }
        }
        if line_steps(lines[0]) is Ok && all_readable(rest) {
            assert forall|i: int| 0 <= i < lines.len() implies #[trigger] line_steps(
                lines[i],
            ) is Ok by {
                if i > 0 {
                    assert(line_steps(rest[i - 1]) is Ok);
                }
            }
        }
    }
}

/// A list of action lines comes to a good end exactly where every line can be
/// read and every step ends well.
pub proof fn lists_end_well_without_errors(
    lines: Seq<Seq<char>>,
    ends: spec_fn(int) -> Result<(), Seq<char>>,
)
    ensures
        carried_out(plan_of(lines), ends, 0, Ok(())).1 is Ok <==> all_readable(lines) && forall|
            i: int,
        |
            0 <= i < plan_of(lines).steps.len() ==> #[trigger] ends(i) is Ok,
{
    let plan = plan_of(lines);
    error_of_plan(lines);
    if forall|i: int| 0 <= i < plan.steps.len() ==> #[trigger] ends(i) is Ok {
        all_actions_are_carried_out(plan, ends);
    } else {
        let some = choose|i: int| 0 <= i < plan.steps.len() && !(#[trigger] ends(i) is Ok);
        let failed = first_failure(ends, 0, some);
        failed_actions_end_the_list(plan, ends, failed);
    }
}

/// The first step that fails, no earlier than `from`.
proof fn first_failure(ends: spec_fn(int) -> Result<(), Seq<char>>, from: int, some: int) -> (r: int)
    requires
        from <= some,
        ends(some) is Err,
    ensures
        from <= r <= some,
        ends(r) is Err,
        forall|i: int| from <= i < r ==> #[trigger] ends(i) is Ok,
    decreases some - from,
{
    if ends(from) is Err {
        from
    } else {
        first_failure(ends, from + 1, some)
    }
}

// ---------------------------------------------------------------------------
// Paths
// ---------------------------------------------------------------------------

/// Whether a path is in one of the two places that Windows can reach.
pub open spec fn reachable(path: Seq<char>) -> bool {
    begins_with(path, "/mnt/c/"@) || begins_with(path, "/tmp/"@)
}

/// Exactly the paths in the two places that Windows can reach have a Windows
/// form, and it holds no slash.
pub proof fn windows_paths_have_no_slash(path: Seq<char>)
    ensures
        windows_path(path) is Some <==> reachable(path),
        windows_path(path) matches Some(target) ==> !target.contains('/'),
{
    reveal_strlit("C:\\");
    reveal_strlit("\\\\wsl.localhost\\Ubuntu\\tmp\\");
    match windows_path(path) {
        Some(target) => {
            assert forall|i: int| 0 <= i < target.len() implies target[i] != '/' by {}
        },
        None => {},
    }
}

} // verus!
