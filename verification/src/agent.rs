//! The agent: it runs beside Windows, and opens programs and pages for those
//! who know the token.
use vstd::prelude::*;

use crate::bridge::{
    bridge_token, clean_route, microsoft_office_viewer_url, route_below, route_prefix, token_text,
    viewer_address,
};
use crate::computer::NO_API_KEY;
use crate::http::{
    field, text, text_response, HttpRequest, RequestModel, Response, ResponseModel,
};
use crate::openai::{
    classify_payload, model_name, no_action, openai_model, openai_output_area, output_area,
    report_no_action, write_classify_payload,
};
use crate::text::{
    as_str, chars_of, copy_text, has_text, mentions, optional, optional_str, result_text,
    same_text, text_of_bytes,
};
use crate::url::{form_value, parameter, path_parameter, query_value};
use crate::windows::{
    csv_launch, excel_web_launch, launch_text, office_viewer_source_url, open_google_sheets,
    open_microsoft_excel_web, plan_csv, plan_viewer, sheets_launch, viewer_launch, viewer_source,
    CsvWrite, Launch, LaunchModel, Opening,
    OpeningModel, OPEN_EXCEL_COMMAND,
};

verus! {

/// The settings of the agent, each as it is set, if it is.
#[derive(Debug)]
pub struct AgentSettings {
    pub token: Option<String>,
    pub path_prefix: Option<String>,
    pub google_sheets_url: Option<String>,
    pub excel_web_url: Option<String>,
    pub viewer_source: Option<String>,
}

/// The settings of the agent.
pub struct AgentSettingsModel {
    pub token: Option<Seq<char>>,
    pub path_prefix: Option<Seq<char>>,
    pub google_sheets_url: Option<Seq<char>>,
    pub excel_web_url: Option<Seq<char>>,
    pub viewer_source: Option<Seq<char>>,
}

impl View for AgentSettings {
    type V = AgentSettingsModel;

    open spec fn view(&self) -> AgentSettingsModel {
        AgentSettingsModel {
            token: optional(self.token),
            path_prefix: optional(self.path_prefix),
            google_sheets_url: optional(self.google_sheets_url),
            excel_web_url: optional(self.excel_web_url),
            viewer_source: optional(self.viewer_source),
        }
    }
}

// ---------------------------------------------------------------------------
// What may be opened
// ---------------------------------------------------------------------------

/// What the agent opens.
#[derive(Debug)]
pub enum Target {
    Excel,
    Csv,
    GoogleSheets,
    ExcelWeb,
    /// The viewer, with the document that was asked for.
    Viewer(Option<String>),
}

/// What the agent opens.
pub enum TargetModel {
    Excel,
    Csv,
    GoogleSheets,
    ExcelWeb,
    Viewer(Option<Seq<char>>),
}

impl View for Target {
    type V = TargetModel;

    open spec fn view(&self) -> TargetModel {
        match *self {
            Target::Excel => TargetModel::Excel,
            Target::Csv => TargetModel::Csv,
            Target::GoogleSheets => TargetModel::GoogleSheets,
            Target::ExcelWeb => TargetModel::ExcelWeb,
            Target::Viewer(src) => TargetModel::Viewer(optional(src)),
        }
    }
}

/// The name of an action in the replies of the agent.
pub open spec fn action_name(target: TargetModel) -> Seq<char> {
    match target {
        TargetModel::Excel => "OPEN_EXCEL"@,
        TargetModel::Csv => "OPEN_CSV"@,
        TargetModel::GoogleSheets => "OPEN_GOOGLE_SHEETS"@,
        TargetModel::ExcelWeb => "OPEN_MICROSOFT_EXCEL_WEB"@,
        TargetModel::Viewer(_) => "OPEN_MICROSOFT_OFFICE_VIEWER"@,
    }
}

fn name_action(target: &Target) -> (r: &'static str)
    ensures
        r@ == action_name(target@),
{
    match target {
        Target::Excel => "OPEN_EXCEL",
        Target::Csv => "OPEN_CSV",
        Target::GoogleSheets => "OPEN_GOOGLE_SHEETS",
        Target::ExcelWeb => "OPEN_MICROSOFT_EXCEL_WEB",
        Target::Viewer(_) => "OPEN_MICROSOFT_OFFICE_VIEWER",
    }
}

/// What opening Excel takes.
pub open spec fn excel_launch() -> LaunchModel {
    LaunchModel {
        command: OPEN_EXCEL_COMMAND@,
        message: "로컬 Windows Excel 실행 요청을 보냈습니다.\n"@,
    }
}

/// Plans the opening of Excel.
pub fn open_blank_excel() -> (r: Launch)
    ensures
        r@ == excel_launch(),
{
    Launch {
        command: copy_text(OPEN_EXCEL_COMMAND),
        message: copy_text("로컬 Windows Excel 실행 요청을 보냈습니다.\n"),
    }
}

/// What is said once the sample table has been opened.
pub const CSV_OPENED: &'static str = "CSV를 만들고 로컬 Excel 실행 요청을 보냈습니다.";

/// Plans the opening of the sample table, once it was written or not.
pub fn create_csv_and_open(path: &str, shown: &str, write: &CsvWrite) -> (r: Result<
    Launch,
    String,
>)
    ensures
        launch_text(r) == csv_launch(path@, shown@, *write, CSV_OPENED@),
{
    plan_csv(path, shown, write, CSV_OPENED)
}

/// What viewing a document takes.
pub open spec fn document_launch(asked: Option<Seq<char>>, configured: Option<Seq<char>>) -> Result<
    LaunchModel,
    Seq<char>,
> {
    match viewer_source(asked, configured) {
        Ok(source) => Ok(viewer_launch(source, viewer_address(source))),
        Err(e) => Err(e),
    }
}

/// Plans the viewing of a document.
pub fn open_microsoft_office_viewer(explicit_src: Option<&str>, configured: Option<&str>) -> (r:
    Result<Launch, String>)
    ensures
        launch_text(r) == document_launch(optional_str(explicit_src), optional_str(configured)),
{
    match office_viewer_source_url(explicit_src, configured) {
        Ok(source) => {
            let url = microsoft_office_viewer_url(source.as_str());
            Ok(plan_viewer(source.as_str(), url.as_str()))
        },
        Err(e) => Err(e),
    }
}

/// How the agent opens a target.
pub open spec fn opening_of(target: TargetModel, settings: AgentSettingsModel) -> OpeningModel {
    match target {
        TargetModel::Excel => OpeningModel::Launch(excel_launch()),
        TargetModel::Csv => OpeningModel::WriteCsv,
        TargetModel::GoogleSheets => OpeningModel::Launch(
            sheets_launch(settings.google_sheets_url),
        ),
        TargetModel::ExcelWeb => OpeningModel::Launch(excel_web_launch(settings.excel_web_url)),
        TargetModel::Viewer(asked) => match document_launch(asked, settings.viewer_source) {
            Ok(launch) => OpeningModel::Launch(launch),
            Err(e) => OpeningModel::Refused(e),
        },
    }
}

/// Plans the opening of a target.
pub fn open_target(target: &Target, settings: &AgentSettings) -> (r: Opening)
    ensures
        r@ == opening_of(target@, settings@),
{
    match target {
        Target::Excel => Opening::Launch(open_blank_excel()),
        Target::Csv => Opening::WriteCsv,
        Target::GoogleSheets => Opening::Launch(
            open_google_sheets(as_str(&settings.google_sheets_url)),
        ),
        Target::ExcelWeb => Opening::Launch(
            open_microsoft_excel_web(as_str(&settings.excel_web_url)),
        ),
        Target::Viewer(asked) => {
            match open_microsoft_office_viewer(as_str(asked), as_str(&settings.viewer_source)) {
                Ok(launch) => Opening::Launch(launch),
                Err(e) => Opening::Refused(e),
            }
        },
    }
}

// ---------------------------------------------------------------------------
// Requests
// ---------------------------------------------------------------------------

/// Whether a request carries the token: in its header, or as a parameter of
/// its path.
pub open spec fn carries_token(request: RequestModel, token: Seq<char>) -> bool {
    ||| field(request.headers, "x-excel-bridge-token"@) == Some(token)
    ||| path_parameter(request.path, "token"@) == Some(token)
}

/// Whether a request carries the token, given its setting.
pub fn authorized(request: &HttpRequest, token: Option<&str>) -> (r: bool)
    ensures
        r == carries_token(request@, token_text(optional_str(token))),
{
    let expected = bridge_token(token);
    match request.headers.get("x-excel-bridge-token") {
        Some(value) => {
            if same_text(value, expected) {
                return true;
            }
        },
        None => {},
    }
    match query_value(request.path.as_str(), "token") {
        Some(value) => same_text(value.as_str(), expected),
        None => false,
    }
}

/// What the agent serves.
#[derive(Debug, Clone, Copy)]
pub enum Endpoint {
    Health,
    Run,
    RunComputer,
    OpenExcel,
    OpenGoogleSheets,
    OpenExcelWeb,
    OpenViewer,
}

/// The endpoint that a method and a route name.
pub open spec fn endpoint_of(method: Seq<char>, route: Seq<char>) -> Option<Endpoint> {
    let get = method == "GET"@;
    let post = method == "POST"@;
    if get && route == "/health"@ {
        Some(Endpoint::Health)
    } else if (post || get) && route == "/run"@ {
        Some(Endpoint::Run)
    } else if (post || get) && route == "/run-computer"@ {
        Some(Endpoint::RunComputer)
    } else if get && route == "/open-excel"@ {
        Some(Endpoint::OpenExcel)
    } else if (post || get) && route == "/open-google-sheets"@ {
        Some(Endpoint::OpenGoogleSheets)
    } else if (post || get) && route == "/open-ms-excel-web"@ {
        Some(Endpoint::OpenExcelWeb)
    } else if (post || get) && route == "/open-ms-office-viewer"@ {
        Some(Endpoint::OpenViewer)
    } else {
        None
    }
}

/// Finds the endpoint that a method and a route name.
pub fn find_endpoint(method: &str, route: &str) -> (r: Option<Endpoint>)
    ensures
        r == endpoint_of(method@, route@),
{
    let get = same_text(method, "GET");
    let post = same_text(method, "POST");
    if get && same_text(route, "/health") {
        Some(Endpoint::Health)
    } else if (post || get) && same_text(route, "/run") {
        Some(Endpoint::Run)
    } else if (post || get) && same_text(route, "/run-computer") {
        Some(Endpoint::RunComputer)
    } else if get && same_text(route, "/open-excel") {
        Some(Endpoint::OpenExcel)
    } else if (post || get) && same_text(route, "/open-google-sheets") {
        Some(Endpoint::OpenGoogleSheets)
    } else if (post || get) && same_text(route, "/open-ms-excel-web") {
        Some(Endpoint::OpenExcelWeb)
    } else if (post || get) && same_text(route, "/open-ms-office-viewer") {
        Some(Endpoint::OpenViewer)
    } else {
        None
    }
}

/// What the agent does about a request.
pub enum AgentStepModel {
    Respond(ResponseModel),
    Classify(Seq<char>),
    UseComputer(Seq<char>),
    Open(TargetModel),
}

/// What the agent does about a request.
#[derive(Debug)]
pub enum AgentStep {
    /// It answers at once.
    Respond(Response),
    /// It has the prompt classified, then [`agent_execute_prompt`].
    Classify(String),
    /// It lets the model use the computer for the prompt, then
    /// [`agent_execute_prompt_computer_use`].
    UseComputer(String),
    /// It opens the target, then [`agent_open_response`].
    Open(Target),
}

impl View for AgentStep {
    type V = AgentStepModel;

    open spec fn view(&self) -> AgentStepModel {
        match *self {
            AgentStep::Respond(response) => AgentStepModel::Respond(response@),
            AgentStep::Classify(prompt) => AgentStepModel::Classify(prompt@),
            AgentStep::UseComputer(prompt) => AgentStepModel::UseComputer(prompt@),
            AgentStep::Open(target) => AgentStepModel::Open(target@),
        }
    }
}

/// A parameter of a request: of its form, or else of its path.
pub open spec fn request_parameter(request: RequestModel, name: Seq<char>) -> Option<Seq<char>> {
    match parameter(text_of_bytes(request.body), name) {
        Some(value) => Some(value),
        None => path_parameter(request.path, name),
    }
}

/// Looks a parameter of a request up.
pub fn find_parameter(request: &HttpRequest, name: &str) -> (r: Option<String>)
    ensures
        optional(r) == request_parameter(request@, name@),
{
    match form_value(request.body.as_slice(), name) {
        Some(value) => Some(value),
        None => query_value(request.path.as_str(), name),
    }
}

/// The prompt that stands for none.
pub const DEFAULT_PROMPT: &'static str = "엑셀 실행해줘";

/// The prompt of a request.
pub open spec fn prompt_of(request: RequestModel) -> Seq<char> {
    match request_parameter(request, "prompt"@) {
        Some(prompt) => prompt,
        None => DEFAULT_PROMPT@,
    }
}

fn find_prompt(request: &HttpRequest) -> (r: String)
    ensures
        r@ == prompt_of(request@),
{
    match find_parameter(request, "prompt") {
        Some(prompt) => prompt,
        None => copy_text(DEFAULT_PROMPT),
    }
}

/// What is answered to a request without the token.
pub open spec fn refusal() -> ResponseModel {
    text_response("401 Unauthorized"@, "unauthorized\n"@)
}

/// What the agent does for an endpoint once the token has been shown.
pub open spec fn endpoint_step(endpoint: Endpoint, request: RequestModel) -> AgentStepModel {
    match endpoint {
        Endpoint::Health => AgentStepModel::Respond(text_response("200 OK"@, "agent ok\n"@)),
        Endpoint::Run => AgentStepModel::Classify(prompt_of(request)),
        Endpoint::RunComputer => AgentStepModel::UseComputer(prompt_of(request)),
        Endpoint::OpenExcel => AgentStepModel::Open(TargetModel::Excel),
        Endpoint::OpenGoogleSheets => AgentStepModel::Open(TargetModel::GoogleSheets),
        Endpoint::OpenExcelWeb => AgentStepModel::Open(TargetModel::ExcelWeb),
        Endpoint::OpenViewer => AgentStepModel::Open(
            TargetModel::Viewer(request_parameter(request, "src"@)),
        ),
    }
}

/// What the agent does about a request. Only the health check needs no token.
pub open spec fn agent_step(request: RequestModel, settings: AgentSettingsModel) -> AgentStepModel {
    let route = route_below(route_prefix(settings.path_prefix), request.path);
    match endpoint_of(request.method, route) {
        None => AgentStepModel::Respond(text_response("404 Not Found"@, "not found\n"@)),
        Some(endpoint) => if endpoint != Endpoint::Health && !carries_token(
            request,
            token_text(settings.token),
        ) {
            AgentStepModel::Respond(refusal())
        } else {
            endpoint_step(endpoint, request)
        },
    }
}

/// Decides what the agent does about a request.
pub fn agent_route(request: &HttpRequest, settings: &AgentSettings) -> (r: AgentStep)
    ensures
        r@ == agent_step(request@, settings@),
{
    let route = clean_route(request.path.as_str(), as_str(&settings.path_prefix));
    match find_endpoint(request.method.as_str(), route) {
        None => AgentStep::Respond(text("404 Not Found", "not found\n")),
        Some(endpoint) => {
            let open = match endpoint {
                Endpoint::Health => true,
                _ => false,
            };
            if !open && !authorized(request, as_str(&settings.token)) {
                return AgentStep::Respond(text("401 Unauthorized", "unauthorized\n"));
            }
            match endpoint {
                Endpoint::Health => AgentStep::Respond(text("200 OK", "agent ok\n")),
                Endpoint::Run => AgentStep::Classify(find_prompt(request)),
                Endpoint::RunComputer => AgentStep::UseComputer(find_prompt(request)),
                Endpoint::OpenExcel => AgentStep::Open(Target::Excel),
                Endpoint::OpenGoogleSheets => AgentStep::Open(Target::GoogleSheets),
                Endpoint::OpenExcelWeb => AgentStep::Open(Target::ExcelWeb),
                Endpoint::OpenViewer => AgentStep::Open(
                    Target::Viewer(find_parameter(request, "src")),
                ),
            }
        },
    }
}

/// What is answered once something has been opened, or not.
pub open spec fn open_answer(target: TargetModel, result: Result<Seq<char>, Seq<char>>) -> ResponseModel {
    match result {
        Ok(message) => text_response(
            "200 OK"@,
            "agent action="@ + action_name(target) + "\n"@ + message,
        ),
        Err(e) => text_response("500 Internal Server Error"@, e),
    }
}

/// Answers a request to open something.
pub fn agent_open_response(target: &Target, result: &Result<String, String>) -> (r: Response)
    ensures
        r@ == open_answer(target@, result_text(*result)),
{
    match result {
        Ok(message) => {
            let mut body = copy_text("agent action=");
            body.append(name_action(target));
            body.append("\n");
            body.append(message.as_str());
            text("200 OK", body.as_str())
        },
        Err(e) => text("500 Internal Server Error", e.as_str()),
    }
}

// ---------------------------------------------------------------------------
// Prompts
// ---------------------------------------------------------------------------

/// What a prompt asks for.
#[derive(Debug, Clone, Copy)]
pub enum PromptAction {
    OpenExcel,
    OpenCsv,
    OpenGoogleSheets,
    OpenMicrosoftExcelWeb,
    OpenMicrosoftOfficeViewer,
    Deny,
}

/// What the model is told about classifying a prompt.
pub const INSTRUCTIONS: &'static str =
    "한국어 명령 분류기. 한 단어만 출력: OPEN_EXCEL, OPEN_CSV, OPEN_GOOGLE_SHEETS, OPEN_MICROSOFT_EXCEL_WEB, OPEN_MICROSOFT_OFFICE_VIEWER, DENY. 엑셀 실행/열기/켜줘는 OPEN_EXCEL. CSV/표 데이터/샘플 CSV는 OPEN_CSV. 구글 스프레드시트/구글시트/Google Sheets는 OPEN_GOOGLE_SHEETS. 마이크로소프트 웹용 엑셀/Excel for the web/Microsoft 365 Excel/웹 엑셀은 OPEN_MICROSOFT_EXCEL_WEB. MS Office Web Viewer/Office Web Viewer/엑셀 웹 뷰어/웹용 엑셀 뷰어/뷰어로 보기 요청은 OPEN_MICROSOFT_OFFICE_VIEWER. 나머지는 DENY.";

/// What is sent to have a prompt classified; it needs an API key.
pub open spec fn classification(
    has_key: bool,
    model: Option<Seq<char>>,
    prompt: Seq<char>,
) -> Result<Seq<char>, Seq<char>> {
    if has_key {
        Ok(classify_payload(model_name(model), INSTRUCTIONS@, prompt))
    } else {
        Err(NO_API_KEY@)
    }
}

/// Writes what is sent to have a prompt classified, given the setting of the
/// model. The reply is read by [`read_decision`].
pub fn classify_prompt_with_openai(has_key: bool, model: Option<&str>, prompt: &str) -> (r: Result<
    String,
    String,
>)
    ensures
        result_text(r) == classification(has_key, optional_str(model), prompt@),
{
    if has_key {
        let name = openai_model(model);
        Ok(write_classify_payload(name.as_str(), INSTRUCTIONS, prompt))
    } else {
        Err(copy_text(NO_API_KEY))
    }
}

/// The action that a reply names.
pub open spec fn decision(body: Seq<char>) -> Result<PromptAction, Seq<char>> {
    let area = output_area(body);
    if mentions(area, "OPEN_MICROSOFT_OFFICE_VIEWER"@) {
        Ok(PromptAction::OpenMicrosoftOfficeViewer)
    } else if mentions(area, "OPEN_MICROSOFT_EXCEL_WEB"@) {
        Ok(PromptAction::OpenMicrosoftExcelWeb)
    } else if mentions(area, "OPEN_GOOGLE_SHEETS"@) {
        Ok(PromptAction::OpenGoogleSheets)
    } else if mentions(area, "OPEN_CSV"@) {
        Ok(PromptAction::OpenCsv)
    } else if mentions(area, "OPEN_EXCEL"@) {
        Ok(PromptAction::OpenExcel)
    } else if mentions(area, "DENY"@) {
        Ok(PromptAction::Deny)
    } else {
        Err(no_action(body))
    }
}

/// An action or the text of an error.
pub open spec fn decision_text(value: Result<PromptAction, String>) -> Result<
    PromptAction,
    Seq<char>,
> {
    match value {
        Ok(action) => Ok(action),
        Err(e) => Err(e@),
    }
}

/// Reads the action that a reply names.
fn find_decision(body: &str) -> (r: Result<PromptAction, String>)
    ensures
        decision_text(r) == decision(body@),
{
    let area = chars_of(openai_output_area(body));
    if has_text(area.as_slice(), "OPEN_MICROSOFT_OFFICE_VIEWER") {
        Ok(PromptAction::OpenMicrosoftOfficeViewer)
    } else if has_text(area.as_slice(), "OPEN_MICROSOFT_EXCEL_WEB") {
        Ok(PromptAction::OpenMicrosoftExcelWeb)
    } else if has_text(area.as_slice(), "OPEN_GOOGLE_SHEETS") {
        Ok(PromptAction::OpenGoogleSheets)
    } else if has_text(area.as_slice(), "OPEN_CSV") {
        Ok(PromptAction::OpenCsv)
    } else if has_text(area.as_slice(), "OPEN_EXCEL") {
        Ok(PromptAction::OpenExcel)
    } else if has_text(area.as_slice(), "DENY") {
        Ok(PromptAction::Deny)
    } else {
        Err(report_no_action(body))
    }
}

/// What comes of asking the model about a prompt.
pub open spec fn classified_as(reply: Result<Seq<char>, Seq<char>>) -> Result<
    PromptAction,
    Seq<char>,
> {
    match reply {
        Ok(body) => decision(body),
        Err(e) => Err(e),
    }
}

/// Reads the action that a reply names; a call that failed keeps its error.
pub fn read_decision(reply: &Result<String, String>) -> (r: Result<PromptAction, String>)
    ensures
        decision_text(r) == classified_as(result_text(*reply)),
{
    match reply {
        Ok(body) => find_decision(body.as_str()),
        Err(e) => Err(copy_text(e.as_str())),
    }
}

/// What the agent does about a classified prompt: it answers at once, or opens
/// something.
pub open spec fn prompt_step(prompt: Seq<char>, classified: Result<PromptAction, Seq<char>>) -> AgentStepModel {
    match classified {
        Ok(PromptAction::OpenExcel) => AgentStepModel::Open(TargetModel::Excel),
        Ok(PromptAction::OpenCsv) => AgentStepModel::Open(TargetModel::Csv),
        Ok(PromptAction::OpenGoogleSheets) => AgentStepModel::Open(TargetModel::GoogleSheets),
        Ok(PromptAction::OpenMicrosoftExcelWeb) => AgentStepModel::Open(TargetModel::ExcelWeb),
        Ok(PromptAction::OpenMicrosoftOfficeViewer) => AgentStepModel::Open(
            TargetModel::Viewer(None),
        ),
        Ok(PromptAction::Deny) => AgentStepModel::Respond(
            text_response(
                "200 OK"@,
                "agent action=DENY\nprompt="@ + prompt
                    + "\nExcel 실행 요청으로 판단하지 않았습니다.\n"@,
            ),
        ),
        Err(e) => AgentStepModel::Respond(
            text_response("500 Internal Server Error"@, "OpenAI API 실패: "@ + e + "\n"@),
        ),
    }
}

/// Decides what the agent does about a classified prompt. What it opens is
/// answered with [`agent_prompt_response`].
pub fn agent_execute_prompt(prompt: &str, classified: &Result<PromptAction, String>) -> (r: AgentStep)
    ensures
        r@ == prompt_step(prompt@, decision_text(*classified)),
{
    match classified {
        Ok(PromptAction::OpenExcel) => AgentStep::Open(Target::Excel),
        Ok(PromptAction::OpenCsv) => AgentStep::Open(Target::Csv),
        Ok(PromptAction::OpenGoogleSheets) => AgentStep::Open(Target::GoogleSheets),
        Ok(PromptAction::OpenMicrosoftExcelWeb) => AgentStep::Open(Target::ExcelWeb),
        Ok(PromptAction::OpenMicrosoftOfficeViewer) => AgentStep::Open(Target::Viewer(None)),
        Ok(PromptAction::Deny) => {
            let mut body = copy_text("agent action=DENY\nprompt=");
            body.append(prompt);
            body.append("\nExcel 실행 요청으로 판단하지 않았습니다.\n");
            AgentStep::Respond(text("200 OK", body.as_str()))
        },
        Err(e) => {
            let mut body = copy_text("OpenAI API 실패: ");
            body.append(e.as_str());
            body.append("\n");
            AgentStep::Respond(text("500 Internal Server Error", body.as_str()))
        },
    }
}

/// What is answered to a prompt once something has been opened, or not.
pub open spec fn prompt_answer(
    target: TargetModel,
    prompt: Seq<char>,
    result: Result<Seq<char>, Seq<char>>,
) -> ResponseModel {
    match result {
        Ok(message) => text_response(
            "200 OK"@,
            "agent action="@ + action_name(target) + "\nprompt="@ + prompt + "\n"@ + message,
        ),
        Err(e) => text_response("500 Internal Server Error"@, e),
    }
}

/// Answers a prompt that opened something.
pub fn agent_prompt_response(target: &Target, prompt: &str, result: &Result<String, String>) -> (r:
    Response)
    ensures
        r@ == prompt_answer(target@, prompt@, result_text(*result)),
{
    match result {
        Ok(message) => {
            let mut body = copy_text("agent action=");
            body.append(name_action(target));
            body.append("\nprompt=");
            body.append(prompt);
            body.append("\n");
            body.append(message.as_str());
            text("200 OK", body.as_str())
        },
        Err(e) => text("500 Internal Server Error", e.as_str()),
    }
}

/// What is answered once the model has used the computer.
pub open spec fn computer_answer(result: Result<Seq<char>, Seq<char>>) -> ResponseModel {
    match result {
        Ok(log) => text_response("200 OK"@, log),
        Err(e) => text_response(
            "500 Internal Server Error"@,
            "computer use 실패: "@ + e + "\n"@,
        ),
    }
}

/// Answers a prompt for which the model has used the computer.
pub fn agent_execute_prompt_computer_use(result: &Result<String, String>) -> (r: Response)
    ensures
        r@ == computer_answer(result_text(*result)),
{
    match result {
        Ok(log) => text("200 OK", log.as_str()),
        Err(e) => {
            let mut body = copy_text("computer use 실패: ");
            body.append(e.as_str());
            body.append("\n");
            text("500 Internal Server Error", body.as_str())
        },
    }
}

} // verus!
