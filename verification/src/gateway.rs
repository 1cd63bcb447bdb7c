//! The gateway: it shows pages to a browser far away, and passes requests on
//! to the agent. It opens nothing itself.
use vstd::prelude::*;
use vstd::slice::slice_to_vec;

use crate::agent::{find_parameter, request_parameter};
use crate::bridge::{
    bridge_token, clean_route, gateway_path, path_below, route_below, route_prefix, token_text,
};
use crate::escape::{
    curl_config_string, curl_quoted, html_escape, html_escaped, truncate, truncated,
};
use crate::http::{
    binary, field, html, html_response, text, text_response, HttpRequest, RequestModel, Response,
    ResponseModel,
};
use crate::process::{complaint, output_text, report_failure, run_failure, ProcessRun};
use crate::text::{
    as_str, chars_of, copy_text, optional, optional_str, result_text, same_text, string_of,
    text_from_bytes, text_of_bytes, trim, trim_end_of, trim_text, trimmed, trimmed_end_of,
};
use crate::url::{field_texts, form_body, form_text, form_value, parameter};

verus! {

/// The settings of the gateway, each as it is set, if it is.
#[derive(Debug)]
pub struct GatewaySettings {
    pub token: Option<String>,
    pub path_prefix: Option<String>,
    pub public_url: Option<String>,
}

/// The settings of the gateway.
pub struct GatewaySettingsModel {
    pub token: Option<Seq<char>>,
    pub path_prefix: Option<Seq<char>>,
    pub public_url: Option<Seq<char>>,
}

impl View for GatewaySettings {
    type V = GatewaySettingsModel;

    open spec fn view(&self) -> GatewaySettingsModel {
        GatewaySettingsModel {
            token: optional(self.token),
            path_prefix: optional(self.path_prefix),
            public_url: optional(self.public_url),
        }
    }
}

// ---------------------------------------------------------------------------
// Pages
// ---------------------------------------------------------------------------

/// The page of the gateway, up to the address of the agent.
pub const INDEX_START: &'static str = r#"<!doctype html>
<html lang="ko">
<head>
  <meta charset="utf-8">
  <meta name="viewport" content="width=device-width, initial-scale=1">
  <title>Vultr Tailscale Spreadsheet Gateway</title>
  <style>
    body { margin: 0; font-family: system-ui, -apple-system, "Segoe UI", "Malgun Gothic", sans-serif; color: #111827; background: #f5f7fb; }
    main { width: min(880px, calc(100vw - 32px)); margin: 48px auto; background: #fff; border: 1px solid #d7dde8; border-radius: 8px; padding: 28px; box-shadow: 0 16px 36px rgba(31, 41, 55, .08); }
    h1 { margin: 0 0 8px; font-size: 28px; letter-spacing: 0; }
    p, label { line-height: 1.55; color: #4b5563; }
    label { display: block; margin: 22px 0 8px; font-weight: 700; color: #111827; }
    input { box-sizing: border-box; width: 100%; min-height: 44px; padding: 0 12px; border: 1px solid #b8c1d1; border-radius: 6px; font-size: 16px; }
    button { min-height: 42px; padding: 0 16px; border: 1px solid #1f4f8f; border-radius: 6px; background: #2563eb; color: #fff; font-weight: 650; cursor: pointer; font-size: 15px; }
    code { background: #eef2f7; padding: 2px 5px; border-radius: 4px; }
  </style>
</head>
<body>
  <main>
    <h1>Vultr에서 Tailscale로 Excel / Google Sheets 실행</h1>
    <p>
      이 화면은 Vultr 노드의 gateway가 제공합니다. 버튼을 누르면 Vultr가 Tailscale 주소
      <code>"#;

/// The page of the gateway, up to the path of the prompt form.
pub const INDEX_AFTER_AGENT: &'static str = r#"</code>의 WSL local agent에 요청하고, local agent가 allowlist된 Excel 또는 Google Sheets 액션을 실행합니다.
    </p>
    <form method="post" action=""#;

/// The page of the gateway, up to the path of the computer form.
pub const INDEX_AFTER_PROMPT: &'static str = r#"">
      <label for="prompt">한글 프롬프트</label>
      <input id="prompt" name="prompt" value="엑셀 실행해줘" autocomplete="off">
      <p><button type="submit">Vultr에서 로컬 PC Excel 실행</button></p>
    </form>
    <form method="post" action=""#;

/// The page of the gateway, up to the path of the Google Sheets form.
pub const INDEX_AFTER_COMPUTER: &'static str = r#"">
      <input name="prompt" value="엑셀 실행해줘" type="hidden">
      <p><button type="submit">OpenAI Computer Use로 Excel 실행</button></p>
    </form>
    <form method="post" action=""#;

/// The page of the gateway, up to the path of the Excel web form.
pub const INDEX_AFTER_SHEETS: &'static str = r#"">
      <p><button type="submit">Google Sheets 새 스프레드시트 열기</button></p>
    </form>
    <form method="post" action=""#;

/// The page of the gateway, up to the path of the viewer form.
pub const INDEX_AFTER_EXCEL_WEB: &'static str = r#"">
      <p><button type="submit">Microsoft Excel for the web 열기</button></p>
    </form>
    <form method="post" action=""#;

/// The end of the page of the gateway.
pub const INDEX_END: &'static str = r#"">
      <p><button type="submit">Microsoft Office Web Viewer로 샘플 .xlsx 보기</button></p>
    </form>
  </main>
</body>
</html>
"#;

/// A page of results, up to its title.
pub const RESULT_START: &'static str = r#"<!doctype html>
<html lang="ko">
<head>
  <meta charset="utf-8">
  <meta name="viewport" content="width=device-width, initial-scale=1">
  <title>실행 결과</title>
  <style>
    body { margin: 0; font-family: system-ui, -apple-system, "Segoe UI", "Malgun Gothic", sans-serif; color: #111827; background: #f5f7fb; }
    main { width: min(820px, calc(100vw - 32px)); margin: 48px auto; background: #fff; border: 1px solid #d7dde8; border-radius: 8px; padding: 28px; box-shadow: 0 16px 36px rgba(31, 41, 55, .08); }
    h1 { margin: 0 0 10px; font-size: 26px; letter-spacing: 0; }
    p { line-height: 1.55; color: #4b5563; }
    code { background: #eef2f7; padding: 2px 5px; border-radius: 4px; }
    pre { white-space: pre-wrap; overflow-wrap: anywhere; background: #111827; color: #f9fafb; padding: 14px; border-radius: 6px; }
    a { display: inline-flex; align-items: center; justify-content: center; min-height: 40px; padding: 0 14px; border-radius: 6px; background: #2563eb; color: white; text-decoration: none; font-weight: 650; }
  </style>
</head>
<body>
  <main>
    <h1>"#;

/// A page of results, up to the address of the agent.
pub const RESULT_AFTER_TITLE: &'static str = r#"</h1>
    <p><strong>경로:</strong> Vultr gateway -> Tailscale -> WSL local agent -> allowlist action</p>
    <p><strong>Agent:</strong> <code>"#;

/// A page of results, up to the prompt.
pub const RESULT_AFTER_AGENT: &'static str = r#"</code></p>
    "#;

/// A page of results, up to the message.
pub const RESULT_AFTER_PROMPT: &'static str = r#"
    <pre>"#;

/// A page of results, up to the path of the first page.
pub const RESULT_AFTER_MESSAGE: &'static str = r#"</pre>
    <a href=""#;

/// The end of a page of results.
pub const RESULT_END: &'static str = r#"">돌아가기</a>
  </main>
</body>
</html>
"#;

/// The first page of the gateway, with its forms below the prefix.
pub open spec fn index_page(agent_url: Seq<char>, prefix: Seq<char>) -> Seq<char> {
    INDEX_START@ + html_escaped(agent_url) + INDEX_AFTER_AGENT@ + html_escaped(
        path_below(prefix, "/prompt"@),
    ) + INDEX_AFTER_PROMPT@ + html_escaped(path_below(prefix, "/prompt-computer"@))
        + INDEX_AFTER_COMPUTER@ + html_escaped(path_below(prefix, "/open-google-sheets"@))
        + INDEX_AFTER_SHEETS@ + html_escaped(path_below(prefix, "/open-ms-excel-web"@))
        + INDEX_AFTER_EXCEL_WEB@ + html_escaped(path_below(prefix, "/open-ms-office-viewer"@))
        + INDEX_END@
}

/// Writes the path of a route for a page.
fn escaped_path(route: &str, path_prefix: Option<&str>) -> (r: String)
    ensures
        r@ == html_escaped(path_below(route_prefix(optional_str(path_prefix)), route@)),
{
    let path = gateway_path(route, path_prefix);
    html_escape(path.as_str())
}

/// Writes the first page of the gateway.
pub fn gateway_index(agent_url: &str, path_prefix: Option<&str>) -> (r: String)
    ensures
        r@ == index_page(agent_url@, route_prefix(optional_str(path_prefix))),
{
    let mut out = copy_text(INDEX_START);
    out.append(html_escape(agent_url).as_str());
    out.append(INDEX_AFTER_AGENT);
    out.append(escaped_path("/prompt", path_prefix).as_str());
    out.append(INDEX_AFTER_PROMPT);
    out.append(escaped_path("/prompt-computer", path_prefix).as_str());
    out.append(INDEX_AFTER_COMPUTER);
    out.append(escaped_path("/open-google-sheets", path_prefix).as_str());
    out.append(INDEX_AFTER_SHEETS);
    out.append(escaped_path("/open-ms-excel-web", path_prefix).as_str());
    out.append(INDEX_AFTER_EXCEL_WEB);
    out.append(escaped_path("/open-ms-office-viewer", path_prefix).as_str());
    out.append(INDEX_END);
    out
}

/// The line of a page of results that repeats the prompt, if there is one.
pub open spec fn prompt_line(prompt: Seq<char>) -> Seq<char> {
    if prompt.len() == 0 {
        Seq::empty()
    } else {
        "<p><strong>프롬프트:</strong> <code>"@ + html_escaped(prompt) + "</code></p>"@
    }
}

/// A page of results.
pub open spec fn result_page(
    title: Seq<char>,
    message: Seq<char>,
    agent_url: Seq<char>,
    prompt: Seq<char>,
    prefix: Seq<char>,
) -> Seq<char> {
    RESULT_START@ + html_escaped(title) + RESULT_AFTER_TITLE@ + html_escaped(agent_url)
        + RESULT_AFTER_AGENT@ + prompt_line(prompt) + RESULT_AFTER_PROMPT@ + html_escaped(message)
        + RESULT_AFTER_MESSAGE@ + html_escaped(path_below(prefix, "/"@)) + RESULT_END@
}

/// Writes a page of results.
pub fn gateway_result(
    title: &str,
    message: &str,
    agent_url: &str,
    prompt: &str,
    path_prefix: Option<&str>,
) -> (r: String)
    ensures
        r@ == result_page(
            title@,
            message@,
            agent_url@,
            prompt@,
            route_prefix(optional_str(path_prefix)),
        ),
{
    let mut line = String::new();
    if !prompt.is_empty() {
        line = copy_text("<p><strong>프롬프트:</strong> <code>");
        line.append(html_escape(prompt).as_str());
        line.append("</code></p>");
    }
    let mut out = copy_text(RESULT_START);
    out.append(html_escape(title).as_str());
    out.append(RESULT_AFTER_TITLE);
    out.append(html_escape(agent_url).as_str());
    out.append(RESULT_AFTER_AGENT);
    out.append(line.as_str());
    out.append(RESULT_AFTER_PROMPT);
    out.append(html_escape(message).as_str());
    out.append(RESULT_AFTER_MESSAGE);
    out.append(escaped_path("/", path_prefix).as_str());
    out.append(RESULT_END);
    out
}

// ---------------------------------------------------------------------------
// Passing on
// ---------------------------------------------------------------------------

/// A form that is sent to the agent.
pub struct ForwardModel {
    pub url: Seq<char>,
    pub form: Seq<char>,
    pub timeout: Seq<char>,
}

/// A form that is sent to the agent.
#[derive(Debug)]
pub struct Forward {
    pub url: String,
    pub form: String,
    /// The most seconds that the agent may take.
    pub timeout: &'static str,
}

impl View for Forward {
    type V = ForwardModel;

    open spec fn view(&self) -> ForwardModel {
        ForwardModel { url: self.url@, form: self.form@, timeout: self.timeout@ }
    }
}

/// The form that is sent to an endpoint of the agent. Using the computer may
/// take longer than anything else.
pub open spec fn forward_of(
    agent_url: Seq<char>,
    endpoint: Seq<char>,
    fields: Seq<(Seq<char>, Seq<char>)>,
) -> ForwardModel {
    ForwardModel {
        url: trimmed_end_of(agent_url, '/') + "/"@ + endpoint,
        form: form_text(fields),
        timeout: if endpoint == "run-computer"@ {
            "100"@
        } else {
            "30"@
        },
    }
}

/// Prepares a form with the given fields for an endpoint of the agent.
pub fn forward_to_agent_endpoint_with_fields(
    agent_url: &str,
    endpoint: &str,
    fields: &[(&str, &str)],
) -> (r: Forward)
    ensures
        r@ == forward_of(agent_url@, endpoint@, field_texts(fields@)),
{
    let chars = chars_of(agent_url);
    let mut url = string_of(trim_end_of(chars.as_slice(), '/'));
    url.append("/");
    url.append(endpoint);
    let timeout = if same_text(endpoint, "run-computer") {
        "100"
    } else {
        "30"
    };
    Forward { url, form: form_body(fields), timeout }
}

/// The fields of a form that carries a prompt.
pub open spec fn prompt_fields(prompt: Seq<char>) -> Seq<(Seq<char>, Seq<char>)> {
    seq![("prompt"@, prompt)]
}

/// Prepares a prompt for an endpoint of the agent.
pub fn forward_to_agent_endpoint(agent_url: &str, endpoint: &str, prompt: &str) -> (r: Forward)
    ensures
        r@ == forward_of(agent_url@, endpoint@, prompt_fields(prompt@)),
{
    let fields = [("prompt", prompt)];
    assert(field_texts(fields@) =~= prompt_fields(prompt@));
    forward_to_agent_endpoint_with_fields(agent_url, endpoint, &fields)
}

/// Prepares a prompt that the agent is to have classified.
pub fn forward_to_agent(agent_url: &str, prompt: &str) -> (r: Forward)
    ensures
        r@ == forward_of(agent_url@, "run"@, prompt_fields(prompt@)),
{
    forward_to_agent_endpoint(agent_url, "run", prompt)
}

/// The `curl` configuration that sends the form in the file at `form_path`,
/// with the token.
pub open spec fn forward_config(
    forward: ForwardModel,
    token: Seq<char>,
    form_path: Seq<char>,
) -> Seq<char> {
    "silent\nshow-error\nmax-time = "@ + curl_quoted(forward.timeout) + "\nurl = "@ + curl_quoted(
        forward.url,
    ) + "\nheader = "@ + curl_quoted("X-Excel-Bridge-Token: "@ + token)
        + "\nheader = \"Content-Type: application/x-www-form-urlencoded\"\ndata-binary = "@
        + curl_quoted("@"@ + form_path) + "\n"@
}

/// Writes the `curl` configuration that sends a form, given the setting of
/// the token.
pub fn write_forward_config(forward: &Forward, token: Option<&str>, form_path: &str) -> (r: String)
    ensures
        r@ == forward_config(forward@, token_text(optional_str(token)), form_path@),
{
    let mut header = copy_text("X-Excel-Bridge-Token: ");
    header.append(bridge_token(token));
    let mut data = copy_text("@");
    data.append(form_path);
    let mut out = copy_text("silent\nshow-error\nmax-time = ");
    out.append(curl_config_string(forward.timeout).as_str());
    out.append("\nurl = ");
    out.append(curl_config_string(forward.url.as_str()).as_str());
    out.append("\nheader = ");
    out.append(curl_config_string(header.as_str()).as_str());
    out.append(
        "\nheader = \"Content-Type: application/x-www-form-urlencoded\"\ndata-binary = ",
    );
    out.append(curl_config_string(data.as_str()).as_str());
    out.append("\n");
    out
}

/// What the agent answered, or why it did not.
pub open spec fn agent_outcome(run: ProcessRun) -> Result<Seq<char>, Seq<char>> {
    match run {
        ProcessRun::Failed(stage, reason) => Err(run_failure("curl"@, stage, reason@)),
        ProcessRun::Finished(output) => if output.success {
            Ok(output_text(output))
        } else {
            Err(
                "agent HTTP 호출 실패: status="@ + output.status@ + " stderr="@ + complaint(output)
                    + " stdout="@ + truncated(output_text(output), 800),
            )
        },
    }
}

/// Reads what the agent answered from the run of `curl`.
pub fn agent_reply(run: &ProcessRun) -> (r: Result<String, String>)
    ensures
        result_text(r) == agent_outcome(*run),
{
    match run {
        ProcessRun::Failed(stage, reason) => Err(report_failure("curl", *stage, reason.as_str())),
        ProcessRun::Finished(output) => {
            let stdout = text_from_bytes(output.stdout.as_slice());
            if output.success {
                return Ok(stdout);
            }
            let stderr = text_from_bytes(output.stderr.as_slice());
            let mut out = copy_text("agent HTTP 호출 실패: status=");
            out.append(output.status.as_str());
            out.append(" stderr=");
            out.append(truncate(stderr.as_str(), 800).as_str());
            out.append(" stdout=");
            out.append(truncate(stdout.as_str(), 800).as_str());
            Err(out)
        },
    }
}

// ---------------------------------------------------------------------------
// Requests
// ---------------------------------------------------------------------------

/// What the gateway serves.
#[derive(Debug, Clone, Copy)]
pub enum Endpoint {
    Index,
    Health,
    Sample,
    Prompt,
    PromptComputer,
    OpenGoogleSheets,
    OpenExcelWeb,
    OpenViewer,
}

/// The endpoint that a method and a route name.
pub open spec fn endpoint_of(method: Seq<char>, route: Seq<char>) -> Option<Endpoint> {
    let get = method == "GET"@;
    let post = method == "POST"@;
    if get && route == "/"@ {
        Some(Endpoint::Index)
    } else if get && route == "/health"@ {
        Some(Endpoint::Health)
    } else if get && route == "/sample.xlsx"@ {
        Some(Endpoint::Sample)
    } else if post && route == "/prompt"@ {
        Some(Endpoint::Prompt)
    } else if post && route == "/prompt-computer"@ {
        Some(Endpoint::PromptComputer)
    } else if (post || get) && route == "/open-google-sheets"@ {
        Some(Endpoint::OpenGoogleSheets)
    } else if (post || get) && route == "/open-ms-excel-web"@ {
        Some(Endpoint::OpenExcelWeb)
    } else if (post || get) && route == "/open-ms-office-viewer"@ {
        Some(Endpoint::OpenViewer)
    } else {
        None
    }
}

/// Finds the endpoint that a method and a route name.
pub fn find_endpoint(method: &str, route: &str) -> (r: Option<Endpoint>)
    ensures
        r == endpoint_of(method@, route@),
{
    let get = same_text(method, "GET");
    let post = same_text(method, "POST");
    if get && same_text(route, "/") {
        Some(Endpoint::Index)
    } else if get && same_text(route, "/health") {
        Some(Endpoint::Health)
    } else if get && same_text(route, "/sample.xlsx") {
        Some(Endpoint::Sample)
    } else if post && same_text(route, "/prompt") {
        Some(Endpoint::Prompt)
    } else if post && same_text(route, "/prompt-computer") {
        Some(Endpoint::PromptComputer)
    } else if (post || get) && same_text(route, "/open-google-sheets") {
        Some(Endpoint::OpenGoogleSheets)
    } else if (post || get) && same_text(route, "/open-ms-excel-web") {
        Some(Endpoint::OpenExcelWeb)
    } else if (post || get) && same_text(route, "/open-ms-office-viewer") {
        Some(Endpoint::OpenViewer)
    } else {
        None
    }
}

/// Where the sample workbook can be had: at the public address of the gateway,
/// or else at the host that the request names.
pub open spec fn sample_url(public_url: Option<Seq<char>>, host: Option<Seq<char>>) -> Seq<char> {
    let public = match public_url {
        Some(value) => trimmed_end_of(trimmed(value), '/'),
        None => Seq::empty(),
    };
    let base = if public.len() > 0 {
        public
    } else {
        "http://"@ + (match host {
            Some(name) => name,
            None => "127.0.0.1:8878"@,
        })
    };
    base + "/sample.xlsx"@
}

/// Writes where the sample workbook can be had.
pub fn gateway_sample_workbook_url(request: &HttpRequest, public_url: Option<&str>) -> (r: String)
    ensures
        r@ == sample_url(optional_str(public_url), field(request@.headers, "host"@)),
{
    let mut base = match public_url {
        Some(value) => {
            let chars = chars_of(value);
            string_of(trim_end_of(trim(chars.as_slice()), '/'))
        },
        None => String::new(),
    };
    if base.as_str().is_empty() {
        base = copy_text("http://");
        match request.headers.get("host") {
            Some(name) => base.append(name),
            None => base.append("127.0.0.1:8878"),
        }
    }
    base.append("/sample.xlsx");
    base
}

/// A request that is passed on to the agent.
pub struct PendingModel {
    pub forward: ForwardModel,
    pub done: Seq<char>,
    pub failed: Seq<char>,
    pub prompt: Seq<char>,
}

/// A request that is passed on to the agent.
#[derive(Debug)]
pub struct Pending {
    pub forward: Forward,
    /// The title of the page that shows the answer of the agent.
    pub done: &'static str,
    /// The title of the page that says that the agent did not answer.
    pub failed: &'static str,
    /// The prompt that the page repeats.
    pub prompt: String,
}

impl View for Pending {
    type V = PendingModel;

    open spec fn view(&self) -> PendingModel {
        PendingModel {
            forward: self.forward@,
            done: self.done@,
            failed: self.failed@,
            prompt: self.prompt@,
        }
    }
}

/// What the gateway does about a request.
pub enum GatewayStepModel {
    Respond(ResponseModel),
    Forward(PendingModel),
}

/// What the gateway does about a request.
#[derive(Debug)]
pub enum GatewayStep {
    /// It answers at once.
    Respond(Response),
    /// It sends a form to the agent, then [`gateway_reply`].
    Forward(Pending),
}

impl View for GatewayStep {
    type V = GatewayStepModel;

    open spec fn view(&self) -> GatewayStepModel {
        match *self {
            GatewayStep::Respond(response) => GatewayStepModel::Respond(response@),
            GatewayStep::Forward(pending) => GatewayStepModel::Forward(pending@),
        }
    }
}

/// The prompt that was submitted, without white space around it.
pub open spec fn submitted_prompt(request: RequestModel) -> Seq<char> {
    match parameter(text_of_bytes(request.body), "prompt"@) {
        Some(prompt) => trimmed(prompt),
        None => Seq::empty(),
    }
}

fn find_submitted_prompt(request: &HttpRequest) -> (r: String)
    ensures
        r@ == submitted_prompt(request@),
{
    match form_value(request.body.as_slice(), "prompt") {
        Some(prompt) => trim_text(prompt.as_str()),
        None => String::new(),
    }
}

/// What the gateway does with a submitted prompt: it refuses an empty one.
pub open spec fn prompt_step(
    prompt: Seq<char>,
    agent_url: Seq<char>,
    prefix: Seq<char>,
    endpoint: Seq<char>,
    done: Seq<char>,
    failed: Seq<char>,
) -> GatewayStepModel {
    if prompt.len() == 0 {
        GatewayStepModel::Respond(
            html_response(
                "400 Bad Request"@,
                result_page(
                    "프롬프트 오류"@,
                    "프롬프트가 비어 있습니다."@,
                    agent_url,
                    Seq::empty(),
                    prefix,
                ),
            ),
        )
    } else {
        GatewayStepModel::Forward(
            PendingModel {
                forward: forward_of(agent_url, endpoint, prompt_fields(prompt)),
                done,
                failed,
                prompt,
            },
        )
    }
}

fn pass_prompt_on(
    prompt: String,
    agent_url: &str,
    path_prefix: Option<&str>,
    endpoint: &str,
    done: &'static str,
    failed: &'static str,
) -> (r: GatewayStep)
    ensures
        r@ == prompt_step(
            prompt@,
            agent_url@,
            route_prefix(optional_str(path_prefix)),
            endpoint@,
            done@,
            failed@,
        ),
{
    if prompt.as_str().is_empty() {
        proof {
            reveal_strlit("");
            assert(""@ =~= Seq::empty());
        }
        let page = gateway_result(
            "프롬프트 오류",
            "프롬프트가 비어 있습니다.",
            agent_url,
            "",
            path_prefix,
        );
        GatewayStep::Respond(html("400 Bad Request", page.as_str()))
    } else {
        let forward = forward_to_agent_endpoint(agent_url, endpoint, prompt.as_str());
        GatewayStep::Forward(Pending { forward, done, failed, prompt })
    }
}

/// The document that is to be viewed: the one that was asked for, or else the
/// sample workbook.
pub open spec fn document_asked(request: RequestModel, public_url: Option<Seq<char>>) -> Seq<char> {
    match request_parameter(request, "src"@) {
        Some(src) => src,
        None => sample_url(public_url, field(request.headers, "host"@)),
    }
}

fn find_document(request: &HttpRequest, public_url: Option<&str>) -> (r: String)
    ensures
        r@ == document_asked(request@, optional_str(public_url)),
{
    match find_parameter(request, "src") {
        Some(src) => src,
        None => gateway_sample_workbook_url(request, public_url),
    }
}

/// The content type of the sample workbook.
pub const WORKBOOK_TYPE: &'static str =
    "application/vnd.openxmlformats-officedocument.spreadsheetml.sheet";

/// What the gateway does about a request, with the agent at `agent_url` and the
/// sample workbook `sample`.
pub open spec fn gateway_step(
    request: RequestModel,
    agent_url: Seq<char>,
    settings: GatewaySettingsModel,
    sample: Seq<u8>,
) -> GatewayStepModel {
    let prefix = route_prefix(settings.path_prefix);
    match endpoint_of(request.method, route_below(prefix, request.path)) {
        None => GatewayStepModel::Respond(text_response("404 Not Found"@, "not found\n"@)),
        Some(Endpoint::Index) => GatewayStepModel::Respond(
            html_response("200 OK"@, index_page(agent_url, prefix)),
        ),
        Some(Endpoint::Health) => GatewayStepModel::Respond(
            text_response("200 OK"@, "gateway ok\n"@),
        ),
        Some(Endpoint::Sample) => GatewayStepModel::Respond(
            ResponseModel { status: "200 OK"@, content_type: WORKBOOK_TYPE@, body: sample },
        ),
        Some(Endpoint::Prompt) => prompt_step(
            submitted_prompt(request),
            agent_url,
            prefix,
            "run"@,
            "Vultr -> Tailscale -> 로컬 Excel"@,
            "Agent 호출 실패"@,
        ),
        Some(Endpoint::PromptComputer) => prompt_step(
            submitted_prompt(request),
            agent_url,
            prefix,
            "run-computer"@,
            "Vultr -> Tailscale -> OpenAI Computer Use -> 로컬 Excel"@,
            "Computer Use Agent 호출 실패"@,
        ),
        Some(Endpoint::OpenGoogleSheets) => GatewayStepModel::Forward(
            PendingModel {
                forward: forward_of(agent_url, "open-google-sheets"@, prompt_fields(Seq::empty())),
                done: "Vultr -> Tailscale -> Google Sheets"@,
                failed: "Google Sheets Agent 호출 실패"@,
                prompt: Seq::empty(),
            },
        ),
        Some(Endpoint::OpenExcelWeb) => GatewayStepModel::Forward(
            PendingModel {
                forward: forward_of(agent_url, "open-ms-excel-web"@, prompt_fields(Seq::empty())),
                done: "Vultr -> Tailscale -> Microsoft Excel for the web"@,
                failed: "Microsoft Excel Web Agent 호출 실패"@,
                prompt: Seq::empty(),
            },
        ),
        Some(Endpoint::OpenViewer) => GatewayStepModel::Forward(
            PendingModel {
                forward: forward_of(
                    agent_url,
                    "open-ms-office-viewer"@,
                    seq![("src"@, document_asked(request, settings.public_url))],
                ),
                done: "Vultr -> Tailscale -> Microsoft Office Web Viewer"@,
                failed: "Microsoft Office Web Viewer Agent 호출 실패"@,
                prompt: Seq::empty(),
            },
        ),
    }
}

/// Decides what the gateway does about a request.
pub fn gateway_route(
    request: &HttpRequest,
    agent_url: &str,
    settings: &GatewaySettings,
    sample: &[u8],
) -> (r: GatewayStep)
    ensures
        r@ == gateway_step(request@, agent_url@, settings@, sample@),
{
    let path_prefix = as_str(&settings.path_prefix);
    let route = clean_route(request.path.as_str(), path_prefix);
    proof {
        reveal_strlit("");
        assert(""@ =~= Seq::empty());
    }
    match find_endpoint(request.method.as_str(), route) {
        None => GatewayStep::Respond(text("404 Not Found", "not found\n")),
        Some(Endpoint::Index) => GatewayStep::Respond(
            html("200 OK", gateway_index(agent_url, path_prefix).as_str()),
        ),
        Some(Endpoint::Health) => GatewayStep::Respond(text("200 OK", "gateway ok\n")),
        Some(Endpoint::Sample) => GatewayStep::Respond(
            binary("200 OK", WORKBOOK_TYPE, slice_to_vec(sample)),
        ),
        Some(Endpoint::Prompt) => pass_prompt_on(
            find_submitted_prompt(request),
            agent_url,
            path_prefix,
            "run",
            "Vultr -> Tailscale -> 로컬 Excel",
            "Agent 호출 실패",
        ),
        Some(Endpoint::PromptComputer) => pass_prompt_on(
            find_submitted_prompt(request),
            agent_url,
            path_prefix,
            "run-computer",
            "Vultr -> Tailscale -> OpenAI Computer Use -> 로컬 Excel",
            "Computer Use Agent 호출 실패",
        ),
        Some(Endpoint::OpenGoogleSheets) => GatewayStep::Forward(
            Pending {
                forward: forward_to_agent_endpoint(agent_url, "open-google-sheets", ""),
                done: "Vultr -> Tailscale -> Google Sheets",
                failed: "Google Sheets Agent 호출 실패",
                prompt: String::new(),
            },
        ),
        Some(Endpoint::OpenExcelWeb) => GatewayStep::Forward(
            Pending {
                forward: forward_to_agent_endpoint(agent_url, "open-ms-excel-web", ""),
                done: "Vultr -> Tailscale -> Microsoft Excel for the web",
                failed: "Microsoft Excel Web Agent 호출 실패",
                prompt: String::new(),
            },
        ),
        Some(Endpoint::OpenViewer) => {
            let src = find_document(request, as_str(&settings.public_url));
            let fields = [("src", src.as_str())];
            assert(field_texts(fields@) =~= seq![("src"@, src@)]);
            let forward = forward_to_agent_endpoint_with_fields(
                agent_url,
                "open-ms-office-viewer",
                &fields,
            );
            GatewayStep::Forward(
                Pending {
                    forward,
                    done: "Vultr -> Tailscale -> Microsoft Office Web Viewer",
                    failed: "Microsoft Office Web Viewer Agent 호출 실패",
                    prompt: String::new(),
                },
            )
        },
    }
}

/// The page that is shown once the agent has answered, or has not.
pub open spec fn reply_page(
    pending: PendingModel,
    reply: Result<Seq<char>, Seq<char>>,
    agent_url: Seq<char>,
    prefix: Seq<char>,
) -> ResponseModel {
    match reply {
        Ok(answer) => html_response(
            "200 OK"@,
            result_page(pending.done, answer, agent_url, pending.prompt, prefix),
        ),
        Err(e) => html_response(
            "502 Bad Gateway"@,
            result_page(pending.failed, e, agent_url, pending.prompt, prefix),
        ),
    }
}

/// Answers a request that was passed on to the agent.
pub fn gateway_reply(
    pending: &Pending,
    reply: &Result<String, String>,
    agent_url: &str,
    path_prefix: Option<&str>,
) -> (r: Response)
    ensures
        r@ == reply_page(
            pending@,
            result_text(*reply),
            agent_url@,
            route_prefix(optional_str(path_prefix)),
        ),
{
    let prompt = pending.prompt.as_str();
    match reply {
        Ok(answer) => {
            let page = gateway_result(
                pending.done,
                answer.as_str(),
                agent_url,
                prompt,
                path_prefix,
            );
            html("200 OK", page.as_str())
        },
        Err(e) => {
            let page = gateway_result(pending.failed, e.as_str(), agent_url, prompt, path_prefix);
            html("502 Bad Gateway", page.as_str())
        },
    }
}

} // verus!
