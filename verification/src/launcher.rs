//! The launcher: it runs beside Windows, shows a page to a browser, and opens
//! programs and pages on request.
use vstd::prelude::*;
use vstd::slice::slice_to_vec;

use crate::escape::{html_escape, html_escaped};
use crate::http::{response_bytes, HttpRequest, RequestModel, ResponseModel};
use crate::openai::{
    classify_payload, model_name, no_action, openai_model, openai_output_area, output_area,
    report_no_action, write_classify_payload,
};
use crate::text::{
    as_str, before, begins_with, chars_of, copy_text, find_char, has_text, mentions, optional,
    optional_str, result_text, same_text, strip_prefix, text_from_bytes, text_of_bytes, trim_text,
    trimmed,
};
use crate::url::{
    form_value, parameter, path_parameter, query_value, url_encode_with, url_encoded,
};
use crate::windows::{
    csv_launch, excel_web_launch, launch_text, office_viewer_source_url, open_google_sheets,
    open_microsoft_excel_web, plan_csv, plan_viewer, sheets_launch, viewer_launch, viewer_source,
    CsvWrite, Launch, LaunchModel, Opening, OpeningModel, OPEN_EXCEL_COMMAND, VIEWER_URL,
};

verus! {

/// The settings of the launcher, each as it is set, if it is.
#[derive(Debug)]
pub struct LauncherSettings {
    pub model: Option<String>,
    pub google_sheets_url: Option<String>,
    pub excel_web_url: Option<String>,
    pub viewer_source: Option<String>,
}

/// The settings of the launcher.
pub struct LauncherSettingsModel {
    pub model: Option<Seq<char>>,
    pub google_sheets_url: Option<Seq<char>>,
    pub excel_web_url: Option<Seq<char>>,
    pub viewer_source: Option<Seq<char>>,
}

impl View for LauncherSettings {
    type V = LauncherSettingsModel;

    open spec fn view(&self) -> LauncherSettingsModel {
        LauncherSettingsModel {
            model: optional(self.model),
            google_sheets_url: optional(self.google_sheets_url),
            excel_web_url: optional(self.excel_web_url),
            viewer_source: optional(self.viewer_source),
        }
    }
}

/// Where the launcher listens, unless it is told otherwise.
pub const DEFAULT_BIND: &'static str = "0.0.0.0:8877";

// ---------------------------------------------------------------------------
// Pages
// ---------------------------------------------------------------------------

/// The first page, up to the name of the model.
pub const INDEX_START: &'static str = r#"<!doctype html>
<html lang="ko">
<head>
  <meta charset="utf-8">
  <meta name="viewport" content="width=device-width, initial-scale=1">
  <title>한글 명령 Excel 실행기</title>
  <style>
    body {
      margin: 0;
      font-family: system-ui, -apple-system, BlinkMacSystemFont, "Segoe UI", "Malgun Gothic", sans-serif;
      color: #111827;
      background: #f5f7fb;
    }
    main {
      width: min(840px, calc(100vw - 32px));
      margin: 48px auto;
      background: #ffffff;
      border: 1px solid #d7dde8;
      border-radius: 8px;
      padding: 28px;
      box-shadow: 0 16px 36px rgba(31, 41, 55, 0.08);
    }
    h1 {
      margin: 0 0 8px;
      font-size: 28px;
      letter-spacing: 0;
    }
    p, label {
      line-height: 1.55;
      color: #4b5563;
    }
    label {
      display: block;
      margin: 22px 0 8px;
      font-weight: 700;
      color: #111827;
    }
    input {
      box-sizing: border-box;
      width: 100%;
      min-height: 44px;
      padding: 0 12px;
      border: 1px solid #b8c1d1;
      border-radius: 6px;
      font-size: 16px;
    }
    .actions {
      display: flex;
      flex-wrap: wrap;
      gap: 10px;
      margin-top: 12px;
    }
    button, a.button {
      display: inline-flex;
      align-items: center;
      justify-content: center;
      min-height: 42px;
      padding: 0 16px;
      border: 1px solid #1f4f8f;
      border-radius: 6px;
      background: #2563eb;
      color: #ffffff;
      font-weight: 650;
      text-decoration: none;
      cursor: pointer;
      font-size: 15px;
    }
    a.secondary {
      background: #ffffff;
      color: #1f4f8f;
    }
    code {
      background: #eef2f7;
      padding: 2px 5px;
      border-radius: 4px;
    }
  </style>
</head>
<body>
  <main>
    <h1>한글 명령으로 로컬 Excel 실행</h1>
    <p>
      아래 입력창에 <code>엑셀 실행해줘</code>처럼 한글로 요청하면,
      Rust 서버가 OpenAI API 모델 <code>"#;

/// The first page, from the name of the model on.
pub const INDEX_END: &'static str = r#"</code>로 명령을 판별한 뒤
      이 PC의 Windows Excel을 실행합니다. ActiveX는 사용하지 않습니다.
      Google Sheets 요청은 브라우저의 기존 Google 로그인 세션으로 새 스프레드시트를 엽니다.
      Microsoft 웹 Excel과 Office Web Viewer도 별도 버튼으로 실행할 수 있습니다.
    </p>

    <form method="post" action="/prompt">
      <label for="prompt">한글 프롬프트</label>
      <input id="prompt" name="prompt" value="엑셀 실행해줘" autocomplete="off">
      <div class="actions">
        <button type="submit">GPT로 판단해서 실행</button>
        <a class="button secondary" href="/open-excel">API 없이 바로 Excel 실행</a>
        <a class="button secondary" href="/open-csv">샘플 CSV를 Excel로 열기</a>
        <a class="button secondary" href="/open-google-sheets">Google Sheets 열기</a>
        <a class="button secondary" href="/open-ms-excel-web">MS Excel Web 열기</a>
        <a class="button secondary" href="/open-ms-office-viewer">MS Office Viewer 열기</a>
      </div>
    </form>

    <p style="margin-top:22px">
      상태 확인: <code>/health</code>
    </p>
  </main>
</body>
</html>
"#;

/// A page of results, up to its heading.
pub const RESULT_START: &'static str = r#"<!doctype html>
<html lang="ko">
<head>
  <meta charset="utf-8">
  <meta name="viewport" content="width=device-width, initial-scale=1">
  <title>실행 결과</title>
  <style>
    body {
      margin: 0;
      font-family: system-ui, -apple-system, BlinkMacSystemFont, "Segoe UI", "Malgun Gothic", sans-serif;
      color: #111827;
      background: #f5f7fb;
    }
    main {
      width: min(780px, calc(100vw - 32px));
      margin: 48px auto;
      background: #ffffff;
      border: 1px solid #d7dde8;
      border-radius: 8px;
      padding: 28px;
      box-shadow: 0 16px 36px rgba(31, 41, 55, 0.08);
    }
    h1 { margin: 0 0 10px; font-size: 26px; letter-spacing: 0; }
    p { line-height: 1.55; color: #4b5563; }
    code { background: #eef2f7; padding: 2px 5px; border-radius: 4px; }
    pre {
      white-space: pre-wrap;
      overflow-wrap: anywhere;
      background: #111827;
      color: #f9fafb;
      padding: 14px;
      border-radius: 6px;
    }
    a {
      display: inline-flex;
      align-items: center;
      justify-content: center;
      min-height: 40px;
      padding: 0 14px;
      border-radius: 6px;
      background: #2563eb;
      color: white;
      text-decoration: none;
      font-weight: 650;
    }
  </style>
</head>
<body>
  <main>
    <h1>"#;

/// A page of results, up to the source of the action.
pub const RESULT_AFTER_ACTION: &'static str = r#"</h1>
    <p><strong>경로:</strong> "#;

/// A page of results, up to the prompt.
pub const RESULT_AFTER_SOURCE: &'static str = r#"</p>
    "#;

/// A page of results, up to the message.
pub const RESULT_AFTER_PROMPT: &'static str = r#"
    <pre>"#;

/// The end of a page of results.
pub const RESULT_END: &'static str = r#"</pre>
    <a href="/">돌아가기</a>
  </main>
</body>
</html>
"#;

/// The first page, given the setting of the model.
pub open spec fn index_page(model: Option<Seq<char>>) -> Seq<char> {
    INDEX_START@ + html_escaped(model_name(model)) + INDEX_END@
}

/// Writes the first page.
pub fn index_html(model: Option<&str>) -> (r: String)
    ensures
        r@ == index_page(optional_str(model)),
{
    let name = openai_model(model);
    let mut out = copy_text(INDEX_START);
    out.append(html_escape(name.as_str()).as_str());
    out.append(INDEX_END);
    out
}

/// The line of a page of results that repeats the prompt, if there is one.
pub open spec fn prompt_line(prompt: Option<Seq<char>>) -> Seq<char> {
    match prompt {
        None => Seq::empty(),
        Some(p) => "<p><strong>입력:</strong> <code>"@ + html_escaped(p) + "</code></p>"@,
    }
}

/// A page of results.
pub open spec fn result_page(
    source: Seq<char>,
    action: Seq<char>,
    message: Seq<char>,
    prompt: Option<Seq<char>>,
) -> Seq<char> {
    RESULT_START@ + html_escaped(action) + RESULT_AFTER_ACTION@ + html_escaped(source)
        + RESULT_AFTER_SOURCE@ + prompt_line(prompt) + RESULT_AFTER_PROMPT@ + html_escaped(message)
        + RESULT_END@
}

/// Writes a page of results.
pub fn result_html(source: &str, action: &str, message: &str, prompt: Option<&str>) -> (r: String)
    ensures
        r@ == result_page(source@, action@, message@, optional_str(prompt)),
{
    let mut line = String::new();
    match prompt {
        Some(p) => {
            line = copy_text("<p><strong>입력:</strong> <code>");
            line.append(html_escape(p).as_str());
            line.append("</code></p>");
        },
        None => {},
    }
    let mut out = copy_text(RESULT_START);
    out.append(html_escape(action).as_str());
    out.append(RESULT_AFTER_ACTION);
    out.append(html_escape(source).as_str());
    out.append(RESULT_AFTER_SOURCE);
    out.append(line.as_str());
    out.append(RESULT_AFTER_PROMPT);
    out.append(html_escape(message).as_str());
    out.append(RESULT_END);
    out
}

// ---------------------------------------------------------------------------
// Answers
// ---------------------------------------------------------------------------

/// An answer: its status, its content type and its text.
pub struct AnswerModel {
    pub status: Seq<char>,
    pub content_type: Seq<char>,
    pub body: Seq<char>,
}

/// What an answer says.
pub open spec fn answer_of(answer: (&str, &str, String)) -> AnswerModel {
    AnswerModel { status: answer.0@, content_type: answer.1@, body: answer.2@ }
}

/// An answer in HTML.
pub open spec fn html_answer(status: Seq<char>, body: Seq<char>) -> AnswerModel {
    AnswerModel { status, content_type: "text/html; charset=utf-8"@, body }
}

/// An answer in plain text.
pub open spec fn text_answer(status: Seq<char>, body: Seq<char>) -> AnswerModel {
    AnswerModel { status, content_type: "text/plain; charset=utf-8"@, body }
}

/// What is answered once an action was taken, or failed.
pub open spec fn action_answer(
    source: Seq<char>,
    action: Seq<char>,
    result: Result<Seq<char>, Seq<char>>,
    prompt: Option<Seq<char>>,
) -> AnswerModel {
    match result {
        Ok(message) => html_answer("200 OK"@, result_page(source, action, message, prompt)),
        Err(e) => html_answer(
            "500 Internal Server Error"@,
            result_page(source, "실패"@, e, prompt),
        ),
    }
}

fn report_action(
    source: &str,
    action: &str,
    result: &Result<String, String>,
    prompt: Option<&str>,
) -> (r: (&'static str, &'static str, String))
    ensures
        answer_of(r) == action_answer(
            source@,
            action@,
            result_text(*result),
            optional_str(prompt),
        ),
{
    match result {
        Ok(message) => (
            "200 OK",
            "text/html; charset=utf-8",
            result_html(source, action, message.as_str(), prompt),
        ),
        Err(e) => (
            "500 Internal Server Error",
            "text/html; charset=utf-8",
            result_html(source, "실패", e.as_str(), prompt),
        ),
    }
}

/// Answers a request for an action that was taken, or failed.
pub fn action_response(source: &str, action: &str, result: &Result<String, String>) -> (r: (
    &'static str,
    &'static str,
    String,
))
    ensures
        answer_of(r) == action_answer(source@, action@, result_text(*result), None),
{
    report_action(source, action, result, None)
}

/// The bytes of an answer. The text of a redirection is where it leads.
pub open spec fn answer_bytes(status: Seq<char>, content_type: Seq<char>, body: Seq<u8>) -> Seq<u8> {
    if begins_with(status, "302"@) {
        vstd::utf8::encode_utf8(
            "HTTP/1.1 302 Found\r\nLocation: "@ + text_of_bytes(body)
                + "\r\nContent-Length: 0\r\nConnection: close\r\n\r\n"@,
        )
    } else {
        response_bytes(ResponseModel { status, content_type, body })
    }
}

/// Writes an answer.
pub fn write_response(status: &str, content_type: &str, body: &[u8]) -> (r: Vec<u8>)
    ensures
        r@ == answer_bytes(status@, content_type@, body@),
{
    let chars = chars_of(status);
    if strip_prefix(chars.as_slice(), "302").is_some() {
        let mut out = copy_text("HTTP/1.1 302 Found\r\nLocation: ");
        out.append(text_from_bytes(body).as_str());
        out.append("\r\nContent-Length: 0\r\nConnection: close\r\n\r\n");
        slice_to_vec(out.as_str().as_bytes())
    } else {
        crate::http::write_response(status, content_type, body)
    }
}

// ---------------------------------------------------------------------------
// Actions
// ---------------------------------------------------------------------------

/// What the launcher opens.
#[derive(Debug)]
pub enum Action {
    Excel,
    Csv,
    GoogleSheets,
    NewGoogleSheets,
    ExcelWeb,
    /// The viewer, with the document that was asked for.
    Viewer(Option<String>),
}

/// What the launcher opens.
pub enum ActionModel {
    Excel,
    Csv,
    GoogleSheets,
    NewGoogleSheets,
    ExcelWeb,
    Viewer(Option<Seq<char>>),
}

impl View for Action {
    type V = ActionModel;

    open spec fn view(&self) -> ActionModel {
        match *self {
            Action::Excel => ActionModel::Excel,
            Action::Csv => ActionModel::Csv,
            Action::GoogleSheets => ActionModel::GoogleSheets,
            Action::NewGoogleSheets => ActionModel::NewGoogleSheets,
            Action::ExcelWeb => ActionModel::ExcelWeb,
            Action::Viewer(src) => ActionModel::Viewer(optional(src)),
        }
    }
}

/// The heading of the page that reports an action.
pub open spec fn heading(action: ActionModel) -> Seq<char> {
    match action {
        ActionModel::Excel => "엑셀 실행"@,
        ActionModel::Csv => "CSV 생성 후 엑셀 실행"@,
        ActionModel::GoogleSheets => "Google Sheets 실행"@,
        ActionModel::NewGoogleSheets => "Google Sheets 생성 화면 실행"@,
        ActionModel::ExcelWeb => "Microsoft Excel for the web 실행"@,
        ActionModel::Viewer(_) => "Microsoft Office Web Viewer 실행"@,
    }
}

fn name_action(action: &Action) -> (r: &'static str)
    ensures
        r@ == heading(action@),
{
    match action {
        Action::Excel => "엑셀 실행",
        Action::Csv => "CSV 생성 후 엑셀 실행",
        Action::GoogleSheets => "Google Sheets 실행",
        Action::NewGoogleSheets => "Google Sheets 생성 화면 실행",
        Action::ExcelWeb => "Microsoft Excel for the web 실행",
        Action::Viewer(_) => "Microsoft Office Web Viewer 실행",
    }
}

/// What opening Excel takes.
pub open spec fn excel_launch() -> LaunchModel {
    LaunchModel {
        command: OPEN_EXCEL_COMMAND@,
        message: "Windows Excel 실행 요청을 보냈습니다.\n"@,
    }
}

/// Plans the opening of Excel.
pub fn open_blank_excel() -> (r: Launch)
    ensures
        r@ == excel_launch(),
{
    Launch {
        command: copy_text(OPEN_EXCEL_COMMAND),
        message: copy_text("Windows Excel 실행 요청을 보냈습니다.\n"),
    }
}

/// What is said once the sample table has been opened.
pub const CSV_OPENED: &'static str = "CSV를 만들고 Excel 실행 요청을 보냈습니다.";

/// Plans the opening of the sample table, once it was written or not.
pub fn create_csv_and_open(path: &str, shown: &str, write: &CsvWrite) -> (r: Result<
    Launch,
    String,
>)
    ensures
        launch_text(r) == csv_launch(path@, shown@, *write, CSV_OPENED@),
{
    plan_csv(path, shown, write, CSV_OPENED)
}

/// Percent-encodes `value`: a space is an escape like any other.
pub fn url_encode(value: &str) -> (r: String)
    ensures
        r@ == url_encoded(value@),
{
    url_encode_with(value, "%20")
}

/// The address at which the viewer shows a document.
pub open spec fn viewer_address(source: Seq<char>) -> Seq<char> {
    VIEWER_URL@ + url_encoded(source)
}

/// Writes the address at which the viewer shows a document.
pub fn microsoft_office_viewer_url(src: &str) -> (r: String)
    ensures
        r@ == viewer_address(src@),
{
    let mut out = copy_text(VIEWER_URL);
    out.append(url_encode(src).as_str());
    out
}

/// What viewing a document takes.
pub open spec fn document_launch(asked: Option<Seq<char>>, configured: Option<Seq<char>>) -> Result<
    LaunchModel,
    Seq<char>,
> {
    match viewer_source(asked, configured) {
        Ok(source) => Ok(viewer_launch(source, viewer_address(source))),
        Err(e) => Err(e),
    }
}

/// Plans the viewing of a document.
pub fn open_microsoft_office_viewer(explicit_src: Option<&str>, configured: Option<&str>) -> (r:
    Result<Launch, String>)
    ensures
        launch_text(r) == document_launch(optional_str(explicit_src), optional_str(configured)),
{
    match office_viewer_source_url(explicit_src, configured) {
        Ok(source) => {
            let url = microsoft_office_viewer_url(source.as_str());
            Ok(plan_viewer(source.as_str(), url.as_str()))
        },
        Err(e) => Err(e),
    }
}

/// How the launcher carries out an action.
pub open spec fn opening_of(action: ActionModel, settings: LauncherSettingsModel) -> OpeningModel {
    match action {
        ActionModel::Excel => OpeningModel::Launch(excel_launch()),
        ActionModel::Csv => OpeningModel::WriteCsv,
        ActionModel::GoogleSheets | ActionModel::NewGoogleSheets => OpeningModel::Launch(
            sheets_launch(settings.google_sheets_url),
        ),
        ActionModel::ExcelWeb => OpeningModel::Launch(excel_web_launch(settings.excel_web_url)),
        ActionModel::Viewer(asked) => match document_launch(asked, settings.viewer_source) {
            Ok(launch) => OpeningModel::Launch(launch),
            Err(e) => OpeningModel::Refused(e),
        },
    }
}

/// Plans an action.
pub fn plan_action(action: &Action, settings: &LauncherSettings) -> (r: Opening)
    ensures
        r@ == opening_of(action@, settings@),
{
    match action {
        Action::Excel => Opening::Launch(open_blank_excel()),
        Action::Csv => Opening::WriteCsv,
        Action::GoogleSheets | Action::NewGoogleSheets => Opening::Launch(
            open_google_sheets(as_str(&settings.google_sheets_url)),
        ),
        Action::ExcelWeb => Opening::Launch(
            open_microsoft_excel_web(as_str(&settings.excel_web_url)),
        ),
        Action::Viewer(asked) => {
            match open_microsoft_office_viewer(as_str(asked), as_str(&settings.viewer_source)) {
                Ok(launch) => Opening::Launch(launch),
                Err(e) => Opening::Refused(e),
            }
        },
    }
}

// ---------------------------------------------------------------------------
// Requests
// ---------------------------------------------------------------------------

/// What the launcher does about a request.
pub enum LauncherStepModel {
    Respond(AnswerModel),
    Classify(Seq<char>),
    Open(ActionModel),
}

/// What the launcher does about a request.
#[derive(Debug)]
pub enum LauncherStep {
    /// It answers at once.
    Respond((&'static str, &'static str, String)),
    /// It has the prompt classified, then [`execute_prompt`].
    Classify(String),
    /// It takes the action, then [`manual_response`], or, for a prompt,
    /// [`prompt_result`].
    Open(Action),
}

impl View for LauncherStep {
    type V = LauncherStepModel;

    open spec fn view(&self) -> LauncherStepModel {
        match *self {
            LauncherStep::Respond(answer) => LauncherStepModel::Respond(answer_of(answer)),
            LauncherStep::Classify(prompt) => LauncherStepModel::Classify(prompt@),
            LauncherStep::Open(action) => LauncherStepModel::Open(action@),
        }
    }
}

/// What the launcher does about a prompt: it refuses an empty one.
pub open spec fn prompt_step(prompt: Option<Seq<char>>) -> LauncherStepModel {
    let asked = match prompt {
        Some(p) => trimmed(p),
        None => Seq::empty(),
    };
    if asked.len() == 0 {
        LauncherStepModel::Respond(
            html_answer(
                "400 Bad Request"@,
                result_page(
                    "OpenAI 프롬프트"@,
                    "실패"@,
                    "프롬프트가 비어 있습니다."@,
                    Some(asked),
                ),
            ),
        )
    } else {
        LauncherStepModel::Classify(asked)
    }
}

/// Decides what the launcher does about a prompt.
pub fn prompt_response(prompt: Option<String>) -> (r: LauncherStep)
    ensures
        r@ == prompt_step(optional(prompt)),
{
    let asked = match prompt {
        Some(p) => trim_text(p.as_str()),
        None => String::new(),
    };
    if asked.as_str().is_empty() {
        let page = result_html(
            "OpenAI 프롬프트",
            "실패",
            "프롬프트가 비어 있습니다.",
            Some(asked.as_str()),
        );
        LauncherStep::Respond(("400 Bad Request", "text/html; charset=utf-8", page))
    } else {
        LauncherStep::Classify(asked)
    }
}

/// What the launcher does about a request.
pub open spec fn launcher_step(request: RequestModel, settings: LauncherSettingsModel) -> LauncherStepModel {
    let route = before(request.path, '?');
    let get = request.method == "GET"@;
    let post = request.method == "POST"@;
    if get && route == "/"@ {
        LauncherStepModel::Respond(html_answer("200 OK"@, index_page(settings.model)))
    } else if get && route == "/health"@ {
        LauncherStepModel::Respond(text_answer("200 OK"@, "ok\n"@))
    } else if get && route == "/open-excel"@ {
        LauncherStepModel::Open(ActionModel::Excel)
    } else if get && route == "/open-csv"@ {
        LauncherStepModel::Open(ActionModel::Csv)
    } else if get && route == "/open-google-sheets"@ {
        LauncherStepModel::Open(ActionModel::GoogleSheets)
    } else if (get || post) && route == "/create-gsheet"@ {
        LauncherStepModel::Open(ActionModel::NewGoogleSheets)
    } else if get && route == "/open-ms-excel-web"@ {
        LauncherStepModel::Open(ActionModel::ExcelWeb)
    } else if get && route == "/open-ms-office-viewer"@ {
        LauncherStepModel::Open(ActionModel::Viewer(path_parameter(request.path, "src"@)))
    } else if post && route == "/prompt"@ {
        prompt_step(parameter(text_of_bytes(request.body), "prompt"@))
    } else if get && route == "/prompt"@ {
        prompt_step(path_parameter(request.path, "prompt"@))
    } else {
        LauncherStepModel::Respond(text_answer("404 Not Found"@, "not found\n"@))
    }
}

/// Decides what the launcher does about a request.
pub fn handle_client(request: &HttpRequest, settings: &LauncherSettings) -> (r: LauncherStep)
    ensures
        r@ == launcher_step(request@, settings@),
{
    let path = request.path.as_str();
    let chars = chars_of(path);
    let end = find_char(chars.as_slice(), '?');
    let route = path.substring_char(0, end);
    let get = same_text(request.method.as_str(), "GET");
    let post = same_text(request.method.as_str(), "POST");
    if get && same_text(route, "/") {
        LauncherStep::Respond(
            ("200 OK", "text/html; charset=utf-8", index_html(as_str(&settings.model))),
        )
    } else if get && same_text(route, "/health") {
        LauncherStep::Respond(("200 OK", "text/plain; charset=utf-8", copy_text("ok\n")))
    } else if get && same_text(route, "/open-excel") {
        LauncherStep::Open(Action::Excel)
    } else if get && same_text(route, "/open-csv") {
        LauncherStep::Open(Action::Csv)
    } else if get && same_text(route, "/open-google-sheets") {
        LauncherStep::Open(Action::GoogleSheets)
    } else if (get || post) && same_text(route, "/create-gsheet") {
        LauncherStep::Open(Action::NewGoogleSheets)
    } else if get && same_text(route, "/open-ms-excel-web") {
        LauncherStep::Open(Action::ExcelWeb)
    } else if get && same_text(route, "/open-ms-office-viewer") {
        LauncherStep::Open(Action::Viewer(query_value(path, "src")))
    } else if post && same_text(route, "/prompt") {
        prompt_response(form_value(request.body.as_slice(), "prompt"))
    } else if get && same_text(route, "/prompt") {
        prompt_response(query_value(path, "prompt"))
    } else {
        LauncherStep::Respond(
            ("404 Not Found", "text/plain; charset=utf-8", copy_text("not found\n")),
        )
    }
}

/// What is answered to a request that named an action itself.
pub open spec fn manual_answer(action: ActionModel, result: Result<Seq<char>, Seq<char>>) -> AnswerModel {
    action_answer("수동 실행"@, heading(action), result, None)
}

/// Answers a request that named an action itself.
pub fn manual_response(action: &Action, result: &Result<String, String>) -> (r: (
    &'static str,
    &'static str,
    String,
))
    ensures
        answer_of(r) == manual_answer(action@, result_text(*result)),
{
    action_response("수동 실행", name_action(action), result)
}

// ---------------------------------------------------------------------------
// Prompts
// ---------------------------------------------------------------------------

/// What a prompt asks for.
#[derive(Debug, Clone, Copy)]
pub enum PromptAction {
    OpenExcel,
    OpenCsv,
    OpenGoogleSheets,
    CreateGoogleSheets,
    OpenMicrosoftExcelWeb,
    OpenMicrosoftOfficeViewer,
    Deny,
}

/// What is said where no API key is set.
pub const NO_API_KEY: &'static str = "OPENAI_API_KEY 환경변수가 설정되어 있지 않습니다.";

/// What the model is told about classifying a prompt.
pub const INSTRUCTIONS: &'static str =
    "한국어 명령 분류기. 한 단어만 출력: OPEN_EXCEL, OPEN_CSV, OPEN_GOOGLE_SHEETS, CREATE_GOOGLE_SHEETS, OPEN_MICROSOFT_EXCEL_WEB, OPEN_MICROSOFT_OFFICE_VIEWER, DENY. 엑셀 실행/열기/켜줘는 OPEN_EXCEL. CSV/표 데이터/샘플 CSV는 OPEN_CSV. 구글 스프레드시트/구글시트/Google Sheets/웹 스프레드시트/웹엑셀을 열기/실행/켜기는 OPEN_GOOGLE_SHEETS. 구글 시트를 새로 만들기/생성/샘플 데이터 채워서 만들기는 CREATE_GOOGLE_SHEETS. 마이크로소프트 웹용 엑셀/Excel for the web/Microsoft 365 Excel/MS 웹엑셀은 OPEN_MICROSOFT_EXCEL_WEB. MS Office Web Viewer/Office Web Viewer/엑셀 웹 뷰어/웹용 엑셀 뷰어/뷰어로 보기 요청은 OPEN_MICROSOFT_OFFICE_VIEWER. 나머지는 DENY.";

/// What is sent to have a prompt classified; it needs an API key.
pub open spec fn classification(
    has_key: bool,
    model: Option<Seq<char>>,
    prompt: Seq<char>,
) -> Result<Seq<char>, Seq<char>> {
    if has_key {
        Ok(classify_payload(model_name(model), INSTRUCTIONS@, prompt))
    } else {
        Err(NO_API_KEY@)
    }
}

/// Writes what is sent to have a prompt classified, given the setting of the
/// model. The reply is read by [`read_decision`].
pub fn classify_prompt_with_openai(has_key: bool, model: Option<&str>, prompt: &str) -> (r: Result<
    String,
    String,
>)
    ensures
        result_text(r) == classification(has_key, optional_str(model), prompt@),
{
    if has_key {
        let name = openai_model(model);
        Ok(write_classify_payload(name.as_str(), INSTRUCTIONS, prompt))
    } else {
        Err(copy_text(NO_API_KEY))
    }
}

/// The action that a reply names.
pub open spec fn decision(body: Seq<char>) -> Result<PromptAction, Seq<char>> {
    let area = output_area(body);
    if mentions(area, "OPEN_MICROSOFT_OFFICE_VIEWER"@) {
        Ok(PromptAction::OpenMicrosoftOfficeViewer)
    } else if mentions(area, "OPEN_MICROSOFT_EXCEL_WEB"@) {
        Ok(PromptAction::OpenMicrosoftExcelWeb)
    } else if mentions(area, "CREATE_GOOGLE_SHEETS"@) {
        Ok(PromptAction::CreateGoogleSheets)
    } else if mentions(area, "OPEN_GOOGLE_SHEETS"@) {
        Ok(PromptAction::OpenGoogleSheets)
    } else if mentions(area, "OPEN_CSV"@) {
        Ok(PromptAction::OpenCsv)
    } else if mentions(area, "OPEN_EXCEL"@) {
        Ok(PromptAction::OpenExcel)
    } else if mentions(area, "DENY"@) {
        Ok(PromptAction::Deny)
    } else {
        Err(no_action(body))
    }
}

/// An action or the text of an error.
pub open spec fn decision_text(value: Result<PromptAction, String>) -> Result<
    PromptAction,
    Seq<char>,
> {
    match value {
        Ok(action) => Ok(action),
        Err(e) => Err(e@),
    }
}

/// Reads the action that a reply names.
fn find_decision(body: &str) -> (r: Result<PromptAction, String>)
    ensures
        decision_text(r) == decision(body@),
{
    let area = chars_of(openai_output_area(body));
    if has_text(area.as_slice(), "OPEN_MICROSOFT_OFFICE_VIEWER") {
        Ok(PromptAction::OpenMicrosoftOfficeViewer)
    } else if has_text(area.as_slice(), "OPEN_MICROSOFT_EXCEL_WEB") {
        Ok(PromptAction::OpenMicrosoftExcelWeb)
    } else if has_text(area.as_slice(), "CREATE_GOOGLE_SHEETS") {
        Ok(PromptAction::CreateGoogleSheets)
    } else if has_text(area.as_slice(), "OPEN_GOOGLE_SHEETS") {
        Ok(PromptAction::OpenGoogleSheets)
    } else if has_text(area.as_slice(), "OPEN_CSV") {
        Ok(PromptAction::OpenCsv)
    } else if has_text(area.as_slice(), "OPEN_EXCEL") {
        Ok(PromptAction::OpenExcel)
    } else if has_text(area.as_slice(), "DENY") {
        Ok(PromptAction::Deny)
    } else {
        Err(report_no_action(body))
    }
}

/// What comes of asking the model about a prompt.
pub open spec fn classified_as(reply: Result<Seq<char>, Seq<char>>) -> Result<
    PromptAction,
    Seq<char>,
> {
    match reply {
        Ok(body) => decision(body),
        Err(e) => Err(e),
    }
}

/// Reads the action that a reply names; a call that failed keeps its error.
pub fn read_decision(reply: &Result<String, String>) -> (r: Result<PromptAction, String>)
    ensures
        decision_text(r) == classified_as(result_text(*reply)),
{
    match reply {
        Ok(body) => find_decision(body.as_str()),
        Err(e) => Err(copy_text(e.as_str())),
    }
}

/// What the launcher does about a classified prompt: it answers at once, or
/// takes an action.
pub open spec fn classified_step(
    prompt: Seq<char>,
    classified: Result<PromptAction, Seq<char>>,
) -> LauncherStepModel {
    match classified {
        Ok(PromptAction::OpenExcel) => LauncherStepModel::Open(ActionModel::Excel),
        Ok(PromptAction::OpenCsv) => LauncherStepModel::Open(ActionModel::Csv),
        Ok(PromptAction::OpenGoogleSheets) => LauncherStepModel::Open(ActionModel::GoogleSheets),
        Ok(PromptAction::CreateGoogleSheets) => LauncherStepModel::Open(
            ActionModel::NewGoogleSheets,
        ),
        Ok(PromptAction::OpenMicrosoftExcelWeb) => LauncherStepModel::Open(ActionModel::ExcelWeb),
        Ok(PromptAction::OpenMicrosoftOfficeViewer) => LauncherStepModel::Open(
            ActionModel::Viewer(None),
        ),
        Ok(PromptAction::Deny) => LauncherStepModel::Respond(
            html_answer(
                "200 OK"@,
                result_page(
                    "OpenAI 프롬프트"@,
                    "실행 안 함"@,
                    "Excel 실행 요청으로 판단되지 않아 로컬 프로그램을 실행하지 않았습니다."@,
                    Some(prompt),
                ),
            ),
        ),
        Err(e) => LauncherStepModel::Respond(
            html_answer(
                "500 Internal Server Error"@,
                result_page("OpenAI 프롬프트"@, "API 실패"@, e, Some(prompt)),
            ),
        ),
    }
}

/// Decides what the launcher does about a classified prompt.
pub fn execute_prompt(prompt: &str, classified: &Result<PromptAction, String>) -> (r: LauncherStep)
    ensures
        r@ == classified_step(prompt@, decision_text(*classified)),
{
    match classified {
        Ok(PromptAction::OpenExcel) => LauncherStep::Open(Action::Excel),
        Ok(PromptAction::OpenCsv) => LauncherStep::Open(Action::Csv),
        Ok(PromptAction::OpenGoogleSheets) => LauncherStep::Open(Action::GoogleSheets),
        Ok(PromptAction::CreateGoogleSheets) => LauncherStep::Open(Action::NewGoogleSheets),
        Ok(PromptAction::OpenMicrosoftExcelWeb) => LauncherStep::Open(Action::ExcelWeb),
        Ok(PromptAction::OpenMicrosoftOfficeViewer) => LauncherStep::Open(Action::Viewer(None)),
        Ok(PromptAction::Deny) => {
            let page = result_html(
                "OpenAI 프롬프트",
                "실행 안 함",
                "Excel 실행 요청으로 판단되지 않아 로컬 프로그램을 실행하지 않았습니다.",
                Some(prompt),
            );
            LauncherStep::Respond(("200 OK", "text/html; charset=utf-8", page))
        },
        Err(e) => {
            let page = result_html("OpenAI 프롬프트", "API 실패", e.as_str(), Some(prompt));
            LauncherStep::Respond(("500 Internal Server Error", "text/html; charset=utf-8", page))
        },
    }
}

/// What is answered to a prompt once its action was taken, or failed.
pub open spec fn prompt_answer(
    action: ActionModel,
    prompt: Seq<char>,
    result: Result<Seq<char>, Seq<char>>,
) -> AnswerModel {
    action_answer("OpenAI 프롬프트"@, heading(action), result, Some(prompt))
}

/// Answers a prompt whose action was taken, or failed.
pub fn prompt_result(action: &Action, prompt: &str, result: &Result<String, String>) -> (r: (
    &'static str,
    &'static str,
    String,
))
    ensures
        answer_of(r) == prompt_answer(action@, prompt@, result_text(*result)),
{
    report_action("OpenAI 프롬프트", name_action(action), result, Some(prompt))
}

} // verus!
