//! The Windows side: paths as Windows sees them, and the PowerShell commands
//! that open programs and pages.
use vstd::prelude::*;

use crate::escape::{powershell_quoted, powershell_single_quote};
use crate::text::{
    chars_of, copy_text, nonblank, optional, optional_str, replace_char, result_text, strip_prefix,
    stripped, texts, trim_setting, unit_text, with_replaced,
};

verus! {

// ---------------------------------------------------------------------------
// Paths
// ---------------------------------------------------------------------------

/// The Windows form of a path inside WSL, for the two places that Windows can
/// reach.
pub open spec fn windows_path(path: Seq<char>) -> Option<Seq<char>> {
    match stripped(path, "/mnt/c/"@) {
        Some(rest) => Some("C:\\"@ + with_replaced(rest, '/', '\\')),
        None => match stripped(path, "/tmp/"@) {
            Some(rest) => Some(
                "\\\\wsl.localhost\\Ubuntu\\tmp\\"@ + with_replaced(rest, '/', '\\'),
            ),
            None => None,
        },
    }
}

/// Converts a path inside WSL to its Windows form.
pub fn wsl_to_windows_path(path: &str) -> (r: Option<String>)
    ensures
        optional(r) == windows_path(path@),
{
    let chars = chars_of(path);
    match strip_prefix(chars.as_slice(), "/mnt/c/") {
        Some(rest) => {
            let mut out = copy_text("C:\\");
            out.append(replace_char(rest, '/', '\\').as_str());
            Some(out)
        },
        None => match strip_prefix(chars.as_slice(), "/tmp/") {
            Some(rest) => {
                let mut out = copy_text("\\\\wsl.localhost\\Ubuntu\\tmp\\");
                out.append(replace_char(rest, '/', '\\').as_str());
                Some(out)
            },
            None => None,
        },
    }
}

/// Where PowerShell usually is.
pub const POWERSHELL_FULL: &'static str =
    "/mnt/c/Windows/System32/WindowsPowerShell/v1.0/powershell.exe";

/// Where PowerShell is on some machines.
pub const POWERSHELL_SHORT: &'static str = "/mnt/c/Windows/System32/powershell.exe";

/// The program to run for PowerShell: the first of the known places that
/// exists, or the bare name.
pub open spec fn powershell_program(full_exists: bool, short_exists: bool) -> Seq<char> {
    if full_exists {
        POWERSHELL_FULL@
    } else if short_exists {
        POWERSHELL_SHORT@
    } else {
        "powershell.exe"@
    }
}

/// Chooses the program to run for PowerShell, told which of the known places
/// exist.
pub fn powershell_path(full_exists: bool, short_exists: bool) -> (r: &'static str)
    ensures
        r@ == powershell_program(full_exists, short_exists),
{
    if full_exists {
        POWERSHELL_FULL
    } else if short_exists {
        POWERSHELL_SHORT
    } else {
        "powershell.exe"
    }
}

/// The arguments of PowerShell for a command that is started and left alone.
pub open spec fn spawn_arguments(command: Seq<char>) -> Seq<Seq<char>> {
    seq!["-NoProfile"@, "-ExecutionPolicy"@, "Bypass"@, "-Command"@, command]
}

/// Lists the arguments of PowerShell for a command that is started and left
/// alone.
pub fn spawn_powershell(command: &str) -> (r: Vec<String>)
    ensures
        texts(r@) == spawn_arguments(command@),
{
    let mut out: Vec<String> = Vec::new();
    out.push(copy_text("-NoProfile"));
    out.push(copy_text("-ExecutionPolicy"));
    out.push(copy_text("Bypass"));
    out.push(copy_text("-Command"));
    out.push(copy_text(command));
    assert(texts(out@) =~= spawn_arguments(command@));
    out
}

/// The arguments of PowerShell for a command that is waited for.
pub open spec fn wait_arguments(command: Seq<char>) -> Seq<Seq<char>> {
    seq!["-NoProfile"@, "-STA"@, "-ExecutionPolicy"@, "Bypass"@, "-Command"@, command]
}

/// Lists the arguments of PowerShell for a command that is waited for.
pub fn run_powershell_wait(command: &str) -> (r: Vec<String>)
    ensures
        texts(r@) == wait_arguments(command@),
{
    let mut out: Vec<String> = Vec::new();
    out.push(copy_text("-NoProfile"));
    out.push(copy_text("-STA"));
    out.push(copy_text("-ExecutionPolicy"));
    out.push(copy_text("Bypass"));
    out.push(copy_text("-Command"));
    out.push(copy_text(command));
    assert(texts(out@) =~= wait_arguments(command@));
    out
}

/// The report of a path that Windows cannot reach.
pub open spec fn unreachable_path(shown: Seq<char>) -> Seq<char> {
    "Windows 경로 변환 실패: "@ + shown
}

// ---------------------------------------------------------------------------
// Opening programs and pages
// ---------------------------------------------------------------------------

/// What opening something takes: the PowerShell command to start, and the
/// message once it has been started.
pub struct LaunchModel {
    pub command: Seq<char>,
    pub message: Seq<char>,
}

/// A PowerShell command to start, and the message once it has been started.
#[derive(Debug)]
pub struct Launch {
    pub command: String,
    pub message: String,
}

impl View for Launch {
    type V = LaunchModel;

    open spec fn view(&self) -> LaunchModel {
        LaunchModel { command: self.command@, message: self.message@ }
    }
}

/// The contents of a launch or of the text of an error.
pub open spec fn launch_text(value: Result<Launch, String>) -> Result<LaunchModel, Seq<char>> {
    match value {
        Ok(launch) => Ok(launch@),
        Err(e) => Err(e@),
    }
}

/// What comes of a launch once the command has been started or not.
pub open spec fn launch_outcome(launch: LaunchModel, started: Result<(), Seq<char>>) -> Result<
    Seq<char>,
    Seq<char>,
> {
    match started {
        Ok(()) => Ok(launch.message),
        Err(reason) => Err("powershell.exe 실행 실패: "@ + reason),
    }
}

/// Judges a launch: `started` says whether the command was started, or why not.
pub fn finish_launch(launch: Launch, started: Result<(), String>) -> (r: Result<String, String>)
    ensures
        result_text(r) == launch_outcome(launch@, unit_text(started)),
{
    match started {
        Ok(()) => Ok(launch.message),
        Err(reason) => {
            let mut out = copy_text("powershell.exe 실행 실패: ");
            out.append(reason.as_str());
            Err(out)
        },
    }
}

/// The command that opens Excel.
pub const OPEN_EXCEL_COMMAND: &'static str = "Start-Process -FilePath 'excel.exe'";

/// The command that opens a file in Excel.
pub open spec fn open_in_excel(path: Seq<char>) -> Seq<char> {
    "Start-Process -FilePath 'excel.exe' -ArgumentList "@ + powershell_quoted(path)
}

/// The command that opens a page in the browser.
pub open spec fn open_in_browser(url: Seq<char>) -> Seq<char> {
    "Start-Process "@ + powershell_quoted(url)
}

/// Writes the command that opens a page in the browser.
pub fn open_browser_url(url: &str) -> (r: String)
    ensures
        r@ == open_in_browser(url@),
{
    let mut out = copy_text("Start-Process ");
    out.append(powershell_single_quote(url).as_str());
    out
}

/// The sample table that is opened in Excel.
pub const SAMPLE_CSV: &'static str =
    "품목,수량,단가,합계\n라우터,2,120000,240000\n스위치,3,80000,240000\n";

/// How the sample table was written.
#[derive(Debug)]
pub enum CsvWrite {
    Written,
    /// The folder, as shown to people, could not be made; the text says why.
    NoFolder(String, String),
    /// The file could not be written; the text says why.
    NotWritten(String),
}

/// What opening the sample table takes once it was written or not: `path` is
/// where, `shown` is the path as shown to people, and `done` opens the message.
pub open spec fn csv_launch(
    path: Seq<char>,
    shown: Seq<char>,
    write: CsvWrite,
    done: Seq<char>,
) -> Result<LaunchModel, Seq<char>> {
    match write {
        CsvWrite::NoFolder(folder, reason) => Err(
            "폴더 생성 실패 "@ + folder@ + ": "@ + reason@,
        ),
        CsvWrite::NotWritten(reason) => Err("CSV 쓰기 실패 "@ + shown + ": "@ + reason@),
        CsvWrite::Written => match windows_path(path) {
            None => Err(unreachable_path(shown)),
            Some(target) => Ok(
                LaunchModel {
                    command: open_in_excel(target),
                    message: done + "\nWSL: "@ + shown + "\nWindows: "@ + target + "\n"@,
                },
            ),
        },
    }
}

/// Plans the opening of the sample table.
pub fn plan_csv(path: &str, shown: &str, write: &CsvWrite, done: &str) -> (r: Result<
    Launch,
    String,
>)
    ensures
        launch_text(r) == csv_launch(path@, shown@, *write, done@),
{
    match write {
        CsvWrite::NoFolder(folder, reason) => {
            let mut out = copy_text("폴더 생성 실패 ");
            out.append(folder.as_str());
            out.append(": ");
            out.append(reason.as_str());
            Err(out)
        },
        CsvWrite::NotWritten(reason) => {
            let mut out = copy_text("CSV 쓰기 실패 ");
            out.append(shown);
            out.append(": ");
            out.append(reason.as_str());
            Err(out)
        },
        CsvWrite::Written => match wsl_to_windows_path(path) {
            None => {
                let mut out = copy_text("Windows 경로 변환 실패: ");
                out.append(shown);
                Err(out)
            },
            Some(target) => {
                let mut command = copy_text("Start-Process -FilePath 'excel.exe' -ArgumentList ");
                command.append(powershell_single_quote(target.as_str()).as_str());
                let mut message = copy_text(done);
                message.append("\nWSL: ");
                message.append(shown);
                message.append("\nWindows: ");
                message.append(target.as_str());
                message.append("\n");
                Ok(Launch { command, message })
            },
        },
    }
}

/// The page that opens for Google Sheets, unless another is set.
pub const GOOGLE_SHEETS_URL: &'static str = "https://docs.google.com/spreadsheets/create";

/// The page that opens for Excel on the web, unless another is set.
pub const EXCEL_WEB_URL: &'static str = "https://www.microsoft365.com/launch/excel?auth=1";

/// A setting, or the default where it is missing or blank.
pub open spec fn setting_or(value: Option<Seq<char>>, default: Seq<char>) -> Seq<char> {
    match nonblank(value) {
        Some(s) => s,
        None => default,
    }
}

/// Takes a setting, or the default where it is missing or blank.
fn choose_setting(value: Option<&str>, default: &str) -> (r: String)
    ensures
        r@ == setting_or(optional_str(value), default@),
{
    match trim_setting(value) {
        Some(s) => s,
        None => copy_text(default),
    }
}

/// The page for Google Sheets, given the setting.
pub fn google_sheets_url(configured: Option<&str>) -> (r: String)
    ensures
        r@ == setting_or(optional_str(configured), GOOGLE_SHEETS_URL@),
{
    choose_setting(configured, GOOGLE_SHEETS_URL)
}

/// The page for Excel on the web, given the setting.
pub fn microsoft_excel_web_url(configured: Option<&str>) -> (r: String)
    ensures
        r@ == setting_or(optional_str(configured), EXCEL_WEB_URL@),
{
    choose_setting(configured, EXCEL_WEB_URL)
}

/// What opening Google Sheets takes.
pub open spec fn sheets_launch(configured: Option<Seq<char>>) -> LaunchModel {
    let url = setting_or(configured, GOOGLE_SHEETS_URL@);
    LaunchModel {
        command: open_in_browser(url),
        message: "Google Sheets 새 스프레드시트 실행 요청을 보냈습니다.\nURL: "@ + url
            + "\n기존 브라우저의 Google 로그인 세션을 사용합니다.\n"@,
    }
}

/// Plans the opening of Google Sheets.
pub fn open_google_sheets(configured: Option<&str>) -> (r: Launch)
    ensures
        r@ == sheets_launch(optional_str(configured)),
{
    let url = google_sheets_url(configured);
    let command = open_browser_url(url.as_str());
    let mut message = copy_text("Google Sheets 새 스프레드시트 실행 요청을 보냈습니다.\nURL: ");
    message.append(url.as_str());
    message.append("\n기존 브라우저의 Google 로그인 세션을 사용합니다.\n");
    Launch { command, message }
}

/// What opening Excel on the web takes.
pub open spec fn excel_web_launch(configured: Option<Seq<char>>) -> LaunchModel {
    let url = setting_or(configured, EXCEL_WEB_URL@);
    LaunchModel {
        command: open_in_browser(url),
        message: "Microsoft Excel for the web 실행 요청을 보냈습니다.\nURL: "@ + url
            + "\n브라우저의 기존 Microsoft 365 로그인 세션을 사용합니다.\n"@,
    }
}

/// Plans the opening of Excel on the web.
pub fn open_microsoft_excel_web(configured: Option<&str>) -> (r: Launch)
    ensures
        r@ == excel_web_launch(optional_str(configured)),
{
    let url = microsoft_excel_web_url(configured);
    let command = open_browser_url(url.as_str());
    let mut message = copy_text("Microsoft Excel for the web 실행 요청을 보냈습니다.\nURL: ");
    message.append(url.as_str());
    message.append("\n브라우저의 기존 Microsoft 365 로그인 세션을 사용합니다.\n");
    Launch { command, message }
}

/// Where the viewer of Office documents is; the address of the document
/// follows.
pub const VIEWER_URL: &'static str = "https://view.officeapps.live.com/op/view.aspx?src=";

/// What is said where no document is given to the viewer.
pub const NO_VIEWER_SOURCE: &'static str =
    "MS_OFFICE_VIEWER_SRC_URL 또는 src 파라미터가 필요합니다. Office Web Viewer는 Microsoft 서버가 접근 가능한 공개 .xlsx URL만 볼 수 있습니다.";

/// The document to view: the one asked for, or else the one that is set.
pub open spec fn viewer_source(asked: Option<Seq<char>>, configured: Option<Seq<char>>) -> Result<
    Seq<char>,
    Seq<char>,
> {
    match nonblank(asked) {
        Some(s) => Ok(s),
        None => match nonblank(configured) {
            Some(s) => Ok(s),
            None => Err(NO_VIEWER_SOURCE@),
        },
    }
}

/// Chooses the document to view.
pub fn office_viewer_source_url(explicit_src: Option<&str>, configured: Option<&str>) -> (r: Result<
    String,
    String,
>)
    ensures
        result_text(r) == viewer_source(
            optional_str(explicit_src),
            optional_str(configured),
        ),
{
    match trim_setting(explicit_src) {
        Some(s) => Ok(s),
        None => match trim_setting(configured) {
            Some(s) => Ok(s),
            None => Err(copy_text(NO_VIEWER_SOURCE)),
        },
    }
}

/// What viewing a document takes, where the viewer is at `url`.
pub open spec fn viewer_launch(source: Seq<char>, url: Seq<char>) -> LaunchModel {
    LaunchModel {
        command: open_in_browser(url),
        message: "Microsoft Office Web Viewer 실행 요청을 보냈습니다.\nWorkbook: "@ + source
            + "\nViewer: "@ + url + "\n"@,
    }
}

/// Plans the viewing of a document.
pub fn plan_viewer(source: &str, url: &str) -> (r: Launch)
    ensures
        r@ == viewer_launch(source@, url@),
{
    let command = open_browser_url(url);
    let mut message = copy_text("Microsoft Office Web Viewer 실행 요청을 보냈습니다.\nWorkbook: ");
    message.append(source);
    message.append("\nViewer: ");
    message.append(url);
    message.append("\n");
    Launch { command, message }
}

/// How something is opened.
pub enum OpeningModel {
    /// By writing the sample table first.
    WriteCsv,
    /// By a launch.
    Launch(LaunchModel),
    /// Not at all; the text says why.
    Refused(Seq<char>),
}

/// How something is opened.
#[derive(Debug)]
pub enum Opening {
    /// By writing the sample table, then launching Excel with it.
    WriteCsv,
    /// By a launch.
    Launch(Launch),
    /// Not at all; the text says why.
    Refused(String),
}

impl View for Opening {
    type V = OpeningModel;

    open spec fn view(&self) -> OpeningModel {
        match *self {
            Opening::WriteCsv => OpeningModel::WriteCsv,
            Opening::Launch(launch) => OpeningModel::Launch(launch@),
            Opening::Refused(e) => OpeningModel::Refused(e@),
        }
    }
}

} // verus!
