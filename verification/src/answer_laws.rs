//! Laws about answers: what the pages show, what is answered to whom, where files
//! are, and how answers are written.
use vstd::prelude::*;
use vstd::utf8::encode_utf8;

use crate::agent::{computer_answer, open_answer, AgentStepModel, TargetModel};
use crate::content_laws::{
    configured_models_are_asked, parted, reads, rendered, written, written_push, written_reads, Part,
};
use crate::device::capture_command;
use crate::encoding_laws::{markup, utf8_round_trip};
use crate::gateway::{reply_page, PendingModel};
use crate::http::{response_bytes, ResponseModel};
use crate::launcher::{
    answer_bytes, action_answer, manual_answer, ActionModel, AnswerModel, LauncherStepModel,
};
use crate::number::decimal;
use crate::request_laws::plain;
use crate::temp::{after_attempt, demo_path, path_in, temp_name, TempOutcome, TempStepModel};
use crate::text::{begins_with, nonblank, stripped, text_of_bytes};
use crate::text_laws::{blank, holds, tight, trimming_leaves_the_text};
use crate::url::{form_encoded, percent_decoded, url_encoded};
use crate::windows::{
    csv_launch, launch_outcome, powershell_program, spawn_arguments, wait_arguments, windows_path,
    CsvWrite, LaunchModel,
};
use crate::{agent, bridge, gateway, launcher};

verus! {

// ---------------------------------------------------------------------------
// Settings and prefixes
// ---------------------------------------------------------------------------

/// A setting is taken whole, without the white space around it; a blank one is
/// none.
pub proof fn settings_are_taken_whole(front: Seq<char>, s: Seq<char>, back: Seq<char>)
    requires
        blank(front),
        blank(back),
        tight(s),
    ensures
        s.len() > 0 ==> nonblank(Some(front + s + back)) == Some(s),
        s.len() == 0 ==> nonblank(Some(front + s + back)) is None,
        nonblank(None) is None,
{
    trimming_leaves_the_text(front, s, back);
}

/// An address that is given is taken as it is.
pub proof fn given_addresses_are_taken(given: Seq<char>, usual: Seq<char>)
    ensures
        bridge::given_or(Some(given), usual) == given,
        bridge::given_or(None, usual) == usual,
        bridge::token_text(Some(given)) == given,
        bridge::token_text(None).len() == 0,
{
}

/// A beginning is cut off where it stands, and nowhere else.
pub proof fn beginnings_are_cut_off(beginning: Seq<char>, rest: Seq<char>, s: Seq<char>)
    ensures
        stripped(beginning + rest, beginning) == Some(rest),
        begins_with(beginning + rest, beginning),
        begins_with(s, beginning) ==> s == beginning + s.skip(beginning.len() as int),
        !begins_with(s, beginning) ==> stripped(s, beginning) is None,
{
    let whole = beginning + rest;
    assert(whole.subrange(0, beginning.len() as int) =~= beginning);
    assert(whole.skip(beginning.len() as int) =~= rest);
    if begins_with(s, beginning) {
        assert(s.subrange(0, beginning.len() as int) == beginning);
        assert(s =~= beginning + s.skip(beginning.len() as int));
    }
}

// ---------------------------------------------------------------------------
// Files
// ---------------------------------------------------------------------------

/// Whether `windows` is the rest of a path with backslashes for slashes, and
/// every other character as it was.
pub open spec fn backslashed(rest: Seq<char>, windows: Seq<char>) -> bool {
    &&& windows.len() == rest.len()
    &&& forall|i: int|
        0 <= i < rest.len() ==> #[trigger] windows[i] == (if rest[i] == '/' {
            '\\'
        } else {
            rest[i]
        })
}

/// Windows reaches the files of its own drive and those of the temporary folder,
/// and no others.
pub proof fn windows_paths_are_converted(rest: Seq<char>, windows: Seq<char>, path: Seq<char>)
    requires
        backslashed(rest, windows),
    ensures
        windows_path("/mnt/c/"@ + rest) == Some("C:\\"@ + windows),
        windows_path("/tmp/"@ + rest) == Some("\\\\wsl.localhost\\Ubuntu\\tmp\\"@ + windows),
        !begins_with(path, "/mnt/c/"@) && !begins_with(path, "/tmp/"@) ==> windows_path(path) is None,
{
    beginnings_are_cut_off("/mnt/c/"@, rest, path);
    beginnings_are_cut_off("/tmp/"@, rest, path);
    let tmp = "/tmp/"@ + rest;
    reveal_strlit("/mnt/c/");
    reveal_strlit("/tmp/");
    assert(tmp[1] == 't');
    if begins_with(tmp, "/mnt/c/"@) {
        assert(tmp.subrange(0, 7)[1] == "/mnt/c/"@[1]);
    }
    assert(crate::text::with_replaced(rest, '/', '\\') =~= windows);
}

/// The sample table is opened in Excel where Windows sees it, and the message
/// names both places; what went wrong before is reported with its reason.
pub proof fn tables_are_opened(
    path: Seq<char>,
    shown: Seq<char>,
    target: Seq<char>,
    done: Seq<char>,
    folder: String,
    reason: String,
)
    requires
        windows_path(path) == Some(target),
    ensures
        csv_launch(path, shown, CsvWrite::Written, done) matches Ok(launch) && launch.message
            == done + "\nWSL: "@ + shown + "\nWindows: "@ + target + "\n"@ && reads(
            launch.command,
            seq![
                Part::Fixed("Start-Process -FilePath 'excel.exe' -ArgumentList "@),
                Part::Quoted(target),
            ],
        ),
        csv_launch(path, shown, CsvWrite::NoFolder(folder, reason), done) matches Err(e) && e
            == "폴더 생성 실패 "@ + folder@ + ": "@ + reason@,
        csv_launch(path, shown, CsvWrite::NotWritten(reason), done) matches Err(e) && e
            == "CSV 쓰기 실패 "@ + shown + ": "@ + reason@,
{
    let command = crate::windows::open_in_excel(target);
    let q0 = Seq::<Part>::empty();
    let q1 = q0.push(Part::Fixed("Start-Process -FilePath 'excel.exe' -ArgumentList "@));
    written_push(q0, Part::Fixed("Start-Process -FilePath 'excel.exe' -ArgumentList "@));
    let q2 = q1.push(Part::Quoted(target));
    written_push(q1, Part::Quoted(target));
    assert(written(q0) + rendered(q1[0]) =~= rendered(q1[0]));
    assert(command == written(q2));
    assert(q2 =~= seq![Part::Fixed("Start-Process -FilePath 'excel.exe' -ArgumentList "@), Part::Quoted(target)]);
    written_reads(q2);
}

/// A picture of the screen is saved where it was asked for, as Windows sees it.
pub proof fn pictures_are_saved(path: Seq<char>, shown: Seq<char>, target: Seq<char>)
    requires
        windows_path(path) == Some(target),
    ensures
        capture_command(path, shown) matches Ok(command) && reads(
            command,
            seq![
                Part::Fixed(
                    "Add-Type -AssemblyName System.Windows.Forms; Add-Type -AssemblyName System.Drawing; $b=[System.Windows.Forms.Screen]::PrimaryScreen.Bounds; $bmp=New-Object System.Drawing.Bitmap $b.Width,$b.Height; $g=[System.Drawing.Graphics]::FromImage($bmp); $g.CopyFromScreen($b.Location,[System.Drawing.Point]::Empty,$b.Size); $bmp.Save("@,
                ),
                Part::Quoted(target),
                Part::Fixed(
                    ",[System.Drawing.Imaging.ImageFormat]::Png); $g.Dispose(); $bmp.Dispose()"@,
                ),
            ],
        ),
{
    reveal_strlit(",[System.Drawing.Imaging.ImageFormat]::Png); $g.Dispose(); $bmp.Dispose()");
    let command = capture_command(path, shown)->Ok_0;
    let q0 = Seq::<Part>::empty();
    let q1 = q0.push(Part::Fixed("Add-Type -AssemblyName System.Windows.Forms; Add-Type -AssemblyName System.Drawing; $b=[System.Windows.Forms.Screen]::PrimaryScreen.Bounds; $bmp=New-Object System.Drawing.Bitmap $b.Width,$b.Height; $g=[System.Drawing.Graphics]::FromImage($bmp); $g.CopyFromScreen($b.Location,[System.Drawing.Point]::Empty,$b.Size); $bmp.Save("@));
    written_push(q0, Part::Fixed("Add-Type -AssemblyName System.Windows.Forms; Add-Type -AssemblyName System.Drawing; $b=[System.Windows.Forms.Screen]::PrimaryScreen.Bounds; $bmp=New-Object System.Drawing.Bitmap $b.Width,$b.Height; $g=[System.Drawing.Graphics]::FromImage($bmp); $g.CopyFromScreen($b.Location,[System.Drawing.Point]::Empty,$b.Size); $bmp.Save("@));
    let q2 = q1.push(Part::Quoted(target));
    written_push(q1, Part::Quoted(target));
    let q3 = q2.push(Part::Fixed(",[System.Drawing.Imaging.ImageFormat]::Png); $g.Dispose(); $bmp.Dispose()"@));
    written_push(q2, Part::Fixed(",[System.Drawing.Imaging.ImageFormat]::Png); $g.Dispose(); $bmp.Dispose()"@));
    assert(written(q0) + rendered(q1[0]) =~= rendered(q1[0]));
    assert(command == written(q3));
    assert(q3 =~= seq![Part::Fixed("Add-Type -AssemblyName System.Windows.Forms; Add-Type -AssemblyName System.Drawing; $b=[System.Windows.Forms.Screen]::PrimaryScreen.Bounds; $bmp=New-Object System.Drawing.Bitmap $b.Width,$b.Height; $g=[System.Drawing.Graphics]::FromImage($bmp); $g.CopyFromScreen($b.Location,[System.Drawing.Point]::Empty,$b.Size); $bmp.Save("@), Part::Quoted(target), Part::Fixed(",[System.Drawing.Imaging.ImageFormat]::Png); $g.Dispose(); $bmp.Dispose()"@)]);
    assert(parted(q3[1], q3[2]));
    written_reads(q3);
}

/// A file that Windows cannot reach is neither opened nor written to.
pub proof fn unreachable_files_are_reported(path: Seq<char>, shown: Seq<char>, done: Seq<char>)
    requires
        windows_path(path) is None,
    ensures
        csv_launch(path, shown, CsvWrite::Written, done) matches Err(e) && e
            == "Windows 경로 변환 실패: "@ + shown,
        capture_command(path, shown) matches Err(e) && e == "Windows 경로 변환 실패: "@ + shown,
{
}

/// Commands are handed to PowerShell whole, as its last argument.
pub proof fn commands_are_handed_over_whole(command: Seq<char>)
    ensures
        spawn_arguments(command) == seq![
            "-NoProfile"@,
            "-ExecutionPolicy"@,
            "Bypass"@,
            "-Command"@,
            command,
        ],
        wait_arguments(command) == seq![
            "-NoProfile"@,
            "-STA"@,
            "-ExecutionPolicy"@,
            "Bypass"@,
            "-Command"@,
            command,
        ],
        powershell_program(true, true)
            == "/mnt/c/Windows/System32/WindowsPowerShell/v1.0/powershell.exe"@,
        powershell_program(true, false)
            == "/mnt/c/Windows/System32/WindowsPowerShell/v1.0/powershell.exe"@,
        powershell_program(false, true) == "/mnt/c/Windows/System32/powershell.exe"@,
        powershell_program(false, false) == "powershell.exe"@,
{
}

/// A launch that was started is answered with its message, and one that was not
/// with the reason.
pub proof fn launches_are_judged(launch: LaunchModel, reason: Seq<char>)
    ensures
        launch_outcome(launch, Ok(())) == Ok::<Seq<char>, Seq<char>>(launch.message),
        launch_outcome(launch, Err(reason)) matches Err(e) && e == "powershell.exe 실행 실패: "@
            + reason,
{
}

/// A file stands in its folder, with one slash between the two; the name of a
/// sample holds the time.
pub proof fn files_stand_in_their_folder(
    folder: Seq<char>,
    name: Seq<char>,
    prefix: Seq<char>,
    stamp: nat,
    suffix: Seq<char>,
)
    requires
        folder.len() > 0 ==> folder.last() != '/',
    ensures
        folder.len() > 0 ==> path_in(folder, name) == folder + seq!['/'] + name,
        folder.len() == 0 ==> path_in(folder, name) == name,
        path_in(folder + seq!['/'], name) == folder + seq!['/'] + name,
        demo_path(prefix, stamp, suffix, true, folder) == "/mnt/c/Users/David/Desktop/"@ + (prefix
            + decimal(stamp) + suffix),
        demo_path(prefix, stamp, suffix, false, folder) == path_in(
            folder,
            prefix + decimal(stamp) + suffix,
        ),
{
    reveal_strlit("/");
    assert("/"@ =~= seq!['/']);
    if folder.len() == 0 {
        assert(folder + name =~= name);
    }
    reveal_strlit("/mnt/c/Users/David/Desktop");
    reveal_strlit("/mnt/c/Users/David/Desktop/");
    assert("/mnt/c/Users/David/Desktop"@ + "/"@ =~= "/mnt/c/Users/David/Desktop/"@);
}

/// A temporary file is named by the process, the time and the attempt; a name
/// that is taken is followed by the next, up to twenty in all.
pub proof fn temporary_names_are_tried(
    prefix: Seq<char>,
    suffix: Seq<char>,
    process: nat,
    stamp: nat,
    attempt: nat,
    shown: Seq<char>,
    reason: String,
)
    ensures
        temp_name(prefix, suffix, process, stamp, attempt) == prefix + seq!['-'] + decimal(process)
            + seq!['-'] + decimal(stamp) + seq!['-'] + decimal(attempt) + suffix,
        attempt < 19 ==> after_attempt(attempt, shown, TempOutcome::Taken)
            == TempStepModel::Retry(attempt + 1),
        attempt >= 19 ==> (after_attempt(
            attempt,
            shown,
            TempOutcome::Taken,
        ) matches TempStepModel::Failed(e) && e == "임시 파일 이름을 만들지 못했습니다."@),
        after_attempt(attempt, shown, TempOutcome::Written) is Done,
        after_attempt(
            attempt,
            shown,
            TempOutcome::NotWritten(reason),
        ) matches TempStepModel::Failed(e) && e == "임시 파일 쓰기 실패 "@ + shown + ": "@ + reason@,
        after_attempt(attempt, shown, TempOutcome::NotMade(reason)) matches TempStepModel::Failed(
            e,
        ) && e == "임시 파일 생성 실패 "@ + shown + ": "@ + reason@,
{
    reveal_strlit("-");
    assert("-"@ =~= seq!['-']);
}

// ---------------------------------------------------------------------------
// Percent-encoding
// ---------------------------------------------------------------------------

/// The value of a byte as a hexadecimal digit.
pub open spec fn hex_byte(byte: int) -> Option<int> {
    if 48 <= byte <= 57 {
        Some(byte - 48)
    } else if 65 <= byte <= 70 {
        Some(byte - 55)
    } else if 97 <= byte <= 102 {
        Some(byte - 87)
    } else {
        None
    }
}

/// Decoding goes from left to right: a plus sign is a space, a percent sign with
/// two hexadecimal digits is the byte that they name, and everything else stands
/// for itself.
pub proof fn decoding_goes_by_escapes(byte: u8, high: u8, low: u8, rest: Seq<u8>)
    ensures
        percent_decoded(Seq::empty()).len() == 0,
        byte != 0x2b && byte != 0x25 ==> percent_decoded(seq![byte] + rest) == seq![byte]
            + percent_decoded(rest),
        percent_decoded(seq![0x2bu8] + rest) == seq![0x20u8] + percent_decoded(rest),
        hex_byte(high as int) is Some && hex_byte(low as int) is Some ==> percent_decoded(
            seq![0x25u8, high, low] + rest,
        ) == seq![(hex_byte(high as int)->0 * 16 + hex_byte(low as int)->0) as u8]
            + percent_decoded(rest),
        hex_byte(high as int) is None || hex_byte(low as int) is None ==> percent_decoded(
            seq![0x25u8, high, low] + rest,
        ) == seq![0x25u8] + percent_decoded(seq![high, low] + rest),
        rest.len() < 2 ==> percent_decoded(seq![0x25u8] + rest) == seq![0x25u8] + percent_decoded(
            rest,
        ),
{
    assert((seq![byte] + rest).skip(1) =~= rest);
    assert((seq![0x2bu8] + rest).skip(1) =~= rest);
    assert((seq![0x25u8] + rest).skip(1) =~= rest);
    assert((seq![0x25u8, high, low] + rest).skip(3) =~= rest);
    assert((seq![0x25u8, high, low] + rest).skip(1) =~= seq![high, low] + rest);
}

/// What stands for a byte in percent-encoded text that writes a space as `space`:
/// letters, digits and `-._~` stand for themselves, and any other byte is an
/// escape in capital letters.
pub open spec fn escaped_byte(byte: u8, space: Seq<char>) -> Seq<char> {
    if 65 <= byte <= 90 || 97 <= byte <= 122 || 48 <= byte <= 57 || byte == 45 || byte == 46 || byte
        == 95 || byte == 126 {
        seq![byte as char]
    } else if byte == 32 {
        space
    } else {
        seq!['%', "0123456789ABCDEF"@[byte as int / 16], "0123456789ABCDEF"@[byte as int % 16]]
    }
}

/// Encoding goes byte by byte.
pub proof fn encoding_goes_by_bytes(s: Seq<char>)
    ensures
        form_encoded(s) == encode_utf8(s).flat_map(|byte: u8| escaped_byte(byte, seq!['+'])),
        url_encoded(s) == encode_utf8(s).flat_map(
            |byte: u8| escaped_byte(byte, seq!['%', '2', '0']),
        ),
{
    reveal_strlit("+");
    reveal_strlit("%20");
    reveal_strlit("0123456789ABCDEF");
    assert("+"@ =~= seq!['+']);
    assert("%20"@ =~= seq!['%', '2', '0']);
    same_encoding(seq!['+']);
    same_encoding(seq!['%', '2', '0']);
}

proof fn same_encoding(space: Seq<char>)
    ensures
        (|byte: u8| crate::url::encoded_byte(byte, space)) == (|byte: u8|
            escaped_byte(byte, space)),
{
    reveal_strlit("0123456789ABCDEF");
    let f = |byte: u8| crate::url::encoded_byte(byte, space);
    let g = |byte: u8| escaped_byte(byte, space);
    assert forall|byte: u8| #[trigger] f(byte) == g(byte) by {
        assert(f(byte) =~= g(byte));
    }
    assert(f =~= g);
}

// ---------------------------------------------------------------------------
// Answers
// ---------------------------------------------------------------------------

/// A response is written with its status, its type, the length of its body and
/// then the body, whole.
pub proof fn responses_are_written_whole(status: Seq<char>, content_type: Seq<char>, body: Seq<u8>)
    ensures
        response_bytes((ResponseModel { status, content_type, body })) == encode_utf8(
            "HTTP/1.1 "@ + status + "\r\nContent-Type: "@ + content_type
                + "\r\nContent-Length: "@ + decimal(body.len())
                + "\r\nConnection: close\r\n\r\n"@,
        ) + body,
        !begins_with(status, "302"@) ==> answer_bytes(status, content_type, body) == response_bytes(
            (ResponseModel { status, content_type, body }),
        ),
{
}

/// A redirection is written with the place that it leads to, whole.
pub proof fn redirections_are_written_whole(
    more: Seq<char>,
    content_type: Seq<char>,
    place: Seq<char>,
)
    ensures
        answer_bytes("302"@ + more, content_type, encode_utf8(place)) == encode_utf8(
            "HTTP/1.1 302 Found\r\nLocation: "@ + place
                + "\r\nContent-Length: 0\r\nConnection: close\r\n\r\n"@,
        ),
{
    utf8_round_trip(place);
    beginnings_are_cut_off("302"@, more, more);
}

/// The name of what the agent opened, in its answers.
pub open spec fn agent_name(target: TargetModel) -> Seq<char> {
    match target {
        TargetModel::Excel => "OPEN_EXCEL"@,
        TargetModel::Csv => "OPEN_CSV"@,
        TargetModel::GoogleSheets => "OPEN_GOOGLE_SHEETS"@,
        TargetModel::ExcelWeb => "OPEN_MICROSOFT_EXCEL_WEB"@,
        TargetModel::Viewer(_) => "OPEN_MICROSOFT_OFFICE_VIEWER"@,
    }
}

/// The agent answers with what it did, the prompt and the message, whole, or with
/// the error.
pub proof fn agent_answers(
    target: TargetModel,
    prompt: Seq<char>,
    message: Seq<char>,
    e: Seq<char>,
)
    ensures
        plain(
            open_answer(target, Ok(message)),
            "200 OK"@,
            "agent action="@ + agent_name(target) + "\n"@ + message,
        ),
        plain(open_answer(target, Err(e)), "500 Internal Server Error"@, e),
        plain(
            agent::prompt_answer(target, prompt, Ok(message)),
            "200 OK"@,
            "agent action="@ + agent_name(target) + "\nprompt="@ + prompt + "\n"@ + message,
        ),
        plain(agent::prompt_answer(target, prompt, Err(e)), "500 Internal Server Error"@, e),
        plain(computer_answer(Ok(message)), "200 OK"@, message),
        plain(
            computer_answer(Err(e)),
            "500 Internal Server Error"@,
            "computer use 실패: "@ + e + "\n"@,
        ),
{
    utf8_round_trip("agent action="@ + agent_name(target) + "\n"@ + message);
    utf8_round_trip(
        "agent action="@ + agent_name(target) + "\nprompt="@ + prompt + "\n"@ + message,
    );
    utf8_round_trip(message);
    utf8_round_trip(e);
    utf8_round_trip("computer use 실패: "@ + e + "\n"@);
}

/// The agent opens what a prompt was classified as; it answers a denied prompt
/// with the prompt, and a failed classification with the error.
pub proof fn agent_obeys_the_classification(prompt: Seq<char>, e: Seq<char>)
    ensures
        agent::prompt_step(prompt, Ok(agent::PromptAction::OpenExcel)) == AgentStepModel::Open(
            TargetModel::Excel,
        ),
        agent::prompt_step(prompt, Ok(agent::PromptAction::OpenCsv)) == AgentStepModel::Open(
            TargetModel::Csv,
        ),
        agent::prompt_step(prompt, Ok(agent::PromptAction::OpenGoogleSheets))
            == AgentStepModel::Open(TargetModel::GoogleSheets),
        agent::prompt_step(prompt, Ok(agent::PromptAction::OpenMicrosoftExcelWeb))
            == AgentStepModel::Open(TargetModel::ExcelWeb),
        agent::prompt_step(prompt, Ok(agent::PromptAction::OpenMicrosoftOfficeViewer))
            == AgentStepModel::Open(TargetModel::Viewer(None)),
        agent::prompt_step(
            prompt,
            Ok(agent::PromptAction::Deny),
        ) matches AgentStepModel::Respond(response) && plain(
            response,
            "200 OK"@,
            "agent action=DENY\nprompt="@ + prompt
                + "\nExcel 실행 요청으로 판단하지 않았습니다.\n"@,
        ),
        agent::prompt_step(prompt, Err(e)) matches AgentStepModel::Respond(response) && plain(
            response,
            "500 Internal Server Error"@,
            "OpenAI API 실패: "@ + e + "\n"@,
        ),
{
    utf8_round_trip(
        "agent action=DENY\nprompt="@ + prompt
            + "\nExcel 실행 요청으로 판단하지 않았습니다.\n"@,
    );
    utf8_round_trip("OpenAI API 실패: "@ + e + "\n"@);
}

// ---------------------------------------------------------------------------
// Pages
// ---------------------------------------------------------------------------

proof fn joined_later(x: Seq<char>, a: Seq<char>, b: Seq<char>, c: Seq<char>)
    ensures
        x + (a + b + c) == x + a + b + c,
{
    assert(x + (a + b + c) =~= x + a + b + c);
}

proof fn launcher_parts_begin_with_markup()
    ensures
        launcher::INDEX_END@.len() > 0 && markup(launcher::INDEX_END@[0]),
        launcher::RESULT_AFTER_ACTION@.len() > 0 && markup(launcher::RESULT_AFTER_ACTION@[0]),
        launcher::RESULT_AFTER_SOURCE@.len() > 0 && markup(launcher::RESULT_AFTER_SOURCE@[0]),
        launcher::RESULT_END@.len() > 0 && markup(launcher::RESULT_END@[0]),
        "</code></p>"@.len() > 0 && markup("</code></p>"@[0]),
{
    reveal_strlit(
        r#"</code>로 명령을 판별한 뒤
      이 PC의 Windows Excel을 실행합니다. ActiveX는 사용하지 않습니다.
      Google Sheets 요청은 브라우저의 기존 Google 로그인 세션으로 새 스프레드시트를 엽니다.
      Microsoft 웹 Excel과 Office Web Viewer도 별도 버튼으로 실행할 수 있습니다.
    </p>

    <form method="post" action="/prompt">
      <label for="prompt">한글 프롬프트</label>
      <input id="prompt" name="prompt" value="엑셀 실행해줘" autocomplete="off">
      <div class="actions">
        <button type="submit">GPT로 판단해서 실행</button>
        <a class="button secondary" href="/open-excel">API 없이 바로 Excel 실행</a>
        <a class="button secondary" href="/open-csv">샘플 CSV를 Excel로 열기</a>
        <a class="button secondary" href="/open-google-sheets">Google Sheets 열기</a>
        <a class="button secondary" href="/open-ms-excel-web">MS Excel Web 열기</a>
        <a class="button secondary" href="/open-ms-office-viewer">MS Office Viewer 열기</a>
      </div>
    </form>

    <p style="margin-top:22px">
      상태 확인: <code>/health</code>
    </p>
  </main>
</body>
</html>
"#,
    );
    reveal_strlit(
        r#"</h1>
    <p><strong>경로:</strong> "#,
    );
    reveal_strlit(
        r#"</p>
    "#,
    );
    reveal_strlit(
        r#"</pre>
    <a href="/">돌아가기</a>
  </main>
</body>
</html>
"#,
    );
    reveal_strlit("</code></p>");
}

proof fn gateway_parts_begin_with_markup()
    ensures
        gateway::INDEX_AFTER_AGENT@.len() > 0 && markup(gateway::INDEX_AFTER_AGENT@[0]),
        gateway::INDEX_AFTER_PROMPT@.len() > 0 && markup(gateway::INDEX_AFTER_PROMPT@[0]),
        gateway::INDEX_AFTER_COMPUTER@.len() > 0 && markup(gateway::INDEX_AFTER_COMPUTER@[0]),
        gateway::INDEX_AFTER_SHEETS@.len() > 0 && markup(gateway::INDEX_AFTER_SHEETS@[0]),
        gateway::INDEX_AFTER_EXCEL_WEB@.len() > 0 && markup(gateway::INDEX_AFTER_EXCEL_WEB@[0]),
        gateway::INDEX_END@.len() > 0 && markup(gateway::INDEX_END@[0]),
        gateway::RESULT_AFTER_TITLE@.len() > 0 && markup(gateway::RESULT_AFTER_TITLE@[0]),
        gateway::RESULT_AFTER_AGENT@.len() > 0 && markup(gateway::RESULT_AFTER_AGENT@[0]),
        gateway::RESULT_AFTER_MESSAGE@.len() > 0 && markup(gateway::RESULT_AFTER_MESSAGE@[0]),
        gateway::RESULT_END@.len() > 0 && markup(gateway::RESULT_END@[0]),
        "</code></p>"@.len() > 0 && markup("</code></p>"@[0]),
{
    reveal_strlit(
        r#"</code>의 WSL local agent에 요청하고, local agent가 allowlist된 Excel 또는 Google Sheets 액션을 실행합니다.
    </p>
    <form method="post" action=""#,
    );
    reveal_strlit(
        r#"">
      <label for="prompt">한글 프롬프트</label>
      <input id="prompt" name="prompt" value="엑셀 실행해줘" autocomplete="off">
      <p><button type="submit">Vultr에서 로컬 PC Excel 실행</button></p>
    </form>
    <form method="post" action=""#,
    );
    reveal_strlit(
        r#"">
      <input name="prompt" value="엑셀 실행해줘" type="hidden">
      <p><button type="submit">OpenAI Computer Use로 Excel 실행</button></p>
    </form>
    <form method="post" action=""#,
    );
    reveal_strlit(
        r#"">
      <p><button type="submit">Google Sheets 새 스프레드시트 열기</button></p>
    </form>
    <form method="post" action=""#,
    );
    reveal_strlit(
        r#"">
      <p><button type="submit">Microsoft Excel for the web 열기</button></p>
    </form>
    <form method="post" action=""#,
    );
    reveal_strlit(
        r#"">
      <p><button type="submit">Microsoft Office Web Viewer로 샘플 .xlsx 보기</button></p>
    </form>
  </main>
</body>
</html>
"#,
    );
    reveal_strlit(
        r#"</h1>
    <p><strong>경로:</strong> Vultr gateway -> Tailscale -> WSL local agent -> allowlist action</p>
    <p><strong>Agent:</strong> <code>"#,
    );
    reveal_strlit(
        r#"</code></p>
    "#,
    );
    reveal_strlit(
        r#"</pre>
    <a href=""#,
    );
    reveal_strlit(
        r#"">돌아가기</a>
  </main>
</body>
</html>
"#,
    );
    reveal_strlit("</code></p>");
}

/// The first page of the launcher shows the name of the model, whole.
pub proof fn launcher_page_shows_the_model(model: Option<Seq<char>>, name: Seq<char>)
    requires
        (model == Some(name) && !blank(name)) || (name == "gpt-5.5"@ && (
        model matches Some(s) ==> blank(s))),
    ensures
        reads(
            launcher::index_page(model),
            seq![
                Part::Fixed(launcher::INDEX_START@),
                Part::Html(name),
                Part::Fixed(launcher::INDEX_END@),
            ],
        ),
{
    launcher_parts_begin_with_markup();
    match model {
        Some(s) => configured_models_are_asked(s),
        None => configured_models_are_asked(name),
    }
    let q0 = Seq::<Part>::empty();
    let q1 = q0.push(Part::Fixed(launcher::INDEX_START@));
    written_push(q0, Part::Fixed(launcher::INDEX_START@));
    let q2 = q1.push(Part::Html(name));
    written_push(q1, Part::Html(name));
    let q3 = q2.push(Part::Fixed(launcher::INDEX_END@));
    written_push(q2, Part::Fixed(launcher::INDEX_END@));
    assert(written(q0) + rendered(q1[0]) =~= rendered(q1[0]));
    assert(launcher::index_page(model) == written(q3));
    assert(q3 =~= seq![Part::Fixed(launcher::INDEX_START@), Part::Html(name), Part::Fixed(launcher::INDEX_END@)]);
    assert(parted(q3[1], q3[2]));
    written_reads(q3);
}

/// A page of results of the launcher shows the action, where it came from, the
/// prompt if there is one, and the message, each of them whole.
pub proof fn launcher_results_show_everything(
    source: Seq<char>,
    action: Seq<char>,
    message: Seq<char>,
    p: Seq<char>,
)
    ensures
        reads(
            launcher::result_page(source, action, message, Some(p)),
            seq![
                Part::Fixed(launcher::RESULT_START@),
                Part::Html(action),
                Part::Fixed(launcher::RESULT_AFTER_ACTION@),
                Part::Html(source),
                Part::Fixed(launcher::RESULT_AFTER_SOURCE@),
                Part::Fixed("<p><strong>입력:</strong> <code>"@),
                Part::Html(p),
                Part::Fixed("</code></p>"@),
                Part::Fixed(launcher::RESULT_AFTER_PROMPT@),
                Part::Html(message),
                Part::Fixed(launcher::RESULT_END@),
            ],
        ),
        reads(
            launcher::result_page(source, action, message, None),
            seq![
                Part::Fixed(launcher::RESULT_START@),
                Part::Html(action),
                Part::Fixed(launcher::RESULT_AFTER_ACTION@),
                Part::Html(source),
                Part::Fixed(launcher::RESULT_AFTER_SOURCE@),
                Part::Fixed(launcher::RESULT_AFTER_PROMPT@),
                Part::Html(message),
                Part::Fixed(launcher::RESULT_END@),
            ],
        ),
{
    launcher_parts_begin_with_markup();
    launcher_result_with_prompt(source, action, message, p);
    launcher_result_without_prompt(source, action, message);
}

proof fn launcher_result_with_prompt(
    source: Seq<char>,
    action: Seq<char>,
    message: Seq<char>,
    p: Seq<char>,
)
    ensures
        reads(
            launcher::result_page(source, action, message, Some(p)),
            seq![
                Part::Fixed(launcher::RESULT_START@),
                Part::Html(action),
                Part::Fixed(launcher::RESULT_AFTER_ACTION@),
                Part::Html(source),
                Part::Fixed(launcher::RESULT_AFTER_SOURCE@),
                Part::Fixed("<p><strong>입력:</strong> <code>"@),
                Part::Html(p),
                Part::Fixed("</code></p>"@),
                Part::Fixed(launcher::RESULT_AFTER_PROMPT@),
                Part::Html(message),
                Part::Fixed(launcher::RESULT_END@),
            ],
        ),
{
    launcher_parts_begin_with_markup();
    let q0 = Seq::<Part>::empty();
    let q1 = q0.push(Part::Fixed(launcher::RESULT_START@));
    written_push(q0, Part::Fixed(launcher::RESULT_START@));
    let q2 = q1.push(Part::Html(action));
    written_push(q1, Part::Html(action));
    let q3 = q2.push(Part::Fixed(launcher::RESULT_AFTER_ACTION@));
    written_push(q2, Part::Fixed(launcher::RESULT_AFTER_ACTION@));
    let q4 = q3.push(Part::Html(source));
    written_push(q3, Part::Html(source));
    let q5 = q4.push(Part::Fixed(launcher::RESULT_AFTER_SOURCE@));
    written_push(q4, Part::Fixed(launcher::RESULT_AFTER_SOURCE@));
    let q6 = q5.push(Part::Fixed("<p><strong>입력:</strong> <code>"@));
    written_push(q5, Part::Fixed("<p><strong>입력:</strong> <code>"@));
    let q7 = q6.push(Part::Html(p));
    written_push(q6, Part::Html(p));
    let q8 = q7.push(Part::Fixed("</code></p>"@));
    written_push(q7, Part::Fixed("</code></p>"@));
    let q9 = q8.push(Part::Fixed(launcher::RESULT_AFTER_PROMPT@));
    written_push(q8, Part::Fixed(launcher::RESULT_AFTER_PROMPT@));
    let q10 = q9.push(Part::Html(message));
    written_push(q9, Part::Html(message));
    let q11 = q10.push(Part::Fixed(launcher::RESULT_END@));
    written_push(q10, Part::Fixed(launcher::RESULT_END@));
    assert(written(q0) + rendered(q1[0]) =~= rendered(q1[0]));
    joined_later(written(q5), rendered(Part::Fixed("<p><strong>입력:</strong> <code>"@)), rendered(Part::Html(p)), rendered(Part::Fixed("</code></p>"@)));
    assert(launcher::result_page(source, action, message, Some(p)) == written(q11));
    assert(q11 =~= seq![Part::Fixed(launcher::RESULT_START@), Part::Html(action), Part::Fixed(launcher::RESULT_AFTER_ACTION@), Part::Html(source), Part::Fixed(launcher::RESULT_AFTER_SOURCE@), Part::Fixed("<p><strong>입력:</strong> <code>"@), Part::Html(p), Part::Fixed("</code></p>"@), Part::Fixed(launcher::RESULT_AFTER_PROMPT@), Part::Html(message), Part::Fixed(launcher::RESULT_END@)]);
    assert(parted(q11[1], q11[2]));
    assert(parted(q11[3], q11[4]));
    assert(parted(q11[6], q11[7]));
    assert(parted(q11[9], q11[10]));
    written_reads(q11);
}

proof fn launcher_result_without_prompt(
    source: Seq<char>,
    action: Seq<char>,
    message: Seq<char>,
)
    ensures
        reads(
            launcher::result_page(source, action, message, None),
            seq![
                Part::Fixed(launcher::RESULT_START@),
                Part::Html(action),
                Part::Fixed(launcher::RESULT_AFTER_ACTION@),
                Part::Html(source),
                Part::Fixed(launcher::RESULT_AFTER_SOURCE@),
                Part::Fixed(launcher::RESULT_AFTER_PROMPT@),
                Part::Html(message),
                Part::Fixed(launcher::RESULT_END@),
            ],
        ),
{
    launcher_parts_begin_with_markup();
    let q0 = Seq::<Part>::empty();
    let q1 = q0.push(Part::Fixed(launcher::RESULT_START@));
    written_push(q0, Part::Fixed(launcher::RESULT_START@));
    let q2 = q1.push(Part::Html(action));
    written_push(q1, Part::Html(action));
    let q3 = q2.push(Part::Fixed(launcher::RESULT_AFTER_ACTION@));
    written_push(q2, Part::Fixed(launcher::RESULT_AFTER_ACTION@));
    let q4 = q3.push(Part::Html(source));
    written_push(q3, Part::Html(source));
    let q5 = q4.push(Part::Fixed(launcher::RESULT_AFTER_SOURCE@));
    written_push(q4, Part::Fixed(launcher::RESULT_AFTER_SOURCE@));
    let q6 = q5.push(Part::Fixed(launcher::RESULT_AFTER_PROMPT@));
    written_push(q5, Part::Fixed(launcher::RESULT_AFTER_PROMPT@));
    let q7 = q6.push(Part::Html(message));
    written_push(q6, Part::Html(message));
    let q8 = q7.push(Part::Fixed(launcher::RESULT_END@));
    written_push(q7, Part::Fixed(launcher::RESULT_END@));
    assert(written(q0) + rendered(q1[0]) =~= rendered(q1[0]));
    assert(written(q5) + Seq::<char>::empty() =~= written(q5));
    assert(launcher::result_page(source, action, message, None) == written(q8));
    assert(q8 =~= seq![Part::Fixed(launcher::RESULT_START@), Part::Html(action), Part::Fixed(launcher::RESULT_AFTER_ACTION@), Part::Html(source), Part::Fixed(launcher::RESULT_AFTER_SOURCE@), Part::Fixed(launcher::RESULT_AFTER_PROMPT@), Part::Html(message), Part::Fixed(launcher::RESULT_END@)]);
    assert(parted(q8[1], q8[2]));
    assert(parted(q8[3], q8[4]));
    assert(parted(q8[6], q8[7]));
    written_reads(q8);
}

/// The heading of the page for an action of the launcher.
pub open spec fn launcher_name(action: ActionModel) -> Seq<char> {
    match action {
        ActionModel::Excel => "엑셀 실행"@,
        ActionModel::Csv => "CSV 생성 후 엑셀 실행"@,
        ActionModel::GoogleSheets => "Google Sheets 실행"@,
        ActionModel::NewGoogleSheets => "Google Sheets 생성 화면 실행"@,
        ActionModel::ExcelWeb => "Microsoft Excel for the web 실행"@,
        ActionModel::Viewer(_) => "Microsoft Office Web Viewer 실행"@,
    }
}

/// Whether an answer is a page with the given status.
pub open spec fn page(answer: AnswerModel, status: Seq<char>, text: Seq<char>) -> bool {
    answer.status == status && answer.content_type == "text/html; charset=utf-8"@ && answer.body
        == text
}

/// The launcher answers with a page that names the action and its message, or the
/// error; a prompt is repeated.
pub proof fn launcher_answers(
    action: ActionModel,
    prompt: Seq<char>,
    message: Seq<char>,
    e: Seq<char>,
    source: Seq<char>,
    name: Seq<char>,
)
    ensures
        page(
            manual_answer(action, Ok(message)),
            "200 OK"@,
            launcher::result_page("수동 실행"@, launcher_name(action), message, None),
        ),
        page(
            manual_answer(action, Err(e)),
            "500 Internal Server Error"@,
            launcher::result_page("수동 실행"@, "실패"@, e, None),
        ),
        page(
            launcher::prompt_answer(action, prompt, Ok(message)),
            "200 OK"@,
            launcher::result_page(
                "OpenAI 프롬프트"@,
                launcher_name(action),
                message,
                Some(prompt),
            ),
        ),
        page(
            launcher::prompt_answer(action, prompt, Err(e)),
            "500 Internal Server Error"@,
            launcher::result_page("OpenAI 프롬프트"@, "실패"@, e, Some(prompt)),
        ),
        page(
            action_answer(source, name, Ok(message), None),
            "200 OK"@,
            launcher::result_page(source, name, message, None),
        ),
        page(
            action_answer(source, name, Err(e), None),
            "500 Internal Server Error"@,
            launcher::result_page(source, "실패"@, e, None),
        ),
{
}

/// The launcher opens what a prompt was classified as; it answers a denied prompt
/// and a failed classification with a page that repeats the prompt.
pub proof fn launcher_obeys_the_classification(prompt: Seq<char>, e: Seq<char>)
    ensures
        launcher::classified_step(prompt, Ok(launcher::PromptAction::OpenExcel))
            == LauncherStepModel::Open(ActionModel::Excel),
        launcher::classified_step(prompt, Ok(launcher::PromptAction::OpenCsv))
            == LauncherStepModel::Open(ActionModel::Csv),
        launcher::classified_step(prompt, Ok(launcher::PromptAction::OpenGoogleSheets))
            == LauncherStepModel::Open(ActionModel::GoogleSheets),
        launcher::classified_step(prompt, Ok(launcher::PromptAction::CreateGoogleSheets))
            == LauncherStepModel::Open(ActionModel::NewGoogleSheets),
        launcher::classified_step(prompt, Ok(launcher::PromptAction::OpenMicrosoftExcelWeb))
            == LauncherStepModel::Open(ActionModel::ExcelWeb),
        launcher::classified_step(prompt, Ok(launcher::PromptAction::OpenMicrosoftOfficeViewer))
            == LauncherStepModel::Open(ActionModel::Viewer(None)),
        launcher::classified_step(
            prompt,
            Ok(launcher::PromptAction::Deny),
        ) matches LauncherStepModel::Respond(answer) && page(
            answer,
            "200 OK"@,
            launcher::result_page(
                "OpenAI 프롬프트"@,
                "실행 안 함"@,
                "Excel 실행 요청으로 판단되지 않아 로컬 프로그램을 실행하지 않았습니다."@,
                Some(prompt),
            ),
        ),
        launcher::classified_step(prompt, Err(e)) matches LauncherStepModel::Respond(answer)
            && page(
            answer,
            "500 Internal Server Error"@,
            launcher::result_page("OpenAI 프롬프트"@, "API 실패"@, e, Some(prompt)),
        ),
{
}

/// The first page of the gateway shows the address of the agent, whole, and each
/// of its forms goes to its route below the prefix.
pub proof fn gateway_page_shows_the_agent(agent_url: Seq<char>, prefix: Seq<char>)
    ensures
        reads(
            gateway::index_page(agent_url, prefix),
            seq![
                Part::Fixed(gateway::INDEX_START@),
                Part::Html(agent_url),
                Part::Fixed(gateway::INDEX_AFTER_AGENT@),
                Part::Html(prefix + "/prompt"@),
                Part::Fixed(gateway::INDEX_AFTER_PROMPT@),
                Part::Html(prefix + "/prompt-computer"@),
                Part::Fixed(gateway::INDEX_AFTER_COMPUTER@),
                Part::Html(prefix + "/open-google-sheets"@),
                Part::Fixed(gateway::INDEX_AFTER_SHEETS@),
                Part::Html(prefix + "/open-ms-excel-web"@),
                Part::Fixed(gateway::INDEX_AFTER_EXCEL_WEB@),
                Part::Html(prefix + "/open-ms-office-viewer"@),
                Part::Fixed(gateway::INDEX_END@),
            ],
        ),
{
    gateway_parts_begin_with_markup();
    gateway_paths(prefix);
    let q0 = Seq::<Part>::empty();
    let q1 = q0.push(Part::Fixed(gateway::INDEX_START@));
    written_push(q0, Part::Fixed(gateway::INDEX_START@));
    let q2 = q1.push(Part::Html(agent_url));
    written_push(q1, Part::Html(agent_url));
    let q3 = q2.push(Part::Fixed(gateway::INDEX_AFTER_AGENT@));
    written_push(q2, Part::Fixed(gateway::INDEX_AFTER_AGENT@));
    let q4 = q3.push(Part::Html(prefix + "/prompt"@));
    written_push(q3, Part::Html(prefix + "/prompt"@));
    let q5 = q4.push(Part::Fixed(gateway::INDEX_AFTER_PROMPT@));
    written_push(q4, Part::Fixed(gateway::INDEX_AFTER_PROMPT@));
    let q6 = q5.push(Part::Html(prefix + "/prompt-computer"@));
    written_push(q5, Part::Html(prefix + "/prompt-computer"@));
    let q7 = q6.push(Part::Fixed(gateway::INDEX_AFTER_COMPUTER@));
    written_push(q6, Part::Fixed(gateway::INDEX_AFTER_COMPUTER@));
    let q8 = q7.push(Part::Html(prefix + "/open-google-sheets"@));
    written_push(q7, Part::Html(prefix + "/open-google-sheets"@));
    let q9 = q8.push(Part::Fixed(gateway::INDEX_AFTER_SHEETS@));
    written_push(q8, Part::Fixed(gateway::INDEX_AFTER_SHEETS@));
    let q10 = q9.push(Part::Html(prefix + "/open-ms-excel-web"@));
    written_push(q9, Part::Html(prefix + "/open-ms-excel-web"@));
    let q11 = q10.push(Part::Fixed(gateway::INDEX_AFTER_EXCEL_WEB@));
    written_push(q10, Part::Fixed(gateway::INDEX_AFTER_EXCEL_WEB@));
    let q12 = q11.push(Part::Html(prefix + "/open-ms-office-viewer"@));
    written_push(q11, Part::Html(prefix + "/open-ms-office-viewer"@));
    let q13 = q12.push(Part::Fixed(gateway::INDEX_END@));
    written_push(q12, Part::Fixed(gateway::INDEX_END@));
    assert(written(q0) + rendered(q1[0]) =~= rendered(q1[0]));
    assert(gateway::index_page(agent_url, prefix) == written(q13));
    assert(q13 =~= seq![Part::Fixed(gateway::INDEX_START@), Part::Html(agent_url), Part::Fixed(gateway::INDEX_AFTER_AGENT@), Part::Html(prefix + "/prompt"@), Part::Fixed(gateway::INDEX_AFTER_PROMPT@), Part::Html(prefix + "/prompt-computer"@), Part::Fixed(gateway::INDEX_AFTER_COMPUTER@), Part::Html(prefix + "/open-google-sheets"@), Part::Fixed(gateway::INDEX_AFTER_SHEETS@), Part::Html(prefix + "/open-ms-excel-web"@), Part::Fixed(gateway::INDEX_AFTER_EXCEL_WEB@), Part::Html(prefix + "/open-ms-office-viewer"@), Part::Fixed(gateway::INDEX_END@)]);
    assert(parted(q13[1], q13[2]));
    assert(parted(q13[3], q13[4]));
    assert(parted(q13[5], q13[6]));
    assert(parted(q13[7], q13[8]));
    assert(parted(q13[9], q13[10]));
    assert(parted(q13[11], q13[12]));
    written_reads(q13);
}

proof fn gateway_paths(prefix: Seq<char>)
    ensures
        bridge::path_below(prefix, "/prompt"@) == prefix + "/prompt"@,
        bridge::path_below(prefix, "/prompt-computer"@) == prefix + "/prompt-computer"@,
        bridge::path_below(prefix, "/open-google-sheets"@) == prefix + "/open-google-sheets"@,
        bridge::path_below(prefix, "/open-ms-excel-web"@) == prefix + "/open-ms-excel-web"@,
        bridge::path_below(prefix, "/open-ms-office-viewer"@) == prefix + "/open-ms-office-viewer"@,
{
    reveal_strlit("/");
    reveal_strlit("/prompt");
    if prefix.len() == 0 {
        assert(prefix + "/prompt"@ =~= "/prompt"@);
    }
    assert("/prompt"@.len() == 7);
    reveal_strlit("/prompt-computer");
    if prefix.len() == 0 {
        assert(prefix + "/prompt-computer"@ =~= "/prompt-computer"@);
    }
    assert("/prompt-computer"@.len() == 16);
    reveal_strlit("/open-google-sheets");
    if prefix.len() == 0 {
        assert(prefix + "/open-google-sheets"@ =~= "/open-google-sheets"@);
    }
    assert("/open-google-sheets"@.len() == 19);
    reveal_strlit("/open-ms-excel-web");
    if prefix.len() == 0 {
        assert(prefix + "/open-ms-excel-web"@ =~= "/open-ms-excel-web"@);
    }
    assert("/open-ms-excel-web"@.len() == 18);
    reveal_strlit("/open-ms-office-viewer");
    if prefix.len() == 0 {
        assert(prefix + "/open-ms-office-viewer"@ =~= "/open-ms-office-viewer"@);
    }
    assert("/open-ms-office-viewer"@.len() == 22);
}

/// A page of results of the gateway shows its title, the address of the agent,
/// the prompt if there is one, the message and the way back, each of them whole.
pub proof fn gateway_results_show_everything(
    title: Seq<char>,
    message: Seq<char>,
    agent_url: Seq<char>,
    p: Seq<char>,
    prefix: Seq<char>,
    home: Seq<char>,
)
    requires
        home == if prefix.len() == 0 {
            seq!['/']
        } else {
            prefix
        },
    ensures
        p.len() > 0 ==> reads(
            gateway::result_page(title, message, agent_url, p, prefix),
            seq![
                Part::Fixed(gateway::RESULT_START@),
                Part::Html(title),
                Part::Fixed(gateway::RESULT_AFTER_TITLE@),
                Part::Html(agent_url),
                Part::Fixed(gateway::RESULT_AFTER_AGENT@),
                Part::Fixed("<p><strong>프롬프트:</strong> <code>"@),
                Part::Html(p),
                Part::Fixed("</code></p>"@),
                Part::Fixed(gateway::RESULT_AFTER_PROMPT@),
                Part::Html(message),
                Part::Fixed(gateway::RESULT_AFTER_MESSAGE@),
                Part::Html(home),
                Part::Fixed(gateway::RESULT_END@),
            ],
        ),
        reads(
            gateway::result_page(title, message, agent_url, Seq::empty(), prefix),
            seq![
                Part::Fixed(gateway::RESULT_START@),
                Part::Html(title),
                Part::Fixed(gateway::RESULT_AFTER_TITLE@),
                Part::Html(agent_url),
                Part::Fixed(gateway::RESULT_AFTER_AGENT@),
                Part::Fixed(gateway::RESULT_AFTER_PROMPT@),
                Part::Html(message),
                Part::Fixed(gateway::RESULT_AFTER_MESSAGE@),
                Part::Html(home),
                Part::Fixed(gateway::RESULT_END@),
            ],
        ),
{
    reveal_strlit("/");
    assert("/"@ =~= seq!['/']);
    if p.len() > 0 {
        gateway_result_with_prompt(title, message, agent_url, p, prefix, home);
    }
    gateway_result_without_prompt(title, message, agent_url, prefix, home);
}

proof fn gateway_result_with_prompt(
    title: Seq<char>,
    message: Seq<char>,
    agent_url: Seq<char>,
    p: Seq<char>,
    prefix: Seq<char>,
    home: Seq<char>,
)
    requires
        home == bridge::path_below(prefix, "/"@),
        p.len() > 0,
    ensures
        reads(
            gateway::result_page(title, message, agent_url, p, prefix),
            seq![
                Part::Fixed(gateway::RESULT_START@),
                Part::Html(title),
                Part::Fixed(gateway::RESULT_AFTER_TITLE@),
                Part::Html(agent_url),
                Part::Fixed(gateway::RESULT_AFTER_AGENT@),
                Part::Fixed("<p><strong>프롬프트:</strong> <code>"@),
                Part::Html(p),
                Part::Fixed("</code></p>"@),
                Part::Fixed(gateway::RESULT_AFTER_PROMPT@),
                Part::Html(message),
                Part::Fixed(gateway::RESULT_AFTER_MESSAGE@),
                Part::Html(home),
                Part::Fixed(gateway::RESULT_END@),
            ],
        ),
{
    gateway_parts_begin_with_markup();
    let q0 = Seq::<Part>::empty();
    let q1 = q0.push(Part::Fixed(gateway::RESULT_START@));
    written_push(q0, Part::Fixed(gateway::RESULT_START@));
    let q2 = q1.push(Part::Html(title));
    written_push(q1, Part::Html(title));
    let q3 = q2.push(Part::Fixed(gateway::RESULT_AFTER_TITLE@));
    written_push(q2, Part::Fixed(gateway::RESULT_AFTER_TITLE@));
    let q4 = q3.push(Part::Html(agent_url));
    written_push(q3, Part::Html(agent_url));
    let q5 = q4.push(Part::Fixed(gateway::RESULT_AFTER_AGENT@));
    written_push(q4, Part::Fixed(gateway::RESULT_AFTER_AGENT@));
    let q6 = q5.push(Part::Fixed("<p><strong>프롬프트:</strong> <code>"@));
    written_push(q5, Part::Fixed("<p><strong>프롬프트:</strong> <code>"@));
    let q7 = q6.push(Part::Html(p));
    written_push(q6, Part::Html(p));
    let q8 = q7.push(Part::Fixed("</code></p>"@));
    written_push(q7, Part::Fixed("</code></p>"@));
    let q9 = q8.push(Part::Fixed(gateway::RESULT_AFTER_PROMPT@));
    written_push(q8, Part::Fixed(gateway::RESULT_AFTER_PROMPT@));
    let q10 = q9.push(Part::Html(message));
    written_push(q9, Part::Html(message));
    let q11 = q10.push(Part::Fixed(gateway::RESULT_AFTER_MESSAGE@));
    written_push(q10, Part::Fixed(gateway::RESULT_AFTER_MESSAGE@));
    let q12 = q11.push(Part::Html(home));
    written_push(q11, Part::Html(home));
    let q13 = q12.push(Part::Fixed(gateway::RESULT_END@));
    written_push(q12, Part::Fixed(gateway::RESULT_END@));
    assert(written(q0) + rendered(q1[0]) =~= rendered(q1[0]));
    joined_later(written(q5), rendered(Part::Fixed("<p><strong>프롬프트:</strong> <code>"@)), rendered(Part::Html(p)), rendered(Part::Fixed("</code></p>"@)));
    assert(gateway::result_page(title, message, agent_url, p, prefix) == written(q13));
    assert(q13 =~= seq![Part::Fixed(gateway::RESULT_START@), Part::Html(title), Part::Fixed(gateway::RESULT_AFTER_TITLE@), Part::Html(agent_url), Part::Fixed(gateway::RESULT_AFTER_AGENT@), Part::Fixed("<p><strong>프롬프트:</strong> <code>"@), Part::Html(p), Part::Fixed("</code></p>"@), Part::Fixed(gateway::RESULT_AFTER_PROMPT@), Part::Html(message), Part::Fixed(gateway::RESULT_AFTER_MESSAGE@), Part::Html(home), Part::Fixed(gateway::RESULT_END@)]);
    assert(parted(q13[1], q13[2]));
    assert(parted(q13[3], q13[4]));
    assert(parted(q13[6], q13[7]));
    assert(parted(q13[9], q13[10]));
    assert(parted(q13[11], q13[12]));
    written_reads(q13);
}

proof fn gateway_result_without_prompt(
    title: Seq<char>,
    message: Seq<char>,
    agent_url: Seq<char>,
    prefix: Seq<char>,
    home: Seq<char>,
)
    requires
        home == bridge::path_below(prefix, "/"@),
    ensures
        reads(
            gateway::result_page(title, message, agent_url, Seq::empty(), prefix),
            seq![
                Part::Fixed(gateway::RESULT_START@),
                Part::Html(title),
                Part::Fixed(gateway::RESULT_AFTER_TITLE@),
                Part::Html(agent_url),
                Part::Fixed(gateway::RESULT_AFTER_AGENT@),
                Part::Fixed(gateway::RESULT_AFTER_PROMPT@),
                Part::Html(message),
                Part::Fixed(gateway::RESULT_AFTER_MESSAGE@),
                Part::Html(home),
                Part::Fixed(gateway::RESULT_END@),
            ],
        ),
{
    gateway_parts_begin_with_markup();
    let q0 = Seq::<Part>::empty();
    let q1 = q0.push(Part::Fixed(gateway::RESULT_START@));
    written_push(q0, Part::Fixed(gateway::RESULT_START@));
    let q2 = q1.push(Part::Html(title));
    written_push(q1, Part::Html(title));
    let q3 = q2.push(Part::Fixed(gateway::RESULT_AFTER_TITLE@));
    written_push(q2, Part::Fixed(gateway::RESULT_AFTER_TITLE@));
    let q4 = q3.push(Part::Html(agent_url));
    written_push(q3, Part::Html(agent_url));
    let q5 = q4.push(Part::Fixed(gateway::RESULT_AFTER_AGENT@));
    written_push(q4, Part::Fixed(gateway::RESULT_AFTER_AGENT@));
    let q6 = q5.push(Part::Fixed(gateway::RESULT_AFTER_PROMPT@));
    written_push(q5, Part::Fixed(gateway::RESULT_AFTER_PROMPT@));
    let q7 = q6.push(Part::Html(message));
    written_push(q6, Part::Html(message));
    let q8 = q7.push(Part::Fixed(gateway::RESULT_AFTER_MESSAGE@));
    written_push(q7, Part::Fixed(gateway::RESULT_AFTER_MESSAGE@));
    let q9 = q8.push(Part::Html(home));
    written_push(q8, Part::Html(home));
    let q10 = q9.push(Part::Fixed(gateway::RESULT_END@));
    written_push(q9, Part::Fixed(gateway::RESULT_END@));
    assert(written(q0) + rendered(q1[0]) =~= rendered(q1[0]));
    assert(written(q5) + Seq::<char>::empty() =~= written(q5));
    assert(gateway::result_page(title, message, agent_url, Seq::empty(), prefix) == written(q10));
    assert(q10 =~= seq![Part::Fixed(gateway::RESULT_START@), Part::Html(title), Part::Fixed(gateway::RESULT_AFTER_TITLE@), Part::Html(agent_url), Part::Fixed(gateway::RESULT_AFTER_AGENT@), Part::Fixed(gateway::RESULT_AFTER_PROMPT@), Part::Html(message), Part::Fixed(gateway::RESULT_AFTER_MESSAGE@), Part::Html(home), Part::Fixed(gateway::RESULT_END@)]);
    assert(parted(q10[1], q10[2]));
    assert(parted(q10[3], q10[4]));
    assert(parted(q10[6], q10[7]));
    assert(parted(q10[8], q10[9]));
    written_reads(q10);
}

/// The first page of the launcher submits the prompt to its route, and links to
/// what can be opened; a page of results links back.
pub proof fn launcher_pages_link_to_its_routes()
    ensures
        holds(launcher::INDEX_END@, "<form method=\"post\" action=\"/prompt\">"@),
        holds(launcher::INDEX_END@, "<input id=\"prompt\" name=\"prompt\""@),
        holds(launcher::INDEX_END@, "href=\"/open-excel\""@),
        holds(launcher::INDEX_END@, "href=\"/open-csv\""@),
        holds(launcher::INDEX_END@, "href=\"/open-google-sheets\""@),
        holds(launcher::INDEX_END@, "href=\"/open-ms-excel-web\""@),
        holds(launcher::INDEX_END@, "href=\"/open-ms-office-viewer\""@),
        holds(launcher::RESULT_END@, "<a href=\"/\">"@),
{
    reveal_strlit(
        r#"</code>로 명령을 판별한 뒤
      이 PC의 Windows Excel을 실행합니다. ActiveX는 사용하지 않습니다.
      Google Sheets 요청은 브라우저의 기존 Google 로그인 세션으로 새 스프레드시트를 엽니다.
      Microsoft 웹 Excel과 Office Web Viewer도 별도 버튼으로 실행할 수 있습니다.
    </p>

    <form method="post" action="/prompt">
      <label for="prompt">한글 프롬프트</label>
      <input id="prompt" name="prompt" value="엑셀 실행해줘" autocomplete="off">
      <div class="actions">
        <button type="submit">GPT로 판단해서 실행</button>
        <a class="button secondary" href="/open-excel">API 없이 바로 Excel 실행</a>
        <a class="button secondary" href="/open-csv">샘플 CSV를 Excel로 열기</a>
        <a class="button secondary" href="/open-google-sheets">Google Sheets 열기</a>
        <a class="button secondary" href="/open-ms-excel-web">MS Excel Web 열기</a>
        <a class="button secondary" href="/open-ms-office-viewer">MS Office Viewer 열기</a>
      </div>
    </form>

    <p style="margin-top:22px">
      상태 확인: <code>/health</code>
    </p>
  </main>
</body>
</html>
"#,
    );
    reveal_strlit(
        r#"</pre>
    <a href="/">돌아가기</a>
  </main>
</body>
</html>
"#,
    );
    reveal_strlit("<form method=\"post\" action=\"/prompt\">");
    assert(launcher::INDEX_END@.subrange(215, 252) =~= "<form method=\"post\" action=\"/prompt\">"@);
    found_at(launcher::INDEX_END@, "<form method=\"post\" action=\"/prompt\">"@, 215);
    reveal_strlit("<input id=\"prompt\" name=\"prompt\"");
    assert(launcher::INDEX_END@.subrange(301, 333) =~= "<input id=\"prompt\" name=\"prompt\""@);
    found_at(launcher::INDEX_END@, "<input id=\"prompt\" name=\"prompt\""@, 301);
    reveal_strlit("href=\"/open-excel\"");
    assert(launcher::INDEX_END@.subrange(486, 504) =~= "href=\"/open-excel\""@);
    found_at(launcher::INDEX_END@, "href=\"/open-excel\""@, 486);
    reveal_strlit("href=\"/open-csv\"");
    assert(launcher::INDEX_END@.subrange(564, 580) =~= "href=\"/open-csv\""@);
    found_at(launcher::INDEX_END@, "href=\"/open-csv\""@, 564);
    reveal_strlit("href=\"/open-google-sheets\"");
    assert(launcher::INDEX_END@.subrange(639, 665) =~= "href=\"/open-google-sheets\""@);
    found_at(launcher::INDEX_END@, "href=\"/open-google-sheets\""@, 639);
    reveal_strlit("href=\"/open-ms-excel-web\"");
    assert(launcher::INDEX_END@.subrange(723, 748) =~= "href=\"/open-ms-excel-web\""@);
    found_at(launcher::INDEX_END@, "href=\"/open-ms-excel-web\""@, 723);
    reveal_strlit("href=\"/open-ms-office-viewer\"");
    assert(launcher::INDEX_END@.subrange(805, 834) =~= "href=\"/open-ms-office-viewer\""@);
    found_at(launcher::INDEX_END@, "href=\"/open-ms-office-viewer\""@, 805);
    reveal_strlit("<a href=\"/\">");
    assert(launcher::RESULT_END@.subrange(11, 23) =~= "<a href=\"/\">"@);
    found_at(launcher::RESULT_END@, "<a href=\"/\">"@, 11);
}

proof fn found_at(s: Seq<char>, word: Seq<char>, at: int)
    requires
        0 <= at,
        at + word.len() <= s.len(),
        s.subrange(at, at + word.len()) == word,
    ensures
        holds(s, word),
{
    let a = s.take(at);
    let b = s.skip(at + word.len());
    assert(s =~= a + word + b);
}

/// Whether a text ends with another.
pub open spec fn ends_with(s: Seq<char>, end: Seq<char>) -> bool {
    s.len() >= end.len() && s.skip(s.len() - end.len()) == end
}

/// Each path on the first page of the gateway is where a form is posted to, and
/// the path on a page of results is where its link leads.
pub proof fn gateway_pages_post_to_its_routes()
    ensures
        ends_with(gateway::INDEX_AFTER_AGENT@, "<form method=\"post\" action=\""@),
        ends_with(gateway::INDEX_AFTER_PROMPT@, "<form method=\"post\" action=\""@),
        ends_with(gateway::INDEX_AFTER_COMPUTER@, "<form method=\"post\" action=\""@),
        ends_with(gateway::INDEX_AFTER_SHEETS@, "<form method=\"post\" action=\""@),
        ends_with(gateway::INDEX_AFTER_EXCEL_WEB@, "<form method=\"post\" action=\""@),
        ends_with(gateway::RESULT_AFTER_MESSAGE@, "<a href=\""@),
        holds(gateway::INDEX_AFTER_PROMPT@, "<input id=\"prompt\" name=\"prompt\""@),
        holds(gateway::INDEX_AFTER_COMPUTER@, "<input name=\"prompt\""@),
{
    reveal_strlit("<form method=\"post\" action=\"");
    reveal_strlit("<a href=\"");
    reveal_strlit("<input id=\"prompt\" name=\"prompt\"");
    reveal_strlit("<input name=\"prompt\"");
    reveal_strlit(
        r#"</code>의 WSL local agent에 요청하고, local agent가 allowlist된 Excel 또는 Google Sheets 액션을 실행합니다.
    </p>
    <form method="post" action=""#,
    );
    assert(gateway::INDEX_AFTER_AGENT@.len() == 131);
    assert(gateway::INDEX_AFTER_AGENT@.skip(103) =~= "<form method=\"post\" action=\""@);
    reveal_strlit(
        r#"">
      <label for="prompt">한글 프롬프트</label>
      <input id="prompt" name="prompt" value="엑셀 실행해줘" autocomplete="off">
      <p><button type="submit">Vultr에서 로컬 PC Excel 실행</button></p>
    </form>
    <form method="post" action=""#,
    );
    assert(gateway::INDEX_AFTER_PROMPT@.len() == 231);
    assert(gateway::INDEX_AFTER_PROMPT@.skip(203) =~= "<form method=\"post\" action=\""@);
    reveal_strlit(
        r#"">
      <input name="prompt" value="엑셀 실행해줘" type="hidden">
      <p><button type="submit">OpenAI Computer Use로 Excel 실행</button></p>
    </form>
    <form method="post" action=""#,
    );
    assert(gateway::INDEX_AFTER_COMPUTER@.len() == 179);
    assert(gateway::INDEX_AFTER_COMPUTER@.skip(151) =~= "<form method=\"post\" action=\""@);
    reveal_strlit(
        r#"">
      <p><button type="submit">Google Sheets 새 스프레드시트 열기</button></p>
    </form>
    <form method="post" action=""#,
    );
    assert(gateway::INDEX_AFTER_SHEETS@.len() == 117);
    assert(gateway::INDEX_AFTER_SHEETS@.skip(89) =~= "<form method=\"post\" action=\""@);
    reveal_strlit(
        r#"">
      <p><button type="submit">Microsoft Excel for the web 열기</button></p>
    </form>
    <form method="post" action=""#,
    );
    assert(gateway::INDEX_AFTER_EXCEL_WEB@.len() == 122);
    assert(gateway::INDEX_AFTER_EXCEL_WEB@.skip(94) =~= "<form method=\"post\" action=\""@);
    reveal_strlit(
        r#"</pre>
    <a href=""#,
    );
    assert(gateway::RESULT_AFTER_MESSAGE@.len() == 20);
    assert(gateway::RESULT_AFTER_MESSAGE@.skip(11) =~= "<a href=\""@);
    assert(gateway::INDEX_AFTER_PROMPT@.subrange(51, 83) =~= "<input id=\"prompt\" name=\"prompt\""@);
    found_at(gateway::INDEX_AFTER_PROMPT@, "<input id=\"prompt\" name=\"prompt\""@, 51);
    assert(gateway::INDEX_AFTER_COMPUTER@.subrange(9, 29) =~= "<input name=\"prompt\""@);
    found_at(gateway::INDEX_AFTER_COMPUTER@, "<input name=\"prompt\""@, 9);
}

/// The gateway answers with a page that shows what the agent said, or why it said
/// nothing.
pub proof fn gateway_answers(
    pending: PendingModel,
    answer: Seq<char>,
    e: Seq<char>,
    agent_url: Seq<char>,
    prefix: Seq<char>,
)
    ensures
        ({
            let response = reply_page(pending, Ok(answer), agent_url, prefix);
            response.status == "200 OK"@ && response.content_type == "text/html; charset=utf-8"@
                && text_of_bytes(response.body) == gateway::result_page(
                pending.done,
                answer,
                agent_url,
                pending.prompt,
                prefix,
            )
        }),
        ({
            let response = reply_page(pending, Err(e), agent_url, prefix);
            response.status == "502 Bad Gateway"@ && response.content_type
                == "text/html; charset=utf-8"@ && text_of_bytes(response.body)
                == gateway::result_page(pending.failed, e, agent_url, pending.prompt, prefix)
        }),
{
    utf8_round_trip(
        gateway::result_page(pending.done, answer, agent_url, pending.prompt, prefix),
    );
    utf8_round_trip(gateway::result_page(pending.failed, e, agent_url, pending.prompt, prefix));
}

/// What is passed on to the agent goes to its address, with the whole token and the
/// whole form, and may take as long as it should.
pub proof fn forms_are_sent_with_the_token(
    forward: gateway::ForwardModel,
    token: Seq<char>,
    form_path: Seq<char>,
)
    ensures
        reads(
            gateway::forward_config(forward, token, form_path),
            seq![
                Part::Fixed("silent\nshow-error\nmax-time = "@),
                Part::Curl(forward.timeout),
                Part::Fixed("\nurl = "@),
                Part::Curl(forward.url),
                Part::Fixed("\nheader = "@),
                Part::Curl("X-Excel-Bridge-Token: "@ + token),
                Part::Fixed("\nheader = \"Content-Type: application/x-www-form-urlencoded\"\ndata-binary = "@),
                Part::Curl("@"@ + form_path),
                Part::Fixed("\n"@),
            ],
        ),
{
    let q0 = Seq::<Part>::empty();
    let q1 = q0.push(Part::Fixed("silent\nshow-error\nmax-time = "@));
    written_push(q0, Part::Fixed("silent\nshow-error\nmax-time = "@));
    let q2 = q1.push(Part::Curl(forward.timeout));
    written_push(q1, Part::Curl(forward.timeout));
    let q3 = q2.push(Part::Fixed("\nurl = "@));
    written_push(q2, Part::Fixed("\nurl = "@));
    let q4 = q3.push(Part::Curl(forward.url));
    written_push(q3, Part::Curl(forward.url));
    let q5 = q4.push(Part::Fixed("\nheader = "@));
    written_push(q4, Part::Fixed("\nheader = "@));
    let q6 = q5.push(Part::Curl("X-Excel-Bridge-Token: "@ + token));
    written_push(q5, Part::Curl("X-Excel-Bridge-Token: "@ + token));
    let q7 = q6.push(Part::Fixed("\nheader = \"Content-Type: application/x-www-form-urlencoded\"\ndata-binary = "@));
    written_push(q6, Part::Fixed("\nheader = \"Content-Type: application/x-www-form-urlencoded\"\ndata-binary = "@));
    let q8 = q7.push(Part::Curl("@"@ + form_path));
    written_push(q7, Part::Curl("@"@ + form_path));
    let q9 = q8.push(Part::Fixed("\n"@));
    written_push(q8, Part::Fixed("\n"@));
    assert(written(q0) + rendered(q1[0]) =~= rendered(q1[0]));
    assert(gateway::forward_config(forward, token, form_path) == written(q9));
    assert(q9 =~= seq![Part::Fixed("silent\nshow-error\nmax-time = "@), Part::Curl(forward.timeout), Part::Fixed("\nurl = "@), Part::Curl(forward.url), Part::Fixed("\nheader = "@), Part::Curl("X-Excel-Bridge-Token: "@ + token), Part::Fixed("\nheader = \"Content-Type: application/x-www-form-urlencoded\"\ndata-binary = "@), Part::Curl("@"@ + form_path), Part::Fixed("\n"@)]);
    written_reads(q9);
}

} // verus!
