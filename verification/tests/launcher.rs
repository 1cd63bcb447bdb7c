use web_excel_launcher::http::{Headers, HttpRequest};
use web_excel_launcher::launcher::{
    action_response, execute_prompt, handle_client, index_html, manual_response, plan_action,
    prompt_response, prompt_result, read_decision, result_html, write_response, Action,
    LauncherSettings, LauncherStep, PromptAction,
};
use web_excel_launcher::windows::Opening;

fn settings() -> LauncherSettings {
    LauncherSettings {
        model: None,
        google_sheets_url: None,
        excel_web_url: None,
        viewer_source: None,
    }
}

fn step(method: &str, path: &str, body: &str) -> LauncherStep {
    let request = HttpRequest {
        method: method.to_string(),
        path: path.to_string(),
        headers: Headers::new(),
        body: body.as_bytes().to_vec(),
    };
    handle_client(&request, &settings())
}

fn answer(step: LauncherStep) -> (String, String, String) {
    match step {
        LauncherStep::Respond((status, kind, body)) => (status.to_string(), kind.to_string(), body),
        other => panic!("{:?}", other),
    }
}

fn html(status: &str, body: String) -> (String, String, String) {
    (status.to_string(), "text/html; charset=utf-8".to_string(), body)
}

fn plain(status: &str, body: &str) -> (String, String, String) {
    (status.to_string(), "text/plain; charset=utf-8".to_string(), body.to_string())
}

fn index_page(model: &str) -> String {
    format!(
        r#"<!doctype html>
<html lang="ko">
<head>
  <meta charset="utf-8">
  <meta name="viewport" content="width=device-width, initial-scale=1">
  <title>한글 명령 Excel 실행기</title>
  <style>
    body {{
      margin: 0;
      font-family: system-ui, -apple-system, BlinkMacSystemFont, "Segoe UI", "Malgun Gothic", sans-serif;
      color: #111827;
      background: #f5f7fb;
    }}
    main {{
      width: min(840px, calc(100vw - 32px));
      margin: 48px auto;
      background: #ffffff;
      border: 1px solid #d7dde8;
      border-radius: 8px;
      padding: 28px;
      box-shadow: 0 16px 36px rgba(31, 41, 55, 0.08);
    }}
    h1 {{
      margin: 0 0 8px;
      font-size: 28px;
      letter-spacing: 0;
    }}
    p, label {{
      line-height: 1.55;
      color: #4b5563;
    }}
    label {{
      display: block;
      margin: 22px 0 8px;
      font-weight: 700;
      color: #111827;
    }}
    input {{
      box-sizing: border-box;
      width: 100%;
      min-height: 44px;
      padding: 0 12px;
      border: 1px solid #b8c1d1;
      border-radius: 6px;
      font-size: 16px;
    }}
    .actions {{
      display: flex;
      flex-wrap: wrap;
      gap: 10px;
      margin-top: 12px;
    }}
    button, a.button {{
      display: inline-flex;
      align-items: center;
      justify-content: center;
      min-height: 42px;
      padding: 0 16px;
      border: 1px solid #1f4f8f;
      border-radius: 6px;
      background: #2563eb;
      color: #ffffff;
      font-weight: 650;
      text-decoration: none;
      cursor: pointer;
      font-size: 15px;
    }}
    a.secondary {{
      background: #ffffff;
      color: #1f4f8f;
    }}
    code {{
      background: #eef2f7;
      padding: 2px 5px;
      border-radius: 4px;
    }}
  </style>
</head>
<body>
  <main>
    <h1>한글 명령으로 로컬 Excel 실행</h1>
    <p>
      아래 입력창에 <code>엑셀 실행해줘</code>처럼 한글로 요청하면,
      Rust 서버가 OpenAI API 모델 <code>{model}</code>로 명령을 판별한 뒤
      이 PC의 Windows Excel을 실행합니다. ActiveX는 사용하지 않습니다.
      Google Sheets 요청은 브라우저의 기존 Google 로그인 세션으로 새 스프레드시트를 엽니다.
      Microsoft 웹 Excel과 Office Web Viewer도 별도 버튼으로 실행할 수 있습니다.
    </p>

    <form method="post" action="/prompt">
      <label for="prompt">한글 프롬프트</label>
      <input id="prompt" name="prompt" value="엑셀 실행해줘" autocomplete="off">
      <div class="actions">
        <button type="submit">GPT로 판단해서 실행</button>
        <a class="button secondary" href="/open-excel">API 없이 바로 Excel 실행</a>
        <a class="button secondary" href="/open-csv">샘플 CSV를 Excel로 열기</a>
        <a class="button secondary" href="/open-google-sheets">Google Sheets 열기</a>
        <a class="button secondary" href="/open-ms-excel-web">MS Excel Web 열기</a>
        <a class="button secondary" href="/open-ms-office-viewer">MS Office Viewer 열기</a>
      </div>
    </form>

    <p style="margin-top:22px">
      상태 확인: <code>/health</code>
    </p>
  </main>
</body>
</html>
"#
    )
}

fn result_page(source: &str, action: &str, message: &str, prompt_line: &str) -> String {
    format!(
        r#"<!doctype html>
<html lang="ko">
<head>
  <meta charset="utf-8">
  <meta name="viewport" content="width=device-width, initial-scale=1">
  <title>실행 결과</title>
  <style>
    body {{
      margin: 0;
      font-family: system-ui, -apple-system, BlinkMacSystemFont, "Segoe UI", "Malgun Gothic", sans-serif;
      color: #111827;
      background: #f5f7fb;
    }}
    main {{
      width: min(780px, calc(100vw - 32px));
      margin: 48px auto;
      background: #ffffff;
      border: 1px solid #d7dde8;
      border-radius: 8px;
      padding: 28px;
      box-shadow: 0 16px 36px rgba(31, 41, 55, 0.08);
    }}
    h1 {{ margin: 0 0 10px; font-size: 26px; letter-spacing: 0; }}
    p {{ line-height: 1.55; color: #4b5563; }}
    code {{ background: #eef2f7; padding: 2px 5px; border-radius: 4px; }}
    pre {{
      white-space: pre-wrap;
      overflow-wrap: anywhere;
      background: #111827;
      color: #f9fafb;
      padding: 14px;
      border-radius: 6px;
    }}
    a {{
      display: inline-flex;
      align-items: center;
      justify-content: center;
      min-height: 40px;
      padding: 0 14px;
      border-radius: 6px;
      background: #2563eb;
      color: white;
      text-decoration: none;
      font-weight: 650;
    }}
  </style>
</head>
<body>
  <main>
    <h1>{action}</h1>
    <p><strong>경로:</strong> {source}</p>
    {prompt_line}
    <pre>{message}</pre>
    <a href="/">돌아가기</a>
  </main>
</body>
</html>
"#
    )
}

fn line(prompt: &str) -> String {
    format!("<p><strong>입력:</strong> <code>{}</code></p>", prompt)
}

#[test]
fn shows_the_first_page_of_the_launcher() {
    assert_eq!(index_html(None), index_page("gpt-5.5"));
    assert_eq!(index_html(Some("<m>")), index_page("&lt;m&gt;"));
    assert_eq!(answer(step("GET", "/", "")), html("200 OK", index_page("gpt-5.5")));
}

#[test]
fn shows_results_of_the_launcher() {
    assert_eq!(
        result_html("s&", "<a>", "m\n'", Some("\"p\"")),
        result_page("s&amp;", "&lt;a&gt;", "m\n&#39;", &line("&quot;p&quot;"))
    );
    assert_eq!(result_html("s", "a", "m", None), result_page("s", "a", "m", ""));
}

#[test]
fn answers_actions() {
    let (status, kind, body) = action_response("s", "a", &Ok("m".to_string()));
    assert_eq!((status, kind), ("200 OK", "text/html; charset=utf-8"));
    assert_eq!(body, result_page("s", "a", "m", ""));
    let (status, kind, body) = action_response("s", "a", &Err("e".to_string()));
    assert_eq!((status, kind), ("500 Internal Server Error", "text/html; charset=utf-8"));
    assert_eq!(body, result_page("s", "실패", "e", ""));
}

#[test]
fn names_actions_in_its_answers() {
    for (action, name) in [
        (Action::Excel, "엑셀 실행"),
        (Action::Csv, "CSV 생성 후 엑셀 실행"),
        (Action::GoogleSheets, "Google Sheets 실행"),
        (Action::NewGoogleSheets, "Google Sheets 생성 화면 실행"),
        (Action::ExcelWeb, "Microsoft Excel for the web 실행"),
        (Action::Viewer(None), "Microsoft Office Web Viewer 실행"),
    ] {
        let (status, _, body) = manual_response(&action, &Ok("m".to_string()));
        assert_eq!(status, "200 OK");
        assert_eq!(body, result_page("수동 실행", name, "m", ""));
        let (status, _, body) = prompt_result(&action, "p", &Ok("m".to_string()));
        assert_eq!(status, "200 OK");
        assert_eq!(body, result_page("OpenAI 프롬프트", name, "m", &line("p")));
        let (status, _, body) = prompt_result(&action, "p", &Err("e".to_string()));
        assert_eq!(status, "500 Internal Server Error");
        assert_eq!(body, result_page("OpenAI 프롬프트", "실패", "e", &line("p")));
    }
}

#[test]
fn routes_requests() {
    assert_eq!(answer(step("GET", "/health?x", "")), plain("200 OK", "ok\n"));
    for (method, path, action) in [
        ("GET", "/open-excel", Action::Excel),
        ("GET", "/open-csv", Action::Csv),
        ("GET", "/open-google-sheets", Action::GoogleSheets),
        ("GET", "/create-gsheet", Action::NewGoogleSheets),
        ("POST", "/create-gsheet", Action::NewGoogleSheets),
        ("GET", "/open-ms-excel-web", Action::ExcelWeb),
        ("GET", "/open-ms-office-viewer", Action::Viewer(None)),
        ("GET", "/open-ms-office-viewer?src=a+b", Action::Viewer(Some("a b".to_string()))),
    ] {
        assert_eq!(
            format!("{:?}", step(method, path, "")),
            format!("{:?}", LauncherStep::Open(action))
        );
    }
    for (method, path) in [
        ("POST", "/"),
        ("POST", "/open-excel"),
        ("POST", "/open-google-sheets"),
        ("PUT", "/prompt"),
        ("GET", "/run"),
        ("", "/"),
    ] {
        assert_eq!(answer(step(method, path, "")), plain("404 Not Found", "not found\n"));
    }
}

#[test]
fn takes_prompts() {
    let prompt = |step: LauncherStep| match step {
        LauncherStep::Classify(prompt) => prompt,
        other => panic!("{:?}", other),
    };
    assert_eq!(prompt(step("POST", "/prompt?prompt=b", "prompt=+a+b+")), "a b");
    assert_eq!(prompt(step("GET", "/prompt?prompt=c", "prompt=a")), "c");
    let empty = html(
        "400 Bad Request",
        result_page("OpenAI 프롬프트", "실패", "프롬프트가 비어 있습니다.", &line("")),
    );
    assert_eq!(answer(step("POST", "/prompt?prompt=b", "")), empty);
    assert_eq!(answer(prompt_response(None)), empty);
    assert_eq!(answer(prompt_response(Some(" \u{3000}\n".to_string()))), empty);
}

#[test]
fn denied_prompts_start_nothing() {
    assert_eq!(
        answer(execute_prompt("p", &Ok(PromptAction::Deny))),
        html(
            "200 OK",
            result_page(
                "OpenAI 프롬프트",
                "실행 안 함",
                "Excel 실행 요청으로 판단되지 않아 로컬 프로그램을 실행하지 않았습니다.",
                &line("p")
            )
        )
    );
    assert_eq!(
        answer(execute_prompt("p", &Err("e".to_string()))),
        html(
            "500 Internal Server Error",
            result_page("OpenAI 프롬프트", "API 실패", "e", &line("p"))
        )
    );
    for (decided, action) in [
        (PromptAction::OpenExcel, Action::Excel),
        (PromptAction::OpenCsv, Action::Csv),
        (PromptAction::OpenGoogleSheets, Action::GoogleSheets),
        (PromptAction::CreateGoogleSheets, Action::NewGoogleSheets),
        (PromptAction::OpenMicrosoftExcelWeb, Action::ExcelWeb),
        (PromptAction::OpenMicrosoftOfficeViewer, Action::Viewer(None)),
    ] {
        assert_eq!(
            format!("{:?}", execute_prompt("p", &Ok(decided))),
            format!("{:?}", LauncherStep::Open(action))
        );
    }
}

#[test]
fn reads_launcher_decisions() {
    let decide = |body: &str| read_decision(&Ok(body.to_string()));
    assert!(matches!(decide("CREATE_GOOGLE_SHEETS"), Ok(PromptAction::CreateGoogleSheets)));
    assert!(matches!(
        decide("OPEN_GOOGLE_SHEETS CREATE_GOOGLE_SHEETS"),
        Ok(PromptAction::CreateGoogleSheets)
    ));
    assert!(matches!(decide("OPEN_GOOGLE_SHEETS"), Ok(PromptAction::OpenGoogleSheets)));
    assert!(matches!(decide("OPEN_CSV DENY"), Ok(PromptAction::OpenCsv)));
    assert!(matches!(decide("OPEN_EXCEL"), Ok(PromptAction::OpenExcel)));
    assert!(matches!(decide("OPEN_MICROSOFT_EXCEL_WEB"), Ok(PromptAction::OpenMicrosoftExcelWeb)));
    assert!(matches!(
        decide("OPEN_MICROSOFT_OFFICE_VIEWER"),
        Ok(PromptAction::OpenMicrosoftOfficeViewer)
    ));
    assert!(matches!(decide("\"output_text\":\"DENY\""), Ok(PromptAction::Deny)));
    assert_eq!(
        decide("?").unwrap_err(),
        "OpenAI 응답에서 실행 토큰을 찾지 못했습니다: ?"
    );
    assert_eq!(read_decision(&Err("why".to_string())).unwrap_err(), "why");
}

#[test]
fn plans_actions() {
    let mut configured = settings();
    configured.google_sheets_url = Some("https://sheets/".to_string());
    let command = |action: &Action| match plan_action(action, &configured) {
        Opening::Launch(launch) => launch.command,
        other => panic!("{:?}", other),
    };
    assert_eq!(command(&Action::Excel), "Start-Process -FilePath 'excel.exe'");
    assert_eq!(command(&Action::GoogleSheets), "Start-Process 'https://sheets/'");
    assert_eq!(command(&Action::NewGoogleSheets), "Start-Process 'https://sheets/'");
    assert_eq!(
        command(&Action::ExcelWeb),
        "Start-Process 'https://www.microsoft365.com/launch/excel?auth=1'"
    );
    assert_eq!(
        command(&Action::Viewer(Some(" a b ".to_string()))),
        "Start-Process 'https://view.officeapps.live.com/op/view.aspx?src=a%20b'"
    );
    assert!(matches!(plan_action(&Action::Csv, &configured), Opening::WriteCsv));
    assert!(matches!(plan_action(&Action::Viewer(None), &configured), Opening::Refused(_)));
}

#[test]
fn writes_answers_and_redirections() {
    assert_eq!(
        write_response("200 OK", "text/plain", b"ok\n"),
        b"HTTP/1.1 200 OK\r\nContent-Type: text/plain\r\nContent-Length: 3\r\nConnection: close\r\n\r\nok\n"
    );
    for status in ["302 Found", "302"] {
        assert_eq!(
            write_response(status, "text/plain", b"https://a/"),
            b"HTTP/1.1 302 Found\r\nLocation: https://a/\r\nContent-Length: 0\r\nConnection: close\r\n\r\n"
        );
    }
    assert!(write_response("30", "t", b"").starts_with(b"HTTP/1.1 30\r\n"));
}

#[test]
fn results_add_no_markup_to_a_page() {
    let nasty = "<b a=\"c\" d='e'>입력:</b> <strong>입력:</strong>";
    for (plain, marked) in [
        (result_html("s", "a", "m", None), result_html(nasty, nasty, nasty, None)),
        (result_html("s", "a", "m", Some("")), result_html(nasty, nasty, nasty, Some(nasty))),
    ] {
        for ch in ['<', '>', '"', '\''] {
            assert_eq!(plain.matches(ch).count(), marked.matches(ch).count());
        }
    }
    let label = "<strong>입력:</strong>";
    assert!(!result_html(nasty, nasty, nasty, None).contains(label));
    assert_eq!(result_html(nasty, nasty, nasty, Some("")).matches(label).count(), 1);
}
