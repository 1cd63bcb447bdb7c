use web_excel_launcher::agent::{agent_route, AgentSettings, AgentStep, Target};
use web_excel_launcher::gateway::{
    agent_reply, forward_to_agent, forward_to_agent_endpoint,
    forward_to_agent_endpoint_with_fields, gateway_index, gateway_reply, gateway_result,
    gateway_route, gateway_sample_workbook_url, write_forward_config, GatewaySettings, GatewayStep,
    Pending,
};
use web_excel_launcher::http::{Headers, HttpRequest, ReadProgress, RequestReader, Response};
use web_excel_launcher::process::{ProcessOutput, ProcessRun, Stage};

const AGENT: &str = "http://100.0.0.1:8788/";

fn settings() -> GatewaySettings {
    GatewaySettings { token: Some("secret".to_string()), path_prefix: None, public_url: None }
}

fn request(method: &str, path: &str, body: &str) -> HttpRequest {
    HttpRequest {
        method: method.to_string(),
        path: path.to_string(),
        headers: Headers::new(),
        body: body.as_bytes().to_vec(),
    }
}

fn route(request: &HttpRequest) -> GatewayStep {
    gateway_route(request, AGENT, &settings(), b"PK")
}

fn response(step: GatewayStep) -> Response {
    match step {
        GatewayStep::Respond(response) => response,
        other => panic!("{:?}", other),
    }
}

fn pending(step: GatewayStep) -> Pending {
    match step {
        GatewayStep::Forward(pending) => pending,
        other => panic!("{:?}", other),
    }
}

fn body(response: &Response) -> String {
    String::from_utf8(response.body.clone()).unwrap()
}

fn index_page(agent_url: &str, prefix: &str) -> String {
    format!(
        r#"<!doctype html>
<html lang="ko">
<head>
  <meta charset="utf-8">
  <meta name="viewport" content="width=device-width, initial-scale=1">
  <title>Vultr Tailscale Spreadsheet Gateway</title>
  <style>
    body {{ margin: 0; font-family: system-ui, -apple-system, "Segoe UI", "Malgun Gothic", sans-serif; color: #111827; background: #f5f7fb; }}
    main {{ width: min(880px, calc(100vw - 32px)); margin: 48px auto; background: #fff; border: 1px solid #d7dde8; border-radius: 8px; padding: 28px; box-shadow: 0 16px 36px rgba(31, 41, 55, .08); }}
    h1 {{ margin: 0 0 8px; font-size: 28px; letter-spacing: 0; }}
    p, label {{ line-height: 1.55; color: #4b5563; }}
    label {{ display: block; margin: 22px 0 8px; font-weight: 700; color: #111827; }}
    input {{ box-sizing: border-box; width: 100%; min-height: 44px; padding: 0 12px; border: 1px solid #b8c1d1; border-radius: 6px; font-size: 16px; }}
    button {{ min-height: 42px; padding: 0 16px; border: 1px solid #1f4f8f; border-radius: 6px; background: #2563eb; color: #fff; font-weight: 650; cursor: pointer; font-size: 15px; }}
    code {{ background: #eef2f7; padding: 2px 5px; border-radius: 4px; }}
  </style>
</head>
<body>
  <main>
    <h1>Vultr에서 Tailscale로 Excel / Google Sheets 실행</h1>
    <p>
      이 화면은 Vultr 노드의 gateway가 제공합니다. 버튼을 누르면 Vultr가 Tailscale 주소
      <code>{agent_url}</code>의 WSL local agent에 요청하고, local agent가 allowlist된 Excel 또는 Google Sheets 액션을 실행합니다.
    </p>
    <form method="post" action="{prompt_path}">
      <label for="prompt">한글 프롬프트</label>
      <input id="prompt" name="prompt" value="엑셀 실행해줘" autocomplete="off">
      <p><button type="submit">Vultr에서 로컬 PC Excel 실행</button></p>
    </form>
    <form method="post" action="{prompt_computer_path}">
      <input name="prompt" value="엑셀 실행해줘" type="hidden">
      <p><button type="submit">OpenAI Computer Use로 Excel 실행</button></p>
    </form>
    <form method="post" action="{google_sheets_path}">
      <p><button type="submit">Google Sheets 새 스프레드시트 열기</button></p>
    </form>
    <form method="post" action="{ms_excel_web_path}">
      <p><button type="submit">Microsoft Excel for the web 열기</button></p>
    </form>
    <form method="post" action="{ms_office_viewer_path}">
      <p><button type="submit">Microsoft Office Web Viewer로 샘플 .xlsx 보기</button></p>
    </form>
  </main>
</body>
</html>
"#,
        agent_url = agent_url,
        prompt_path = format!("{}/prompt", prefix),
        prompt_computer_path = format!("{}/prompt-computer", prefix),
        google_sheets_path = format!("{}/open-google-sheets", prefix),
        ms_excel_web_path = format!("{}/open-ms-excel-web", prefix),
        ms_office_viewer_path = format!("{}/open-ms-office-viewer", prefix)
    )
}

fn result_page(
    title: &str,
    message: &str,
    agent_url: &str,
    prompt_line: &str,
    home_path: &str,
) -> String {
    format!(
        r#"<!doctype html>
<html lang="ko">
<head>
  <meta charset="utf-8">
  <meta name="viewport" content="width=device-width, initial-scale=1">
  <title>실행 결과</title>
  <style>
    body {{ margin: 0; font-family: system-ui, -apple-system, "Segoe UI", "Malgun Gothic", sans-serif; color: #111827; background: #f5f7fb; }}
    main {{ width: min(820px, calc(100vw - 32px)); margin: 48px auto; background: #fff; border: 1px solid #d7dde8; border-radius: 8px; padding: 28px; box-shadow: 0 16px 36px rgba(31, 41, 55, .08); }}
    h1 {{ margin: 0 0 10px; font-size: 26px; letter-spacing: 0; }}
    p {{ line-height: 1.55; color: #4b5563; }}
    code {{ background: #eef2f7; padding: 2px 5px; border-radius: 4px; }}
    pre {{ white-space: pre-wrap; overflow-wrap: anywhere; background: #111827; color: #f9fafb; padding: 14px; border-radius: 6px; }}
    a {{ display: inline-flex; align-items: center; justify-content: center; min-height: 40px; padding: 0 14px; border-radius: 6px; background: #2563eb; color: white; text-decoration: none; font-weight: 650; }}
  </style>
</head>
<body>
  <main>
    <h1>{title}</h1>
    <p><strong>경로:</strong> Vultr gateway -> Tailscale -> WSL local agent -> allowlist action</p>
    <p><strong>Agent:</strong> <code>{agent_url}</code></p>
    {prompt_line}
    <pre>{message}</pre>
    <a href="{home_path}">돌아가기</a>
  </main>
</body>
</html>
"#
    )
}

#[test]
fn shows_the_first_page_of_the_gateway() {
    assert_eq!(gateway_index("http://a", None), index_page("http://a", ""));
    assert_eq!(
        gateway_index("<&>", Some("/web-excel")),
        index_page("&lt;&amp;&gt;", "/web-excel")
    );
    let shown = response(route(&request("GET", "/?x", "")));
    assert_eq!(shown.status, "200 OK");
    assert_eq!(shown.content_type, "text/html; charset=utf-8");
    assert_eq!(body(&shown), index_page(AGENT, ""));
}

#[test]
fn shows_results_of_the_gateway() {
    assert_eq!(
        gateway_result("a<b", "x\ny&z", "http://a/'", "\"p\"", None),
        result_page(
            "a&lt;b",
            "x\ny&amp;z",
            "http://a/&#39;",
            "<p><strong>프롬프트:</strong> <code>&quot;p&quot;</code></p>",
            "/"
        )
    );
    assert_eq!(
        gateway_result("t", "m", "u", "", Some("web-excel")),
        result_page("t", "m", "u", "", "/web-excel")
    );
}

#[test]
fn serves_health_and_the_sample() {
    let health = response(route(&request("GET", "/health", "")));
    assert_eq!(health.status, "200 OK");
    assert_eq!(body(&health), "gateway ok\n");
    let sample = response(route(&request("GET", "/sample.xlsx", "")));
    assert_eq!(
        sample.content_type,
        "application/vnd.openxmlformats-officedocument.spreadsheetml.sheet"
    );
    assert_eq!(sample.body, b"PK");
    for (method, path) in [("POST", "/health"), ("GET", "/prompt"), ("GET", "/run"), ("PUT", "/")] {
        let missing = response(route(&request(method, path, "")));
        assert_eq!(missing.status, "404 Not Found");
        assert_eq!(body(&missing), "not found\n");
        assert_eq!(missing.content_type, "text/plain; charset=utf-8");
    }
}

#[test]
fn refuses_empty_prompts() {
    for path in ["/prompt", "/prompt-computer"] {
        for form in ["", "prompt=", "prompt=+%0A", "x=1"] {
            let refused = response(route(&request("POST", path, form)));
            assert_eq!(refused.status, "400 Bad Request");
            assert_eq!(
                body(&refused),
                result_page("프롬프트 오류", "프롬프트가 비어 있습니다.", AGENT, "", "/")
            );
        }
    }
}

#[test]
fn passes_requests_on() {
    for (method, path, form, url, sent, timeout, done, failed, prompt) in [
        (
            "POST",
            "/prompt",
            "prompt=+%EC%97%91%EC%85%80+x+",
            "http://100.0.0.1:8788/run",
            "prompt=%EC%97%91%EC%85%80+x",
            "30",
            "Vultr -> Tailscale -> 로컬 Excel",
            "Agent 호출 실패",
            "엑셀 x",
        ),
        (
            "POST",
            "/prompt-computer",
            "prompt=a",
            "http://100.0.0.1:8788/run-computer",
            "prompt=a",
            "100",
            "Vultr -> Tailscale -> OpenAI Computer Use -> 로컬 Excel",
            "Computer Use Agent 호출 실패",
            "a",
        ),
        (
            "GET",
            "/open-google-sheets",
            "",
            "http://100.0.0.1:8788/open-google-sheets",
            "prompt=",
            "30",
            "Vultr -> Tailscale -> Google Sheets",
            "Google Sheets Agent 호출 실패",
            "",
        ),
        (
            "POST",
            "/open-ms-excel-web",
            "prompt=ignored",
            "http://100.0.0.1:8788/open-ms-excel-web",
            "prompt=",
            "30",
            "Vultr -> Tailscale -> Microsoft Excel for the web",
            "Microsoft Excel Web Agent 호출 실패",
            "",
        ),
        (
            "GET",
            "/open-ms-office-viewer?src=b",
            "src=a%26",
            "http://100.0.0.1:8788/open-ms-office-viewer",
            "src=a%26",
            "30",
            "Vultr -> Tailscale -> Microsoft Office Web Viewer",
            "Microsoft Office Web Viewer Agent 호출 실패",
            "",
        ),
        (
            "POST",
            "/open-ms-office-viewer",
            "",
            "http://100.0.0.1:8788/open-ms-office-viewer",
            "src=http%3A%2F%2F127.0.0.1%3A8878%2Fsample.xlsx",
            "30",
            "Vultr -> Tailscale -> Microsoft Office Web Viewer",
            "Microsoft Office Web Viewer Agent 호출 실패",
            "",
        ),
    ] {
        let passed = pending(route(&request(method, path, form)));
        assert_eq!(passed.forward.url, url);
        assert_eq!(passed.forward.form, sent);
        assert_eq!(passed.forward.timeout, timeout);
        assert_eq!(passed.done, done);
        assert_eq!(passed.failed, failed);
        assert_eq!(passed.prompt, prompt);
    }
}

#[test]
fn finds_the_sample_workbook() {
    let mut asked = request("GET", "/", "");
    assert_eq!(
        gateway_sample_workbook_url(&asked, None),
        "http://127.0.0.1:8878/sample.xlsx"
    );
    asked.headers.insert("host".to_string(), "a.example:1".to_string());
    for public_url in [None, Some(""), Some(" / ")] {
        assert_eq!(
            gateway_sample_workbook_url(&asked, public_url),
            "http://a.example:1/sample.xlsx"
        );
    }
    assert_eq!(
        gateway_sample_workbook_url(&asked, Some(" https://ntopng.nmsglobal.kr/web-excel// ")),
        "https://ntopng.nmsglobal.kr/web-excel/sample.xlsx"
    );
}

#[test]
fn prepares_forms_for_the_agent() {
    let forward = forward_to_agent("http://a///", "x y");
    assert_eq!(forward.url, "http://a/run");
    assert_eq!(forward.form, "prompt=x+y");
    assert_eq!(forward_to_agent_endpoint("", "e", "").url, "/e");
    let forward =
        forward_to_agent_endpoint_with_fields("http://a", "run-computer", &[("a", "1"), ("b", "2")]);
    assert_eq!(forward.form, "a=1&b=2");
    assert_eq!(forward.timeout, "100");
    assert_eq!(
        write_forward_config(&forward, Some("t\"\n"), "/tmp/f.txt"),
        "silent\nshow-error\nmax-time = \"100\"\nurl = \"http://a/run-computer\"\nheader = \"X-Excel-Bridge-Token: t\\\"\\n\"\nheader = \"Content-Type: application/x-www-form-urlencoded\"\ndata-binary = \"@/tmp/f.txt\"\n"
    );
    assert!(write_forward_config(&forward, None, "f").contains("\"X-Excel-Bridge-Token: \""));
}

#[test]
fn reads_the_answer_of_the_agent() {
    let finished = |success: bool| {
        ProcessRun::Finished(ProcessOutput {
            success,
            status: "exit status: 7".to_string(),
            stdout: b"out\xff".to_vec(),
            stderr: "e".repeat(900).into_bytes(),
        })
    };
    assert_eq!(agent_reply(&finished(true)), Ok("out\u{fffd}".to_string()));
    assert_eq!(
        agent_reply(&finished(false)),
        Err(format!(
            "agent HTTP 호출 실패: status=exit status: 7 stderr={}... stdout=out\u{fffd}",
            "e".repeat(800)
        ))
    );
    assert_eq!(
        agent_reply(&ProcessRun::Failed(Stage::Start, "why".to_string())),
        Err("curl 실행 실패: why".to_string())
    );
}

#[test]
fn shows_the_answer_of_the_agent() {
    let passed = pending(route(&request("POST", "/prompt", "prompt=p")));
    let line = "<p><strong>프롬프트:</strong> <code>p</code></p>";
    let shown = gateway_reply(&passed, &Ok("agent ok\n".to_string()), AGENT, None);
    assert_eq!(shown.status, "200 OK");
    assert_eq!(
        body(&shown),
        result_page("Vultr -&gt; Tailscale -&gt; 로컬 Excel", "agent ok\n", AGENT, line, "/")
    );
    let shown = gateway_reply(&passed, &Err("why".to_string()), AGENT, Some("/p"));
    assert_eq!(shown.status, "502 Bad Gateway");
    assert_eq!(body(&shown), result_page("Agent 호출 실패", "why", AGENT, line, "/p"));
}

/// What the agent makes of a form that the gateway passes on.
fn delivered(passed: &Pending) -> AgentStep {
    let path = passed.forward.url.strip_prefix("http://100.0.0.1:8788").unwrap();
    let message = format!(
        "POST {} HTTP/1.1\r\nX-Excel-Bridge-Token: secret\r\nContent-Length: {}\r\n\r\n{}",
        path,
        passed.forward.form.len(),
        passed.forward.form
    );
    let agent = AgentSettings {
        token: Some("secret".to_string()),
        path_prefix: None,
        google_sheets_url: None,
        excel_web_url: None,
        viewer_source: None,
    };
    match RequestReader::new().feed(message.as_bytes()) {
        ReadProgress::Ready(request) => agent_route(&request, &agent),
        other => panic!("{:?}", other),
    }
}

#[test]
fn the_agent_does_what_the_gateway_passes_on() {
    match delivered(&pending(route(&request("POST", "/prompt", "prompt=%ED%95%9C+%26%3D%2B")))) {
        AgentStep::Classify(prompt) => assert_eq!(prompt, "한 &=+"),
        other => panic!("{:?}", other),
    }
    match delivered(&pending(route(&request("POST", "/prompt-computer", "prompt=a%0Ab")))) {
        AgentStep::UseComputer(prompt) => assert_eq!(prompt, "a\nb"),
        other => panic!("{:?}", other),
    }
    assert!(matches!(
        delivered(&pending(route(&request("GET", "/open-google-sheets", "")))),
        AgentStep::Open(Target::GoogleSheets)
    ));
    assert!(matches!(
        delivered(&pending(route(&request("GET", "/open-ms-excel-web", "")))),
        AgentStep::Open(Target::ExcelWeb)
    ));
    match delivered(&pending(route(&request("GET", "/open-ms-office-viewer?src=u%3Fx", "")))) {
        AgentStep::Open(Target::Viewer(src)) => assert_eq!(src.as_deref(), Some("u?x")),
        other => panic!("{:?}", other),
    }
}

#[test]
fn serves_below_its_prefix() {
    let mut prefixed = settings();
    prefixed.path_prefix = Some("/web-excel".to_string());
    prefixed.public_url = Some("https://h/web-excel".to_string());
    let step = |path: &str| gateway_route(&request("GET", path, ""), AGENT, &prefixed, b"PK");
    assert_eq!(body(&response(step("/web-excel"))), index_page(AGENT, "/web-excel"));
    assert_eq!(response(step("/web-excel/sample.xlsx")).body, b"PK");
    assert_eq!(response(step("/sample.xlsx")).body, b"PK");
    assert_eq!(
        pending(step("/web-excel/open-ms-office-viewer")).forward.form,
        "src=https%3A%2F%2Fh%2Fweb-excel%2Fsample.xlsx"
    );
}
