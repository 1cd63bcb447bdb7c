use web_excel_launcher::agent::{
    agent_execute_prompt, agent_execute_prompt_computer_use, agent_open_response,
    agent_prompt_response, agent_route, authorized, open_target, read_decision, AgentSettings,
    AgentStep, PromptAction, Target,
};
use web_excel_launcher::bridge::{
    bridge_token, clean_route, default_agent_bind, default_agent_url, default_gateway_bind,
    gateway_path, gateway_path_prefix, has_bridge_token,
};
use web_excel_launcher::http::{Headers, HttpRequest, Response};
use web_excel_launcher::windows::{finish_launch, Opening};

fn settings() -> AgentSettings {
    AgentSettings {
        token: Some("secret".to_string()),
        path_prefix: None,
        google_sheets_url: None,
        excel_web_url: None,
        viewer_source: None,
    }
}

fn request(method: &str, path: &str, token: Option<&str>, body: &str) -> HttpRequest {
    let mut headers = Headers::new();
    if let Some(token) = token {
        headers.insert("x-excel-bridge-token".to_string(), token.to_string());
    }
    HttpRequest {
        method: method.to_string(),
        path: path.to_string(),
        headers,
        body: body.as_bytes().to_vec(),
    }
}

fn shown(response: &Response) -> (String, String) {
    assert_eq!(response.content_type, "text/plain; charset=utf-8");
    (response.status.to_string(), String::from_utf8(response.body.clone()).unwrap())
}

fn answer(step: &AgentStep) -> (String, String) {
    match step {
        AgentStep::Respond(response) => shown(response),
        other => panic!("{:?}", other),
    }
}

fn pair(status: &str, body: &str) -> (String, String) {
    (status.to_string(), body.to_string())
}

#[test]
fn answers_the_health_check() {
    let step = agent_route(&request("GET", "/health?x", None, ""), &settings());
    assert_eq!(answer(&step), pair("200 OK", "agent ok\n"));
    let step = agent_route(&request("POST", "/health", Some("secret"), ""), &settings());
    assert_eq!(answer(&step), pair("404 Not Found", "not found\n"));
}

#[test]
fn refuses_requests_without_the_token() {
    for path in [
        "/run",
        "/run-computer",
        "/open-excel",
        "/open-google-sheets",
        "/open-ms-excel-web",
        "/open-ms-office-viewer",
    ] {
        for token in [None, Some(""), Some("wrong"), Some("secret ")] {
            let step = agent_route(&request("GET", path, token, ""), &settings());
            assert_eq!(answer(&step), pair("401 Unauthorized", "unauthorized\n"), "{}", path);
        }
        let step = agent_route(&request("GET", path, Some("secret"), ""), &settings());
        assert!(!matches!(step, AgentStep::Respond(_)), "{}", path);
        let with_query = format!("{}?token=secret", path);
        let step = agent_route(&request("GET", &with_query, None, ""), &settings());
        assert!(!matches!(step, AgentStep::Respond(_)), "{}", path);
    }
}

#[test]
fn finds_the_token() {
    assert!(authorized(&request("GET", "/", Some("t"), ""), Some("t")));
    assert!(authorized(&request("GET", "/?token=t", Some("x"), ""), Some("t")));
    assert!(authorized(&request("GET", "/?token=a%20b", None, ""), Some("a b")));
    assert!(!authorized(&request("GET", "/?token=x", Some("y"), ""), Some("t")));
    assert!(!authorized(&request("GET", "/", None, "token=t"), Some("t")));
    assert!(authorized(&request("GET", "/", Some(""), ""), None));
    assert_eq!(bridge_token(None), "");
    assert_eq!(bridge_token(Some(" t ")), " t ");
    assert!(!has_bridge_token(None));
    assert!(!has_bridge_token(Some(" \n")));
    assert!(has_bridge_token(Some("t")));
}

#[test]
fn takes_prompts_from_forms_and_paths() {
    let prompt = |request: &HttpRequest| match agent_route(request, &settings()) {
        AgentStep::Classify(prompt) => prompt,
        other => panic!("{:?}", other),
    };
    let token = Some("secret");
    assert_eq!(prompt(&request("POST", "/run?prompt=b", token, "prompt=a+b")), "a b");
    assert_eq!(prompt(&request("POST", "/run?prompt=b", token, "x=1")), "b");
    assert_eq!(prompt(&request("GET", "/run", token, "")), "엑셀 실행해줘");
    match agent_route(&request("GET", "/run-computer?prompt=c", token, ""), &settings()) {
        AgentStep::UseComputer(prompt) => assert_eq!(prompt, "c"),
        other => panic!("{:?}", other),
    }
}

#[test]
fn opens_what_is_asked_for() {
    let token = Some("secret");
    let open = |method: &str, path: &str, body: &str| {
        agent_route(&request(method, path, token, body), &settings())
    };
    assert!(matches!(open("GET", "/open-excel", ""), AgentStep::Open(Target::Excel)));
    assert!(matches!(open("POST", "/open-excel", ""), AgentStep::Respond(_)));
    for method in ["GET", "POST"] {
        assert!(matches!(
            open(method, "/open-google-sheets", ""),
            AgentStep::Open(Target::GoogleSheets)
        ));
        assert!(matches!(
            open(method, "/open-ms-excel-web", ""),
            AgentStep::Open(Target::ExcelWeb)
        ));
    }
    match open("POST", "/open-ms-office-viewer?src=b", "src=a") {
        AgentStep::Open(Target::Viewer(src)) => assert_eq!(src.as_deref(), Some("a")),
        other => panic!("{:?}", other),
    }
    match open("GET", "/open-ms-office-viewer", "") {
        AgentStep::Open(Target::Viewer(src)) => assert_eq!(src, None),
        other => panic!("{:?}", other),
    }
    assert_eq!(answer(&open("GET", "/", "")), pair("404 Not Found", "not found\n"));
    assert_eq!(answer(&open("PUT", "/run", "")), pair("404 Not Found", "not found\n"));
}

#[test]
fn plans_what_is_opened() {
    let mut configured = settings();
    configured.google_sheets_url = Some("https://sheets/".to_string());
    configured.excel_web_url = Some("https://excel/".to_string());
    configured.viewer_source = Some("https://x/a.xlsx".to_string());
    let command = |target: &Target| match open_target(target, &configured) {
        Opening::Launch(launch) => launch.command,
        other => panic!("{:?}", other),
    };
    assert_eq!(command(&Target::Excel), "Start-Process -FilePath 'excel.exe'");
    assert_eq!(command(&Target::GoogleSheets), "Start-Process 'https://sheets/'");
    assert_eq!(command(&Target::ExcelWeb), "Start-Process 'https://excel/'");
    assert_eq!(
        command(&Target::Viewer(None)),
        "Start-Process 'https://view.officeapps.live.com/op/view.aspx?src=https%3A%2F%2Fx%2Fa.xlsx'"
    );
    assert!(matches!(open_target(&Target::Csv, &configured), Opening::WriteCsv));
    assert!(matches!(open_target(&Target::Viewer(None), &settings()), Opening::Refused(_)));
}

#[test]
fn opens_google_sheets_as_documented() {
    let launch = match open_target(&Target::GoogleSheets, &settings()) {
        Opening::Launch(launch) => launch,
        other => panic!("{:?}", other),
    };
    let result = finish_launch(launch, Ok(()));
    assert_eq!(
        shown(&agent_open_response(&Target::GoogleSheets, &result)),
        pair(
            "200 OK",
            "agent action=OPEN_GOOGLE_SHEETS\nGoogle Sheets 새 스프레드시트 실행 요청을 보냈습니다.\nURL: https://docs.google.com/spreadsheets/create\n기존 브라우저의 Google 로그인 세션을 사용합니다.\n"
        )
    );
}

#[test]
fn answers_what_was_opened() {
    let done = Ok("done\n".to_string());
    for (target, name) in [
        (Target::Excel, "OPEN_EXCEL"),
        (Target::Csv, "OPEN_CSV"),
        (Target::GoogleSheets, "OPEN_GOOGLE_SHEETS"),
        (Target::ExcelWeb, "OPEN_MICROSOFT_EXCEL_WEB"),
        (Target::Viewer(None), "OPEN_MICROSOFT_OFFICE_VIEWER"),
    ] {
        assert_eq!(
            shown(&agent_open_response(&target, &done)),
            pair("200 OK", &format!("agent action={}\ndone\n", name))
        );
        assert_eq!(
            shown(&agent_prompt_response(&target, "p", &done)),
            pair("200 OK", &format!("agent action={}\nprompt=p\ndone\n", name))
        );
        let failed = Err("why".to_string());
        assert_eq!(
            shown(&agent_open_response(&target, &failed)),
            pair("500 Internal Server Error", "why")
        );
        assert_eq!(
            shown(&agent_prompt_response(&target, "p", &failed)),
            pair("500 Internal Server Error", "why")
        );
    }
}

#[test]
fn runs_a_prompt_as_documented() {
    let reply = Ok("{\"output\":[{\"type\":\"output_text\",\"text\":\"OPEN_EXCEL\"}]}".to_string());
    let step = agent_execute_prompt("엑셀 실행해줘", &read_decision(&reply));
    let target = match step {
        AgentStep::Open(target) => target,
        other => panic!("{:?}", other),
    };
    let launch = match open_target(&target, &settings()) {
        Opening::Launch(launch) => launch,
        other => panic!("{:?}", other),
    };
    let result = finish_launch(launch, Ok(()));
    assert_eq!(
        shown(&agent_prompt_response(&target, "엑셀 실행해줘", &result)),
        pair(
            "200 OK",
            "agent action=OPEN_EXCEL\nprompt=엑셀 실행해줘\n로컬 Windows Excel 실행 요청을 보냈습니다.\n"
        )
    );
}

#[test]
fn reads_decisions() {
    let decide = |body: &str| read_decision(&Ok(body.to_string()));
    assert!(matches!(decide("OPEN_EXCEL"), Ok(PromptAction::OpenExcel)));
    assert!(matches!(decide("OPEN_CSV"), Ok(PromptAction::OpenCsv)));
    assert!(matches!(decide("OPEN_GOOGLE_SHEETS"), Ok(PromptAction::OpenGoogleSheets)));
    assert!(matches!(decide("OPEN_MICROSOFT_EXCEL_WEB"), Ok(PromptAction::OpenMicrosoftExcelWeb)));
    assert!(matches!(
        decide("OPEN_MICROSOFT_OFFICE_VIEWER"),
        Ok(PromptAction::OpenMicrosoftOfficeViewer)
    ));
    assert!(matches!(decide("DENY"), Ok(PromptAction::Deny)));
    assert!(matches!(decide("DENY OPEN_EXCEL OPEN_CSV"), Ok(PromptAction::OpenCsv)));
    assert!(matches!(decide("OPEN_EXCEL \"output\" DENY"), Ok(PromptAction::Deny)));
    assert_eq!(
        decide("open_excel").unwrap_err(),
        "OpenAI 응답에서 실행 토큰을 찾지 못했습니다: open_excel"
    );
    assert_eq!(
        decide(&"x".repeat(900)).unwrap_err(),
        format!("OpenAI 응답에서 실행 토큰을 찾지 못했습니다: {}...", "x".repeat(800))
    );
    assert_eq!(read_decision(&Err("why".to_string())).unwrap_err(), "why");
}

#[test]
fn denied_prompts_open_nothing() {
    assert_eq!(
        answer(&agent_execute_prompt("p", &Ok(PromptAction::Deny))),
        pair(
            "200 OK",
            "agent action=DENY\nprompt=p\nExcel 실행 요청으로 판단하지 않았습니다.\n"
        )
    );
    assert_eq!(
        answer(&agent_execute_prompt("p", &Err("why".to_string()))),
        pair("500 Internal Server Error", "OpenAI API 실패: why\n")
    );
    for (action, opens) in [
        (PromptAction::OpenExcel, Target::Excel),
        (PromptAction::OpenCsv, Target::Csv),
        (PromptAction::OpenGoogleSheets, Target::GoogleSheets),
        (PromptAction::OpenMicrosoftExcelWeb, Target::ExcelWeb),
        (PromptAction::OpenMicrosoftOfficeViewer, Target::Viewer(None)),
    ] {
        let step = agent_execute_prompt("p", &Ok(action));
        assert_eq!(format!("{:?}", step), format!("{:?}", AgentStep::Open(opens)));
    }
}

#[test]
fn answers_the_use_of_the_computer() {
    assert_eq!(
        shown(&agent_execute_prompt_computer_use(&Ok("log\n".to_string()))),
        pair("200 OK", "log\n")
    );
    assert_eq!(
        shown(&agent_execute_prompt_computer_use(&Err("why".to_string()))),
        pair("500 Internal Server Error", "computer use 실패: why\n")
    );
}

#[test]
fn reads_the_prefix() {
    for (configured, prefix) in [
        (None, ""),
        (Some(""), ""),
        (Some(" / "), ""),
        (Some("///"), ""),
        (Some("/web-excel"), "/web-excel"),
        (Some(" web-excel// "), "/web-excel"),
        (Some("//a/b/"), "//a/b"),
    ] {
        assert_eq!(gateway_path_prefix(configured), prefix);
    }
}

#[test]
fn routes_below_the_prefix() {
    let prefix = Some("/web-excel");
    for (path, route) in [
        ("/web-excel", "/"),
        ("/web-excel/", "/"),
        ("/web-excel?x=1", "/"),
        ("/web-excel/prompt?x=/", "/prompt"),
        ("/web-excel/web-excel/a", "/web-excel/a"),
        ("/web-excels", "/web-excels"),
        ("/prompt", "/prompt"),
        ("", ""),
    ] {
        assert_eq!(clean_route(path, prefix), route, "{}", path);
    }
    assert_eq!(clean_route("/a?b?c", None), "/a");
}

#[test]
fn written_paths_lead_back() {
    for prefix in [None, Some("/web-excel"), Some("가/나"), Some("/")] {
        for route in ["/", "/prompt", "/prompt-computer", "/a/b", "//"] {
            let path = gateway_path(route, prefix);
            assert_eq!(clean_route(&path, prefix), route);
            assert_eq!(clean_route(&format!("{}?q=1", path), prefix), route);
        }
    }
    assert_eq!(gateway_path("/", Some("/web-excel")), "/web-excel");
    assert_eq!(gateway_path("/prompt", Some("/web-excel")), "/web-excel/prompt");
    assert_eq!(gateway_path("/prompt", None), "/prompt");
}

#[test]
fn has_default_addresses() {
    assert_eq!(default_agent_bind(None), "127.0.0.1:8788");
    assert_eq!(default_agent_bind(Some("a")), "a");
    assert_eq!(default_gateway_bind(None), "0.0.0.0:8878");
    assert_eq!(default_gateway_bind(Some("")), "");
    assert_eq!(default_agent_url(None), "http://127.0.0.1:8788");
    assert_eq!(default_agent_url(Some("u")), "u");
}
