use web_excel_launcher::process::{ProcessOutput, ProcessRun, Stage};
use web_excel_launcher::temp::{
    demo_csv_path, demo_screenshot_path, launcher_csv_path, secret_temp_name, write_secret_temp,
    TempOutcome, TempStep,
};
use web_excel_launcher::windows::{
    finish_launch, google_sheets_url, microsoft_excel_web_url, office_viewer_source_url,
    open_browser_url, open_google_sheets, open_microsoft_excel_web, plan_csv, powershell_path,
    run_powershell_wait, spawn_powershell, wsl_to_windows_path, CsvWrite,
};
use web_excel_launcher::{agent, launcher, process};

#[test]
fn converts_paths() {
    assert_eq!(
        wsl_to_windows_path("/mnt/c/Users/David/Desktop/a.csv"),
        Some("C:\\Users\\David\\Desktop\\a.csv".to_string())
    );
    assert_eq!(
        wsl_to_windows_path("/tmp/x/a.csv"),
        Some("\\\\wsl.localhost\\Ubuntu\\tmp\\x\\a.csv".to_string())
    );
    assert_eq!(wsl_to_windows_path("/mnt/c"), None);
    assert_eq!(wsl_to_windows_path("/mnt/d/a"), None);
    assert_eq!(wsl_to_windows_path("/home/a"), None);
    assert_eq!(wsl_to_windows_path("tmp/a"), None);
    assert_eq!(wsl_to_windows_path("/mnt/c/"), Some("C:\\".to_string()));
}

#[test]
fn windows_paths_hold_no_slash() {
    for path in ["/mnt/c/a/b//c/", "/tmp///", "/tmp/a/b"] {
        assert!(!wsl_to_windows_path(path).unwrap().contains('/'));
    }
}

#[test]
fn chooses_powershell() {
    let full = "/mnt/c/Windows/System32/WindowsPowerShell/v1.0/powershell.exe";
    assert_eq!(powershell_path(true, true), full);
    assert_eq!(powershell_path(true, false), full);
    assert_eq!(powershell_path(false, true), "/mnt/c/Windows/System32/powershell.exe");
    assert_eq!(powershell_path(false, false), "powershell.exe");
}

#[test]
fn lists_powershell_arguments() {
    assert_eq!(
        spawn_powershell("x y"),
        ["-NoProfile", "-ExecutionPolicy", "Bypass", "-Command", "x y"]
    );
    assert_eq!(
        run_powershell_wait("x y"),
        ["-NoProfile", "-STA", "-ExecutionPolicy", "Bypass", "-Command", "x y"]
    );
}

#[test]
fn settings_replace_the_default_pages() {
    assert_eq!(google_sheets_url(None), "https://docs.google.com/spreadsheets/create");
    assert_eq!(google_sheets_url(Some("  ")), "https://docs.google.com/spreadsheets/create");
    assert_eq!(google_sheets_url(Some(" https://x/ ")), "https://x/");
    assert_eq!(
        microsoft_excel_web_url(None),
        "https://www.microsoft365.com/launch/excel?auth=1"
    );
    assert_eq!(microsoft_excel_web_url(Some("y")), "y");
}

#[test]
fn opens_pages_in_the_browser() {
    assert_eq!(open_browser_url("https://a/'b"), "Start-Process 'https://a/''b'");
    let launch = open_google_sheets(None);
    assert_eq!(
        launch.command,
        "Start-Process 'https://docs.google.com/spreadsheets/create'"
    );
    assert_eq!(
        launch.message,
        "Google Sheets 새 스프레드시트 실행 요청을 보냈습니다.\nURL: https://docs.google.com/spreadsheets/create\n기존 브라우저의 Google 로그인 세션을 사용합니다.\n"
    );
    let launch = open_microsoft_excel_web(Some("https://e/"));
    assert_eq!(launch.command, "Start-Process 'https://e/'");
    assert_eq!(
        launch.message,
        "Microsoft Excel for the web 실행 요청을 보냈습니다.\nURL: https://e/\n브라우저의 기존 Microsoft 365 로그인 세션을 사용합니다.\n"
    );
}

#[test]
fn opens_excel() {
    let launch = launcher::open_blank_excel();
    assert_eq!(launch.command, "Start-Process -FilePath 'excel.exe'");
    assert_eq!(launch.message, "Windows Excel 실행 요청을 보냈습니다.\n");
    let launch = agent::open_blank_excel();
    assert_eq!(launch.command, "Start-Process -FilePath 'excel.exe'");
    assert_eq!(launch.message, "로컬 Windows Excel 실행 요청을 보냈습니다.\n");
}

#[test]
fn opens_the_sample_table() {
    let launch =
        launcher::create_csv_and_open("/tmp/it's.csv", "\"/tmp/it's.csv\"", &CsvWrite::Written)
            .unwrap();
    assert_eq!(
        launch.command,
        "Start-Process -FilePath 'excel.exe' -ArgumentList '\\\\wsl.localhost\\Ubuntu\\tmp\\it''s.csv'"
    );
    assert_eq!(
        launch.message,
        "CSV를 만들고 Excel 실행 요청을 보냈습니다.\nWSL: \"/tmp/it's.csv\"\nWindows: \\\\wsl.localhost\\Ubuntu\\tmp\\it's.csv\n"
    );
    let launch = agent::create_csv_and_open("/mnt/c/a", "shown", &CsvWrite::Written).unwrap();
    assert_eq!(
        launch.message,
        "CSV를 만들고 로컬 Excel 실행 요청을 보냈습니다.\nWSL: shown\nWindows: C:\\a\n"
    );
}

#[test]
fn the_sample_table_may_fail() {
    let folder = CsvWrite::NoFolder("\"/a\"".to_string(), "denied".to_string());
    assert_eq!(plan_csv("/tmp/a", "s", &folder, "d").unwrap_err(), "폴더 생성 실패 \"/a\": denied");
    let file = CsvWrite::NotWritten("full".to_string());
    assert_eq!(plan_csv("/tmp/a", "s", &file, "d").unwrap_err(), "CSV 쓰기 실패 s: full");
    assert_eq!(
        plan_csv("/home/a", "s", &CsvWrite::Written, "d").unwrap_err(),
        "Windows 경로 변환 실패: s"
    );
}

#[test]
fn finds_the_document_to_view() {
    assert_eq!(office_viewer_source_url(Some(" a "), Some("b")), Ok("a".to_string()));
    assert_eq!(office_viewer_source_url(Some("  "), Some(" b ")), Ok("b".to_string()));
    assert_eq!(office_viewer_source_url(None, Some("b")), Ok("b".to_string()));
    for configured in [None, Some(" ")] {
        assert_eq!(
            office_viewer_source_url(None, configured),
            Err("MS_OFFICE_VIEWER_SRC_URL 또는 src 파라미터가 필요합니다. Office Web Viewer는 Microsoft 서버가 접근 가능한 공개 .xlsx URL만 볼 수 있습니다.".to_string())
        );
    }
}

#[test]
fn views_documents() {
    let launch = agent::open_microsoft_office_viewer(Some("a b"), None).unwrap();
    assert_eq!(
        launch.command,
        "Start-Process 'https://view.officeapps.live.com/op/view.aspx?src=a+b'"
    );
    assert_eq!(
        launch.message,
        "Microsoft Office Web Viewer 실행 요청을 보냈습니다.\nWorkbook: a b\nViewer: https://view.officeapps.live.com/op/view.aspx?src=a+b\n"
    );
    let launch = launcher::open_microsoft_office_viewer(None, Some("a b")).unwrap();
    assert_eq!(
        launch.command,
        "Start-Process 'https://view.officeapps.live.com/op/view.aspx?src=a%20b'"
    );
    assert!(launcher::open_microsoft_office_viewer(None, None).is_err());
}

#[test]
fn a_launch_may_fail() {
    assert_eq!(
        finish_launch(agent::open_blank_excel(), Ok(())),
        Ok("로컬 Windows Excel 실행 요청을 보냈습니다.\n".to_string())
    );
    assert_eq!(
        finish_launch(agent::open_blank_excel(), Err("not found".to_string())),
        Err("powershell.exe 실행 실패: not found".to_string())
    );
}

#[test]
fn names_temporary_files() {
    assert_eq!(
        secret_temp_name("openai-curl", ".conf", 42, 1700000000123456789, 3),
        "openai-curl-42-1700000000123456789-3.conf"
    );
    let names: Vec<String> = (0..20).map(|n| secret_temp_name("p", ".s", 1, 2, n)).collect();
    for i in 0..names.len() {
        for j in 0..i {
            assert_ne!(names[i], names[j]);
        }
    }
}

#[test]
fn tries_names_until_one_is_free() {
    assert!(matches!(write_secret_temp(0, "s", &TempOutcome::Written), TempStep::Done));
    assert!(matches!(write_secret_temp(0, "s", &TempOutcome::Taken), TempStep::Retry(1)));
    assert!(matches!(write_secret_temp(18, "s", &TempOutcome::Taken), TempStep::Retry(19)));
    match write_secret_temp(19, "s", &TempOutcome::Taken) {
        TempStep::Failed(e) => assert_eq!(e, "임시 파일 이름을 만들지 못했습니다."),
        other => panic!("{:?}", other),
    }
    match write_secret_temp(0, "s", &TempOutcome::NotWritten("full".to_string())) {
        TempStep::Failed(e) => assert_eq!(e, "임시 파일 쓰기 실패 s: full"),
        other => panic!("{:?}", other),
    }
    match write_secret_temp(0, "s", &TempOutcome::NotMade("denied".to_string())) {
        TempStep::Failed(e) => assert_eq!(e, "임시 파일 생성 실패 s: denied"),
        other => panic!("{:?}", other),
    }
}

#[test]
fn names_the_files_that_windows_reads() {
    assert_eq!(
        demo_csv_path(1700000000, true, "/tmp"),
        "/mnt/c/Users/David/Desktop/tailscale-excel-demo-1700000000.csv"
    );
    assert_eq!(demo_csv_path(7, false, "/tmp"), "/tmp/tailscale-excel-demo-7.csv");
    assert_eq!(demo_csv_path(7, false, "/var/tmp/"), "/var/tmp/tailscale-excel-demo-7.csv");
    assert_eq!(launcher_csv_path(7, false, "/tmp"), "/tmp/web-excel-launcher-demo-7.csv");
    assert_eq!(
        demo_screenshot_path(7, false, "/tmp"),
        "/tmp/tailscale-excel-cua-screen-7.png"
    );
    assert_eq!(demo_screenshot_path(0, false, ""), "tailscale-excel-cua-screen-0.png");
}

fn finished(success: bool, stdout: &[u8], stderr: &[u8]) -> ProcessRun {
    ProcessRun::Finished(ProcessOutput {
        success,
        status: "exit status: 7".to_string(),
        stdout: stdout.to_vec(),
        stderr: stderr.to_vec(),
    })
}

fn failed(stage: Stage) -> ProcessRun {
    ProcessRun::Failed(stage, "why".to_string())
}

#[test]
fn judges_powershell() {
    assert_eq!(process::powershell_result(&finished(true, b"", b"noise")), Ok(()));
    assert_eq!(
        process::powershell_result(&finished(false, b"", b"bad\xff")),
        Err("powershell 실패: bad\u{fffd}".to_string())
    );
    assert_eq!(
        process::powershell_result(&failed(Stage::Start)),
        Err("powershell.exe 실행 실패: why".to_string())
    );
}

#[test]
fn judges_base64() {
    assert_eq!(process::base64_result(&finished(true, b"QUJD", b"")), Ok("QUJD".to_string()));
    assert_eq!(
        process::base64_result(&finished(false, b"", b"none")),
        Err("base64 실패: none".to_string())
    );
    assert_eq!(
        process::base64_result(&failed(Stage::Start)),
        Err("base64 실행 실패: why".to_string())
    );
}

#[test]
fn judges_jq() {
    assert_eq!(
        process::jq_lines(&finished(true, b"a\n\nb\n", b"")),
        Ok(vec!["a".to_string(), "".to_string(), "b".to_string()])
    );
    assert_eq!(
        process::jq_lines(&finished(false, b"a", b"parse error")),
        Err("jq 실패: parse error".to_string())
    );
    assert_eq!(
        process::jq_lines(&failed(Stage::Start)),
        Err("jq 실행 실패: why".to_string())
    );
    assert_eq!(
        process::jq_lines(&failed(Stage::Input)),
        Err("jq stdin 쓰기 실패: why".to_string())
    );
    assert_eq!(
        process::jq_lines(&failed(Stage::Wait)),
        Err("jq 대기 실패: why".to_string())
    );
}

#[test]
fn finds_the_first_value() {
    let lines = |list: &[&str]| list.iter().map(|s| s.to_string()).collect::<Vec<String>>();
    assert_eq!(process::jq_first_string(&lines(&[])), None);
    assert_eq!(process::jq_first_string(&lines(&["", " ", "null", " null "])), None);
    assert_eq!(
        process::jq_first_string(&lines(&["null", " call_1 ", "call_2"])),
        Some(" call_1 ".to_string())
    );
}

#[test]
fn judges_calls_of_the_model() {
    let call = process::call_openai_responses_api;
    assert_eq!(
        call(&finished(true, "{\"a\":\"한\"}\n__HTTP_STATUS__:200".as_bytes(), b"")),
        Ok("{\"a\":\"한\"}".to_string())
    );
    assert_eq!(call(&finished(true, b"x\n__HTTP_STATUS__: 299 \n", b"")), Ok("x".to_string()));
    assert_eq!(
        call(&finished(true, b"a\n__HTTP_STATUS__:1\n__HTTP_STATUS__:200", b"")),
        Ok("a\n__HTTP_STATUS__:1".to_string())
    );
    for (status, shown) in [("199", "199"), ("300", "300"), ("401", "401"), ("", "0"), ("x", "0")] {
        let reply = format!("no\n__HTTP_STATUS__:{}", status);
        assert_eq!(
            call(&finished(true, reply.as_bytes(), b"")),
            Err(format!("OpenAI HTTP {}: no", shown))
        );
    }
    let long = format!("{}\n__HTTP_STATUS__:500", "y".repeat(1300));
    assert_eq!(
        call(&finished(true, long.as_bytes(), b"")),
        Err(format!("OpenAI HTTP 500: {}...", "y".repeat(1200)))
    );
    assert_eq!(
        call(&finished(true, b"nothing", b"")),
        Err("OpenAI HTTP 상태를 읽지 못했습니다: nothing".to_string())
    );
    assert_eq!(
        call(&finished(false, b"", b"timeout")),
        Err("OpenAI API 호출 실패: status=exit status: 7 stderr=timeout".to_string())
    );
    assert_eq!(
        process::call_openai_json(&finished(false, b"", b"timeout")),
        Err("OpenAI 호출 실패: status=exit status: 7 stderr=timeout".to_string())
    );
    assert_eq!(call(&failed(Stage::Input)), Err("curl stdin 쓰기 실패: why".to_string()));
}
