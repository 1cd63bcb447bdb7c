use web_excel_launcher::computer::{
    actions_found, call_found, captured, excel_looked_for, excel_looked_for_again, model_replied,
    performed, response_id_found, run_computer_use_excel, Move, Run,
};
use web_excel_launcher::openai::{
    call_openai_computer_initial, call_openai_computer_screenshot, computer_config, openai_model,
    openai_output_area, responses_arguments, responses_config,
};
use web_excel_launcher::{agent, launcher};

#[test]
fn chooses_the_model() {
    assert_eq!(openai_model(None), "gpt-5.5");
    assert_eq!(openai_model(Some("")), "gpt-5.5");
    assert_eq!(openai_model(Some(" \t ")), "gpt-5.5");
    assert_eq!(openai_model(Some(" other ")), " other ");
}

#[test]
fn configures_calls() {
    assert_eq!(
        responses_config("k\"ey", "/tmp/p.json"),
        "silent\nshow-error\nmax-time = \"25\"\nurl = \"https://api.openai.com/v1/responses\"\nheader = \"Authorization: Bearer k\\\"ey\"\nheader = \"Content-Type: application/json\"\ndata-binary = \"@/tmp/p.json\"\nwrite-out = \"\\n__HTTP_STATUS__:%{http_code}\"\n"
    );
    assert_eq!(
        computer_config("key", "/tmp/p.json"),
        responses_config("key", "/tmp/p.json").replace("\"25\"", "\"35\"")
    );
    assert_eq!(
        responses_arguments("key"),
        [
            "-sS",
            "--max-time",
            "25",
            "https://api.openai.com/v1/responses",
            "-H",
            "Authorization: Bearer key",
            "-H",
            "Content-Type: application/json",
            "--data-binary",
            "@-",
            "-w",
            "\n__HTTP_STATUS__:%{http_code}",
        ]
    );
}

#[test]
fn asks_for_a_classification_that_is_not_stored() {
    let payload = agent::classify_prompt_with_openai(true, None, "엑셀 \"실행\"").unwrap();
    assert!(payload.starts_with(
        "{\"model\":\"gpt-5.5\",\"instructions\":\"한국어 명령 분류기. 한 단어만 출력: OPEN_EXCEL, OPEN_CSV, OPEN_GOOGLE_SHEETS, OPEN_MICROSOFT_EXCEL_WEB, OPEN_MICROSOFT_OFFICE_VIEWER, DENY. 엑셀 실행/열기/켜줘는 OPEN_EXCEL. "
    ));
    assert!(payload.ends_with(
        "나머지는 DENY.\",\"input\":\"요청: 엑셀 \\\"실행\\\"\",\"reasoning\":{\"effort\":\"none\"},\"max_output_tokens\":64,\"store\":false}"
    ));
    let payload = launcher::classify_prompt_with_openai(true, Some("m"), "x").unwrap();
    assert!(payload.starts_with(
        "{\"model\":\"m\",\"instructions\":\"한국어 명령 분류기. 한 단어만 출력: OPEN_EXCEL, OPEN_CSV, OPEN_GOOGLE_SHEETS, CREATE_GOOGLE_SHEETS, "
    ));
    assert!(payload.ends_with("\"max_output_tokens\":64,\"store\":false}"));
}

#[test]
fn a_classification_needs_a_key() {
    assert_eq!(
        agent::classify_prompt_with_openai(false, None, "x"),
        Err("OPENAI_API_KEY 환경변수가 로컬 agent에 없습니다.".to_string())
    );
    assert_eq!(
        launcher::classify_prompt_with_openai(false, None, "x"),
        Err("OPENAI_API_KEY 환경변수가 설정되어 있지 않습니다.".to_string())
    );
}

#[test]
fn finds_the_answer_in_a_reply() {
    assert_eq!(openai_output_area("{\"a\":1}"), "{\"a\":1}");
    assert_eq!(openai_output_area("x \"output\" y \"output\" z"), "\"output\" z");
    assert_eq!(
        openai_output_area("\"output_text\" 가 \"output_text\" 나 \"output\" 다"),
        "\"output_text\" 나 \"output\" 다"
    );
}

#[test]
fn asks_the_model_to_use_the_computer() {
    assert_eq!(
        call_openai_computer_initial("a\"b"),
        "{\"model\":\"gpt-5.5\",\"tools\":[{\"type\":\"computer\"}],\"input\":\"a\\\"b\",\"max_output_tokens\":512,\"store\":true}"
    );
    assert_eq!(
        call_openai_computer_screenshot("resp_1", "call_1", "QUJD"),
        "{\"model\":\"gpt-5.5\",\"tools\":[{\"type\":\"computer\"}],\"previous_response_id\":\"resp_1\",\"input\":[{\"type\":\"computer_call_output\",\"call_id\":\"call_1\",\"output\":{\"type\":\"computer_screenshot\",\"image_url\":\"data:image/png;base64,QUJD\",\"detail\":\"original\"}}],\"max_output_tokens\":512,\"store\":true}"
    );
}

fn strings(list: &[&str]) -> Vec<String> {
    list.iter().map(|s| s.to_string()).collect()
}

/// Plays a run: at each step the model calls for the given actions, and Excel
/// is seen to run after the actions of the given step.
fn play(steps: &[&[&str]], seen_after: usize) -> (Result<String, String>, usize) {
    let mut next = run_computer_use_excel(true, "엑셀 실행해줘");
    let mut moves: usize = 0;
    loop {
        moves += 1;
        next = match next {
            Move::AskModel { run, payload, opening } => {
                assert_eq!(opening, run.step == 1 && payload.contains("사용자 원문: 엑셀 실행해줘"));
                model_replied(run, opening, Ok("{}".to_string()))
            },
            Move::FindCall { run, body } => {
                let found = if (run.step as usize) <= steps.len() { "call_1" } else { "null" };
                call_found(run, body, Ok(strings(&[found])))
            },
            Move::FindActions { run, body, call_id } => {
                let lines = strings(steps[run.step as usize - 1]);
                actions_found(run, body, call_id, Ok(lines))
            },
            Move::Perform { run, body, call_id, lines } => {
                assert_eq!(lines, strings(steps[run.step as usize - 1]));
                performed(run, body, call_id, Ok(()))
            },
            Move::LookForExcel { run, body, call_id, pause_ms } => {
                assert_eq!(pause_ms, 1000);
                let seen = run.step as usize >= seen_after;
                excel_looked_for(run, body, call_id, seen)
            },
            Move::Capture { run, body, call_id } => {
                captured(run, body, call_id, Ok("QUJD".to_string()))
            },
            Move::FindResponseId { run, body: _, call_id, screenshot } => {
                response_id_found(run, call_id, screenshot, Ok(strings(&["resp_1"])))
            },
            Move::LookAgain { run, body } => excel_looked_for_again(run, body, false),
            Move::Finished(result) => return (result, moves),
        };
    }
}

#[test]
fn opens_excel_with_the_computer() {
    let (log, _) = play(&[&["screenshot"], &["keypress\tWIN+R", "type\texcel", "keypress\tENTER"]], 2);
    assert_eq!(
        log.unwrap(),
        "mode=OpenAI computer tool\nmodel=gpt-5.5\nstore=true (computer loop previous_response_id 필요)\nstep=1 action=screenshot\nstep=2 action=keypress WIN+R\nstep=2 action=type excel\nstep=2 action=keypress ENTER\nverify=EXCEL.EXE 감지됨\n"
    );
}

#[test]
fn ends_where_the_model_calls_for_nothing() {
    let (log, _) = play(&[], 9);
    assert!(log.unwrap().ends_with("필요)\nstep=1 computer_call 없음, 종료\n"));
    let (log, _) = play(&[&["wait"]], 9);
    assert!(log
        .unwrap()
        .ends_with("필요)\nstep=1 action=wait\nstep=2 computer_call 없음, 종료\n"));
}

#[test]
fn goes_on_as_long_as_the_model_makes_calls() {
    let steps: [&[&str]; 20] = [&["wait"]; 20];
    let (log, moves) = play(&steps, 100);
    let log = log.unwrap();
    assert!(log.ends_with("step=20 action=wait\nstep=21 computer_call 없음, 종료\n"));
    assert_eq!(log.matches("action=wait").count(), 20);
    assert_eq!(moves, 1 + 20 * 8 + 2);
}

#[test]
fn answers_calls_without_actions() {
    let (log, moves) = play(&[&["wait"], &[], &["wait"]], 100);
    assert!(log.unwrap().ends_with(
        "필요)\nstep=1 action=wait\nstep=3 action=wait\nstep=4 computer_call 없음, 종료\n"
    ));
    assert_eq!(moves, 1 + 3 * 8 + 2);
    match actions_found(run(), "{}".to_string(), "call_1".to_string(), Ok(Vec::new())) {
        Move::Perform { run, body, call_id, lines } => {
            assert_eq!((run.step, run.log.as_str()), (3, "log\n"));
            assert_eq!((body.as_str(), call_id.as_str()), ("{}", "call_1"));
            assert!(lines.is_empty());
        },
        other => panic!("{:?}", other),
    }
}

#[test]
fn sends_the_picture_as_the_answer_to_the_call() {
    let lines = Ok(strings(&["resp_7"]));
    match response_id_found(run(), "call_7".to_string(), "QUJD".to_string(), lines) {
        Move::AskModel { run: _, payload, opening } => {
            assert_eq!(payload, call_openai_computer_screenshot("resp_7", "call_7", "QUJD"));
            assert!(!opening);
        },
        other => panic!("{:?}", other),
    }
}

fn run() -> Run {
    Run { step: 3, log: "log\n".to_string() }
}

fn result_of(next: Move) -> Result<String, String> {
    match next {
        Move::Finished(result) => result,
        other => panic!("{:?}", other),
    }
}

#[test]
fn every_failure_ends_the_run() {
    let error = || Err("why".to_string());
    let body = || "{}".to_string();
    let id = || "call_1".to_string();
    let expected: Result<String, String> = Err("why".to_string());
    assert_eq!(
        result_of(run_computer_use_excel(false, "x")),
        Err("OPENAI_API_KEY 환경변수가 로컬 agent에 없습니다.".to_string())
    );
    assert_eq!(result_of(model_replied(run(), true, error())), expected);
    assert_eq!(result_of(model_replied(run(), false, error())), expected);
    assert_eq!(result_of(call_found(run(), body(), Err("why".to_string()))), expected);
    assert_eq!(result_of(actions_found(run(), body(), id(), Err("why".to_string()))), expected);
    assert_eq!(result_of(performed(run(), body(), id(), Err("why".to_string()))), expected);
    assert_eq!(result_of(captured(run(), body(), id(), error())), expected);
    assert_eq!(
        result_of(response_id_found(run(), id(), "QUJD".to_string(), Err("why".to_string()))),
        expected
    );
    assert_eq!(
        result_of(response_id_found(run(), id(), "QUJD".to_string(), Ok(strings(&["null"])))),
        Err("OpenAI response id를 찾지 못했습니다.".to_string())
    );
}

#[test]
fn excel_may_be_seen_after_the_picture() {
    match excel_looked_for_again(run(), "{}".to_string(), true) {
        Move::FindCall { run, body } => {
            assert_eq!(run.step, 4);
            assert_eq!(run.log, "log\nverify=EXCEL.EXE 감지됨\n");
            assert_eq!(body, "{}");
        },
        other => panic!("{:?}", other),
    }
    for (step, next) in [(8, 9), (u64::MAX - 1, u64::MAX), (u64::MAX, u64::MAX)] {
        let late = Run { step, log: String::new() };
        match excel_looked_for_again(late, "{}".to_string(), false) {
            Move::FindCall { run, body: _ } => assert_eq!((run.step, run.log.as_str()), (next, "")),
            other => panic!("{:?}", other),
        }
    }
}
