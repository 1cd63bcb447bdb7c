//! Laws about actions: which words name them, what they open, and what is
//! typed.
use vstd::prelude::*;

use crate::content_laws::{parted, reads, rendered, written, written_push, written_reads, Part};
use crate::device::{type_command, typed};
use crate::encoding_laws::viewer_address_names_source;
use crate::openai::output_area;
use crate::text_laws::{
    blank, holds, last_place_is_found, missing_words_have_no_place,
    only_blank_text_is_cut_to_nothing, only_long_text_is_cut, tight, tight_text_is_kept,
    words_are_found_where_they_stand,
};
use crate::url::path_parameter;
use crate::windows::OpeningModel;
use crate::{agent, launcher};

verus! {

// ---------------------------------------------------------------------------
// Which words name an action
// ---------------------------------------------------------------------------

/// Whether `area` is the part of a reply that holds the answer: the reply ends
/// with it, it begins with the last mark of an output text or else of an output,
/// and without either mark it is the whole reply.
pub open spec fn holds_the_answer(start: Seq<char>, mark: Seq<char>, rest: Seq<char>) -> bool {
    let body = start + (mark + rest);
    ||| mark == "\"output_text\""@ && !holds((mark + rest).skip(1), mark)
    ||| mark == "\"output\""@ && !holds((mark + rest).skip(1), mark) && !holds(
        body,
        "\"output_text\""@,
    )
    ||| start.len() == 0 && mark.len() == 0 && !holds(body, "\"output\""@) && !holds(
        body,
        "\"output_text\""@,
    )
}

/// The answer stands from the last mark on, all of it.
pub proof fn answers_are_found(start: Seq<char>, mark: Seq<char>, rest: Seq<char>)
    requires
        holds_the_answer(start, mark, rest),
    ensures
        output_area(start + (mark + rest)) == mark + rest,
{
    let body = start + (mark + rest);
    reveal_strlit("\"output_text\"");
    reveal_strlit("\"output\"");
    missing_words_have_no_place(body, "\"output_text\""@);
    missing_words_have_no_place(body, "\"output\""@);
    if mark == "\"output_text\""@ || mark == "\"output\""@ {
        last_place_is_found(start, mark, rest);
        assert(body.skip(start.len() as int) =~= mark + rest);
    } else {
        assert(body =~= mark + rest);
    }
}

/// The words that the agent knows, each with its action.
pub open spec fn agent_word(word: Seq<char>, action: agent::PromptAction) -> bool {
    ||| word == "OPEN_EXCEL"@ && action == agent::PromptAction::OpenExcel
    ||| word == "OPEN_CSV"@ && action == agent::PromptAction::OpenCsv
    ||| word == "OPEN_GOOGLE_SHEETS"@ && action == agent::PromptAction::OpenGoogleSheets
    ||| word == "OPEN_MICROSOFT_EXCEL_WEB"@ && action == agent::PromptAction::OpenMicrosoftExcelWeb
    ||| word == "OPEN_MICROSOFT_OFFICE_VIEWER"@ && action == agent::PromptAction::OpenMicrosoftOfficeViewer
    ||| word == "DENY"@ && action == agent::PromptAction::Deny
}

/// A reply whose answer holds one of the words and no other names the action of
/// that word, whatever stands before the word and after it.
pub proof fn agent_obeys_the_only_word(
    start: Seq<char>,
    mark: Seq<char>,
    x: Seq<char>,
    word: Seq<char>,
    y: Seq<char>,
    action: agent::PromptAction,
)
    requires
        holds_the_answer(start, mark, x + word + y),
        agent_word(word, action),
        forall|other: Seq<char>, named: agent::PromptAction| #[trigger]
            agent_word(other, named) && holds(mark + (x + word + y), other) ==> other == word,
    ensures
        agent::decision(start + (mark + (x + word + y))) == Ok::<_, Seq<char>>(action),
        agent::classified_as(Ok(start + (mark + (x + word + y)))) == Ok::<_, Seq<char>>(action),
{
    let area = mark + (x + word + y);
    answers_are_found(start, mark, x + word + y);
    assert(area =~= (mark + x) + word + y);
    assert(holds(area, word));
    reveal_strlit("OPEN_EXCEL");
    reveal_strlit("OPEN_CSV");
    reveal_strlit("OPEN_GOOGLE_SHEETS");
    reveal_strlit("OPEN_MICROSOFT_EXCEL_WEB");
    reveal_strlit("OPEN_MICROSOFT_OFFICE_VIEWER");
    reveal_strlit("DENY");
    words_are_found_where_they_stand(area, "OPEN_EXCEL"@);
    assert(agent_word("OPEN_EXCEL"@, agent::PromptAction::OpenExcel));
    words_are_found_where_they_stand(area, "OPEN_CSV"@);
    assert(agent_word("OPEN_CSV"@, agent::PromptAction::OpenCsv));
    words_are_found_where_they_stand(area, "OPEN_GOOGLE_SHEETS"@);
    assert(agent_word("OPEN_GOOGLE_SHEETS"@, agent::PromptAction::OpenGoogleSheets));
    words_are_found_where_they_stand(area, "OPEN_MICROSOFT_EXCEL_WEB"@);
    assert(agent_word("OPEN_MICROSOFT_EXCEL_WEB"@, agent::PromptAction::OpenMicrosoftExcelWeb));
    words_are_found_where_they_stand(area, "OPEN_MICROSOFT_OFFICE_VIEWER"@);
    assert(agent_word("OPEN_MICROSOFT_OFFICE_VIEWER"@, agent::PromptAction::OpenMicrosoftOfficeViewer));
    words_are_found_where_they_stand(area, "DENY"@);
    assert(agent_word("DENY"@, agent::PromptAction::Deny));
}

/// Where an answer holds several of the words, the narrower action is taken
/// before the wider, and none is denied that names something to open. An answer
/// without any of the words is an error that repeats the reply.
pub proof fn agent_chooses_between_words(start: Seq<char>, mark: Seq<char>, rest: Seq<char>)
    requires
        holds_the_answer(start, mark, rest),
    ensures
        ({
            let body = start + (mark + rest);
            let area = mark + rest;
            &&& holds(area, "OPEN_MICROSOFT_OFFICE_VIEWER"@) ==> agent::decision(body) == Ok::<_, Seq<char>>(agent::PromptAction::OpenMicrosoftOfficeViewer)
            &&& holds(area, "OPEN_MICROSOFT_EXCEL_WEB"@) && !holds(area, "OPEN_MICROSOFT_OFFICE_VIEWER"@) ==> agent::decision(body) == Ok::<_, Seq<char>>(agent::PromptAction::OpenMicrosoftExcelWeb)
            &&& holds(area, "OPEN_GOOGLE_SHEETS"@) && !holds(area, "OPEN_MICROSOFT_OFFICE_VIEWER"@) && !holds(area, "OPEN_MICROSOFT_EXCEL_WEB"@) ==> agent::decision(body) == Ok::<_, Seq<char>>(agent::PromptAction::OpenGoogleSheets)
            &&& holds(area, "OPEN_CSV"@) && !holds(area, "OPEN_MICROSOFT_OFFICE_VIEWER"@) && !holds(area, "OPEN_MICROSOFT_EXCEL_WEB"@) && !holds(area, "OPEN_GOOGLE_SHEETS"@) ==> agent::decision(body) == Ok::<_, Seq<char>>(agent::PromptAction::OpenCsv)
            &&& holds(area, "OPEN_EXCEL"@) && !holds(area, "OPEN_MICROSOFT_OFFICE_VIEWER"@) && !holds(area, "OPEN_MICROSOFT_EXCEL_WEB"@) && !holds(area, "OPEN_GOOGLE_SHEETS"@) && !holds(area, "OPEN_CSV"@) ==> agent::decision(body) == Ok::<_, Seq<char>>(agent::PromptAction::OpenExcel)
            &&& holds(area, "DENY"@) && !holds(area, "OPEN_MICROSOFT_OFFICE_VIEWER"@) && !holds(area, "OPEN_MICROSOFT_EXCEL_WEB"@) && !holds(area, "OPEN_GOOGLE_SHEETS"@) && !holds(area, "OPEN_CSV"@) && !holds(area, "OPEN_EXCEL"@) ==> agent::decision(body) == Ok::<_, Seq<char>>(agent::PromptAction::Deny)
            &&& agent::decision(body) is Err <==> !holds(area, "OPEN_MICROSOFT_OFFICE_VIEWER"@) && !holds(area, "OPEN_MICROSOFT_EXCEL_WEB"@) && !holds(area, "OPEN_GOOGLE_SHEETS"@) && !holds(area, "OPEN_CSV"@) && !holds(area, "OPEN_EXCEL"@) && !holds(area, "DENY"@)
            &&& agent::decision(body) is Err && body.len() <= 800 ==> agent::decision(body)->Err_0
                == "OpenAI 응답에서 실행 토큰을 찾지 못했습니다: "@ + body
            &&& agent::decision(body) is Err && body.len() > 800 ==> agent::decision(body)->Err_0
                == "OpenAI 응답에서 실행 토큰을 찾지 못했습니다: "@ + (body.take(800) + "..."@)
        }),
{
    let body = start + (mark + rest);
    let area = mark + rest;
    answers_are_found(start, mark, rest);
    only_long_text_is_cut(body, 800);
    words_are_found_where_they_stand(area, "OPEN_MICROSOFT_OFFICE_VIEWER"@);
    words_are_found_where_they_stand(area, "OPEN_MICROSOFT_EXCEL_WEB"@);
    words_are_found_where_they_stand(area, "OPEN_GOOGLE_SHEETS"@);
    words_are_found_where_they_stand(area, "OPEN_CSV"@);
    words_are_found_where_they_stand(area, "OPEN_EXCEL"@);
    words_are_found_where_they_stand(area, "DENY"@);
}

/// A call that failed keeps its error.
pub proof fn agent_keeps_failed_calls(e: Seq<char>)
    ensures
        agent::classified_as(Err(e)) == Err::<agent::PromptAction, _>(e),
{
}

/// The words that the launcher knows, each with its action.
pub open spec fn launcher_word(word: Seq<char>, action: launcher::PromptAction) -> bool {
    ||| word == "OPEN_EXCEL"@ && action == launcher::PromptAction::OpenExcel
    ||| word == "OPEN_CSV"@ && action == launcher::PromptAction::OpenCsv
    ||| word == "OPEN_GOOGLE_SHEETS"@ && action == launcher::PromptAction::OpenGoogleSheets
    ||| word == "OPEN_MICROSOFT_EXCEL_WEB"@ && action == launcher::PromptAction::OpenMicrosoftExcelWeb
    ||| word == "OPEN_MICROSOFT_OFFICE_VIEWER"@ && action == launcher::PromptAction::OpenMicrosoftOfficeViewer
    ||| word == "DENY"@ && action == launcher::PromptAction::Deny
    ||| word == "CREATE_GOOGLE_SHEETS"@ && action == launcher::PromptAction::CreateGoogleSheets
}

/// A reply whose answer holds one of the words and no other names the action of
/// that word, whatever stands before the word and after it.
pub proof fn launcher_obeys_the_only_word(
    start: Seq<char>,
    mark: Seq<char>,
    x: Seq<char>,
    word: Seq<char>,
    y: Seq<char>,
    action: launcher::PromptAction,
)
    requires
        holds_the_answer(start, mark, x + word + y),
        launcher_word(word, action),
        forall|other: Seq<char>, named: launcher::PromptAction| #[trigger]
            launcher_word(other, named) && holds(mark + (x + word + y), other) ==> other == word,
    ensures
        launcher::decision(start + (mark + (x + word + y))) == Ok::<_, Seq<char>>(action),
        launcher::classified_as(Ok(start + (mark + (x + word + y)))) == Ok::<_, Seq<char>>(action),
{
    let area = mark + (x + word + y);
    answers_are_found(start, mark, x + word + y);
    assert(area =~= (mark + x) + word + y);
    assert(holds(area, word));
    reveal_strlit("OPEN_EXCEL");
    reveal_strlit("OPEN_CSV");
    reveal_strlit("OPEN_GOOGLE_SHEETS");
    reveal_strlit("OPEN_MICROSOFT_EXCEL_WEB");
    reveal_strlit("OPEN_MICROSOFT_OFFICE_VIEWER");
    reveal_strlit("DENY");
    reveal_strlit("CREATE_GOOGLE_SHEETS");
    words_are_found_where_they_stand(area, "OPEN_EXCEL"@);
    assert(launcher_word("OPEN_EXCEL"@, launcher::PromptAction::OpenExcel));
    words_are_found_where_they_stand(area, "OPEN_CSV"@);
    assert(launcher_word("OPEN_CSV"@, launcher::PromptAction::OpenCsv));
    words_are_found_where_they_stand(area, "OPEN_GOOGLE_SHEETS"@);
    assert(launcher_word("OPEN_GOOGLE_SHEETS"@, launcher::PromptAction::OpenGoogleSheets));
    words_are_found_where_they_stand(area, "OPEN_MICROSOFT_EXCEL_WEB"@);
    assert(launcher_word("OPEN_MICROSOFT_EXCEL_WEB"@, launcher::PromptAction::OpenMicrosoftExcelWeb));
    words_are_found_where_they_stand(area, "OPEN_MICROSOFT_OFFICE_VIEWER"@);
    assert(launcher_word("OPEN_MICROSOFT_OFFICE_VIEWER"@, launcher::PromptAction::OpenMicrosoftOfficeViewer));
    words_are_found_where_they_stand(area, "DENY"@);
    assert(launcher_word("DENY"@, launcher::PromptAction::Deny));
    words_are_found_where_they_stand(area, "CREATE_GOOGLE_SHEETS"@);
    assert(launcher_word("CREATE_GOOGLE_SHEETS"@, launcher::PromptAction::CreateGoogleSheets));
}

/// Where an answer holds several of the words, the narrower action is taken
/// before the wider, and none is denied that names something to open. An answer
/// without any of the words is an error that repeats the reply.
pub proof fn launcher_chooses_between_words(start: Seq<char>, mark: Seq<char>, rest: Seq<char>)
    requires
        holds_the_answer(start, mark, rest),
    ensures
        ({
            let body = start + (mark + rest);
            let area = mark + rest;
            &&& holds(area, "OPEN_MICROSOFT_OFFICE_VIEWER"@) ==> launcher::decision(body) == Ok::<_, Seq<char>>(launcher::PromptAction::OpenMicrosoftOfficeViewer)
            &&& holds(area, "OPEN_MICROSOFT_EXCEL_WEB"@) && !holds(area, "OPEN_MICROSOFT_OFFICE_VIEWER"@) ==> launcher::decision(body) == Ok::<_, Seq<char>>(launcher::PromptAction::OpenMicrosoftExcelWeb)
            &&& holds(area, "CREATE_GOOGLE_SHEETS"@) && !holds(area, "OPEN_MICROSOFT_OFFICE_VIEWER"@) && !holds(area, "OPEN_MICROSOFT_EXCEL_WEB"@) ==> launcher::decision(body) == Ok::<_, Seq<char>>(launcher::PromptAction::CreateGoogleSheets)
            &&& holds(area, "OPEN_GOOGLE_SHEETS"@) && !holds(area, "OPEN_MICROSOFT_OFFICE_VIEWER"@) && !holds(area, "OPEN_MICROSOFT_EXCEL_WEB"@) && !holds(area, "CREATE_GOOGLE_SHEETS"@) ==> launcher::decision(body) == Ok::<_, Seq<char>>(launcher::PromptAction::OpenGoogleSheets)
            &&& holds(area, "OPEN_CSV"@) && !holds(area, "OPEN_MICROSOFT_OFFICE_VIEWER"@) && !holds(area, "OPEN_MICROSOFT_EXCEL_WEB"@) && !holds(area, "CREATE_GOOGLE_SHEETS"@) && !holds(area, "OPEN_GOOGLE_SHEETS"@) ==> launcher::decision(body) == Ok::<_, Seq<char>>(launcher::PromptAction::OpenCsv)
            &&& holds(area, "OPEN_EXCEL"@) && !holds(area, "OPEN_MICROSOFT_OFFICE_VIEWER"@) && !holds(area, "OPEN_MICROSOFT_EXCEL_WEB"@) && !holds(area, "CREATE_GOOGLE_SHEETS"@) && !holds(area, "OPEN_GOOGLE_SHEETS"@) && !holds(area, "OPEN_CSV"@) ==> launcher::decision(body) == Ok::<_, Seq<char>>(launcher::PromptAction::OpenExcel)
            &&& holds(area, "DENY"@) && !holds(area, "OPEN_MICROSOFT_OFFICE_VIEWER"@) && !holds(area, "OPEN_MICROSOFT_EXCEL_WEB"@) && !holds(area, "CREATE_GOOGLE_SHEETS"@) && !holds(area, "OPEN_GOOGLE_SHEETS"@) && !holds(area, "OPEN_CSV"@) && !holds(area, "OPEN_EXCEL"@) ==> launcher::decision(body) == Ok::<_, Seq<char>>(launcher::PromptAction::Deny)
            &&& launcher::decision(body) is Err <==> !holds(area, "OPEN_MICROSOFT_OFFICE_VIEWER"@) && !holds(area, "OPEN_MICROSOFT_EXCEL_WEB"@) && !holds(area, "CREATE_GOOGLE_SHEETS"@) && !holds(area, "OPEN_GOOGLE_SHEETS"@) && !holds(area, "OPEN_CSV"@) && !holds(area, "OPEN_EXCEL"@) && !holds(area, "DENY"@)
            &&& launcher::decision(body) is Err && body.len() <= 800 ==> launcher::decision(body)->Err_0
                == "OpenAI 응답에서 실행 토큰을 찾지 못했습니다: "@ + body
            &&& launcher::decision(body) is Err && body.len() > 800 ==> launcher::decision(body)->Err_0
                == "OpenAI 응답에서 실행 토큰을 찾지 못했습니다: "@ + (body.take(800) + "..."@)
        }),
{
    let body = start + (mark + rest);
    let area = mark + rest;
    answers_are_found(start, mark, rest);
    only_long_text_is_cut(body, 800);
    words_are_found_where_they_stand(area, "OPEN_MICROSOFT_OFFICE_VIEWER"@);
    words_are_found_where_they_stand(area, "OPEN_MICROSOFT_EXCEL_WEB"@);
    words_are_found_where_they_stand(area, "CREATE_GOOGLE_SHEETS"@);
    words_are_found_where_they_stand(area, "OPEN_GOOGLE_SHEETS"@);
    words_are_found_where_they_stand(area, "OPEN_CSV"@);
    words_are_found_where_they_stand(area, "OPEN_EXCEL"@);
    words_are_found_where_they_stand(area, "DENY"@);
}

/// A call that failed keeps its error.
pub proof fn launcher_keeps_failed_calls(e: Seq<char>)
    ensures
        launcher::classified_as(Err(e)) == Err::<launcher::PromptAction, _>(e),
{
}

// ---------------------------------------------------------------------------
// What is opened
// ---------------------------------------------------------------------------

/// The command of an opening that is a launch.
pub open spec fn starts(opening: OpeningModel, parts: Seq<Part>) -> bool {
    opening matches OpeningModel::Launch(launch) && reads(launch.command, parts)
}

/// Whether an opening is a launch with the given message.
pub open spec fn says(opening: OpeningModel, message: Seq<char>) -> bool {
    opening matches OpeningModel::Launch(launch) && launch.message == message
}

proof fn command_reads(url: Seq<char>)
    ensures
        reads(
            crate::windows::open_in_browser(url),
            seq![Part::Fixed("Start-Process "@), Part::Quoted(url)],
        ),
{
    let q0 = Seq::<Part>::empty();
    let q1 = q0.push(Part::Fixed("Start-Process "@));
    written_push(q0, Part::Fixed("Start-Process "@));
    let q2 = q1.push(Part::Quoted(url));
    written_push(q1, Part::Quoted(url));
    assert(written(q0) + rendered(q1[0]) =~= rendered(q1[0]));
    assert(crate::windows::open_in_browser(url) == written(q2));
    assert(q2 =~= seq![Part::Fixed("Start-Process "@), Part::Quoted(url)]);
    written_reads(q2);
}

/// A configured page is the one that opens: the command starts the address that
/// was set, character by character, and the message names it.
pub proof fn configured_pages_are_opened(
    u: Seq<char>,
    agent_settings: agent::AgentSettingsModel,
    launcher_settings: launcher::LauncherSettingsModel,
)
    requires
        u.len() > 0,
        tight(u),
        agent_settings.google_sheets_url == Some(u),
        agent_settings.excel_web_url == Some(u),
        launcher_settings.google_sheets_url == Some(u),
        launcher_settings.excel_web_url == Some(u),
    ensures
        starts(
            agent::opening_of(agent::TargetModel::GoogleSheets, agent_settings),
            seq![Part::Fixed("Start-Process "@), Part::Quoted(u)],
        ),
        says(
            agent::opening_of(agent::TargetModel::GoogleSheets, agent_settings),
            "Google Sheets 새 스프레드시트 실행 요청을 보냈습니다.\nURL: "@ + u + "\n기존 브라우저의 Google 로그인 세션을 사용합니다.\n"@,
        ),
        starts(
            launcher::opening_of(launcher::ActionModel::GoogleSheets, launcher_settings),
            seq![Part::Fixed("Start-Process "@), Part::Quoted(u)],
        ),
        says(
            launcher::opening_of(launcher::ActionModel::GoogleSheets, launcher_settings),
            "Google Sheets 새 스프레드시트 실행 요청을 보냈습니다.\nURL: "@ + u + "\n기존 브라우저의 Google 로그인 세션을 사용합니다.\n"@,
        ),
        starts(
            launcher::opening_of(launcher::ActionModel::NewGoogleSheets, launcher_settings),
            seq![Part::Fixed("Start-Process "@), Part::Quoted(u)],
        ),
        says(
            launcher::opening_of(launcher::ActionModel::NewGoogleSheets, launcher_settings),
            "Google Sheets 새 스프레드시트 실행 요청을 보냈습니다.\nURL: "@ + u + "\n기존 브라우저의 Google 로그인 세션을 사용합니다.\n"@,
        ),
        starts(
            agent::opening_of(agent::TargetModel::ExcelWeb, agent_settings),
            seq![Part::Fixed("Start-Process "@), Part::Quoted(u)],
        ),
        says(
            agent::opening_of(agent::TargetModel::ExcelWeb, agent_settings),
            "Microsoft Excel for the web 실행 요청을 보냈습니다.\nURL: "@ + u + "\n브라우저의 기존 Microsoft 365 로그인 세션을 사용합니다.\n"@,
        ),
        starts(
            launcher::opening_of(launcher::ActionModel::ExcelWeb, launcher_settings),
            seq![Part::Fixed("Start-Process "@), Part::Quoted(u)],
        ),
        says(
            launcher::opening_of(launcher::ActionModel::ExcelWeb, launcher_settings),
            "Microsoft Excel for the web 실행 요청을 보냈습니다.\nURL: "@ + u + "\n브라우저의 기존 Microsoft 365 로그인 세션을 사용합니다.\n"@,
        ),
{
    tight_text_is_kept(u);
    command_reads(u);
}

/// Without a configured page, or with a blank one, the usual page opens.
pub proof fn usual_pages_are_opened(
    agent_settings: agent::AgentSettingsModel,
    launcher_settings: launcher::LauncherSettingsModel,
)
    requires
        agent_settings.google_sheets_url matches Some(s) ==> blank(s),
        agent_settings.excel_web_url matches Some(s) ==> blank(s),
        launcher_settings.google_sheets_url matches Some(s) ==> blank(s),
        launcher_settings.excel_web_url matches Some(s) ==> blank(s),
    ensures
        starts(
            agent::opening_of(agent::TargetModel::GoogleSheets, agent_settings),
            seq![Part::Fixed("Start-Process "@), Part::Quoted("https://docs.google.com/spreadsheets/create"@)],
        ),
        says(
            agent::opening_of(agent::TargetModel::GoogleSheets, agent_settings),
            "Google Sheets 새 스프레드시트 실행 요청을 보냈습니다.\nURL: "@ + "https://docs.google.com/spreadsheets/create"@ + "\n기존 브라우저의 Google 로그인 세션을 사용합니다.\n"@,
        ),
        starts(
            launcher::opening_of(launcher::ActionModel::GoogleSheets, launcher_settings),
            seq![Part::Fixed("Start-Process "@), Part::Quoted("https://docs.google.com/spreadsheets/create"@)],
        ),
        says(
            launcher::opening_of(launcher::ActionModel::GoogleSheets, launcher_settings),
            "Google Sheets 새 스프레드시트 실행 요청을 보냈습니다.\nURL: "@ + "https://docs.google.com/spreadsheets/create"@ + "\n기존 브라우저의 Google 로그인 세션을 사용합니다.\n"@,
        ),
        starts(
            launcher::opening_of(launcher::ActionModel::NewGoogleSheets, launcher_settings),
            seq![Part::Fixed("Start-Process "@), Part::Quoted("https://docs.google.com/spreadsheets/create"@)],
        ),
        says(
            launcher::opening_of(launcher::ActionModel::NewGoogleSheets, launcher_settings),
            "Google Sheets 새 스프레드시트 실행 요청을 보냈습니다.\nURL: "@ + "https://docs.google.com/spreadsheets/create"@ + "\n기존 브라우저의 Google 로그인 세션을 사용합니다.\n"@,
        ),
        starts(
            agent::opening_of(agent::TargetModel::ExcelWeb, agent_settings),
            seq![Part::Fixed("Start-Process "@), Part::Quoted("https://www.microsoft365.com/launch/excel?auth=1"@)],
        ),
        says(
            agent::opening_of(agent::TargetModel::ExcelWeb, agent_settings),
            "Microsoft Excel for the web 실행 요청을 보냈습니다.\nURL: "@ + "https://www.microsoft365.com/launch/excel?auth=1"@ + "\n브라우저의 기존 Microsoft 365 로그인 세션을 사용합니다.\n"@,
        ),
        starts(
            launcher::opening_of(launcher::ActionModel::ExcelWeb, launcher_settings),
            seq![Part::Fixed("Start-Process "@), Part::Quoted("https://www.microsoft365.com/launch/excel?auth=1"@)],
        ),
        says(
            launcher::opening_of(launcher::ActionModel::ExcelWeb, launcher_settings),
            "Microsoft Excel for the web 실행 요청을 보냈습니다.\nURL: "@ + "https://www.microsoft365.com/launch/excel?auth=1"@ + "\n브라우저의 기존 Microsoft 365 로그인 세션을 사용합니다.\n"@,
        ),
{
    for_blank(agent_settings.google_sheets_url);
    for_blank(agent_settings.excel_web_url);
    for_blank(launcher_settings.google_sheets_url);
    for_blank(launcher_settings.excel_web_url);
    command_reads("https://docs.google.com/spreadsheets/create"@);
    command_reads("https://www.microsoft365.com/launch/excel?auth=1"@);
}

proof fn for_blank(setting: Option<Seq<char>>)
    requires
        setting matches Some(s) ==> blank(s),
    ensures
        crate::text::nonblank(setting) is None,
{
    match setting {
        Some(s) => only_blank_text_is_cut_to_nothing(s),
        None => {},
    }
}

/// Whether an opening shows a document in the viewer: it starts an address of
/// the viewer whose parameter `src` is the document, and the message names both.
pub open spec fn shows_document(opening: OpeningModel, source: Seq<char>) -> bool {
    exists|url: Seq<char>|
        {
            &&& #[trigger] path_parameter(url, "src"@) == Some(source)
            &&& url.len() >= 50 && url.take(50)
                == "https://view.officeapps.live.com/op/view.aspx?src="@
            &&& starts(opening, seq![Part::Fixed("Start-Process "@), Part::Quoted(url)])
            &&& says(
                opening,
                "Microsoft Office Web Viewer 실행 요청을 보냈습니다.\nWorkbook: "@ + source
                    + "\nViewer: "@ + url + "\n"@,
            )
        }
}

/// The viewer shows the document that was asked for; where none was, or a blank
/// one, it shows the one that is set; and where neither is there, it is not opened.
pub proof fn agent_views_the_document(
    asked: Option<Seq<char>>,
    u: Seq<char>,
    settings: agent::AgentSettingsModel,
)
    requires
        u.len() > 0,
        tight(u),
    ensures
        asked == Some(u) ==> shows_document(
            agent::opening_of(agent::TargetModel::Viewer(asked), settings),
            u,
        ),
        (asked matches Some(s) ==> blank(s)) && settings.viewer_source == Some(u)
            ==> shows_document(agent::opening_of(agent::TargetModel::Viewer(asked), settings), u),
        (asked matches Some(s) ==> blank(s)) && (settings.viewer_source matches Some(s) ==> blank(
            s,
        )) ==> (agent::opening_of(agent::TargetModel::Viewer(asked), settings) matches OpeningModel::Refused(e)
            && e
            == "MS_OFFICE_VIEWER_SRC_URL 또는 src 파라미터가 필요합니다. Office Web Viewer는 Microsoft 서버가 접근 가능한 공개 .xlsx URL만 볼 수 있습니다."@),
{
    tight_text_is_kept(u);
    if asked matches Some(s) ==> blank(s) {
        for_blank(asked);
    }
    if settings.viewer_source matches Some(s) ==> blank(s) {
        for_blank(settings.viewer_source);
    }
    let url = crate::bridge::viewer_address(u);
    viewer_address_names_source(u);
    command_reads(url);
    reveal_strlit("https://view.officeapps.live.com/op/view.aspx?src=");
    assert(url.take(50) =~= "https://view.officeapps.live.com/op/view.aspx?src="@);
}

/// The viewer shows the document that was asked for; where none was, or a blank
/// one, it shows the one that is set; and where neither is there, it is not opened.
pub proof fn launcher_views_the_document(
    asked: Option<Seq<char>>,
    u: Seq<char>,
    settings: launcher::LauncherSettingsModel,
)
    requires
        u.len() > 0,
        tight(u),
    ensures
        asked == Some(u) ==> shows_document(
            launcher::opening_of(launcher::ActionModel::Viewer(asked), settings),
            u,
        ),
        (asked matches Some(s) ==> blank(s)) && settings.viewer_source == Some(u)
            ==> shows_document(launcher::opening_of(launcher::ActionModel::Viewer(asked), settings), u),
        (asked matches Some(s) ==> blank(s)) && (settings.viewer_source matches Some(s) ==> blank(
            s,
        )) ==> (launcher::opening_of(launcher::ActionModel::Viewer(asked), settings) matches OpeningModel::Refused(e)
            && e
            == "MS_OFFICE_VIEWER_SRC_URL 또는 src 파라미터가 필요합니다. Office Web Viewer는 Microsoft 서버가 접근 가능한 공개 .xlsx URL만 볼 수 있습니다."@),
{
    tight_text_is_kept(u);
    if asked matches Some(s) ==> blank(s) {
        for_blank(asked);
    }
    if settings.viewer_source matches Some(s) ==> blank(s) {
        for_blank(settings.viewer_source);
    }
    let url = launcher::viewer_address(u);
    viewer_address_names_source(u);
    command_reads(url);
    reveal_strlit("https://view.officeapps.live.com/op/view.aspx?src=");
    assert(url.take(50) =~= "https://view.officeapps.live.com/op/view.aspx?src="@);
}

/// Excel itself is opened without a document, and the sample table by writing it.
pub proof fn excel_is_opened(
    agent_settings: agent::AgentSettingsModel,
    launcher_settings: launcher::LauncherSettingsModel,
)
    ensures
        agent::opening_of(agent::TargetModel::Csv, agent_settings) is WriteCsv,
        launcher::opening_of(launcher::ActionModel::Csv, launcher_settings) is WriteCsv,
        agent::opening_of(agent::TargetModel::Excel, agent_settings) matches OpeningModel::Launch(
            launch,
        ) && launch.command == "Start-Process -FilePath 'excel.exe'"@ && launch.message
            == "로컬 Windows Excel 실행 요청을 보냈습니다.\n"@,
        launcher::opening_of(
            launcher::ActionModel::Excel,
            launcher_settings,
        ) matches OpeningModel::Launch(launch) && launch.command
            == "Start-Process -FilePath 'excel.exe'"@ && launch.message
            == "Windows Excel 실행 요청을 보냈습니다.\n"@,
{
}

// ---------------------------------------------------------------------------
// Typing
// ---------------------------------------------------------------------------

/// Whether a character is an ASCII letter or an ASCII digit.
pub open spec fn letter_or_digit(ch: char) -> bool {
    65 <= ch as int <= 90 || 97 <= ch as int <= 122 || 48 <= ch as int <= 57
}

/// Whether a character is a space or one of the signs of paths: `.`, `-`, `_`,
/// `:`, `\` and `/`.
pub open spec fn path_sign(ch: char) -> bool {
    seq![' ', '.', '-', '_', ':', '\\', '/'].contains(ch)
}

/// Typing goes character by character: letters, digits, spaces and the signs of
/// paths are typed as they are, in their order, and nothing else is.
pub proof fn typing_goes_by_character(front: Seq<char>, ch: char)
    ensures
        typed(Seq::<char>::empty()).len() == 0,
        letter_or_digit(ch) || path_sign(ch) ==> typed(front.push(ch)) == typed(front).push(ch),
        !letter_or_digit(ch) && !path_sign(ch) ==> typed(front.push(ch)) == typed(front),
{
    reveal(Seq::filter);
    let signs = seq![' ', '.', '-', '_', ':', '\\', '/'];
    assert(signs[0] == ' ' && signs[1] == '.' && signs[2] == '-' && signs[3] == '_' && signs[4]
        == ':' && signs[5] == '\\' && signs[6] == '/');
    assert(front.push(ch).drop_last() =~= front);
}

proof fn typed_whole(text: Seq<char>)
    requires
        forall|i: int| 0 <= i < text.len() ==> letter_or_digit(#[trigger] text[i]) || path_sign(
            text[i],
        ),
    ensures
        typed(text) == text,
    decreases text.len(),
{
    if text.len() > 0 {
        let front = text.drop_last();
        assert forall|i: int| 0 <= i < front.len() implies letter_or_digit(#[trigger] front[i])
            || path_sign(front[i]) by {
            assert(front[i] == text[i]);
        }
        typed_whole(front);
        typing_goes_by_character(front, text.last());
        assert(front.push(text.last()) =~= text);
    } else {
        typing_goes_by_character(text, ' ');
        assert(text =~= Seq::empty());
    }
}

/// A text of letters, digits, spaces and the signs of paths is typed whole: the
/// command sends it as it is.
pub proof fn plain_text_is_typed_whole(text: Seq<char>)
    requires
        text.len() > 0,
        forall|i: int| 0 <= i < text.len() ==> letter_or_digit(#[trigger] text[i]) || path_sign(
            text[i],
        ),
    ensures
        type_command(text) matches Ok(command) && reads(
            command,
            seq![
                Part::Fixed(
                    "Add-Type -AssemblyName System.Windows.Forms; [System.Windows.Forms.SendKeys]::SendWait("@,
                ),
                Part::Quoted(text),
                Part::Fixed(")"@),
            ],
        ),
{
    typed_whole(text);
    command_types(text);
}

proof fn command_types(text: Seq<char>)
    requires
        typed(text).len() > 0,
    ensures
        type_command(text) matches Ok(command) && reads(
            command,
            seq![
                Part::Fixed(
                    "Add-Type -AssemblyName System.Windows.Forms; [System.Windows.Forms.SendKeys]::SendWait("@,
                ),
                Part::Quoted(typed(text)),
                Part::Fixed(")"@),
            ],
        ),
{
    reveal_strlit(")");
    let command = type_command(text)->Ok_0;
    let q0 = Seq::<Part>::empty();
    let q1 = q0.push(Part::Fixed("Add-Type -AssemblyName System.Windows.Forms; [System.Windows.Forms.SendKeys]::SendWait("@));
    written_push(q0, Part::Fixed("Add-Type -AssemblyName System.Windows.Forms; [System.Windows.Forms.SendKeys]::SendWait("@));
    let q2 = q1.push(Part::Quoted(typed(text)));
    written_push(q1, Part::Quoted(typed(text)));
    let q3 = q2.push(Part::Fixed(")"@));
    written_push(q2, Part::Fixed(")"@));
    assert(written(q0) + rendered(q1[0]) =~= rendered(q1[0]));
    assert(command == written(q3));
    assert(q3 =~= seq![Part::Fixed("Add-Type -AssemblyName System.Windows.Forms; [System.Windows.Forms.SendKeys]::SendWait("@), Part::Quoted(typed(text)), Part::Fixed(")"@)]);
    assert(parted(q3[1], q3[2]));
    written_reads(q3);
}

/// Typing skips what may not be typed and sends the rest; a text of which
/// nothing may be typed is an error.
pub proof fn the_rest_of_a_text_is_typed(text: Seq<char>)
    ensures
        typed(text).len() > 0 ==> (type_command(text) matches Ok(command) && reads(
            command,
            seq![
                Part::Fixed(
                    "Add-Type -AssemblyName System.Windows.Forms; [System.Windows.Forms.SendKeys]::SendWait("@,
                ),
                Part::Quoted(typed(text)),
                Part::Fixed(")"@),
            ],
        )),
        (forall|i: int| 0 <= i < text.len() ==> !letter_or_digit(#[trigger] text[i]) && !path_sign(
            text[i],
        )) ==> (type_command(text) matches Err(e) && e
            == "type action 텍스트가 비어 있거나 허용 문자가 아닙니다."@),
    decreases text.len(),
{
    if typed(text).len() > 0 {
        command_types(text);
    }
    if forall|i: int| 0 <= i < text.len() ==> !letter_or_digit(#[trigger] text[i]) && !path_sign(
        text[i],
    ) {
        if text.len() > 0 {
            let front = text.drop_last();
            assert forall|i: int| 0 <= i < front.len() implies !letter_or_digit(
                #[trigger] front[i],
            ) && !path_sign(front[i]) by {
                assert(front[i] == text[i]);
            }
            the_rest_of_a_text_is_typed(front);
            typing_goes_by_character(front, text.last());
            assert(front.push(text.last()) =~= text);
        } else {
            typing_goes_by_character(text, ' ');
            assert(text =~= Seq::empty());
        }
    }
}

} // verus!
