//! Calls of the OpenAI API: what is sent, and how the reply is read.
use vstd::prelude::*;

use crate::escape::{
    curl_config_string, curl_quoted, json_quoted, json_string, truncate, truncated,
};
use crate::text::{
    chars_of, copy_text, find_last, last_match, optional_str, texts, trim_text, trimmed,
};

verus! {

/// The model that is asked, unless another is set.
pub const DEFAULT_MODEL: &'static str = "gpt-5.5";

/// The model to ask: the one that is set, unless the setting is blank.
pub open spec fn model_name(configured: Option<Seq<char>>) -> Seq<char> {
    match configured {
        Some(name) => if trimmed(name).len() > 0 {
            name
        } else {
            DEFAULT_MODEL@
        },
        None => DEFAULT_MODEL@,
    }
}

/// Chooses the model to ask.
pub fn openai_model(configured: Option<&str>) -> (r: String)
    ensures
        r@ == model_name(optional_str(configured)),
{
    match configured {
        Some(name) => {
            let word = trim_text(name);
            if word.as_str().is_empty() {
                copy_text(DEFAULT_MODEL)
            } else {
                copy_text(name)
            }
        },
        None => copy_text(DEFAULT_MODEL),
    }
}

/// The header that carries the API key.
pub open spec fn bearer(api_key: Seq<char>) -> Seq<char> {
    "Authorization: Bearer "@ + api_key
}

/// Writes the header that carries the API key.
pub fn bearer_header(api_key: &str) -> (r: String)
    ensures
        r@ == bearer(api_key@),
{
    let mut out = copy_text("Authorization: Bearer ");
    out.append(api_key);
    out
}

/// The `curl` configuration of a call that takes at most `seconds` and sends
/// the file at `payload_path`.
pub open spec fn call_config(seconds: Seq<char>, api_key: Seq<char>, payload_path: Seq<char>) -> Seq<
    char,
> {
    "silent\nshow-error\nmax-time = \""@ + seconds
        + "\"\nurl = \"https://api.openai.com/v1/responses\"\nheader = "@ + curl_quoted(
        bearer(api_key),
    ) + "\nheader = \"Content-Type: application/json\"\ndata-binary = "@ + curl_quoted(
        "@"@ + payload_path,
    ) + "\nwrite-out = \"\\n__HTTP_STATUS__:%{http_code}\"\n"@
}

/// Writes the `curl` configuration of a call.
fn write_call_config(seconds: &str, api_key: &str, payload_path: &str) -> (r: String)
    ensures
        r@ == call_config(seconds@, api_key@, payload_path@),
{
    let mut data = copy_text("@");
    data.append(payload_path);
    let mut out = copy_text("silent\nshow-error\nmax-time = \"");
    out.append(seconds);
    out.append("\"\nurl = \"https://api.openai.com/v1/responses\"\nheader = ");
    out.append(curl_config_string(bearer_header(api_key).as_str()).as_str());
    out.append("\nheader = \"Content-Type: application/json\"\ndata-binary = ");
    out.append(curl_config_string(data.as_str()).as_str());
    out.append("\nwrite-out = \"\\n__HTTP_STATUS__:%{http_code}\"\n");
    out
}

/// The `curl` configuration of a call that classifies a prompt.
pub fn responses_config(api_key: &str, payload_path: &str) -> (r: String)
    ensures
        r@ == call_config("25"@, api_key@, payload_path@),
{
    write_call_config("25", api_key, payload_path)
}

/// The `curl` configuration of a call that takes part in using the computer.
pub fn computer_config(api_key: &str, payload_path: &str) -> (r: String)
    ensures
        r@ == call_config("35"@, api_key@, payload_path@),
{
    write_call_config("35", api_key, payload_path)
}

/// The arguments of `curl` for a call whose payload it reads from its input.
pub open spec fn call_arguments(api_key: Seq<char>) -> Seq<Seq<char>> {
    seq![
        "-sS"@,
        "--max-time"@,
        "25"@,
        "https://api.openai.com/v1/responses"@,
        "-H"@,
        bearer(api_key),
        "-H"@,
        "Content-Type: application/json"@,
        "--data-binary"@,
        "@-"@,
        "-w"@,
        "\n__HTTP_STATUS__:%{http_code}"@,
    ]
}

/// Lists the arguments of `curl` for a call whose payload it reads from its
/// input.
pub fn responses_arguments(api_key: &str) -> (r: Vec<String>)
    ensures
        texts(r@) == call_arguments(api_key@),
{
    let mut out: Vec<String> = Vec::new();
    out.push(copy_text("-sS"));
    out.push(copy_text("--max-time"));
    out.push(copy_text("25"));
    out.push(copy_text("https://api.openai.com/v1/responses"));
    out.push(copy_text("-H"));
    out.push(bearer_header(api_key));
    out.push(copy_text("-H"));
    out.push(copy_text("Content-Type: application/json"));
    out.push(copy_text("--data-binary"));
    out.push(copy_text("@-"));
    out.push(copy_text("-w"));
    out.push(copy_text("\n__HTTP_STATUS__:%{http_code}"));
    assert(texts(out@) =~= call_arguments(api_key@));
    out
}

// ---------------------------------------------------------------------------
// Classifying a prompt
// ---------------------------------------------------------------------------

/// What is sent to have a prompt classified. Nothing of it is stored.
pub open spec fn classify_payload(
    model: Seq<char>,
    instructions: Seq<char>,
    prompt: Seq<char>,
) -> Seq<char> {
    "{\"model\":"@ + json_quoted(model) + ",\"instructions\":"@ + json_quoted(instructions)
        + ",\"input\":"@ + json_quoted("요청: "@ + prompt)
        + ",\"reasoning\":{\"effort\":\"none\"},\"max_output_tokens\":64,\"store\":false}"@
}

/// Writes what is sent to have a prompt classified.
pub fn write_classify_payload(model: &str, instructions: &str, prompt: &str) -> (r: String)
    ensures
        r@ == classify_payload(model@, instructions@, prompt@),
{
    let mut input = copy_text("요청: ");
    input.append(prompt);
    let mut out = copy_text("{\"model\":");
    out.append(json_string(model).as_str());
    out.append(",\"instructions\":");
    out.append(json_string(instructions).as_str());
    out.append(",\"input\":");
    out.append(json_string(input.as_str()).as_str());
    out.append(",\"reasoning\":{\"effort\":\"none\"},\"max_output_tokens\":64,\"store\":false}");
    out
}

/// The part of a reply that holds the answer: from the last `"output_text"`
/// on, or else from the last `"output"` on, or else all of it.
pub open spec fn output_area(body: Seq<char>) -> Seq<char> {
    match last_match(body, "\"output_text\""@) {
        Some(p) => body.skip(p),
        None => match last_match(body, "\"output\""@) {
            Some(p) => body.skip(p),
            None => body,
        },
    }
}

/// Finds the part of a reply that holds the answer.
pub fn openai_output_area(body: &str) -> (r: &str)
    ensures
        r@ == output_area(body@),
{
    let chars = chars_of(body);
    let n = chars.len();
    let text_mark = chars_of("\"output_text\"");
    let output_mark = chars_of("\"output\"");
    match find_last(chars.as_slice(), text_mark.as_slice()) {
        Some(p) => body.substring_char(p, n),
        None => match find_last(chars.as_slice(), output_mark.as_slice()) {
            Some(p) => body.substring_char(p, n),
            None => body,
        },
    }
}

/// What is said where a reply names no action.
pub open spec fn no_action(body: Seq<char>) -> Seq<char> {
    "OpenAI 응답에서 실행 토큰을 찾지 못했습니다: "@ + truncated(body, 800)
}

/// Reports a reply that names no action.
pub fn report_no_action(body: &str) -> (r: String)
    ensures
        r@ == no_action(body@),
{
    let mut out = copy_text("OpenAI 응답에서 실행 토큰을 찾지 못했습니다: ");
    out.append(truncate(body, 800).as_str());
    out
}

// ---------------------------------------------------------------------------
// Using the computer
// ---------------------------------------------------------------------------

/// What the model is asked to do with the computer; the prompt follows.
pub const COMPUTER_TASK: &'static str =
    "Windows desktop에서 Microsoft Excel을 실행해줘. 시작 메뉴나 실행 창을 사용해도 된다. Excel 창이 열리면 더 이상 조작하지 말고 멈춰라. 사용자 원문: ";

/// What is sent to set the model a task. The reply is stored, since later
/// calls refer to it.
pub open spec fn task_payload(task: Seq<char>) -> Seq<char> {
    "{\"model\":\"gpt-5.5\",\"tools\":[{\"type\":\"computer\"}],\"input\":"@ + json_quoted(task)
        + ",\"max_output_tokens\":512,\"store\":true}"@
}

/// Writes what is sent to set the model a task.
pub fn call_openai_computer_initial(task: &str) -> (r: String)
    ensures
        r@ == task_payload(task@),
{
    let mut out = copy_text(
        "{\"model\":\"gpt-5.5\",\"tools\":[{\"type\":\"computer\"}],\"input\":",
    );
    out.append(json_string(task).as_str());
    out.append(",\"max_output_tokens\":512,\"store\":true}");
    out
}

/// What is sent to show the model the screen, in answer to its call `call_id`
/// in the reply `previous`.
pub open spec fn screen_payload(
    previous: Seq<char>,
    call_id: Seq<char>,
    screenshot: Seq<char>,
) -> Seq<char> {
    "{\"model\":\"gpt-5.5\",\"tools\":[{\"type\":\"computer\"}],\"previous_response_id\":"@
        + json_quoted(previous)
        + ",\"input\":[{\"type\":\"computer_call_output\",\"call_id\":"@ + json_quoted(call_id)
        + ",\"output\":{\"type\":\"computer_screenshot\",\"image_url\":"@ + json_quoted(
        "data:image/png;base64,"@ + screenshot,
    ) + ",\"detail\":\"original\"}}],\"max_output_tokens\":512,\"store\":true}"@
}

/// Writes what is sent to show the model the screen.
pub fn call_openai_computer_screenshot(
    previous_response_id: &str,
    call_id: &str,
    screenshot_b64: &str,
) -> (r: String)
    ensures
        r@ == screen_payload(previous_response_id@, call_id@, screenshot_b64@),
{
    let mut image_url = copy_text("data:image/png;base64,");
    image_url.append(screenshot_b64);
    let mut out = copy_text(
        "{\"model\":\"gpt-5.5\",\"tools\":[{\"type\":\"computer\"}],\"previous_response_id\":",
    );
    out.append(json_string(previous_response_id).as_str());
    out.append(",\"input\":[{\"type\":\"computer_call_output\",\"call_id\":");
    out.append(json_string(call_id).as_str());
    out.append(",\"output\":{\"type\":\"computer_screenshot\",\"image_url\":");
    out.append(json_string(image_url.as_str()).as_str());
    out.append(",\"detail\":\"original\"}}],\"max_output_tokens\":512,\"store\":true}");
    out
}

/// The `jq` filter that finds the call that a reply makes.
pub const CALL_ID_FILTER: &'static str =
    ".output[]? | select(.type==\"computer_call\") | .call_id";

/// The `jq` filter that finds the identifier of a reply.
pub const RESPONSE_ID_FILTER: &'static str = ".id";

/// The `jq` filter that writes the actions of a reply, one to a line.
pub const ACTIONS_FILTER: &'static str = r#".output[]? | select(.type=="computer_call") | .actions[]? |
if .type=="keypress" then "keypress\t" + ((.keys // []) | join("+"))
elif .type=="type" then "type\t" + (.text // "")
elif .type=="click" then "click\t" + ((.x // 0)|tostring) + "\t" + ((.y // 0)|tostring) + "\t" + (.button // "left")
elif .type=="double_click" then "double_click\t" + ((.x // 0)|tostring) + "\t" + ((.y // 0)|tostring)
elif .type=="move" then "move\t" + ((.x // 0)|tostring) + "\t" + ((.y // 0)|tostring)
elif .type=="wait" then "wait"
elif .type=="screenshot" then "screenshot"
else "unsupported\t" + .type
end"#;

} // verus!
