//! Laws about what is written: payloads, configurations and commands hold what
//! they were made of, all of it, and it can be read back from them.
use vstd::prelude::*;

use crate::computer::{first_move, MoveModel};
use crate::encoding_laws::{
    curl_round_trip, html_read, html_round_trip, json_round_trip, markup, read_curl_quoted,
    read_json_string, read_single_quoted, single_quotes_round_trip,
};
use crate::escape::{curl_quoted, html_escaped, json_quoted, powershell_quoted};
use crate::openai::{call_arguments, call_config, model_name, screen_payload, COMPUTER_TASK};
use crate::text_laws::{blank, only_blank_text_is_cut_to_nothing};
use crate::{agent, launcher};

verus! {

// ---------------------------------------------------------------------------
// Reading what was written
// ---------------------------------------------------------------------------

/// A part of a written text.
pub enum Part {
    /// Text that stands for itself.
    Fixed(Seq<char>),
    /// A JSON string with the given contents.
    Json(Seq<char>),
    /// A quoted value of a curl configuration file with the given contents.
    Curl(Seq<char>),
    /// A string in single quotes with the given contents.
    Quoted(Seq<char>),
    /// Text up to the next markup, which shows as the given contents.
    Html(Seq<char>),
}

/// How many characters at the start of `s` are no markup.
pub open spec fn plain_length(s: Seq<char>) -> int
    decreases s.len(),
{
    if s.len() == 0 || markup(s[0]) {
        0
    } else {
        1 + plain_length(s.skip(1))
    }
}

/// Whether a text is made of the given parts, and of nothing else.
pub open spec fn reads(s: Seq<char>, parts: Seq<Part>) -> bool
    decreases parts.len(),
{
    if parts.len() == 0 {
        s.len() == 0
    } else {
        let rest = parts.skip(1);
        match parts[0] {
            Part::Fixed(text) => s.len() >= text.len() && s.take(text.len() as int) == text
                && reads(s.skip(text.len() as int), rest),
            Part::Json(value) => match read_json_string(s) {
                Some((content, tail)) => content == value && reads(tail, rest),
                None => false,
            },
            Part::Curl(value) => match read_curl_quoted(s) {
                Some((content, tail)) => content == value && reads(tail, rest),
                None => false,
            },
            Part::Quoted(value) => match read_single_quoted(s) {
                Some((content, tail)) => content == value && reads(tail, rest),
                None => false,
            },
            Part::Html(value) => html_read(s.take(plain_length(s))) == value && reads(
                s.skip(plain_length(s)),
                rest,
            ),
        }
    }
}

proof fn then_fixed(text: Seq<char>, tail: Seq<char>, rest: Seq<Part>)
    requires
        reads(tail, rest),
    ensures
        reads(text + tail, seq![Part::Fixed(text)] + rest),
{
    let parts = seq![Part::Fixed(text)] + rest;
    assert(parts.skip(1) =~= rest);
    assert((text + tail).take(text.len() as int) =~= text);
    assert((text + tail).skip(text.len() as int) =~= tail);
}

proof fn then_json(value: Seq<char>, tail: Seq<char>, rest: Seq<Part>)
    requires
        reads(tail, rest),
    ensures
        reads(json_quoted(value) + tail, seq![Part::Json(value)] + rest),
{
    let parts = seq![Part::Json(value)] + rest;
    assert(parts.skip(1) =~= rest);
    json_round_trip(value, tail);
}

proof fn then_curl(value: Seq<char>, tail: Seq<char>, rest: Seq<Part>)
    requires
        reads(tail, rest),
    ensures
        reads(curl_quoted(value) + tail, seq![Part::Curl(value)] + rest),
{
    let parts = seq![Part::Curl(value)] + rest;
    assert(parts.skip(1) =~= rest);
    curl_round_trip(value, tail);
}

proof fn then_quoted(value: Seq<char>, tail: Seq<char>, rest: Seq<Part>)
    requires
        reads(tail, rest),
        tail.len() == 0 || tail[0] != '\'',
    ensures
        reads(powershell_quoted(value) + tail, seq![Part::Quoted(value)] + rest),
{
    let parts = seq![Part::Quoted(value)] + rest;
    assert(parts.skip(1) =~= rest);
    single_quotes_round_trip(value, tail);
}

proof fn plain_length_of(text: Seq<char>, tail: Seq<char>)
    requires
        forall|i: int| 0 <= i < text.len() ==> !markup(#[trigger] text[i]),
        tail.len() == 0 || markup(tail[0]),
    ensures
        plain_length(text + tail) == text.len(),
    decreases text.len(),
{
    let whole = text + tail;
    if text.len() == 0 {
        assert(whole =~= tail);
    } else {
        let rest = text.skip(1);
        assert forall|i: int| 0 <= i < rest.len() implies !markup(#[trigger] rest[i]) by {
            assert(rest[i] == text[i + 1]);
        }
        plain_length_of(rest, tail);
        assert(whole.skip(1) =~= rest + tail);
        assert(whole[0] == text[0]);
    }
}

proof fn then_html(value: Seq<char>, tail: Seq<char>, rest: Seq<Part>)
    requires
        reads(tail, rest),
        tail.len() == 0 || markup(tail[0]),
    ensures
        reads(html_escaped(value) + tail, seq![Part::Html(value)] + rest),
{
    let parts = seq![Part::Html(value)] + rest;
    let s = html_escaped(value) + tail;
    let n = html_escaped(value).len() as int;
    assert(parts.skip(1) =~= rest);
    html_round_trip(value);
    plain_length_of(html_escaped(value), tail);
    assert(s.take(n) =~= html_escaped(value));
    assert(s.skip(n) =~= tail);
}

/// How a part is written.
pub(crate) open spec fn rendered(part: Part) -> Seq<char> {
    match part {
        Part::Fixed(text) => text,
        Part::Json(value) => json_quoted(value),
        Part::Curl(value) => curl_quoted(value),
        Part::Quoted(value) => powershell_quoted(value),
        Part::Html(value) => html_escaped(value),
    }
}

/// How several parts are written, one after another.
pub(crate) open spec fn written(parts: Seq<Part>) -> Seq<char>
    decreases parts.len(),
{
    if parts.len() == 0 {
        Seq::empty()
    } else {
        written(parts.drop_last()) + rendered(parts.last())
    }
}

/// Whether each part can be told from the next: no quote follows a string in
/// single quotes, and markup follows HTML text.
pub(crate) open spec fn parted(part: Part, next: Part) -> bool {
    match part {
        Part::Quoted(_) => next matches Part::Fixed(text) && text.len() > 0 && text[0] != '\'',
        Part::Html(_) => next matches Part::Fixed(text) && text.len() > 0 && markup(text[0]),
        _ => true,
    }
}

/// Whether each part can be told from the next.
pub(crate) open spec fn all_parted(parts: Seq<Part>) -> bool {
    forall|i: int| 0 <= i < parts.len() - 1 ==> #[trigger] parted(parts[i], parts[i + 1])
}

pub(crate) proof fn written_push(parts: Seq<Part>, part: Part)
    ensures
        written(parts.push(part)) == written(parts) + rendered(part),
{
    assert(parts.push(part).drop_last() =~= parts);
}

proof fn written_front(parts: Seq<Part>)
    requires
        parts.len() > 0,
    ensures
        written(parts) == rendered(parts[0]) + written(parts.skip(1)),
    decreases parts.len(),
{
    let rest = parts.skip(1);
    if rest.len() == 0 {
        assert(written(parts.drop_last()) =~= Seq::empty());
        assert(written(parts) =~= rendered(parts[0]) + written(rest));
    } else {
        written_front(parts.drop_last());
        assert(parts.drop_last().skip(1) =~= rest.drop_last());
        assert(parts.last() == rest.last());
        assert(written(parts) =~= rendered(parts[0]) + written(rest));
    }
}

/// What is written part by part is read part by part.
pub(crate) proof fn written_reads(parts: Seq<Part>)
    requires
        all_parted(parts),
    ensures
        reads(written(parts), parts),
    decreases parts.len(),
{
    if parts.len() > 0 {
        let rest = parts.skip(1);
        let tail = written(rest);
        assert forall|i: int| 0 <= i < rest.len() - 1 implies #[trigger] parted(
            rest[i],
            rest[i + 1],
        ) by {
            assert(parted(parts[i + 1], parts[i + 1 + 1]));
        }
        written_reads(rest);
        written_front(parts);
        assert(seq![parts[0]] + rest =~= parts);
        if rest.len() > 0 {
            assert(parted(parts[0], parts[1]));
            written_front(rest);
            if rendered(rest[0]).len() > 0 {
                assert(tail[0] == rendered(rest[0])[0]);
            }
        }
        match parts[0] {
            Part::Fixed(text) => then_fixed(text, tail, rest),
            Part::Json(value) => then_json(value, tail, rest),
            Part::Curl(value) => then_curl(value, tail, rest),
            Part::Quoted(value) => then_quoted(value, tail, rest),
            Part::Html(value) => then_html(value, tail, rest),
        }
    }
}

// ---------------------------------------------------------------------------
// Calls of the model
// ---------------------------------------------------------------------------

/// The answer to a call of the model carries the whole picture: read as JSON, it
/// names the reply and the call as they were given, and its image is the
/// picture, every character of it.
pub proof fn pictures_are_sent_whole(
    previous: Seq<char>,
    call_id: Seq<char>,
    screenshot: Seq<char>,
)
    ensures
        reads(
            screen_payload(previous, call_id, screenshot),
            seq![
                Part::Fixed("{\"model\":\"gpt-5.5\",\"tools\":[{\"type\":\"computer\"}],\"previous_response_id\":"@),
                Part::Json(previous),
                Part::Fixed(",\"input\":[{\"type\":\"computer_call_output\",\"call_id\":"@),
                Part::Json(call_id),
                Part::Fixed(",\"output\":{\"type\":\"computer_screenshot\",\"image_url\":"@),
                Part::Json("data:image/png;base64,"@ + screenshot),
                Part::Fixed(",\"detail\":\"original\"}}],\"max_output_tokens\":512,\"store\":true}"@),
            ],
        ),
{
    let q0 = Seq::<Part>::empty();
    let q1 = q0.push(Part::Fixed("{\"model\":\"gpt-5.5\",\"tools\":[{\"type\":\"computer\"}],\"previous_response_id\":"@));
    written_push(q0, Part::Fixed("{\"model\":\"gpt-5.5\",\"tools\":[{\"type\":\"computer\"}],\"previous_response_id\":"@));
    let q2 = q1.push(Part::Json(previous));
    written_push(q1, Part::Json(previous));
    let q3 = q2.push(Part::Fixed(",\"input\":[{\"type\":\"computer_call_output\",\"call_id\":"@));
    written_push(q2, Part::Fixed(",\"input\":[{\"type\":\"computer_call_output\",\"call_id\":"@));
    let q4 = q3.push(Part::Json(call_id));
    written_push(q3, Part::Json(call_id));
    let q5 = q4.push(Part::Fixed(",\"output\":{\"type\":\"computer_screenshot\",\"image_url\":"@));
    written_push(q4, Part::Fixed(",\"output\":{\"type\":\"computer_screenshot\",\"image_url\":"@));
    let q6 = q5.push(Part::Json("data:image/png;base64,"@ + screenshot));
    written_push(q5, Part::Json("data:image/png;base64,"@ + screenshot));
    let q7 = q6.push(Part::Fixed(",\"detail\":\"original\"}}],\"max_output_tokens\":512,\"store\":true}"@));
    written_push(q6, Part::Fixed(",\"detail\":\"original\"}}],\"max_output_tokens\":512,\"store\":true}"@));
    assert(written(q0) + rendered(q1[0]) =~= rendered(q1[0]));
    assert(screen_payload(previous, call_id, screenshot) == written(q7));
    assert(q7 =~= seq![Part::Fixed("{\"model\":\"gpt-5.5\",\"tools\":[{\"type\":\"computer\"}],\"previous_response_id\":"@), Part::Json(previous), Part::Fixed(",\"input\":[{\"type\":\"computer_call_output\",\"call_id\":"@), Part::Json(call_id), Part::Fixed(",\"output\":{\"type\":\"computer_screenshot\",\"image_url\":"@), Part::Json("data:image/png;base64,"@ + screenshot), Part::Fixed(",\"detail\":\"original\"}}],\"max_output_tokens\":512,\"store\":true}"@)]);
    written_reads(q7);
}

/// What is left of a text after the given parts of it have been read.
proof fn json_string_is_unique(value: Seq<char>, other: Seq<char>, tail: Seq<char>)
    requires
        json_quoted(value) + tail == json_quoted(other) + tail,
    ensures
        value == other,
{
    json_round_trip(value, tail);
    json_round_trip(other, tail);
}

/// Different pictures make different answers.
pub proof fn different_pictures_make_different_answers(
    previous: Seq<char>,
    call_id: Seq<char>,
    screenshot: Seq<char>,
    other: Seq<char>,
)
    requires
        screen_payload(previous, call_id, screenshot) == screen_payload(previous, call_id, other),
    ensures
        screenshot == other,
{
    let head = "data:image/png;base64,"@;
    let a = screen_payload(previous, call_id, screenshot);
    let front = "{\"model\":\"gpt-5.5\",\"tools\":[{\"type\":\"computer\"}],\"previous_response_id\":"@ + json_quoted(previous)
        + ",\"input\":[{\"type\":\"computer_call_output\",\"call_id\":"@ + json_quoted(call_id)
        + ",\"output\":{\"type\":\"computer_screenshot\",\"image_url\":"@;
    let back = ",\"detail\":\"original\"}}],\"max_output_tokens\":512,\"store\":true}"@;
    let one = json_quoted(head + screenshot) + back;
    let two = json_quoted(head + other) + back;
    assert(a =~= front + one);
    assert(screen_payload(previous, call_id, other) =~= front + two);
    assert(one =~= a.skip(front.len() as int));
    assert(two =~= a.skip(front.len() as int));
    json_string_is_unique(head + screenshot, head + other, back);
    assert((head + screenshot).skip(head.len() as int) =~= screenshot);
    assert((head + other).skip(head.len() as int) =~= other);
}

/// The task that is set to the model ends with the prompt, all of it.
pub proof fn prompts_are_part_of_the_task(prompt: Seq<char>)
    ensures
        first_move(true, prompt) matches MoveModel::AskModel(_, payload, true) && reads(
            payload,
            seq![
                Part::Fixed("{\"model\":\"gpt-5.5\",\"tools\":[{\"type\":\"computer\"}],\"input\":"@),
                Part::Json(COMPUTER_TASK@ + prompt),
                Part::Fixed(",\"max_output_tokens\":512,\"store\":true}"@),
            ],
        ),
{
    match first_move(true, prompt) {
        MoveModel::AskModel(_, payload, _) => {
            let q0 = Seq::<Part>::empty();
            let q1 = q0.push(Part::Fixed("{\"model\":\"gpt-5.5\",\"tools\":[{\"type\":\"computer\"}],\"input\":"@));
            written_push(q0, Part::Fixed("{\"model\":\"gpt-5.5\",\"tools\":[{\"type\":\"computer\"}],\"input\":"@));
            let q2 = q1.push(Part::Json(COMPUTER_TASK@ + prompt));
            written_push(q1, Part::Json(COMPUTER_TASK@ + prompt));
            let q3 = q2.push(Part::Fixed(",\"max_output_tokens\":512,\"store\":true}"@));
            written_push(q2, Part::Fixed(",\"max_output_tokens\":512,\"store\":true}"@));
            assert(written(q0) + rendered(q1[0]) =~= rendered(q1[0]));
            assert(payload == written(q3));
            assert(q3 =~= seq![Part::Fixed("{\"model\":\"gpt-5.5\",\"tools\":[{\"type\":\"computer\"}],\"input\":"@), Part::Json(COMPUTER_TASK@ + prompt), Part::Fixed(",\"max_output_tokens\":512,\"store\":true}"@)]);
            written_reads(q3);
        },
        _ => {},
    }
}

/// The model that is set is asked under the name that was set; a blank setting
/// counts as none.
pub proof fn configured_models_are_asked(name: Seq<char>)
    ensures
        !blank(name) ==> model_name(Some(name)) == name,
        blank(name) ==> model_name(Some(name)) == "gpt-5.5"@,
        model_name(None) == "gpt-5.5"@,
{
    only_blank_text_is_cut_to_nothing(name);
}

/// What the agent sends to have a prompt classified holds the name of the model,
/// the instructions and the whole prompt, each as it was given.
pub proof fn agent_sends_the_whole_prompt(model: Seq<char>, prompt: Seq<char>)
    requires
        !blank(model),
    ensures
        agent::classification(true, Some(model), prompt) matches Ok(payload) && reads(
            payload,
            seq![
                Part::Fixed("{\"model\":"@),
                Part::Json(model),
                Part::Fixed(",\"instructions\":"@),
                Part::Json(agent::INSTRUCTIONS@),
                Part::Fixed(",\"input\":"@),
                Part::Json("요청: "@ + prompt),
                Part::Fixed(",\"reasoning\":{\"effort\":\"none\"},\"max_output_tokens\":64,\"store\":false}"@),
            ],
        ),
        agent::classification(false, Some(model), prompt) is Err,
{
    configured_models_are_asked(model);
    match agent::classification(true, Some(model), prompt) {
        Ok(payload) => {
            let q0 = Seq::<Part>::empty();
            let q1 = q0.push(Part::Fixed("{\"model\":"@));
            written_push(q0, Part::Fixed("{\"model\":"@));
            let q2 = q1.push(Part::Json(model));
            written_push(q1, Part::Json(model));
            let q3 = q2.push(Part::Fixed(",\"instructions\":"@));
            written_push(q2, Part::Fixed(",\"instructions\":"@));
            let q4 = q3.push(Part::Json(agent::INSTRUCTIONS@));
            written_push(q3, Part::Json(agent::INSTRUCTIONS@));
            let q5 = q4.push(Part::Fixed(",\"input\":"@));
            written_push(q4, Part::Fixed(",\"input\":"@));
            let q6 = q5.push(Part::Json("요청: "@ + prompt));
            written_push(q5, Part::Json("요청: "@ + prompt));
            let q7 = q6.push(Part::Fixed(",\"reasoning\":{\"effort\":\"none\"},\"max_output_tokens\":64,\"store\":false}"@));
            written_push(q6, Part::Fixed(",\"reasoning\":{\"effort\":\"none\"},\"max_output_tokens\":64,\"store\":false}"@));
            assert(written(q0) + rendered(q1[0]) =~= rendered(q1[0]));
            assert(payload == written(q7));
            assert(q7 =~= seq![Part::Fixed("{\"model\":"@), Part::Json(model), Part::Fixed(",\"instructions\":"@), Part::Json(agent::INSTRUCTIONS@), Part::Fixed(",\"input\":"@), Part::Json("요청: "@ + prompt), Part::Fixed(",\"reasoning\":{\"effort\":\"none\"},\"max_output_tokens\":64,\"store\":false}"@)]);
            written_reads(q7);
        },
        Err(_) => {},
    }
}

/// What the launcher sends to have a prompt classified holds the name of the model,
/// the instructions and the whole prompt, each as it was given.
pub proof fn launcher_sends_the_whole_prompt(model: Seq<char>, prompt: Seq<char>)
    requires
        !blank(model),
    ensures
        launcher::classification(true, Some(model), prompt) matches Ok(payload) && reads(
            payload,
            seq![
                Part::Fixed("{\"model\":"@),
                Part::Json(model),
                Part::Fixed(",\"instructions\":"@),
                Part::Json(launcher::INSTRUCTIONS@),
                Part::Fixed(",\"input\":"@),
                Part::Json("요청: "@ + prompt),
                Part::Fixed(",\"reasoning\":{\"effort\":\"none\"},\"max_output_tokens\":64,\"store\":false}"@),
            ],
        ),
        launcher::classification(false, Some(model), prompt) is Err,
{
    configured_models_are_asked(model);
    match launcher::classification(true, Some(model), prompt) {
        Ok(payload) => {
            let q0 = Seq::<Part>::empty();
            let q1 = q0.push(Part::Fixed("{\"model\":"@));
            written_push(q0, Part::Fixed("{\"model\":"@));
            let q2 = q1.push(Part::Json(model));
            written_push(q1, Part::Json(model));
            let q3 = q2.push(Part::Fixed(",\"instructions\":"@));
            written_push(q2, Part::Fixed(",\"instructions\":"@));
            let q4 = q3.push(Part::Json(launcher::INSTRUCTIONS@));
            written_push(q3, Part::Json(launcher::INSTRUCTIONS@));
            let q5 = q4.push(Part::Fixed(",\"input\":"@));
            written_push(q4, Part::Fixed(",\"input\":"@));
            let q6 = q5.push(Part::Json("요청: "@ + prompt));
            written_push(q5, Part::Json("요청: "@ + prompt));
            let q7 = q6.push(Part::Fixed(",\"reasoning\":{\"effort\":\"none\"},\"max_output_tokens\":64,\"store\":false}"@));
            written_push(q6, Part::Fixed(",\"reasoning\":{\"effort\":\"none\"},\"max_output_tokens\":64,\"store\":false}"@));
            assert(written(q0) + rendered(q1[0]) =~= rendered(q1[0]));
            assert(payload == written(q7));
            assert(q7 =~= seq![Part::Fixed("{\"model\":"@), Part::Json(model), Part::Fixed(",\"instructions\":"@), Part::Json(launcher::INSTRUCTIONS@), Part::Fixed(",\"input\":"@), Part::Json("요청: "@ + prompt), Part::Fixed(",\"reasoning\":{\"effort\":\"none\"},\"max_output_tokens\":64,\"store\":false}"@)]);
            written_reads(q7);
        },
        Err(_) => {},
    }
}

/// The configuration of a call gives `curl` the whole key and the path of the
/// payload, each as it was given.
pub proof fn calls_are_configured(seconds: Seq<char>, api_key: Seq<char>, payload_path: Seq<char>)
    ensures
        ({
            let start = "silent\nshow-error\nmax-time = \""@ + seconds
                + "\"\nurl = \"https://api.openai.com/v1/responses\"\nheader = "@;
            reads(
                call_config(seconds, api_key, payload_path),
                seq![
                    Part::Fixed(start),
                    Part::Curl("Authorization: Bearer "@ + api_key),
                    Part::Fixed("\nheader = \"Content-Type: application/json\"\ndata-binary = "@),
                    Part::Curl("@"@ + payload_path),
                    Part::Fixed("\nwrite-out = \"\\n__HTTP_STATUS__:%{http_code}\"\n"@),
                ],
            )
        }),
        call_arguments(api_key).len() == 12,
        call_arguments(api_key)[5] == "Authorization: Bearer "@ + api_key,
{
    let start = "silent\nshow-error\nmax-time = \""@ + seconds
        + "\"\nurl = \"https://api.openai.com/v1/responses\"\nheader = "@;
    let q0 = Seq::<Part>::empty();
    let q1 = q0.push(Part::Fixed(start));
    written_push(q0, Part::Fixed(start));
    let q2 = q1.push(Part::Curl("Authorization: Bearer "@ + api_key));
    written_push(q1, Part::Curl("Authorization: Bearer "@ + api_key));
    let q3 = q2.push(Part::Fixed("\nheader = \"Content-Type: application/json\"\ndata-binary = "@));
    written_push(q2, Part::Fixed("\nheader = \"Content-Type: application/json\"\ndata-binary = "@));
    let q4 = q3.push(Part::Curl("@"@ + payload_path));
    written_push(q3, Part::Curl("@"@ + payload_path));
    let q5 = q4.push(Part::Fixed("\nwrite-out = \"\\n__HTTP_STATUS__:%{http_code}\"\n"@));
    written_push(q4, Part::Fixed("\nwrite-out = \"\\n__HTTP_STATUS__:%{http_code}\"\n"@));
    assert(written(q0) + rendered(q1[0]) =~= rendered(q1[0]));
    assert(call_config(seconds, api_key, payload_path) == written(q5));
    assert(q5 =~= seq![Part::Fixed(start), Part::Curl("Authorization: Bearer "@ + api_key), Part::Fixed("\nheader = \"Content-Type: application/json\"\ndata-binary = "@), Part::Curl("@"@ + payload_path), Part::Fixed("\nwrite-out = \"\\n__HTTP_STATUS__:%{http_code}\"\n"@)]);
    written_reads(q5);
}

} // verus!
