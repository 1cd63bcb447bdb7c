//! Laws about the computer: its keys and mouse, what is made of a list of
//! actions, how a run of the model goes on, and what comes of other programs.
use vstd::prelude::*;
use vstd::utf8::encode_utf8;

use crate::computer::{
    action_log, after_actions, after_actions_done, after_call, after_capture, after_look,
    after_model, after_response_id, after_second_look, first_move, MoveModel, RunModel,
};
use crate::device::{
    click_command, key_codes, key_command, keys_down, keys_up, line_steps, move_command, pause_of,
    plan_of, step_after, type_command, virtual_key, PlanModel, PlanStepModel, StepModel,
};
use crate::encoding_laws::utf8_round_trip;
use crate::gateway::agent_outcome;
use crate::number::{all_digits, decimal, signed_decimal, value_of};
use crate::openai::screen_payload;
use crate::process::{
    base64_outcome, first_value, jq_outcome, marked_reply, openai_outcome, powershell_outcome,
    ProcessOutput, ProcessRun, Stage,
};
use crate::reading_laws::{decimal_round_trip, signed_round_trip};
use crate::text::{lines_of, trimmed, upper, white, with_replaced};
use crate::text_laws::{
    blank, digits_are_read, holds, joined, last_place_is_found, missing_words_have_no_place,
    only_blank_text_is_cut_to_nothing, splitting_undoes_joining, tight, trimming_leaves_the_text,
};

verus! {

// ---------------------------------------------------------------------------
// Numbers
// ---------------------------------------------------------------------------

/// A number is written in decimal, digit by digit and without leading zeros.
pub proof fn numbers_are_written_by_tens(n: nat, d: nat)
    requires
        d < 10,
    ensures
        decimal(d).len() == 1,
        decimal(d)[0] as int == 48 + d,
        n > 0 ==> decimal(10 * n + d) == decimal(n) + decimal(d),
        n > 0 ==> signed_decimal(-(n as int)) == seq!['-'] + decimal(n),
        signed_decimal(n as int) == decimal(n),
{
    if n > 0 {
        assert((10 * n + d) / 10 == n && (10 * n + d) % 10 == d) by (nonlinear_arith)
            requires
                d < 10,
        ;
        assert(decimal(10 * n + d) =~= decimal(n) + decimal(d));
    }
}

// ---------------------------------------------------------------------------
// Keys
// ---------------------------------------------------------------------------

/// The names of the keys that have one, each with the code of the key.
pub open spec fn names_key(name: Seq<char>, code: u8) -> bool {
    ||| code == 91 && seq!["WIN"@, "WINDOWS"@, "META"@, "CMD"@, "COMMAND"@].contains(name)
    ||| code == 13 && seq!["ENTER"@, "RETURN"@].contains(name)
    ||| code == 27 && seq!["ESC"@, "ESCAPE"@].contains(name)
    ||| code == 9 && seq!["TAB"@].contains(name)
    ||| code == 32 && seq!["SPACE"@].contains(name)
    ||| code == 8 && seq!["BACKSPACE"@].contains(name)
    ||| code == 46 && seq!["DELETE"@, "DEL"@].contains(name)
    ||| code == 17 && seq!["CTRL"@, "CONTROL"@].contains(name)
    ||| code == 16 && seq!["SHIFT"@].contains(name)
    ||| code == 18 && seq!["ALT"@, "OPTION"@].contains(name)
    ||| code == 38 && seq!["UP"@, "ARROWUP"@].contains(name)
    ||| code == 40 && seq!["DOWN"@, "ARROWDOWN"@].contains(name)
    ||| code == 37 && seq!["LEFT"@, "ARROWLEFT"@].contains(name)
    ||| code == 39 && seq!["RIGHT"@, "ARROWRIGHT"@].contains(name)
}

proof fn key_names_differ()
    ensures
        "WIN"@.len() == 3,
        "WINDOWS"@.len() == 7,
        "META"@.len() == 4,
        "CMD"@.len() == 3,
        "COMMAND"@.len() == 7,
        "ENTER"@.len() == 5,
        "RETURN"@.len() == 6,
        "ESC"@.len() == 3,
        "ESCAPE"@.len() == 6,
        "TAB"@.len() == 3,
        "SPACE"@.len() == 5,
        "BACKSPACE"@.len() == 9,
        "DELETE"@.len() == 6,
        "DEL"@.len() == 3,
        "CTRL"@.len() == 4,
        "CONTROL"@.len() == 7,
        "SHIFT"@.len() == 5,
        "ALT"@.len() == 3,
        "OPTION"@.len() == 6,
        "UP"@.len() == 2,
        "ARROWUP"@.len() == 7,
        "DOWN"@.len() == 4,
        "ARROWDOWN"@.len() == 9,
        "LEFT"@.len() == 4,
        "ARROWLEFT"@.len() == 9,
        "RIGHT"@.len() == 5,
        "ARROWRIGHT"@.len() == 10,
        "WIN"@ != "ESC"@,
        "WIN"@ != "TAB"@,
        "WIN"@ != "DEL"@,
        "WIN"@ != "ALT"@,
        "WINDOWS"@ != "CONTROL"@,
        "WINDOWS"@ != "ARROWUP"@,
        "META"@ != "CTRL"@,
        "META"@ != "DOWN"@,
        "META"@ != "LEFT"@,
        "CMD"@ != "ESC"@,
        "CMD"@ != "TAB"@,
        "CMD"@ != "DEL"@,
        "CMD"@ != "ALT"@,
        "COMMAND"@ != "CONTROL"@,
        "COMMAND"@ != "ARROWUP"@,
        "ENTER"@ != "SPACE"@,
        "ENTER"@ != "SHIFT"@,
        "ENTER"@ != "RIGHT"@,
        "RETURN"@ != "ESCAPE"@,
        "RETURN"@ != "DELETE"@,
        "RETURN"@ != "OPTION"@,
        "ESC"@ != "TAB"@,
        "ESC"@ != "DEL"@,
        "ESC"@ != "ALT"@,
        "ESCAPE"@ != "DELETE"@,
        "ESCAPE"@ != "OPTION"@,
        "TAB"@ != "DEL"@,
        "TAB"@ != "ALT"@,
        "SPACE"@ != "SHIFT"@,
        "SPACE"@ != "RIGHT"@,
        "BACKSPACE"@ != "ARROWDOWN"@,
        "BACKSPACE"@ != "ARROWLEFT"@,
        "DELETE"@ != "OPTION"@,
        "DEL"@ != "ALT"@,
        "CTRL"@ != "DOWN"@,
        "CTRL"@ != "LEFT"@,
        "CONTROL"@ != "ARROWUP"@,
        "SHIFT"@ != "RIGHT"@,
        "DOWN"@ != "LEFT"@,
        "ARROWDOWN"@ != "ARROWLEFT"@,
{
    reveal_strlit("WIN");
    reveal_strlit("WINDOWS");
    reveal_strlit("META");
    reveal_strlit("CMD");
    reveal_strlit("COMMAND");
    reveal_strlit("ENTER");
    reveal_strlit("RETURN");
    reveal_strlit("ESC");
    reveal_strlit("ESCAPE");
    reveal_strlit("TAB");
    reveal_strlit("SPACE");
    reveal_strlit("BACKSPACE");
    reveal_strlit("DELETE");
    reveal_strlit("DEL");
    reveal_strlit("CTRL");
    reveal_strlit("CONTROL");
    reveal_strlit("SHIFT");
    reveal_strlit("ALT");
    reveal_strlit("OPTION");
    reveal_strlit("UP");
    reveal_strlit("ARROWUP");
    reveal_strlit("DOWN");
    reveal_strlit("ARROWDOWN");
    reveal_strlit("LEFT");
    reveal_strlit("ARROWLEFT");
    reveal_strlit("RIGHT");
    reveal_strlit("ARROWRIGHT");
    assert("WIN"@[0] != "ESC"@[0]);
    assert("WIN"@[0] != "TAB"@[0]);
    assert("WIN"@[0] != "DEL"@[0]);
    assert("WIN"@[0] != "ALT"@[0]);
    assert("WINDOWS"@[0] != "CONTROL"@[0]);
    assert("WINDOWS"@[0] != "ARROWUP"@[0]);
    assert("META"@[0] != "CTRL"@[0]);
    assert("META"@[0] != "DOWN"@[0]);
    assert("META"@[0] != "LEFT"@[0]);
    assert("CMD"@[0] != "ESC"@[0]);
    assert("CMD"@[0] != "TAB"@[0]);
    assert("CMD"@[0] != "DEL"@[0]);
    assert("CMD"@[0] != "ALT"@[0]);
    assert("COMMAND"@[2] != "CONTROL"@[2]);
    assert("COMMAND"@[0] != "ARROWUP"@[0]);
    assert("ENTER"@[0] != "SPACE"@[0]);
    assert("ENTER"@[0] != "SHIFT"@[0]);
    assert("ENTER"@[0] != "RIGHT"@[0]);
    assert("RETURN"@[0] != "ESCAPE"@[0]);
    assert("RETURN"@[0] != "DELETE"@[0]);
    assert("RETURN"@[0] != "OPTION"@[0]);
    assert("ESC"@[0] != "TAB"@[0]);
    assert("ESC"@[0] != "DEL"@[0]);
    assert("ESC"@[0] != "ALT"@[0]);
    assert("ESCAPE"@[0] != "DELETE"@[0]);
    assert("ESCAPE"@[0] != "OPTION"@[0]);
    assert("TAB"@[0] != "DEL"@[0]);
    assert("TAB"@[0] != "ALT"@[0]);
    assert("SPACE"@[1] != "SHIFT"@[1]);
    assert("SPACE"@[0] != "RIGHT"@[0]);
    assert("BACKSPACE"@[0] != "ARROWDOWN"@[0]);
    assert("BACKSPACE"@[0] != "ARROWLEFT"@[0]);
    assert("DELETE"@[0] != "OPTION"@[0]);
    assert("DEL"@[0] != "ALT"@[0]);
    assert("CTRL"@[0] != "DOWN"@[0]);
    assert("CTRL"@[0] != "LEFT"@[0]);
    assert("CONTROL"@[0] != "ARROWUP"@[0]);
    assert("SHIFT"@[0] != "RIGHT"@[0]);
    assert("DOWN"@[0] != "LEFT"@[0]);
    assert("ARROWDOWN"@[5] != "ARROWLEFT"@[5]);
}

proof fn listed_name(name: Seq<char>)
    ensures
        forall|code: u8| #[trigger]
            names_key(name, code) <==> crate::device::named_key(name) == Some(code),
        crate::device::named_key(name) is Some ==> name.len() > 1,
{
    key_names_differ();
    let s91 = seq!["WIN"@, "WINDOWS"@, "META"@, "CMD"@, "COMMAND"@];
    assert(s91[0] == "WIN"@ && s91[1] == "WINDOWS"@ && s91[2] == "META"@ && s91[3] == "CMD"@ && s91[4] == "COMMAND"@);
    let s13 = seq!["ENTER"@, "RETURN"@];
    assert(s13[0] == "ENTER"@ && s13[1] == "RETURN"@);
    let s27 = seq!["ESC"@, "ESCAPE"@];
    assert(s27[0] == "ESC"@ && s27[1] == "ESCAPE"@);
    let s9 = seq!["TAB"@];
    assert(s9[0] == "TAB"@);
    let s32 = seq!["SPACE"@];
    assert(s32[0] == "SPACE"@);
    let s8 = seq!["BACKSPACE"@];
    assert(s8[0] == "BACKSPACE"@);
    let s46 = seq!["DELETE"@, "DEL"@];
    assert(s46[0] == "DELETE"@ && s46[1] == "DEL"@);
    let s17 = seq!["CTRL"@, "CONTROL"@];
    assert(s17[0] == "CTRL"@ && s17[1] == "CONTROL"@);
    let s16 = seq!["SHIFT"@];
    assert(s16[0] == "SHIFT"@);
    let s18 = seq!["ALT"@, "OPTION"@];
    assert(s18[0] == "ALT"@ && s18[1] == "OPTION"@);
    let s38 = seq!["UP"@, "ARROWUP"@];
    assert(s38[0] == "UP"@ && s38[1] == "ARROWUP"@);
    let s40 = seq!["DOWN"@, "ARROWDOWN"@];
    assert(s40[0] == "DOWN"@ && s40[1] == "ARROWDOWN"@);
    let s37 = seq!["LEFT"@, "ARROWLEFT"@];
    assert(s37[0] == "LEFT"@ && s37[1] == "ARROWLEFT"@);
    let s39 = seq!["RIGHT"@, "ARROWRIGHT"@];
    assert(s39[0] == "RIGHT"@ && s39[1] == "ARROWRIGHT"@);
}

/// A key is found by its name, in any letter case. A single character of ASCII
/// stands for its own key, a letter for that of the capital; nothing else is a
/// key.
pub proof fn keys_are_found(key: Seq<char>, code: u8)
    ensures
        names_key(upper(key), code) ==> virtual_key(key) == Some(code),
        key.len() == 1 && 97 <= key[0] as int <= 122 ==> virtual_key(key) == Some(
            (key[0] as int - 32) as u8,
        ),
        key.len() == 1 && key[0] as int <= 127 && !(97 <= key[0] as int <= 122) ==> virtual_key(key)
            == Some(key[0] as u8),
        virtual_key(key) == Some(code) ==> names_key(upper(key), code) || (key.len() == 1
            && key[0] as int <= 127),
{
    listed_name(upper(key));
    crate::text_laws::only_ascii_letters_change_case(key);
    if key.len() == 1 {
        assert(upper(key)[0] as int == if 97 <= key[0] as int <= 122 {
            key[0] as int - 32
        } else {
            key[0] as int
        });
    }
}

/// Keys are read one by one, without the white space around them; one that is no
/// key is left out.
pub proof fn keys_are_read_in_order(
    keys: Seq<Seq<char>>,
    front: Seq<char>,
    key: Seq<char>,
    back: Seq<char>,
)
    requires
        blank(front),
        blank(back),
        tight(key),
    ensures
        key_codes(Seq::<Seq<char>>::empty()).len() == 0,
        virtual_key(key) matches Some(code) ==> key_codes(keys.push(front + key + back))
            == key_codes(keys).push(code),
        virtual_key(key) is None ==> key_codes(keys.push(front + key + back)) == key_codes(keys),
{
    trimming_leaves_the_text(front, key, back);
    assert(keys.push(front + key + back).drop_last() =~= keys);
}

/// Keys are pressed in their order, and let go in the opposite order.
pub proof fn keys_are_let_go_in_reverse(codes: Seq<u8>, code: u8)
    ensures
        keys_down(Seq::<u8>::empty()).len() == 0,
        keys_up(Seq::<u8>::empty()).len() == 0,
        keys_down(codes.push(code)) == keys_down(codes) + ("[K]::keybd_event("@ + decimal(
            code as nat,
        ) + ",0,0,0);"@),
        keys_up(codes.push(code)) == ("[K]::keybd_event("@ + decimal(code as nat) + ",0,2,0);"@)
            + keys_up(codes),
{
    let down = |c: u8| crate::device::key_event(c, "0"@);
    let up = |c: u8| crate::device::key_event(c, "2"@);
    codes.lemma_flat_map_push(down, code);
    reveal_strlit(",0,");
    reveal_strlit("0");
    reveal_strlit("2");
    reveal_strlit(",0);");
    reveal_strlit(",0,0,0);");
    reveal_strlit(",0,2,0);");
    assert(",0,"@ + "0"@ + ",0);"@ =~= ",0,0,0);"@);
    assert(",0,"@ + "2"@ + ",0);"@ =~= ",0,2,0);"@);
    let start = "[K]::keybd_event("@ + decimal(code as nat);
    assert(start + ",0,"@ + "0"@ + ",0);"@ =~= start + (",0,"@ + "0"@ + ",0);"@));
    assert(start + ",0,"@ + "2"@ + ",0);"@ =~= start + (",0,"@ + "2"@ + ",0);"@));
    let order = codes.push(code).reverse();
    assert(order[0] == code);
    assert(order.skip(1) =~= codes.reverse());
    crate::encoding_laws::flat_map_front(order, up);
    let none = Seq::<u8>::empty();
    assert(none.reverse() =~= none);
    assert(none.map_values(down) =~= Seq::empty());
    assert(none.map_values(up) =~= Seq::empty());
}

/// A combination of keys with plus signs between them presses them all, waits,
/// and lets them all go; one without any key is an error that repeats it.
pub proof fn combinations_are_pressed(keys: Seq<Seq<char>>)
    requires
        keys.len() > 0,
        forall|i: int| 0 <= i < keys.len() ==> !(#[trigger] keys[i]).contains('+'),
    ensures
        key_codes(keys).len() > 0 ==> (key_command(joined(keys, '+')) matches Ok(command) && command
            == "Add-Type @'\nusing System; using System.Runtime.InteropServices; public class K { [DllImport(\"user32.dll\")] public static extern void keybd_event(byte bVk, byte bScan, int dwFlags, int dwExtraInfo); }\n'@; "@
            + keys_down(key_codes(keys)) + " Start-Sleep -Milliseconds 80; "@ + keys_up(
            key_codes(keys),
        )),
        key_codes(keys).len() == 0 ==> (key_command(joined(keys, '+')) matches Err(e) && e
            == "keypress 키를 해석하지 못했습니다: "@ + joined(keys, '+')),
{
    splitting_undoes_joining(keys, '+');
}

// ---------------------------------------------------------------------------
// Action lines
// ---------------------------------------------------------------------------

/// Whether one command is run, with the pause after it.
pub open spec fn runs(
    steps: Result<Seq<StepModel>, Seq<char>>,
    command: Seq<char>,
    pause_ms: int,
) -> bool {
    steps matches Ok(list) && list.len() == 1 && list[0].command == Some(command)
        && list[0].pause_ms == pause_ms
}

/// Whether the same becomes of a line as of a command that may fail.
pub open spec fn follows_command(
    steps: Result<Seq<StepModel>, Seq<char>>,
    command: Result<Seq<char>, Seq<char>>,
) -> bool {
    match command {
        Ok(text) => runs(steps, text, 400),
        Err(e) => steps matches Err(f) && f == e,
    }
}

proof fn line_of_fields(fields: Seq<Seq<char>>)
    requires
        fields.len() > 0,
        forall|i: int| 0 <= i < fields.len() ==> !(#[trigger] fields[i]).contains('\t'),
    ensures
        crate::text::pieces(joined(fields, '\t'), '\t') == fields,
        fields[0].len() > 0 && !white(fields[0][0]) ==> trimmed(joined(fields, '\t')).len() > 0,
{
    let line = joined(fields, '\t');
    splitting_undoes_joining(fields, '\t');
    only_blank_text_is_cut_to_nothing(line);
    if fields[0].len() > 0 && !white(fields[0][0]) {
        assert(line[0] == fields[0][0]);
    }
}

/// The kinds of actions that are known.
pub open spec fn known_kind(kind: Seq<char>) -> bool {
    seq![
        "screenshot"@,
        "wait"@,
        "keypress"@,
        "type"@,
        "click"@,
        "double_click"@,
        "move"@,
    ].contains(kind)
}

proof fn kinds_differ()
    ensures
        "screenshot"@.len() == 10 && "screenshot"@[0] == 's',
        "wait"@.len() == 4 && "wait"@[0] == 'w',
        "keypress"@.len() == 8 && "keypress"@[0] == 'k',
        "type"@.len() == 4 && "type"@[0] == 't',
        "click"@.len() == 5 && "click"@[0] == 'c',
        "double_click"@.len() == 12 && "double_click"@[0] == 'd',
        "move"@.len() == 4 && "move"@[0] == 'm',
{
    reveal_strlit("screenshot");
    reveal_strlit("wait");
    reveal_strlit("keypress");
    reveal_strlit("type");
    reveal_strlit("click");
    reveal_strlit("double_click");
    reveal_strlit("move");
}

/// A line of fields with tabs between them is carried out by its kind: keys are
/// pressed and text is typed whole, and the mouse goes to the point that is
/// named. Taking a picture needs nothing, and waiting runs nothing.
pub proof fn action_lines_are_carried_out(fields: Seq<Seq<char>>, x: i32, y: i32)
    requires
        fields.len() > 0,
        forall|i: int| 0 <= i < fields.len() ==> !(#[trigger] fields[i]).contains('\t'),
    ensures
        ({
            let line = joined(fields, '\t');
            let at_point = fields.len() >= 3 && fields[1] == signed_decimal(x as int) && fields[2]
                == signed_decimal(y as int);
            &&& fields[0] == "screenshot"@ ==> (line_steps(line) matches Ok(list) && list.len()
                == 0)
            &&& fields[0] == "wait"@ ==> (line_steps(line) matches Ok(list) && list.len() == 1
                && list[0].command is None && list[0].pause_ms == 800)
            &&& fields[0] == "keypress"@ && fields.len() >= 2 ==> follows_command(
                line_steps(line),
                key_command(fields[1]),
            )
            &&& fields[0] == "type"@ && fields.len() >= 2 ==> follows_command(
                line_steps(line),
                type_command(fields[1]),
            )
            &&& fields[0] == "click"@ && at_point ==> runs(
                line_steps(line),
                "Add-Type @'\nusing System; using System.Runtime.InteropServices; public class M { [DllImport(\"user32.dll\")] public static extern bool SetCursorPos(int X, int Y); [DllImport(\"user32.dll\")] public static extern void mouse_event(int dwFlags, int dx, int dy, int dwData, int dwExtraInfo); }\n'@; [M]::SetCursorPos("@
                    + signed_decimal(x as int) + ","@ + signed_decimal(y as int)
                    + ") | Out-Null; for ($i=0; $i -lt 1; $i++) { [M]::mouse_event(2,0,0,0,0); Start-Sleep -Milliseconds 60; [M]::mouse_event(4,0,0,0,0); Start-Sleep -Milliseconds 120; }"@,
                400,
            )
            &&& fields[0] == "double_click"@ && at_point ==> runs(
                line_steps(line),
                "Add-Type @'\nusing System; using System.Runtime.InteropServices; public class M { [DllImport(\"user32.dll\")] public static extern bool SetCursorPos(int X, int Y); [DllImport(\"user32.dll\")] public static extern void mouse_event(int dwFlags, int dx, int dy, int dwData, int dwExtraInfo); }\n'@; [M]::SetCursorPos("@
                    + signed_decimal(x as int) + ","@ + signed_decimal(y as int)
                    + ") | Out-Null; for ($i=0; $i -lt 2; $i++) { [M]::mouse_event(2,0,0,0,0); Start-Sleep -Milliseconds 60; [M]::mouse_event(4,0,0,0,0); Start-Sleep -Milliseconds 120; }"@,
                400,
            )
            &&& fields[0] == "move"@ && at_point ==> runs(
                line_steps(line),
                "Add-Type @'\nusing System; using System.Runtime.InteropServices; public class M { [DllImport(\"user32.dll\")] public static extern bool SetCursorPos(int X, int Y); }\n'@; [M]::SetCursorPos("@
                    + signed_decimal(x as int) + ","@ + signed_decimal(y as int)
                    + ") | Out-Null"@,
                0,
            )
            &&& fields[0].len() > 0 && !white(fields[0][0]) && !known_kind(fields[0]) ==> (
            line_steps(line) matches Err(e) && e == "지원하지 않는 computer action: "@ + fields[0])
            &&& fields.len() == 1 && (fields[0] == "click"@ || fields[0] == "double_click"@
                || fields[0] == "move"@) ==> line_steps(line) == line_steps(
                joined(seq![fields[0], "0"@, "0"@], '\t'),
            )
        }),
{
    let line = joined(fields, '\t');
    line_of_fields(fields);
    kinds_differ();
    signed_round_trip(x);
    signed_round_trip(y);
    let kinds = seq![
        "screenshot"@,
        "wait"@,
        "keypress"@,
        "type"@,
        "click"@,
        "double_click"@,
        "move"@,
    ];
    assert(kinds[0] == "screenshot"@ && kinds[1] == "wait"@ && kinds[2] == "keypress"@ && kinds[3]
        == "type"@ && kinds[4] == "click"@ && kinds[5] == "double_click"@ && kinds[6] == "move"@);
    click_text(x as int, y as int);
    reveal_strlit("0");
    let zeros = seq![fields[0], "0"@, "0"@];
    assert forall|i: int| 0 <= i < zeros.len() implies !(#[trigger] zeros[i]).contains('\t') by {
        assert(!fields[0].contains('\t'));
    }
    line_of_fields(zeros);
    assert("0"@ =~= signed_decimal(0));
    signed_round_trip(0);
    let none = Seq::<char>::empty();
    assert(crate::number::read_signed(none) is None);
}

proof fn click_text(x: int, y: int)
    ensures
        click_command(x, y, false) == "Add-Type @'\nusing System; using System.Runtime.InteropServices; public class M { [DllImport(\"user32.dll\")] public static extern bool SetCursorPos(int X, int Y); [DllImport(\"user32.dll\")] public static extern void mouse_event(int dwFlags, int dx, int dy, int dwData, int dwExtraInfo); }\n'@; [M]::SetCursorPos("@
            + signed_decimal(x) + ","@ + signed_decimal(y)
            + ") | Out-Null; for ($i=0; $i -lt 1; $i++) { [M]::mouse_event(2,0,0,0,0); Start-Sleep -Milliseconds 60; [M]::mouse_event(4,0,0,0,0); Start-Sleep -Milliseconds 120; }"@,
        click_command(x, y, true) == "Add-Type @'\nusing System; using System.Runtime.InteropServices; public class M { [DllImport(\"user32.dll\")] public static extern bool SetCursorPos(int X, int Y); [DllImport(\"user32.dll\")] public static extern void mouse_event(int dwFlags, int dx, int dy, int dwData, int dwExtraInfo); }\n'@; [M]::SetCursorPos("@
            + signed_decimal(x) + ","@ + signed_decimal(y)
            + ") | Out-Null; for ($i=0; $i -lt 2; $i++) { [M]::mouse_event(2,0,0,0,0); Start-Sleep -Milliseconds 60; [M]::mouse_event(4,0,0,0,0); Start-Sleep -Milliseconds 120; }"@,
        move_command(x, y) == "Add-Type @'\nusing System; using System.Runtime.InteropServices; public class M { [DllImport(\"user32.dll\")] public static extern bool SetCursorPos(int X, int Y); }\n'@; [M]::SetCursorPos("@
            + signed_decimal(x) + ","@ + signed_decimal(y) + ") | Out-Null"@,
{
    let first = ") | Out-Null; for ($i=0; $i -lt "@;
    let last = "; $i++) { [M]::mouse_event(2,0,0,0,0); Start-Sleep -Milliseconds 60; [M]::mouse_event(4,0,0,0,0); Start-Sleep -Milliseconds 120; }"@;
    let once = ") | Out-Null; for ($i=0; $i -lt 1; $i++) { [M]::mouse_event(2,0,0,0,0); Start-Sleep -Milliseconds 60; [M]::mouse_event(4,0,0,0,0); Start-Sleep -Milliseconds 120; }"@;
    let twice = ") | Out-Null; for ($i=0; $i -lt 2; $i++) { [M]::mouse_event(2,0,0,0,0); Start-Sleep -Milliseconds 60; [M]::mouse_event(4,0,0,0,0); Start-Sleep -Milliseconds 120; }"@;
    click_words();
    let class = "Add-Type @'\nusing System; using System.Runtime.InteropServices; public class M { [DllImport(\"user32.dll\")] public static extern bool SetCursorPos(int X, int Y); [DllImport(\"user32.dll\")] public static extern void mouse_event(int dwFlags, int dx, int dy, int dwData, int dwExtraInfo); }\n'@; [M]::SetCursorPos("@;
    let point = signed_decimal(x) + ","@ + signed_decimal(y);
    assert(class + point =~= class + signed_decimal(x) + ","@ + signed_decimal(y));
    assert(class + point + first + "1"@ + last =~= class + point + (first + "1"@ + last));
    assert(class + point + first + "2"@ + last =~= class + point + (first + "2"@ + last));
    let other = "Add-Type @'\nusing System; using System.Runtime.InteropServices; public class M { [DllImport(\"user32.dll\")] public static extern bool SetCursorPos(int X, int Y); }\n'@; [M]::SetCursorPos("@;
    assert(other + point =~= other + signed_decimal(x) + ","@ + signed_decimal(y));
}

proof fn click_words()
    ensures
        ") | Out-Null; for ($i=0; $i -lt "@ + "1"@
            + "; $i++) { [M]::mouse_event(2,0,0,0,0); Start-Sleep -Milliseconds 60; [M]::mouse_event(4,0,0,0,0); Start-Sleep -Milliseconds 120; }"@
            == ") | Out-Null; for ($i=0; $i -lt 1; $i++) { [M]::mouse_event(2,0,0,0,0); Start-Sleep -Milliseconds 60; [M]::mouse_event(4,0,0,0,0); Start-Sleep -Milliseconds 120; }"@,
        ") | Out-Null; for ($i=0; $i -lt "@ + "2"@
            + "; $i++) { [M]::mouse_event(2,0,0,0,0); Start-Sleep -Milliseconds 60; [M]::mouse_event(4,0,0,0,0); Start-Sleep -Milliseconds 120; }"@
            == ") | Out-Null; for ($i=0; $i -lt 2; $i++) { [M]::mouse_event(2,0,0,0,0); Start-Sleep -Milliseconds 60; [M]::mouse_event(4,0,0,0,0); Start-Sleep -Milliseconds 120; }"@,
{
    reveal_strlit(") | Out-Null; for ($i=0; $i -lt ");
    reveal_strlit("1");
    reveal_strlit("2");
    reveal_strlit("; $i++) { [M]::mouse_event(2,0,0,0,0); Start-Sleep -Milliseconds 60; [M]::mouse_event(4,0,0,0,0); Start-Sleep -Milliseconds 120; }");
    reveal_strlit(") | Out-Null; for ($i=0; $i -lt 1; $i++) { [M]::mouse_event(2,0,0,0,0); Start-Sleep -Milliseconds 60; [M]::mouse_event(4,0,0,0,0); Start-Sleep -Milliseconds 120; }");
    reveal_strlit(") | Out-Null; for ($i=0; $i -lt 2; $i++) { [M]::mouse_event(2,0,0,0,0); Start-Sleep -Milliseconds 60; [M]::mouse_event(4,0,0,0,0); Start-Sleep -Milliseconds 120; }");
}

/// A coordinate that is no number of 32 bits is zero.
pub proof fn other_coordinates_are_zero(s: Seq<char>)
    ensures
        !all_digits(s) && (s.len() == 0 || (s[0] != '+' && s[0] != '-'))
            ==> crate::device::coordinate(s) == 0,
        s.len() > 0 && all_digits(s) && value_of(s) > 0x7fff_ffff ==> crate::device::coordinate(s)
            == 0,
        s.len() == 0 ==> crate::device::coordinate(s) == 0,
{
    digits_are_read(s, 0x7fff_ffff);
    if s.len() > 0 && all_digits(s) {
        assert('0' <= s[0] <= '9');
    }
}

/// A blank line does nothing.
pub proof fn blank_lines_do_nothing(line: Seq<char>)
    requires
        blank(line),
    ensures
        line_steps(line) matches Ok(list) && list.len() == 0,
{
    only_blank_text_is_cut_to_nothing(line);
}

/// The steps of the first line come first, then those of the others; a line that
/// is in error stops the list.
pub proof fn lines_are_planned_in_order(line: Seq<char>, rest: Seq<Seq<char>>)
    ensures
        line_steps(line) matches Ok(steps) ==> plan_of(seq![line] + rest).steps == steps + plan_of(
            rest,
        ).steps && plan_of(seq![line] + rest).error == plan_of(rest).error,
        line_steps(line) matches Err(e) ==> plan_of(seq![line] + rest).steps.len() == 0 && plan_of(
            seq![line] + rest,
        ).error == Some(e),
        plan_of(Seq::empty()).steps.len() == 0,
        plan_of(Seq::empty()).error is None,
{
    assert((seq![line] + rest).skip(1) =~= rest);
}

/// A step is followed by the next, in order, until one fails; the pause after a
/// step is its own, and there is none after a step that failed.
pub proof fn steps_follow_in_order(plan: PlanModel, done: int, step: StepModel, e: Seq<char>)
    requires
        0 <= done,
    ensures
        done < plan.steps.len() ==> (step_after(plan, done, Ok(())) matches PlanStepModel::Run(next)
            && next == plan.steps[done]),
        done >= plan.steps.len() && plan.error is None ==> (step_after(
            plan,
            done,
            Ok(()),
        ) matches PlanStepModel::Finished(result) && result is Ok),
        done >= plan.steps.len() && plan.error == Some(e) ==> (step_after(
            plan,
            done,
            Ok(()),
        ) matches PlanStepModel::Finished(result) && result == Err::<(), Seq<char>>(e)),
        step_after(plan, done, Err(e)) matches PlanStepModel::Finished(result) && result == Err::<
            (),
            Seq<char>,
        >(e),
        pause_of(step, Ok(())) == step.pause_ms,
        pause_of(step, Err(e)) == 0,
{
}

// ---------------------------------------------------------------------------
// How a run goes on
// ---------------------------------------------------------------------------

/// Whether a line says nothing: it is blank, or it says `null`.
pub open spec fn says_nothing(line: Seq<char>) -> bool {
    blank(line) || exists|front: Seq<char>, back: Seq<char>|
        blank(front) && blank(back) && line == #[trigger] (front + "null"@ + back)
}

proof fn value_in(line: Seq<char>)
    ensures
        crate::process::holds_value(line) <==> !says_nothing(line),
{
    reveal_strlit("null");
    only_blank_text_is_cut_to_nothing(line);
    if !blank(line) {
        if says_nothing(line) {
            let (front, back) = choose|front: Seq<char>, back: Seq<char>|
                blank(front) && blank(back) && line == #[trigger] (front + "null"@ + back);
            trimming_leaves_the_text(front, "null"@, back);
        }
        if trimmed(line) == "null"@ {
            let (front, back) = crate::text_laws::text_is_trimmed_from(line);
            assert(line == front + "null"@ + back);
        }
    }
}

/// The first line that says something is taken, whole.
pub proof fn the_first_value_is_taken(
    skipped: Seq<Seq<char>>,
    line: Seq<char>,
    rest: Seq<Seq<char>>,
)
    requires
        forall|i: int| 0 <= i < skipped.len() ==> says_nothing(#[trigger] skipped[i]),
        !says_nothing(line),
    ensures
        first_value(skipped + (seq![line] + rest)) == Some(line),
        first_value(skipped) is None,
    decreases skipped.len(),
{
    let whole = skipped + (seq![line] + rest);
    if skipped.len() == 0 {
        value_in(line);
        assert(whole[0] == line);
    } else {
        let fewer = skipped.skip(1);
        assert forall|i: int| 0 <= i < fewer.len() implies says_nothing(#[trigger] fewer[i]) by {
            assert(fewer[i] == skipped[i + 1]);
        }
        value_in(skipped[0]);
        the_first_value_is_taken(fewer, line, rest);
        assert(whole[0] == skipped[0]);
        assert(whole.skip(1) =~= fewer + (seq![line] + rest));
    }
}

/// The log of a step names each action on a line of its own, in order, with
/// spaces for tabs.
pub proof fn actions_are_logged_in_order(step: nat, lines: Seq<Seq<char>>, line: Seq<char>)
    ensures
        action_log(step, Seq::empty()).len() == 0,
        action_log(step, lines.push(line)) == action_log(step, lines) + ("step="@ + decimal(step)
            + " action="@ + with_replaced(line, '\t', ' ') + "\n"@),
{
    let f = |line: Seq<char>|
        "step="@ + decimal(step) + " action="@ + with_replaced(line, '\t', ' ') + "\n"@;
    lines.lemma_flat_map_push(f, line);
    assert(Seq::<Seq<char>>::empty().map_values(f) =~= Seq::empty());
}

/// A run starts at its first step, and only with a key.
pub proof fn runs_start_at_the_first_step(prompt: Seq<char>)
    ensures
        first_move(true, prompt) matches MoveModel::AskModel(run, _, opening) && run.step == 1
            && run.log
            == "mode=OpenAI computer tool\nmodel=gpt-5.5\nstore=true (computer loop previous_response_id 필요)\n"@
            && opening,
        first_move(false, prompt) matches MoveModel::Finished(result) && result == Err::<
            Seq<char>,
            Seq<char>,
        >("OPENAI_API_KEY 환경변수가 로컬 agent에 없습니다."@),
{
}

/// A run goes on from each event as it should, with the reply, the call and the
/// picture that it has, whole; what fails ends it with its own error.
pub proof fn runs_go_on(
    run: RunModel,
    body: Seq<char>,
    call_id: Seq<char>,
    screenshot: Seq<char>,
    opening: bool,
    lines: Seq<Seq<char>>,
    id: Seq<char>,
    e: Seq<char>,
)
    requires
        run.step >= 0,
    ensures
        after_model(run, true, Ok(body)) == MoveModel::FindCall(run, body),
        after_model(run, false, Ok(body)) == MoveModel::LookAgain(run, body),
        after_model(run, opening, Err(e)) == MoveModel::Finished(Err(e)),
        first_value(lines) == Some(id) ==> after_call(run, body, Ok(lines))
            == MoveModel::FindActions(run, body, id),
        first_value(lines) is None ==> after_call(run, body, Ok(lines)) == MoveModel::Finished(
            Ok(
                run.log + "step="@ + decimal(run.step as nat)
                    + " computer_call 없음, 종료\n"@,
            ),
        ),
        after_call(run, body, Err(e)) == MoveModel::Finished(Err(e)),
        after_actions(run, body, call_id, Ok(lines)) matches MoveModel::Perform(next, b, c, l)
            && next.step == run.step && next.log == run.log + action_log(run.step as nat, lines)
            && b == body && c == call_id && l == lines,
        after_actions(run, body, call_id, Err(e)) == MoveModel::Finished(Err(e)),
        after_actions_done(run, body, call_id, Ok(())) == MoveModel::LookForExcel(
            run,
            body,
            call_id,
            1000,
        ),
        after_actions_done(run, body, call_id, Err(e)) == MoveModel::Finished(Err(e)),
        after_look(run, body, call_id, true) == MoveModel::Finished(
            Ok(run.log + "verify=EXCEL.EXE 감지됨\n"@),
        ),
        after_look(run, body, call_id, false) == MoveModel::Capture(run, body, call_id),
        after_capture(run, body, call_id, Ok(screenshot)) == MoveModel::FindResponseId(
            run,
            body,
            call_id,
            screenshot,
        ),
        after_capture(run, body, call_id, Err(e)) == MoveModel::Finished(Err(e)),
        first_value(lines) == Some(id) ==> after_response_id(run, call_id, screenshot, Ok(lines))
            == MoveModel::AskModel(run, screen_payload(id, call_id, screenshot), false),
        first_value(lines) is None ==> after_response_id(run, call_id, screenshot, Ok(lines))
            == MoveModel::Finished(Err("OpenAI response id를 찾지 못했습니다."@)),
        after_response_id(run, call_id, screenshot, Err(e)) == MoveModel::Finished(Err(e)),
        after_second_look(run, body, true) matches MoveModel::FindCall(next, b) && b == body
            && next.log == run.log + "verify=EXCEL.EXE 감지됨\n"@ && (run.step < u64::MAX
            ==> next.step == run.step + 1),
        after_second_look(run, body, false) matches MoveModel::FindCall(next, b) && b == body
            && next.log == run.log && (run.step < u64::MAX ==> next.step == run.step + 1),
{
}

// ---------------------------------------------------------------------------
// Other programs
// ---------------------------------------------------------------------------

/// What a program says is taken whole where it ends well.
pub proof fn programs_are_heard(output: ProcessOutput, said: Seq<char>, label: Seq<char>)
    requires
        output.success,
        output.stdout@ == encode_utf8(said),
    ensures
        powershell_outcome(ProcessRun::Finished(output)) is Ok,
        base64_outcome(ProcessRun::Finished(output)) == Ok::<Seq<char>, Seq<char>>(said),
        agent_outcome(ProcessRun::Finished(output)) == Ok::<Seq<char>, Seq<char>>(said),
        jq_outcome(ProcessRun::Finished(output)) matches Ok(lines) && lines == lines_of(said),
        openai_outcome(label, ProcessRun::Finished(output)) == marked_reply(said),
{
    utf8_round_trip(said);
}

/// What a program complains of is reported where it ends badly: all of it, or the
/// first 800 characters.
pub proof fn complaints_are_reported(
    output: ProcessOutput,
    said: Seq<char>,
    complained: Seq<char>,
    label: Seq<char>,
)
    requires
        !output.success,
        output.stdout@ == encode_utf8(said),
        output.stderr@ == encode_utf8(complained),
    ensures
        ({
            let shown = if complained.len() <= 800 {
                complained
            } else {
                complained.take(800) + "..."@
            };
            let shown_output = if said.len() <= 800 {
                said
            } else {
                said.take(800) + "..."@
            };
            let run = ProcessRun::Finished(output);
            &&& powershell_outcome(run) matches Err(e) && e == "powershell 실패: "@ + shown
            &&& base64_outcome(run) matches Err(e) && e == "base64 실패: "@ + shown
            &&& jq_outcome(run) matches Err(e) && e == "jq 실패: "@ + shown
            &&& openai_outcome(label, run) matches Err(e) && e == label + ": status="@
                + output.status@ + " stderr="@ + shown
            &&& agent_outcome(run) matches Err(e) && e == "agent HTTP 호출 실패: status="@
                + output.status@ + " stderr="@ + shown + " stdout="@ + shown_output
        }),
{
    utf8_round_trip(said);
    utf8_round_trip(complained);
}

/// A program that could not be run is reported by its name, with the reason.
pub proof fn failed_programs_are_reported(stage: Stage, reason: String, label: Seq<char>)
    ensures
        ({
            let run = ProcessRun::Failed(stage, reason);
            let how = match stage {
                Stage::Start => " 실행 실패: "@,
                Stage::Input => " stdin 쓰기 실패: "@,
                Stage::Wait => " 대기 실패: "@,
            };
            &&& powershell_outcome(run) matches Err(e) && e == "powershell.exe"@ + how + reason@
            &&& base64_outcome(run) matches Err(e) && e == "base64"@ + how + reason@
            &&& jq_outcome(run) matches Err(e) && e == "jq"@ + how + reason@
            &&& openai_outcome(label, run) matches Err(e) && e == "curl"@ + how + reason@
            &&& agent_outcome(run) matches Err(e) && e == "curl"@ + how + reason@
        }),
{
}

/// A reply of the model is what stands before the last mark of the status, whole,
/// where the status is a good one; otherwise the status and the reply are
/// reported.
pub proof fn replies_are_taken_whole(
    body: Seq<char>,
    front: Seq<char>,
    status: nat,
    back: Seq<char>,
    other: Seq<char>,
)
    requires
        status <= 65535,
        blank(front),
        blank(back),
        !holds(
            ("\n__HTTP_STATUS__:"@ + (front + decimal(status) + back)).skip(1),
            "\n__HTTP_STATUS__:"@,
        ),
        !holds(other, "\n__HTTP_STATUS__:"@),
    ensures
        ({
            let reply = marked_reply(
                body + ("\n__HTTP_STATUS__:"@ + (front + decimal(status) + back)),
            );
            let shown = if body.len() <= 1200 {
                body
            } else {
                body.take(1200) + "..."@
            };
            &&& 200 <= status < 300 ==> reply == Ok::<Seq<char>, Seq<char>>(body)
            &&& status < 200 || status >= 300 ==> (reply matches Err(e) && e == "OpenAI HTTP "@
                + decimal(status) + ": "@ + shown)
        }),
        other.len() <= 800 ==> (marked_reply(other) matches Err(e) && e
            == "OpenAI HTTP 상태를 읽지 못했습니다: "@ + other),
        other.len() > 800 ==> (marked_reply(other) matches Err(e) && e
            == "OpenAI HTTP 상태를 읽지 못했습니다: "@ + (other.take(800) + "..."@)),
{
    let mark = "\n__HTTP_STATUS__:"@;
    reveal_strlit("\n__HTTP_STATUS__:");
    let number = front + decimal(status) + back;
    let text = body + (mark + number);
    last_place_is_found(body, mark, number);
    missing_words_have_no_place(other, mark);
    assert(text.take(body.len() as int) =~= body);
    assert(text.skip((body.len() + mark.len()) as int) =~= number);
    decimal_round_trip(status, 65535);
    crate::reading_laws::decimal_value(status);
    let d = decimal(status);
    assert('0' <= d[0] <= '9' && '0' <= d[d.len() - 1] <= '9');
    trimming_leaves_the_text(front, d, back);
}

} // verus!
