//! Keyboard, mouse and screen: the actions that a model asks for, and the
//! PowerShell commands that carry them out.
use vstd::prelude::*;

use crate::escape::{powershell_quoted, powershell_single_quote};
use crate::number::{
    decimal, parse_signed, push_decimal, push_signed, read_signed, signed_decimal,
};
use crate::text::{
    chars_of, copy_text, optional, pieces, result_text, same_text, split, string_of, texts,
    to_upper, trim_text, trimmed, unit_text, upper,
};
use crate::windows::{unreachable_path, windows_path, wsl_to_windows_path};

verus! {

// ---------------------------------------------------------------------------
// The keyboard
// ---------------------------------------------------------------------------

/// The virtual-key code of a named key, in capitals.
pub open spec fn named_key(name: Seq<char>) -> Option<u8> {
    if name == "WIN"@ || name == "WINDOWS"@ || name == "META"@ || name == "CMD"@ || name
        == "COMMAND"@ {
        Some(0x5B)
    } else if name == "ENTER"@ || name == "RETURN"@ {
        Some(0x0D)
    } else if name == "ESC"@ || name == "ESCAPE"@ {
        Some(0x1B)
    } else if name == "TAB"@ {
        Some(0x09)
    } else if name == "SPACE"@ {
        Some(0x20)
    } else if name == "BACKSPACE"@ {
        Some(0x08)
    } else if name == "DELETE"@ || name == "DEL"@ {
        Some(0x2E)
    } else if name == "CTRL"@ || name == "CONTROL"@ {
        Some(0x11)
    } else if name == "SHIFT"@ {
        Some(0x10)
    } else if name == "ALT"@ || name == "OPTION"@ {
        Some(0x12)
    } else if name == "UP"@ || name == "ARROWUP"@ {
        Some(0x26)
    } else if name == "DOWN"@ || name == "ARROWDOWN"@ {
        Some(0x28)
    } else if name == "LEFT"@ || name == "ARROWLEFT"@ {
        Some(0x25)
    } else if name == "RIGHT"@ || name == "ARROWRIGHT"@ {
        Some(0x27)
    } else {
        None
    }
}

/// The virtual-key code of a key, named in any letter case. A key of one ASCII
/// character has the code of its capital.
pub open spec fn virtual_key(key: Seq<char>) -> Option<u8> {
    let name = upper(key);
    match named_key(name) {
        Some(code) => Some(code),
        None => if name.len() == 1 && name[0] <= '\u{7f}' {
            Some(name[0] as u8)
        } else {
            None
        },
    }
}

fn is_one_of(name: &str, first: &str, second: &str) -> (r: bool)
    ensures
        r == (name@ == first@ || name@ == second@),
{
    same_text(name, first) || same_text(name, second)
}

/// Looks up a named key.
fn find_named_key(name: &str) -> (r: Option<u8>)
    ensures
        r == named_key(name@),
{
    if is_one_of(name, "WIN", "WINDOWS") || is_one_of(name, "META", "CMD") || same_text(
        name,
        "COMMAND",
    ) {
        Some(0x5B)
    } else if is_one_of(name, "ENTER", "RETURN") {
        Some(0x0D)
    } else if is_one_of(name, "ESC", "ESCAPE") {
        Some(0x1B)
    } else if same_text(name, "TAB") {
        Some(0x09)
    } else if same_text(name, "SPACE") {
        Some(0x20)
    } else if same_text(name, "BACKSPACE") {
        Some(0x08)
    } else if is_one_of(name, "DELETE", "DEL") {
        Some(0x2E)
    } else if is_one_of(name, "CTRL", "CONTROL") {
        Some(0x11)
    } else if same_text(name, "SHIFT") {
        Some(0x10)
    } else if is_one_of(name, "ALT", "OPTION") {
        Some(0x12)
    } else if is_one_of(name, "UP", "ARROWUP") {
        Some(0x26)
    } else if is_one_of(name, "DOWN", "ARROWDOWN") {
        Some(0x28)
    } else if is_one_of(name, "LEFT", "ARROWLEFT") {
        Some(0x25)
    } else if is_one_of(name, "RIGHT", "ARROWRIGHT") {
        Some(0x27)
    } else {
        None
    }
}

/// The virtual-key code of a key.
pub fn key_to_vk(key: &str) -> (r: Option<u8>)
    ensures
        r == virtual_key(key@),
{
    let chars = chars_of(key);
    let capitals = to_upper(chars.as_slice());
    let name = string_of(capitals.as_slice());
    match find_named_key(name.as_str()) {
        Some(code) => Some(code),
        None => {
            if capitals.len() == 1 && capitals[0] <= '\u{7f}' {
                Some(capitals[0] as u8)
            } else {
                None
            }
        },
    }
}

/// The codes of the keys of a combination; unknown keys are left out.
pub open spec fn key_codes(keys: Seq<Seq<char>>) -> Seq<u8> {
    keys.filter_map(|key: Seq<char>| virtual_key(trimmed(key)))
}

/// The call that presses a key (`flags` is 0) or lets it go (`flags` is 2).
pub open spec fn key_event(code: u8, flags: Seq<char>) -> Seq<char> {
    "[K]::keybd_event("@ + decimal(code as nat) + ",0,"@ + flags + ",0);"@
}

/// Presses keys in the given order.
pub open spec fn keys_down(codes: Seq<u8>) -> Seq<char> {
    codes.flat_map(|code: u8| key_event(code, "0"@))
}

/// Lets keys go, the last one first.
pub open spec fn keys_up(codes: Seq<u8>) -> Seq<char> {
    codes.reverse().flat_map(|code: u8| key_event(code, "2"@))
}

/// Gives PowerShell the call that the key events use.
pub const KEY_CLASS: &'static str =
    "Add-Type @'\nusing System; using System.Runtime.InteropServices; public class K { [DllImport(\"user32.dll\")] public static extern void keybd_event(byte bVk, byte bScan, int dwFlags, int dwExtraInfo); }\n'@; ";

/// The command that presses a combination of keys and lets them go again, or
/// the report that none of the keys is known.
pub open spec fn key_command(keys: Seq<char>) -> Result<Seq<char>, Seq<char>> {
    let codes = key_codes(pieces(keys, '+'));
    if codes.len() == 0 {
        Err("keypress 키를 해석하지 못했습니다: "@ + keys)
    } else {
        Ok(KEY_CLASS@ + keys_down(codes) + " Start-Sleep -Milliseconds 80; "@ + keys_up(codes))
    }
}

/// Appends a key event.
fn push_key_event(out: &mut String, code: u8, flags: &str)
    ensures
        final(out)@ == old(out)@ + key_event(code, flags@),
{
    let mut event = copy_text("[K]::keybd_event(");
    push_decimal(&mut event, code as u128);
    event.append(",0,");
    event.append(flags);
    event.append(",0);");
    out.append(event.as_str());
}

/// Writes the events that press keys.
fn write_keys_down(codes: &[u8]) -> (r: String)
    ensures
        r@ == keys_down(codes@),
{
    let ghost f = |code: u8| key_event(code, "0"@);
    let mut out = String::new();
    let mut i: usize = 0;
    while i < codes.len()
        invariant
            i <= codes@.len(),
            f == (|code: u8| key_event(code, "0"@)),
            out@ == codes@.take(i as int).flat_map(f),
        decreases codes@.len() - i,
    {
        push_key_event(&mut out, codes[i], "0");
        proof {
            codes@.lemma_flat_map_take_append(f, i as int);
        }
        i += 1;
    }
    assert(codes@.take(i as int) =~= codes@);
    out
}

/// Writes the events that let keys go.
fn write_keys_up(codes: &[u8]) -> (r: String)
    ensures
        r@ == keys_up(codes@),
{
    let ghost f = |code: u8| key_event(code, "2"@);
    let ghost order = codes@.reverse();
    let mut out = String::new();
    let mut i: usize = 0;
    while i < codes.len()
        invariant
            i <= codes@.len(),
            order == codes@.reverse(),
            f == (|code: u8| key_event(code, "2"@)),
            out@ == order.take(i as int).flat_map(f),
        decreases codes@.len() - i,
    {
        push_key_event(&mut out, codes[codes.len() - 1 - i], "2");
        proof {
            order.lemma_flat_map_take_append(f, i as int);
        }
        i += 1;
    }
    assert(order.take(i as int) =~= order);
    out
}

/// Finds the codes of the keys of a combination.
fn find_key_codes(keys: &Vec<String>) -> (r: Vec<u8>)
    ensures
        r@ == key_codes(texts(keys@)),
{
    let ghost all = texts(keys@);
    let ghost f = |key: Seq<char>| virtual_key(trimmed(key));
    let mut out: Vec<u8> = Vec::new();
    let mut i: usize = 0;
    while i < keys.len()
        invariant
            i <= keys@.len(),
            all == texts(keys@),
            f == (|key: Seq<char>| virtual_key(trimmed(key))),
            out@ == all.take(i as int).filter_map(f),
        decreases keys@.len() - i,
    {
        let key = trim_text(keys[i].as_str());
        match key_to_vk(key.as_str()) {
            Some(code) => out.push(code),
            None => {},
        }
        proof {
            assert(key@ == trimmed(all[i as int]));
            all.lemma_filter_map_take_succ(f, i as int);
        }
        i += 1;
    }
    assert(all.take(i as int) =~= all);
    out
}

/// Writes the command that presses a combination of keys.
pub fn press_keys(keys: &str) -> (r: Result<String, String>)
    ensures
        result_text(r) == key_command(keys@),
{
    let chars = chars_of(keys);
    let names = split(chars.as_slice(), '+');
    let codes = find_key_codes(&names);
    if codes.len() == 0 {
        let mut out = copy_text("keypress 키를 해석하지 못했습니다: ");
        out.append(keys);
        Err(out)
    } else {
        let mut out = copy_text(KEY_CLASS);
        out.append(write_keys_down(codes.as_slice()).as_str());
        out.append(" Start-Sleep -Milliseconds 80; ");
        out.append(write_keys_up(codes.as_slice()).as_str());
        Ok(out)
    }
}

/// Whether a character may be typed.
pub open spec fn typeable(ch: char) -> bool {
    ||| 'A' <= ch <= 'Z'
    ||| 'a' <= ch <= 'z'
    ||| '0' <= ch <= '9'
    ||| ch == ' '
    ||| ch == '.'
    ||| ch == '-'
    ||| ch == '_'
    ||| ch == ':'
    ||| ch == '\\'
    ||| ch == '/'
}

fn is_typeable(ch: char) -> (r: bool)
    ensures
        r == typeable(ch),
{
    ('A' <= ch && ch <= 'Z') || ('a' <= ch && ch <= 'z') || ('0' <= ch && ch <= '9') || ch == ' '
        || ch == '.' || ch == '-' || ch == '_' || ch == ':' || ch == '\\' || ch == '/'
}

/// The part of a text that may be typed.
pub open spec fn typed(text: Seq<char>) -> Seq<char> {
    text.filter(|ch: char| typeable(ch))
}

/// What is said where nothing of a text may be typed.
pub const NOTHING_TO_TYPE: &'static str =
    "type action 텍스트가 비어 있거나 허용 문자가 아닙니다.";

/// The command that types what may be typed of a text.
pub open spec fn type_command(text: Seq<char>) -> Result<Seq<char>, Seq<char>> {
    if typed(text).len() == 0 {
        Err(NOTHING_TO_TYPE@)
    } else {
        Ok(
            "Add-Type -AssemblyName System.Windows.Forms; [System.Windows.Forms.SendKeys]::SendWait("@
                + powershell_quoted(typed(text)) + ")"@,
        )
    }
}

/// Writes the command that types a text.
pub fn type_text(text: &str) -> (r: Result<String, String>)
    ensures
        result_text(r) == type_command(text@),
{
    let ghost p = |ch: char| typeable(ch);
    let mut safe = String::new();
    for ch in it: text.chars()
        invariant
            it.seq() == text@,
            p == (|ch: char| typeable(ch)),
            safe@ == text@.take(it.index()).filter(p),
    {
        let ghost done = text@.take(it.index());
        if is_typeable(ch) {
            safe.push(ch);
        }
        proof {
            assert(text@.take(it.index() + 1) =~= done.push(ch));
            done.lemma_filter_push(ch, p);
        }
    }
    assert(text@.take(text@.len() as int) =~= text@);
    if safe.as_str().is_empty() {
        Err(copy_text(NOTHING_TO_TYPE))
    } else {
        let mut out = copy_text(
            "Add-Type -AssemblyName System.Windows.Forms; [System.Windows.Forms.SendKeys]::SendWait(",
        );
        out.append(powershell_single_quote(safe.as_str()).as_str());
        out.append(")");
        Ok(out)
    }
}

// ---------------------------------------------------------------------------
// The mouse
// ---------------------------------------------------------------------------

/// The arguments that name a point of the screen.
pub open spec fn point(x: int, y: int) -> Seq<char> {
    signed_decimal(x) + ","@ + signed_decimal(y)
}

fn write_point(x: i32, y: i32) -> (r: String)
    ensures
        r@ == point(x as int, y as int),
{
    let mut out = String::new();
    push_signed(&mut out, x);
    assert(out@ =~= signed_decimal(x as int));
    out.append(",");
    push_signed(&mut out, y);
    out
}

/// Gives PowerShell the call that moves the mouse; a point follows.
pub const MOVE_CLASS: &'static str =
    "Add-Type @'\nusing System; using System.Runtime.InteropServices; public class M { [DllImport(\"user32.dll\")] public static extern bool SetCursorPos(int X, int Y); }\n'@; [M]::SetCursorPos(";

/// Gives PowerShell the calls that move and click the mouse; a point follows.
pub const CLICK_CLASS: &'static str =
    "Add-Type @'\nusing System; using System.Runtime.InteropServices; public class M { [DllImport(\"user32.dll\")] public static extern bool SetCursorPos(int X, int Y); [DllImport(\"user32.dll\")] public static extern void mouse_event(int dwFlags, int dx, int dy, int dwData, int dwExtraInfo); }\n'@; [M]::SetCursorPos(";

/// The command that moves the mouse to a point.
pub open spec fn move_command(x: int, y: int) -> Seq<char> {
    MOVE_CLASS@ + point(x, y) + ") | Out-Null"@
}

/// The command that clicks at a point, once or twice.
pub open spec fn click_command(x: int, y: int, double_click: bool) -> Seq<char> {
    CLICK_CLASS@ + point(x, y) + ") | Out-Null; for ($i=0; $i -lt "@ + (if double_click {
        "2"@
    } else {
        "1"@
    })
        + "; $i++) { [M]::mouse_event(2,0,0,0,0); Start-Sleep -Milliseconds 60; [M]::mouse_event(4,0,0,0,0); Start-Sleep -Milliseconds 120; }"@
}

/// Writes the command that moves the mouse.
pub fn move_mouse(x: i32, y: i32) -> (r: String)
    ensures
        r@ == move_command(x as int, y as int),
{
    let mut out = copy_text(MOVE_CLASS);
    out.append(write_point(x, y).as_str());
    out.append(") | Out-Null");
    out
}

/// Writes the command that clicks.
pub fn click_mouse(x: i32, y: i32, double_click: bool) -> (r: String)
    ensures
        r@ == click_command(x as int, y as int, double_click),
{
    let mut out = copy_text(CLICK_CLASS);
    out.append(write_point(x, y).as_str());
    out.append(") | Out-Null; for ($i=0; $i -lt ");
    out.append(
        if double_click {
            "2"
        } else {
            "1"
        },
    );
    out.append(
        "; $i++) { [M]::mouse_event(2,0,0,0,0); Start-Sleep -Milliseconds 60; [M]::mouse_event(4,0,0,0,0); Start-Sleep -Milliseconds 120; }",
    );
    out
}

// ---------------------------------------------------------------------------
// The screen
// ---------------------------------------------------------------------------

/// The command that saves a picture of the screen; the path of the file stands
/// between its two parts.
pub const CAPTURE_START: &'static str =
    "Add-Type -AssemblyName System.Windows.Forms; Add-Type -AssemblyName System.Drawing; $b=[System.Windows.Forms.Screen]::PrimaryScreen.Bounds; $bmp=New-Object System.Drawing.Bitmap $b.Width,$b.Height; $g=[System.Drawing.Graphics]::FromImage($bmp); $g.CopyFromScreen($b.Location,[System.Drawing.Point]::Empty,$b.Size); $bmp.Save(";

/// See [`CAPTURE_START`].
pub const CAPTURE_END: &'static str =
    ",[System.Drawing.Imaging.ImageFormat]::Png); $g.Dispose(); $bmp.Dispose()";

/// The command that saves a picture of the screen at `path`; `shown` is the
/// path as shown to people.
pub open spec fn capture_command(path: Seq<char>, shown: Seq<char>) -> Result<
    Seq<char>,
    Seq<char>,
> {
    match windows_path(path) {
        Some(target) => Ok(CAPTURE_START@ + powershell_quoted(target) + CAPTURE_END@),
        None => Err(unreachable_path(shown)),
    }
}

/// Writes the command that saves a picture of the screen.
pub fn capture_windows_screenshot(path: &str, shown: &str) -> (r: Result<String, String>)
    ensures
        result_text(r) == capture_command(path@, shown@),
{
    match wsl_to_windows_path(path) {
        Some(target) => {
            let mut out = copy_text(CAPTURE_START);
            out.append(powershell_single_quote(target.as_str()).as_str());
            out.append(CAPTURE_END);
            Ok(out)
        },
        None => {
            let mut out = copy_text("Windows 경로 변환 실패: ");
            out.append(shown);
            Err(out)
        },
    }
}

/// The command that succeeds exactly while Excel is running.
pub const EXCEL_RUNNING_COMMAND: &'static str =
    "if (Get-Process -Name EXCEL -ErrorAction SilentlyContinue) { exit 0 } else { exit 1 }";

/// Lists the arguments of PowerShell to see whether Excel is running.
pub fn excel_process_seen() -> (r: Vec<String>)
    ensures
        texts(r@) == seq!["-NoProfile"@, "-Command"@, EXCEL_RUNNING_COMMAND@],
{
    let mut out: Vec<String> = Vec::new();
    out.push(copy_text("-NoProfile"));
    out.push(copy_text("-Command"));
    out.push(copy_text(EXCEL_RUNNING_COMMAND));
    assert(texts(out@) =~= seq!["-NoProfile"@, "-Command"@, EXCEL_RUNNING_COMMAND@]);
    out
}

// ---------------------------------------------------------------------------
// Actions
// ---------------------------------------------------------------------------

/// One thing to do: a command to run, if any, and how long to wait after it.
pub struct StepModel {
    pub command: Option<Seq<char>>,
    pub pause_ms: int,
}

/// One thing to do.
#[derive(Debug)]
pub struct DeviceStep {
    pub command: Option<String>,
    pub pause_ms: u64,
}

impl View for DeviceStep {
    type V = StepModel;

    open spec fn view(&self) -> StepModel {
        StepModel { command: optional(self.command), pause_ms: self.pause_ms as int }
    }
}

/// The contents of a list of things to do.
pub open spec fn step_list(steps: Seq<DeviceStep>) -> Seq<StepModel> {
    steps.map_values(|step: DeviceStep| step@)
}

/// A part of an action line, empty where the line has no such part.
pub open spec fn part(parts: Seq<Seq<char>>, i: int) -> Seq<char> {
    if i < parts.len() {
        parts[i]
    } else {
        Seq::empty()
    }
}

/// A coordinate: zero where it is no number.
pub open spec fn coordinate(s: Seq<char>) -> int {
    match read_signed(s) {
        Some(n) => n,
        None => 0,
    }
}

/// What a command that may be missing makes of a line: one thing to do, or the
/// report.
pub open spec fn commanded(command: Result<Seq<char>, Seq<char>>, pause_ms: int) -> Result<
    Seq<StepModel>,
    Seq<char>,
> {
    match command {
        Ok(text) => Ok(seq![StepModel { command: Some(text), pause_ms }]),
        Err(e) => Err(e),
    }
}

/// What an action line asks for. The parts of a line are separated by tabs,
/// and the first of them names the action.
pub open spec fn line_steps(line: Seq<char>) -> Result<Seq<StepModel>, Seq<char>> {
    let parts = pieces(line, '\t');
    let kind = part(parts, 0);
    let x = coordinate(part(parts, 1));
    let y = coordinate(part(parts, 2));
    if trimmed(line).len() == 0 || kind == "screenshot"@ {
        Ok(Seq::empty())
    } else if kind == "wait"@ {
        Ok(seq![StepModel { command: None, pause_ms: 800 }])
    } else if kind == "keypress"@ {
        commanded(key_command(part(parts, 1)), 400)
    } else if kind == "type"@ {
        commanded(type_command(part(parts, 1)), 400)
    } else if kind == "click"@ {
        commanded(Ok(click_command(x, y, false)), 400)
    } else if kind == "double_click"@ {
        commanded(Ok(click_command(x, y, true)), 400)
    } else if kind == "move"@ {
        commanded(Ok(move_command(x, y)), 0)
    } else {
        Err("지원하지 않는 computer action: "@ + kind)
    }
}

/// What a list of action lines comes to: the things to do in order, and the
/// report of the line that stops them, if one does.
pub struct PlanModel {
    pub steps: Seq<StepModel>,
    pub error: Option<Seq<char>>,
}

/// What to do for a list of action lines, up to the first that is in error.
pub open spec fn plan_of(lines: Seq<Seq<char>>) -> PlanModel
    decreases lines.len(),
{
    if lines.len() == 0 {
        PlanModel { steps: Seq::empty(), error: None }
    } else {
        match line_steps(lines[0]) {
            Err(e) => PlanModel { steps: Seq::empty(), error: Some(e) },
            Ok(steps) => {
                let rest = plan_of(lines.skip(1));
                PlanModel { steps: steps + rest.steps, error: rest.error }
            },
        }
    }
}

/// What to do for a list of action lines.
#[derive(Debug)]
pub struct ActionPlan {
    pub steps: Vec<DeviceStep>,
    pub error: Option<String>,
}

impl View for ActionPlan {
    type V = PlanModel;

    open spec fn view(&self) -> PlanModel {
        PlanModel { steps: step_list(self.steps@), error: optional(self.error) }
    }
}

/// A part of an action line.
fn take_part(parts: &Vec<String>, i: usize) -> (r: &str)
    ensures
        r@ == part(texts(parts@), i as int),
{
    if i < parts.len() {
        parts[i].as_str()
    } else {
        proof {
            reveal_strlit("");
            assert(""@ =~= Seq::empty());
        }
        ""
    }
}

/// Reads a coordinate.
fn take_coordinate(text: &str) -> (r: i32)
    ensures
        r == coordinate(text@),
{
    let chars = chars_of(text);
    match parse_signed(chars.as_slice()) {
        Some(n) => n,
        None => 0,
    }
}

/// Makes one thing to do of a command.
fn one_step(command: Result<String, String>, pause_ms: u64) -> (r: Result<Vec<DeviceStep>, String>)
    ensures
        steps_text(r) == commanded(result_text(command), pause_ms as int),
{
    match command {
        Ok(text) => {
            let step = DeviceStep { command: Some(text), pause_ms };
            let mut steps: Vec<DeviceStep> = Vec::new();
            steps.push(step);
            assert(step_list(steps@) =~= seq![
                StepModel { command: Some(text@), pause_ms: pause_ms as int },
            ]);
            Ok(steps)
        },
        Err(e) => Err(e),
    }
}

/// The contents of a list of things to do or of the text of an error.
pub open spec fn steps_text(value: Result<Vec<DeviceStep>, String>) -> Result<
    Seq<StepModel>,
    Seq<char>,
> {
    match value {
        Ok(steps) => Ok(step_list(steps@)),
        Err(e) => Err(e@),
    }
}

/// Reads one action line.
pub fn plan_line(line: &str) -> (r: Result<Vec<DeviceStep>, String>)
    ensures
        steps_text(r) == line_steps(line@),
{
    let blank = trim_text(line);
    let chars = chars_of(line);
    let parts = split(chars.as_slice(), '\t');
    let kind = take_part(&parts, 0);
    if blank.as_str().is_empty() || same_text(kind, "screenshot") {
        let steps: Vec<DeviceStep> = Vec::new();
        assert(step_list(steps@) =~= Seq::empty());
        Ok(steps)
    } else if same_text(kind, "wait") {
        let mut steps: Vec<DeviceStep> = Vec::new();
        steps.push(DeviceStep { command: None, pause_ms: 800 });
        assert(step_list(steps@) =~= seq![StepModel { command: None, pause_ms: 800 }]);
        Ok(steps)
    } else if same_text(kind, "keypress") {
        one_step(press_keys(take_part(&parts, 1)), 400)
    } else if same_text(kind, "type") {
        one_step(type_text(take_part(&parts, 1)), 400)
    } else {
        let x = take_coordinate(take_part(&parts, 1));
        let y = take_coordinate(take_part(&parts, 2));
        if same_text(kind, "click") {
            one_step(Ok(click_mouse(x, y, false)), 400)
        } else if same_text(kind, "double_click") {
            one_step(Ok(click_mouse(x, y, true)), 400)
        } else if same_text(kind, "move") {
            one_step(Ok(move_mouse(x, y)), 0)
        } else {
            let mut out = copy_text("지원하지 않는 computer action: ");
            out.append(kind);
            Err(out)
        }
    }
}

/// Reads a list of action lines. What it gives is carried out with
/// [`next_step`].
pub fn execute_computer_action_lines(lines: &Vec<String>) -> (r: ActionPlan)
    ensures
        r@ == plan_of(texts(lines@)),
{
    let ghost all = texts(lines@);
    assert(all.skip(0) =~= all);
    let mut steps: Vec<DeviceStep> = Vec::new();
    assert(step_list(steps@) + plan_of(all).steps =~= plan_of(all).steps);
    let mut i: usize = 0;
    while i < lines.len()
        invariant
            i <= lines@.len(),
            all == texts(lines@),
            plan_of(all).error == plan_of(all.skip(i as int)).error,
            plan_of(all).steps == step_list(steps@) + plan_of(all.skip(i as int)).steps,
        decreases lines@.len() - i,
    {
        let ghost rest = all.skip(i as int);
        let ghost done = step_list(steps@);
        assert(rest[0] == lines@[i as int]@);
        assert(rest.skip(1) =~= all.skip(i + 1));
        match plan_line(lines[i].as_str()) {
            Ok(mut more) => {
                let ghost added = step_list(more@);
                steps.append(&mut more);
                proof {
                    assert(step_list(steps@) =~= done + added);
                    assert(done + (added + plan_of(all.skip(i + 1)).steps) =~= step_list(steps@)
                        + plan_of(all.skip(i + 1)).steps);
                }
            },
            Err(e) => {
                assert(done + Seq::<StepModel>::empty() =~= done);
                return ActionPlan { steps, error: Some(e) };
            },
        }
        i += 1;
    }
    assert(step_list(steps@) + Seq::<StepModel>::empty() =~= step_list(steps@));
    ActionPlan { steps, error: None }
}

// ---------------------------------------------------------------------------
// Carrying actions out
// ---------------------------------------------------------------------------

/// What is next in carrying out a list of actions.
pub enum PlanStepModel {
    Run(StepModel),
    Finished(Result<(), Seq<char>>),
}

/// What is next in carrying out a list of actions.
#[derive(Debug)]
pub enum PlanStep {
    /// Run the command of the step, if it has one, wait for [`pause_after`],
    /// then [`next_step`] with the result of the command. A step without a
    /// command ends well.
    Run(DeviceStep),
    /// Nothing; the list is done, or the text says what stopped it.
    Finished(Result<(), String>),
}

impl View for PlanStep {
    type V = PlanStepModel;

    open spec fn view(&self) -> PlanStepModel {
        match *self {
            PlanStep::Run(step) => PlanStepModel::Run(step@),
            PlanStep::Finished(result) => PlanStepModel::Finished(unit_text(result)),
        }
    }
}

/// What is next after `done` steps of a list, the last of which ended as `last`
/// says. A step that failed ends the list with its error. After the steps comes
/// the error of the line that could not be read, if there is one.
pub open spec fn step_after(
    plan: PlanModel,
    done: int,
    last: Result<(), Seq<char>>,
) -> PlanStepModel {
    match last {
        Err(e) => PlanStepModel::Finished(Err(e)),
        Ok(()) => if done < plan.steps.len() {
            PlanStepModel::Run(plan.steps[done])
        } else {
            PlanStepModel::Finished(
                match plan.error {
                    Some(e) => Err(e),
                    None => Ok(()),
                },
            )
        },
    }
}

/// Decides what is next in carrying out a list of actions. Before the first
/// step nothing has failed, so `last` is `Ok`.
pub fn next_step(plan: &ActionPlan, done: usize, last: &Result<(), String>) -> (r: PlanStep)
    ensures
        r@ == step_after(plan@, done as int, unit_text(*last)),
{
    match last {
        Err(e) => PlanStep::Finished(Err(copy_text(e.as_str()))),
        Ok(()) => if done < plan.steps.len() {
            let step = &plan.steps[done];
            let command = match &step.command {
                Some(text) => Some(copy_text(text.as_str())),
                None => None,
            };
            PlanStep::Run(DeviceStep { command, pause_ms: step.pause_ms })
        } else {
            match &plan.error {
                Some(e) => PlanStep::Finished(Err(copy_text(e.as_str()))),
                None => PlanStep::Finished(Ok(())),
            }
        },
    }
}

/// How long to wait after a step, in milliseconds: not at all where it failed.
pub open spec fn pause_of(step: StepModel, result: Result<(), Seq<char>>) -> int {
    match result {
        Ok(()) => step.pause_ms,
        Err(_) => 0,
    }
}

/// Decides how long to wait after a step.
pub fn pause_after(step: &DeviceStep, result: &Result<(), String>) -> (r: u64)
    ensures
        r == pause_of(step@, unit_text(*result)),
{
    match result {
        Ok(()) => step.pause_ms,
        Err(_) => 0,
    }
}

} // verus!
