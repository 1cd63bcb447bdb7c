use web_excel_launcher::device::{
    capture_windows_screenshot, click_mouse, excel_process_seen, execute_computer_action_lines,
    key_to_vk, move_mouse, next_step, pause_after, press_keys, type_text, ActionPlan, PlanStep,
};

#[test]
fn knows_keys() {
    for (names, code) in [
        (&["WIN", "windows", "Meta", "cmd", "COMMAND"][..], 0x5b),
        (&["ENTER", "Return"][..], 0x0d),
        (&["esc", "ESCAPE"][..], 0x1b),
        (&["TAB"][..], 0x09),
        (&["SPACE"][..], 0x20),
        (&["BACKSPACE"][..], 0x08),
        (&["DELETE", "DEL"][..], 0x2e),
        (&["CTRL", "CONTROL"][..], 0x11),
        (&["SHIFT"][..], 0x10),
        (&["ALT", "OPTION"][..], 0x12),
        (&["UP", "ARROWUP"][..], 0x26),
        (&["DOWN", "ARROWDOWN"][..], 0x28),
        (&["LEFT", "ARROWLEFT"][..], 0x25),
        (&["RIGHT", "ARROWRIGHT"][..], 0x27),
        (&["r", "R"][..], b'R'),
        (&["1"][..], b'1'),
        (&["/"][..], b'/'),
    ] {
        for name in names {
            assert_eq!(key_to_vk(name), Some(code), "{}", name);
        }
    }
    for name in ["", "F1", "가", "é", "WINDOW", " R"] {
        assert_eq!(key_to_vk(name), None, "{}", name);
    }
}

#[test]
fn presses_keys_and_lets_them_go_in_reverse() {
    assert_eq!(
        press_keys("WIN + r+nonsense").unwrap(),
        "Add-Type @'\nusing System; using System.Runtime.InteropServices; public class K { [DllImport(\"user32.dll\")] public static extern void keybd_event(byte bVk, byte bScan, int dwFlags, int dwExtraInfo); }\n'@; [K]::keybd_event(91,0,0,0);[K]::keybd_event(82,0,0,0); Start-Sleep -Milliseconds 80; [K]::keybd_event(82,0,2,0);[K]::keybd_event(91,0,2,0);"
    );
    assert_eq!(
        press_keys("F13+nonsense").unwrap_err(),
        "keypress 키를 해석하지 못했습니다: F13+nonsense"
    );
    assert_eq!(press_keys("").unwrap_err(), "keypress 키를 해석하지 못했습니다: ");
}

#[test]
fn types_only_allowed_characters() {
    assert_eq!(
        type_text("excel").unwrap(),
        "Add-Type -AssemblyName System.Windows.Forms; [System.Windows.Forms.SendKeys]::SendWait('excel')"
    );
    assert_eq!(
        type_text("C:\\a b_c-d.e/{ENTER}'$(x)한").unwrap(),
        "Add-Type -AssemblyName System.Windows.Forms; [System.Windows.Forms.SendKeys]::SendWait('C:\\a b_c-d.e/ENTERx')"
    );
    for text in ["", "{}", "한글"] {
        assert_eq!(
            type_text(text).unwrap_err(),
            "type action 텍스트가 비어 있거나 허용 문자가 아닙니다."
        );
    }
}

#[test]
fn moves_and_clicks_the_mouse() {
    assert_eq!(
        move_mouse(-5, 2147483647),
        "Add-Type @'\nusing System; using System.Runtime.InteropServices; public class M { [DllImport(\"user32.dll\")] public static extern bool SetCursorPos(int X, int Y); }\n'@; [M]::SetCursorPos(-5,2147483647) | Out-Null"
    );
    let single = click_mouse(3, 4, false);
    assert_eq!(
        single,
        "Add-Type @'\nusing System; using System.Runtime.InteropServices; public class M { [DllImport(\"user32.dll\")] public static extern bool SetCursorPos(int X, int Y); [DllImport(\"user32.dll\")] public static extern void mouse_event(int dwFlags, int dx, int dy, int dwData, int dwExtraInfo); }\n'@; [M]::SetCursorPos(3,4) | Out-Null; for ($i=0; $i -lt 1; $i++) { [M]::mouse_event(2,0,0,0,0); Start-Sleep -Milliseconds 60; [M]::mouse_event(4,0,0,0,0); Start-Sleep -Milliseconds 120; }"
    );
    assert_eq!(click_mouse(3, 4, true), single.replace("-lt 1;", "-lt 2;"));
}

#[test]
fn takes_pictures_of_the_screen() {
    assert_eq!(
        capture_windows_screenshot("/tmp/a.png", "shown").unwrap(),
        "Add-Type -AssemblyName System.Windows.Forms; Add-Type -AssemblyName System.Drawing; $b=[System.Windows.Forms.Screen]::PrimaryScreen.Bounds; $bmp=New-Object System.Drawing.Bitmap $b.Width,$b.Height; $g=[System.Drawing.Graphics]::FromImage($bmp); $g.CopyFromScreen($b.Location,[System.Drawing.Point]::Empty,$b.Size); $bmp.Save('\\\\wsl.localhost\\Ubuntu\\tmp\\a.png',[System.Drawing.Imaging.ImageFormat]::Png); $g.Dispose(); $bmp.Dispose()"
    );
    assert_eq!(
        capture_windows_screenshot("/home/a.png", "shown").unwrap_err(),
        "Windows 경로 변환 실패: shown"
    );
}

#[test]
fn looks_for_excel() {
    assert_eq!(
        excel_process_seen(),
        [
            "-NoProfile",
            "-Command",
            "if (Get-Process -Name EXCEL -ErrorAction SilentlyContinue) { exit 0 } else { exit 1 }",
        ]
    );
}

fn lines(list: &[&str]) -> Vec<String> {
    list.iter().map(|s| s.to_string()).collect()
}

#[test]
fn reads_every_action() {
    let plan = execute_computer_action_lines(&lines(&[
        "screenshot",
        "  ",
        "wait",
        "keypress\tENTER",
        "type\texcel",
        "click\t10\t20\tleft",
        "double_click\t+1\t-2",
        "move\tx\t7",
        "move",
    ]));
    assert_eq!(plan.error, None);
    let steps: Vec<(Option<String>, u64)> =
        plan.steps.into_iter().map(|step| (step.command, step.pause_ms)).collect();
    assert_eq!(
        steps,
        vec![
            (None, 800),
            (Some(press_keys("ENTER").unwrap()), 400),
            (Some(type_text("excel").unwrap()), 400),
            (Some(click_mouse(10, 20, false)), 400),
            (Some(click_mouse(1, -2, true)), 400),
            (Some(move_mouse(0, 7)), 0),
            (Some(move_mouse(0, 0)), 0),
        ]
    );
}

#[test]
fn stops_at_the_first_error() {
    let plan = execute_computer_action_lines(&lines(&["wait", "unsupported\tdrag", "wait"]));
    assert_eq!(plan.error.as_deref(), Some("지원하지 않는 computer action: unsupported"));
    assert_eq!(plan.steps.len(), 1);
    let plan = execute_computer_action_lines(&lines(&["keypress\tF13", "wait"]));
    assert_eq!(plan.error.as_deref(), Some("keypress 키를 해석하지 못했습니다: F13"));
    assert!(plan.steps.is_empty());
    let plan = execute_computer_action_lines(&lines(&["type"]));
    assert_eq!(
        plan.error.as_deref(),
        Some("type action 텍스트가 비어 있거나 허용 문자가 아닙니다.")
    );
    let plan = execute_computer_action_lines(&lines(&["Wait"]));
    assert_eq!(plan.error.as_deref(), Some("지원하지 않는 computer action: Wait"));
}

/// Carries a plan out: the step of the given number fails, if there is one.
fn carry_out(plan: &ActionPlan, failing: Option<usize>) -> (Vec<u64>, Result<(), String>) {
    let mut pauses: Vec<u64> = Vec::new();
    let mut last: Result<(), String> = Ok(());
    loop {
        match next_step(plan, pauses.len(), &last) {
            PlanStep::Run(step) => {
                assert_eq!(step.command, plan.steps[pauses.len()].command);
                last = if failing == Some(pauses.len()) { Err("why".to_string()) } else { Ok(()) };
                pauses.push(pause_after(&step, &last));
            },
            PlanStep::Finished(result) => return (pauses, result),
        }
    }
}

#[test]
fn a_failed_command_ends_the_list() {
    let good = execute_computer_action_lines(&lines(&["wait", "keypress\tENTER", "move\t1\t2"]));
    assert_eq!(carry_out(&good, None), (vec![800, 400, 0], Ok(())));
    assert_eq!(carry_out(&good, Some(1)), (vec![800, 0], Err("why".to_string())));
    assert_eq!(carry_out(&good, Some(2)), (vec![800, 400, 0], Err("why".to_string())));
    let bad = execute_computer_action_lines(&lines(&["type\ta", "drag", "wait"]));
    let unread = "지원하지 않는 computer action: drag".to_string();
    assert_eq!(carry_out(&bad, None), (vec![400], Err(unread)));
    assert_eq!(carry_out(&bad, Some(0)), (vec![0], Err("why".to_string())));
    let empty = execute_computer_action_lines(&lines(&["", "screenshot"]));
    assert_eq!(carry_out(&empty, None), (vec![], Ok(())));
}
