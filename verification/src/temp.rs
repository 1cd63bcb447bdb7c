//! The names of the files that are written, and what to do where a name is
//! taken.
use vstd::prelude::*;

use crate::number::{decimal, push_decimal};
use crate::text::copy_text;

verus! {

// ---------------------------------------------------------------------------
// Files that only their owner may read
// ---------------------------------------------------------------------------

/// How many names are tried for a file.
pub const ATTEMPTS: u32 = 20;

/// What is said where every name was taken.
pub const NO_NAME: &'static str = "임시 파일 이름을 만들지 못했습니다.";

/// The name of a file: of the process that writes it, when, and at which
/// attempt.
pub open spec fn temp_name(
    prefix: Seq<char>,
    suffix: Seq<char>,
    process: nat,
    stamp: nat,
    attempt: nat,
) -> Seq<char> {
    prefix + "-"@ + decimal(process) + "-"@ + decimal(stamp) + "-"@ + decimal(attempt) + suffix
}

/// Writes the name of a file.
pub fn secret_temp_name(prefix: &str, suffix: &str, process: u32, stamp: u128, attempt: u32) -> (r:
    String)
    ensures
        r@ == temp_name(prefix@, suffix@, process as nat, stamp as nat, attempt as nat),
{
    let mut out = copy_text(prefix);
    out.append("-");
    push_decimal(&mut out, process as u128);
    out.append("-");
    push_decimal(&mut out, stamp);
    out.append("-");
    push_decimal(&mut out, attempt as u128);
    out.append(suffix);
    out
}

/// What became of an attempt to write a file that must be new.
#[derive(Debug)]
pub enum TempOutcome {
    Written,
    /// The file was made, but not written; the text says why.
    NotWritten(String),
    /// A file of that name exists.
    Taken,
    /// The file was not made; the text says why.
    NotMade(String),
}

/// What to do after an attempt.
pub enum TempStepModel {
    Done,
    Retry(nat),
    Failed(Seq<char>),
}

/// What to do after an attempt.
#[derive(Debug)]
pub enum TempStep {
    /// Nothing; the file is there.
    Done,
    /// Make the attempt of this number.
    Retry(u32),
    /// Nothing; the text says why there is no file.
    Failed(String),
}

impl View for TempStep {
    type V = TempStepModel;

    open spec fn view(&self) -> TempStepModel {
        match *self {
            TempStep::Done => TempStepModel::Done,
            TempStep::Retry(attempt) => TempStepModel::Retry(attempt as nat),
            TempStep::Failed(e) => TempStepModel::Failed(e@),
        }
    }
}

/// What to do after an attempt at a file that is shown to people as `shown`.
/// Only a taken name is a reason to try another.
pub open spec fn after_attempt(attempt: nat, shown: Seq<char>, outcome: TempOutcome) -> TempStepModel {
    match outcome {
        TempOutcome::Written => TempStepModel::Done,
        TempOutcome::NotWritten(e) => TempStepModel::Failed(
            "임시 파일 쓰기 실패 "@ + shown + ": "@ + e@,
        ),
        TempOutcome::NotMade(e) => TempStepModel::Failed(
            "임시 파일 생성 실패 "@ + shown + ": "@ + e@,
        ),
        TempOutcome::Taken => if attempt + 1 < ATTEMPTS {
            TempStepModel::Retry(attempt + 1)
        } else {
            TempStepModel::Failed(NO_NAME@)
        },
    }
}

/// Decides what to do after an attempt.
pub fn write_secret_temp(attempt: u32, shown: &str, outcome: &TempOutcome) -> (r: TempStep)
    ensures
        r@ == after_attempt(attempt as nat, shown@, *outcome),
{
    match outcome {
        TempOutcome::Written => TempStep::Done,
        TempOutcome::NotWritten(e) => {
            let mut out = copy_text("임시 파일 쓰기 실패 ");
            out.append(shown);
            out.append(": ");
            out.append(e.as_str());
            TempStep::Failed(out)
        },
        TempOutcome::NotMade(e) => {
            let mut out = copy_text("임시 파일 생성 실패 ");
            out.append(shown);
            out.append(": ");
            out.append(e.as_str());
            TempStep::Failed(out)
        },
        TempOutcome::Taken => if attempt < ATTEMPTS - 1 {
            TempStep::Retry(attempt + 1)
        } else {
            TempStep::Failed(copy_text(NO_NAME))
        },
    }
}

// ---------------------------------------------------------------------------
// Files that Windows programs read
// ---------------------------------------------------------------------------

/// Where files go that Windows programs read, if the folder is there.
pub const DESKTOP: &'static str = "/mnt/c/Users/David/Desktop";

/// The path of a file in a folder.
pub open spec fn path_in(folder: Seq<char>, name: Seq<char>) -> Seq<char> {
    if folder.len() == 0 || folder.last() == '/' {
        folder + name
    } else {
        folder + "/"@ + name
    }
}

/// The path of a file that is named after a moment: on the desktop, or else in
/// the folder for passing files.
pub open spec fn demo_path(
    prefix: Seq<char>,
    stamp: nat,
    suffix: Seq<char>,
    has_desktop: bool,
    temp_dir: Seq<char>,
) -> Seq<char> {
    let folder = if has_desktop {
        DESKTOP@
    } else {
        temp_dir
    };
    path_in(folder, prefix + decimal(stamp) + suffix)
}

/// Writes the path of a file that is named after a moment.
fn write_demo_path(prefix: &str, stamp: u64, suffix: &str, has_desktop: bool, temp_dir: &str) -> (r:
    String)
    ensures
        r@ == demo_path(prefix@, stamp as nat, suffix@, has_desktop, temp_dir@),
{
    let mut name = copy_text(prefix);
    push_decimal(&mut name, stamp as u128);
    name.append(suffix);
    let folder = if has_desktop {
        DESKTOP
    } else {
        temp_dir
    };
    let mut out = copy_text(folder);
    let n = folder.unicode_len();
    if n > 0 && folder.get_char(n - 1) != '/' {
        out.append("/");
    }
    out.append(name.as_str());
    out
}

/// The path of the sample table that the launcher writes at a moment, in
/// seconds.
pub fn launcher_csv_path(stamp: u64, has_desktop: bool, temp_dir: &str) -> (r: String)
    ensures
        r@ == demo_path(
            "web-excel-launcher-demo-"@,
            stamp as nat,
            ".csv"@,
            has_desktop,
            temp_dir@,
        ),
{
    write_demo_path("web-excel-launcher-demo-", stamp, ".csv", has_desktop, temp_dir)
}

/// The path of the sample table that the agent writes at a moment, in seconds.
pub fn demo_csv_path(stamp: u64, has_desktop: bool, temp_dir: &str) -> (r: String)
    ensures
        r@ == demo_path(
            "tailscale-excel-demo-"@,
            stamp as nat,
            ".csv"@,
            has_desktop,
            temp_dir@,
        ),
{
    write_demo_path("tailscale-excel-demo-", stamp, ".csv", has_desktop, temp_dir)
}

/// The path of the picture of the screen that the agent takes at a moment, in
/// seconds.
pub fn demo_screenshot_path(stamp: u64, has_desktop: bool, temp_dir: &str) -> (r: String)
    ensures
        r@ == demo_path(
            "tailscale-excel-cua-screen-"@,
            stamp as nat,
            ".png"@,
            has_desktop,
            temp_dir@,
        ),
{
    write_demo_path("tailscale-excel-cua-screen-", stamp, ".png", has_desktop, temp_dir)
}

} // verus!
