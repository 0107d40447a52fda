//! The words in which the dashboard tells the operator how things stand.
//! The screens put them where they belong; what they say is decided here.

use crate::package::{path_text, Package};
use crate::scanner::{percentage, ScanningState, ScanningStateView};
use crate::text::{decimal, decimal_string, texts};
use vstd::prelude::*;
use vstd::string::*;

verus! {

/// How many lines of the output of an uninstall are in sight at once.
pub const OUTPUT_WINDOW: usize = 10;

/// The line that says how the scan stands: what failed, or whether the
/// scan runs or is paused.
pub open spec fn status_text(state: ScanningStateView) -> Seq<char> {
    match state.error_message {
        Some(error) => "Error: "@ + error,
        None => if state.is_paused {
            "Status: Scanning paused..."@
        } else {
            "Status: Scanning installed packages..."@
        },
    }
}

/// The line that says what the operator can do about the scan: try again
/// after a failure, and pause or resume otherwise.
pub open spec fn controls_text(state: ScanningStateView) -> Seq<char> {
    if state.error_message is Some {
        "[Space] Retry  [ESC] Cancel"@
    } else if state.is_paused {
        "[Space] Resume  [ESC] Cancel"@
    } else {
        "[Space] Pause  [ESC] Cancel"@
    }
}

/// The label of the progress bar: the percentage, and how many of the
/// packages have been taken up.
pub open spec fn progress_text(state: ScanningStateView) -> Seq<char> {
    decimal(percentage(state.packages_scanned, state.total_packages)) + "% ("@ + decimal(
        state.packages_scanned,
    ) + "/"@ + decimal(state.total_packages) + ")"@
}

/// `lines` as one text, a line feed between every two of them.
pub open spec fn joined_lines(lines: Seq<Seq<char>>) -> Seq<char>
    decreases lines.len(),
{
    if lines.len() == 0 {
        Seq::empty()
    } else if lines.len() == 1 {
        lines[0]
    } else {
        joined_lines(lines.drop_last()) + "\n"@ + lines.last()
    }
}

/// What is shown of the output of an uninstall: its lines, or a word that
/// the uninstall is starting while there are none.
pub open spec fn output_text(lines: Seq<Seq<char>>) -> Seq<char> {
    if lines.len() == 0 {
        "Starting uninstall process..."@
    } else {
        joined_lines(lines)
    }
}

/// How many lines of an output of `len` lines are scrolled out of sight, so
/// that the last ones are in sight, as far as sixteen bits can tell.
pub open spec fn output_scroll(len: nat) -> u16 {
    if len > OUTPUT_WINDOW {
        ((len - OUTPUT_WINDOW) % 0x1_0000) as u16
    } else {
        0
    }
}

/// Says how the scan stands.
pub fn scan_status(state: &ScanningState) -> (text: String)
    ensures
        text@ == status_text(state@),
{
    match &state.error_message {
        Some(error) => {
            let mut text = String::from_str("Error: ");
            text.append(error.as_str());
            text
        },
        None => if state.is_paused {
            String::from_str("Status: Scanning paused...")
        } else {
            String::from_str("Status: Scanning installed packages...")
        },
    }
}

/// Says what the operator can do about the scan.
pub fn scan_controls(state: &ScanningState) -> (text: &'static str)
    ensures
        text@ == controls_text(state@),
{
    if state.error_message.is_some() {
        "[Space] Retry  [ESC] Cancel"
    } else if state.is_paused {
        "[Space] Resume  [ESC] Cancel"
    } else {
        "[Space] Pause  [ESC] Cancel"
    }
}

/// Writes the label of the progress bar.
pub fn progress_label(state: &ScanningState) -> (text: String)
    ensures
        text@ == progress_text(state@),
{
    let mut text = decimal_string(state.progress_percentage() as u64);
    text.append("% (");
    let scanned = decimal_string(state.packages_scanned as u64);
    text.append(scanned.as_str());
    text.append("/");
    let total = decimal_string(state.total_packages as u64);
    text.append(total.as_str());
    text.append(")");
    text
}

/// Writes what is shown of the output of an uninstall.
pub fn delete_output_text(lines: &Vec<String>) -> (text: String)
    ensures
        text@ == output_text(texts(lines@)),
{
    if lines.len() == 0 {
        return String::from_str("Starting uninstall process...");
    }
    let mut text = lines[0].clone();
    let mut i: usize = 1;
    assert(texts(lines@).take(1) =~= seq![lines@[0]@]);
    while i < lines.len()
        invariant
            1 <= i <= lines.len(),
            text@ == joined_lines(texts(lines@).take(i as int)),
        decreases lines.len() - i,
    {
        proof {
            assert(texts(lines@).take(i + 1).drop_last() =~= texts(lines@).take(i as int));
            assert(texts(lines@).take(i + 1).last() == lines@[i as int]@);
        }
        text.append("\n");
        text.append(lines[i].as_str());
        i += 1;
    }
    assert(texts(lines@).take(i as int) =~= texts(lines@));
    text
}

/// Tells how many lines of an output of `len` lines are scrolled out of
/// sight.
pub fn delete_output_scroll(len: usize) -> (offset: u16)
    ensures
        offset == output_scroll(len as nat),
{
    if len > OUTPUT_WINDOW {
        ((len - OUTPUT_WINDOW) % 0x1_0000) as u16
    } else {
        0
    }
}

/// The path of the last access of `package`, or `Unknown` where there is
/// none.
pub fn shown_path(package: &Package) -> (text: &str)
    ensures
        text@ == path_text(package@.last_accessed_path, "Unknown"@),
{
    if package.has_been_accessed() {
        package.last_accessed_path()
    } else {
        "Unknown"
    }
}

} // verus!
