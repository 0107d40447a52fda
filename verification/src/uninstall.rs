//! The delete executor: the steps by which one package is uninstalled
//! through the package manager, and what each step lets the operator see.

use crate::package::{Package, PackageType};
use crate::scanner::HomebrewScanner;
use crate::text::{signed_decimal, signed_decimal_string, texts};
use vstd::prelude::*;
use vstd::string::*;

verus! {

/// Why an uninstall failed.
#[derive(Debug)]
pub enum DeleteError {
    /// The package manager could not be started; the text says why.
    Spawn(String),
    /// The end of the package manager could not be waited for.
    Wait(String),
    /// The package manager ended with a failure, and with this exit code if
    /// it left one.
    Exit(Option<i32>),
    /// The executor was told something that it was not waiting for.
    Unexpected,
}

/// A `DeleteError` with its texts as sequences of characters.
pub enum DeleteErrorView {
    Spawn(Seq<char>),
    Wait(Seq<char>),
    Exit(Option<i32>),
    Unexpected,
}

impl View for DeleteError {
    type V = DeleteErrorView;

    open spec fn view(&self) -> DeleteErrorView {
        match self {
            DeleteError::Spawn(reason) => DeleteErrorView::Spawn(reason@),
            DeleteError::Wait(reason) => DeleteErrorView::Wait(reason@),
            DeleteError::Exit(code) => DeleteErrorView::Exit(*code),
            DeleteError::Unexpected => DeleteErrorView::Unexpected,
        }
    }
}

/// An exit code as it is shown: `Some(<code>)`, or `None` where the process
/// left none.
pub open spec fn exit_code_text(code: Option<i32>) -> Seq<char> {
    match code {
        Some(c) => "Some("@ + signed_decimal(c as int) + ")"@,
        None => "None"@,
    }
}

/// The one line that tells the operator why an uninstall failed.
pub open spec fn error_text(error: DeleteErrorView) -> Seq<char> {
    match error {
        DeleteErrorView::Spawn(reason) => "Failed to start brew uninstall: "@ + reason,
        DeleteErrorView::Wait(reason) => "Failed to wait for brew process: "@ + reason,
        DeleteErrorView::Exit(code) => "brew uninstall failed with exit code: "@ + exit_code_text(
            code,
        ),
        DeleteErrorView::Unexpected => "Unexpected answer during the uninstall"@,
    }
}

impl DeleteError {
    /// The exit code that the package manager left, if the uninstall came
    /// as far as that.
    pub fn exit_code(&self) -> (code: Option<i32>)
        ensures
            code == match self@ {
                DeleteErrorView::Exit(c) => c,
                _ => None,
            },
    {
        match self {
            DeleteError::Exit(code) => *code,
            _ => None,
        }
    }

    /// The one line that tells the operator why the uninstall failed.
    pub fn message(&self) -> (text: String)
        ensures
            text@ == error_text(self@),
    {
        match self {
            DeleteError::Spawn(reason) => {
                let mut text = String::from_str("Failed to start brew uninstall: ");
                text.append(reason.as_str());
                text
            },
            DeleteError::Wait(reason) => {
                let mut text = String::from_str("Failed to wait for brew process: ");
                text.append(reason.as_str());
                text
            },
            DeleteError::Exit(code) => {
                let mut text = String::from_str("brew uninstall failed with exit code: ");
                match code {
                    Some(c) => {
                        let mut shown = String::from_str("Some(");
                        let digits = signed_decimal_string(*c as i64);
                        shown.append(digits.as_str());
                        shown.append(")");
                        text.append(shown.as_str());
                    },
                    None => {
                        text.append("None");
                    },
                }
                text
            },
            DeleteError::Unexpected => String::from_str("Unexpected answer during the uninstall"),
        }
    }
}

/// What an uninstall is waiting for.
#[derive(Clone, Copy, Debug, PartialEq, Eq, Structural)]
pub enum DeleteStage {
    /// The start of the package manager.
    Spawning,
    /// The next line of its standard output.
    ReadingOutput,
    /// Its end.
    Waiting,
    /// The next line of its standard error, after it ended with a failure
    /// and this exit code.
    ReadingErrors(Option<i32>),
    /// Nothing: the result has been given.
    Finished,
}

/// What the executor is told from outside.
#[derive(Debug)]
pub enum DeleteEvent {
    /// The package manager could not be started.
    SpawnFailed(String),
    /// The package manager runs.
    Spawned,
    /// It wrote a line to its standard output.
    OutputLine(String),
    /// Its standard output has come to an end or can be read no further.
    OutputClosed,
    /// Its end could not be waited for.
    WaitFailed(String),
    /// It has ended.
    Exited {
        /// Whether it reported success.
        success: bool,
        /// Its exit code, if it left one.
        code: Option<i32>,
    },
    /// It wrote a line to its standard error.
    ErrorLine(String),
    /// Its standard error has come to an end or can be read no further.
    ErrorsClosed,
}

/// What one step of an uninstall comes to.
#[derive(Debug)]
pub struct DeleteStep {
    /// What the uninstall waits for from now on.
    pub stage: DeleteStage,
    /// The lines to show to the operator, in their order.
    pub lines: Vec<String>,
    /// The result of the uninstall, at the step that ends it.
    pub result: Option<Result<(), DeleteError>>,
}

/// The flag that tells the package manager the kind of a package.
pub open spec fn kind_flag(kind: PackageType) -> Seq<char> {
    match kind {
        PackageType::Formula => "--formula"@,
        PackageType::Cask => "--cask"@,
    }
}

/// The arguments with which the package manager uninstalls the package
/// `name` of kind `kind`.
pub open spec fn uninstall_arguments(name: Seq<char>, kind: PackageType) -> Seq<Seq<char>> {
    seq!["uninstall"@, kind_flag(kind), name]
}

/// The line that shows the operator the command that is run.
pub open spec fn command_line(name: Seq<char>, kind: PackageType) -> Seq<char> {
    "$ brew uninstall "@ + kind_flag(kind) + " "@ + name
}

/// The stage that follows `stage` when the executor is told `event`. An
/// uninstall that is told something it is not waiting for ends there; one
/// that has ended stays ended.
pub open spec fn next_stage(stage: DeleteStage, event: DeleteEvent) -> DeleteStage {
    match (stage, event) {
        (DeleteStage::Spawning, DeleteEvent::Spawned) => DeleteStage::ReadingOutput,
        (DeleteStage::ReadingOutput, DeleteEvent::OutputLine(_)) => DeleteStage::ReadingOutput,
        (DeleteStage::ReadingOutput, DeleteEvent::OutputClosed) => DeleteStage::Waiting,
        (DeleteStage::Waiting, DeleteEvent::Exited { success, code }) => if success {
            DeleteStage::Finished
        } else {
            DeleteStage::ReadingErrors(code)
        },
        (DeleteStage::ReadingErrors(code), DeleteEvent::ErrorLine(_)) => DeleteStage::ReadingErrors(
            code,
        ),
        _ => DeleteStage::Finished,
    }
}

/// The lines that the operator is shown when the executor is told `event`
/// at `stage`: the command once the package manager runs,
/// every line that it writes, and a blank line and a word of success once it
/// has ended well. A package manager that could not be started shows
/// nothing.
pub open spec fn step_lines(
    name: Seq<char>,
    kind: PackageType,
    stage: DeleteStage,
    event: DeleteEvent,
) -> Seq<Seq<char>> {
    match (stage, event) {
        (DeleteStage::Spawning, DeleteEvent::Spawned) => seq![command_line(name, kind)],
        (DeleteStage::ReadingOutput, DeleteEvent::OutputLine(line)) => seq![line@],
        (DeleteStage::Waiting, DeleteEvent::Exited { success, code }) => if success {
            seq![""@, "✅ Uninstall completed successfully!"@]
        } else {
            Seq::empty()
        },
        (DeleteStage::ReadingErrors(_), DeleteEvent::ErrorLine(line)) => seq![line@],
        _ => Seq::empty(),
    }
}

/// The result that the step gives, if it ends the uninstall.
pub open spec fn step_result(stage: DeleteStage, event: DeleteEvent) -> Option<
    Result<(), DeleteErrorView>,
> {
    match (stage, event) {
        (DeleteStage::Finished, _) => None,
        (DeleteStage::Spawning, DeleteEvent::Spawned) => None,
        (DeleteStage::Spawning, DeleteEvent::SpawnFailed(reason)) => Some(
            Err(DeleteErrorView::Spawn(reason@)),
        ),
        (DeleteStage::ReadingOutput, DeleteEvent::OutputLine(_)) => None,
        (DeleteStage::ReadingOutput, DeleteEvent::OutputClosed) => None,
        (DeleteStage::Waiting, DeleteEvent::WaitFailed(reason)) => Some(
            Err(DeleteErrorView::Wait(reason@)),
        ),
        (DeleteStage::Waiting, DeleteEvent::Exited { success, code }) => if success {
            Some(Ok(()))
        } else {
            None
        },
        (DeleteStage::ReadingErrors(_), DeleteEvent::ErrorLine(_)) => None,
        (DeleteStage::ReadingErrors(code), DeleteEvent::ErrorsClosed) => Some(
            Err(DeleteErrorView::Exit(code)),
        ),
        _ => Some(Err(DeleteErrorView::Unexpected)),
    }
}

/// A result with its error as the contracts see it.
pub open spec fn result_view(result: Option<Result<(), DeleteError>>) -> Option<
    Result<(), DeleteErrorView>,
> {
    match result {
        Some(Ok(_)) => Some(Ok(())),
        Some(Err(error)) => Some(Err(error@)),
        None => None,
    }
}

fn flag_of(kind: PackageType) -> (flag: &'static str)
    ensures
        flag@ == kind_flag(kind),
{
    match kind {
        PackageType::Formula => "--formula",
        PackageType::Cask => "--cask",
    }
}

fn finished(result: Result<(), DeleteError>) -> (step: DeleteStep)
    ensures
        step.stage == DeleteStage::Finished,
        step.lines@.len() == 0,
        result_view(step.result) == result_view(Some(result)),
{
    DeleteStep { stage: DeleteStage::Finished, lines: Vec::new(), result: Some(result) }
}

fn waiting(stage: DeleteStage) -> (step: DeleteStep)
    ensures
        step.stage == stage,
        step.lines@.len() == 0,
        step.result is None,
{
    DeleteStep { stage, lines: Vec::new(), result: None }
}

fn showing(stage: DeleteStage, line: String) -> (step: DeleteStep)
    ensures
        step.stage == stage,
        texts(step.lines@) == seq![line@],
        step.result is None,
{
    let mut lines: Vec<String> = Vec::new();
    lines.push(line);
    assert(texts(lines@) =~= seq![line@]);
    DeleteStep { stage, lines, result: None }
}

impl HomebrewScanner {
    /// The arguments with which the package manager is to be run to
    /// uninstall `package`.
    pub fn uninstall_command(package: &Package) -> (arguments: Vec<String>)
        ensures
            texts(arguments@) == uninstall_arguments(package@.name, package@.package_type),
    {
        let mut arguments: Vec<String> = Vec::new();
        arguments.push(String::from_str("uninstall"));
        arguments.push(String::from_str(flag_of(package.kind())));
        arguments.push(String::from_str(package.name()));
        assert(texts(arguments@) =~= uninstall_arguments(package@.name, package@.package_type));
        arguments
    }

    /// Takes the uninstall of `package` one step on: `stage` is what it was
    /// waiting for and `event` what it is told.
    ///
    /// Once the package manager runs, the operator is shown the command,
    /// then every line of its standard output as it comes. When it has ended
    /// with success the uninstall ends with a word of success; when it has
    /// ended with a failure its standard error is shown too and the uninstall
    /// ends with the exit code. A package manager that cannot be started ends
    /// the uninstall at once, with nothing shown.
    ///
    /// The result comes with the step that ends the uninstall and with no
    /// other: whatever is shown is shown before the result, and nothing is
    /// shown after it.
    pub fn delete_package_with_output(
        package: &Package,
        stage: DeleteStage,
        event: DeleteEvent,
    ) -> (step: DeleteStep)
        ensures
            step.stage == next_stage(stage, event),
            texts(step.lines@) == step_lines(package@.name, package@.package_type, stage, event),
            result_view(step.result) == step_result(stage, event),
            step.result is Some <==> stage != DeleteStage::Finished && step.stage
                == DeleteStage::Finished,
            stage == DeleteStage::Finished ==> step.lines@.len() == 0,
    {
        match stage {
            DeleteStage::Spawning => match event {
                DeleteEvent::Spawned => {
                    let mut shown = String::from_str("$ brew uninstall ");
                    shown.append(flag_of(package.kind()));
                    shown.append(" ");
                    shown.append(package.name());
                    showing(DeleteStage::ReadingOutput, shown)
                },
                DeleteEvent::SpawnFailed(reason) => finished(Err(DeleteError::Spawn(reason))),
                _ => finished(Err(DeleteError::Unexpected)),
            },
            DeleteStage::ReadingOutput => match event {
                DeleteEvent::OutputLine(line) => showing(DeleteStage::ReadingOutput, line),
                DeleteEvent::OutputClosed => waiting(DeleteStage::Waiting),
                _ => finished(Err(DeleteError::Unexpected)),
            },
            DeleteStage::Waiting => match event {
                DeleteEvent::WaitFailed(reason) => finished(Err(DeleteError::Wait(reason))),
                DeleteEvent::Exited { success, code } => {
                    if success {
                        let mut lines: Vec<String> = Vec::new();
                        lines.push(String::from_str(""));
                        lines.push(String::from_str("✅ Uninstall completed successfully!"));
                        assert(texts(lines@) =~= seq![
                            ""@,
                            "✅ Uninstall completed successfully!"@,
                        ]);
                        DeleteStep { stage: DeleteStage::Finished, lines, result: Some(Ok(())) }
                    } else {
                        waiting(DeleteStage::ReadingErrors(code))
                    }
                },
                _ => finished(Err(DeleteError::Unexpected)),
            },
            DeleteStage::ReadingErrors(code) => match event {
                DeleteEvent::ErrorLine(line) => showing(DeleteStage::ReadingErrors(code), line),
                DeleteEvent::ErrorsClosed => finished(Err(DeleteError::Exit(code))),
                _ => finished(Err(DeleteError::Unexpected)),
            },
            DeleteStage::Finished => waiting(DeleteStage::Finished),
        }
    }
}

/// The result of an uninstall comes with the step that ends it, and with
/// no other step.
pub proof fn lemma_result_ends_the_uninstall(stage: DeleteStage, event: DeleteEvent)
    ensures
        step_result(stage, event) is Some <==> stage != DeleteStage::Finished && next_stage(
            stage,
            event,
        ) == DeleteStage::Finished,
{
}

/// Once an uninstall has ended, it stays ended, shows nothing more and
/// gives no second result: whatever was shown was shown before the result.
pub proof fn lemma_nothing_follows_the_result(
    name: Seq<char>,
    kind: PackageType,
    event: DeleteEvent,
)
    ensures
        next_stage(DeleteStage::Finished, event) == DeleteStage::Finished,
        step_lines(name, kind, DeleteStage::Finished, event).len() == 0,
        step_result(DeleteStage::Finished, event) is None,
{
}

/// A package manager that cannot be started ends the uninstall at once: no
/// line is shown, and the failure carries no exit code.
pub proof fn lemma_missing_manager_shows_nothing(
    name: Seq<char>,
    kind: PackageType,
    reason: String,
)
    ensures
        step_lines(name, kind, DeleteStage::Spawning, DeleteEvent::SpawnFailed(reason)).len() == 0,
        step_result(DeleteStage::Spawning, DeleteEvent::SpawnFailed(reason)) == Some(
            Err::<(), DeleteErrorView>(DeleteErrorView::Spawn(reason@)),
        ),
        next_stage(DeleteStage::Spawning, DeleteEvent::SpawnFailed(reason))
            == DeleteStage::Finished,
{
}

} // verus!
