//! What the package manager is asked and how its answers are read.

use crate::package::PackageType;
use crate::scanner::HomebrewScanner;
use crate::text::{texts, trim_string, trimmed, trimmed_line_strings, trimmed_lines};
use vstd::prelude::*;
use vstd::string::*;
use vstd::utf8::{decode_utf8, valid_utf8};

verus! {

/// How a run of the package manager ended.
#[derive(Debug)]
pub enum CommandOutput {
    /// The process could not be started; the text says why.
    Failed(String),
    /// The process ran to its end.
    Exited {
        /// Whether it reported success.
        success: bool,
        /// What it wrote to its standard output.
        stdout: Vec<u8>,
    },
}

/// Why a scan failed.
#[derive(Debug)]
pub enum ScanError {
    /// The package manager is not there or does not tell its install root.
    ManagerUnavailable(String),
    /// The package manager could not be asked for a list, or its answer
    /// cannot be read.
    ManagerOutput(String),
}

impl ScanError {
    /// The one line that tells the operator what failed.
    pub open spec fn spec_message(self) -> Seq<char> {
        match self {
            ScanError::ManagerUnavailable(message) => message@,
            ScanError::ManagerOutput(message) => message@,
        }
    }

    /// The one line that tells the operator what failed.
    pub fn message(&self) -> (text: &str)
        ensures
            text@ == self.spec_message(),
    {
        match self {
            ScanError::ManagerUnavailable(message) => message.as_str(),
            ScanError::ManagerOutput(message) => message.as_str(),
        }
    }

    /// The one line that tells the operator what failed, taken out of the
    /// error.
    pub fn into_message(self) -> (text: String)
        ensures
            text@ == self.spec_message(),
    {
        match self {
            ScanError::ManagerUnavailable(message) => message,
            ScanError::ManagerOutput(message) => message,
        }
    }
}

/// Whether `message` complains that the output named `what` is no UTF-8:
/// it opens with fixed words, and what follows is for the decoder to say.
pub open spec fn is_decode_complaint(what: Seq<char>, message: Seq<char>) -> bool {
    ("Invalid UTF-8 in "@ + what + " output: "@).is_prefix_of(message)
}

/// Reads `bytes` as UTF-8. Bytes that are none are answered with a
/// complaint that names the output by `what`.
pub fn decode_output(bytes: Vec<u8>, what: &str) -> (decoded: Result<String, String>)
    ensures
        decoded is Ok <==> valid_utf8(bytes@),
        decoded matches Ok(text) ==> text@ == decode_utf8(bytes@),
        decoded matches Err(message) ==> is_decode_complaint(what@, message@),
{
    match String::from_utf8(bytes) {
        Ok(text) => Ok(text),
        Err(error) => {
            let mut message = String::from_str("Invalid UTF-8 in ");
            message.append(what);
            message.append(" output: ");
            let detail = error.to_string();
            message.append(detail.as_str());
            Err(message)
        },
    }
}

/// Whether `outcome` is what the query for the install root comes to, given
/// how the run ended: the output without the white space around it where the
/// run succeeded and wrote UTF-8, and else a message that says what failed.
pub open spec fn is_prefix_outcome(
    output: CommandOutput,
    outcome: Result<Seq<char>, Seq<char>>,
) -> bool {
    match output {
        CommandOutput::Failed(reason) => outcome == Err::<Seq<char>, Seq<char>>(
            "failed to run 'brew --prefix': "@ + reason@,
        ),
        CommandOutput::Exited { success, stdout } => if !success {
            outcome == Err::<Seq<char>, Seq<char>>("Hombrew not found or not properly installed."@)
        } else if valid_utf8(stdout@) {
            outcome == Ok::<Seq<char>, Seq<char>>(trimmed(decode_utf8(stdout@)))
        } else {
            outcome matches Err(message) && is_decode_complaint("brew --prefix"@, message)
        },
    }
}

/// Whether the query for the install root has failed.
pub open spec fn prefix_fails(output: CommandOutput) -> bool {
    match output {
        CommandOutput::Failed(_) => true,
        CommandOutput::Exited { success, stdout } => !success || !valid_utf8(stdout@),
    }
}

/// Whether a list query has failed. A run that reports failure has not: it
/// lists nothing.
pub open spec fn list_fails(output: CommandOutput) -> bool {
    match output {
        CommandOutput::Failed(_) => true,
        CommandOutput::Exited { success, stdout } => success && !valid_utf8(stdout@),
    }
}

/// The names that a list query that has not failed lists: the lines of the
/// output, each without the white space around it, the empty ones left out.
pub open spec fn listed_names(output: CommandOutput) -> Seq<Seq<char>> {
    match output {
        CommandOutput::Failed(_) => Seq::empty(),
        CommandOutput::Exited { success, stdout } => if success {
            trimmed_lines(decode_utf8(stdout@))
        } else {
            Seq::empty()
        },
    }
}

/// Whether `message` says why the list query named `what` has failed: the
/// words of `opening` and the reason where the run did not start, and a
/// complaint about the encoding where its output is no UTF-8.
pub open spec fn is_list_failure(
    output: CommandOutput,
    opening: Seq<char>,
    what: Seq<char>,
    message: Seq<char>,
) -> bool {
    match output {
        CommandOutput::Failed(reason) => message == opening + reason@,
        CommandOutput::Exited { success, stdout } => success && !valid_utf8(stdout@)
            && is_decode_complaint(what, message),
    }
}

/// Whether `message` says why the two list queries have failed. The first
/// query that has failed is the one that it speaks of.
pub open spec fn is_lists_failure(
    formulas: CommandOutput,
    casks: CommandOutput,
    message: Seq<char>,
) -> bool {
    if list_fails(formulas) {
        is_list_failure(formulas, "Failed to get foruma list: "@, "formulas"@, message)
    } else {
        is_list_failure(casks, "Failed to get cask list: "@, "casks"@, message)
    }
}

fn list_names(output: CommandOutput, opening: &str, what: &str) -> (names: Result<
    Vec<String>,
    String,
>)
    ensures
        names is Ok <==> !list_fails(output),
        names matches Ok(lines) ==> texts(lines@) == listed_names(output),
        names matches Err(message) ==> is_list_failure(output, opening@, what@, message@),
{
    match output {
        CommandOutput::Failed(reason) => {
            let mut message = String::from_str(opening);
            message.append(reason.as_str());
            Err(message)
        },
        CommandOutput::Exited { success, stdout } => {
            if success {
                match decode_output(stdout, what) {
                    Ok(text) => Ok(trimmed_line_strings(text.as_str())),
                    Err(message) => Err(message),
                }
            } else {
                let none: Vec<String> = Vec::new();
                assert(texts(none@) =~= Seq::<Seq<char>>::empty());
                Ok(none)
            }
        },
    }
}

/// The arguments with which the package manager tells its install root.
pub open spec fn prefix_arguments() -> Seq<Seq<char>> {
    seq!["--prefix"@]
}

/// The arguments with which the package manager lists what is installed of
/// the kind `kind`.
pub open spec fn list_arguments(kind: PackageType) -> Seq<Seq<char>> {
    match kind {
        PackageType::Formula => seq!["list"@, "--formula"@],
        PackageType::Cask => seq!["list"@, "--cask"@],
    }
}

/// The name of the program that is the package manager.
pub fn manager_program() -> (program: &'static str)
    ensures
        program@ == "brew"@,
{
    "brew"
}

/// The arguments with which to ask the package manager for its install
/// root.
pub fn prefix_command() -> (arguments: Vec<String>)
    ensures
        texts(arguments@) == prefix_arguments(),
{
    let mut arguments: Vec<String> = Vec::new();
    arguments.push(String::from_str("--prefix"));
    assert(texts(arguments@) =~= prefix_arguments());
    arguments
}

/// The arguments with which to ask the package manager for what is
/// installed of the kind `kind`.
pub fn list_command(kind: PackageType) -> (arguments: Vec<String>)
    ensures
        texts(arguments@) == list_arguments(kind),
{
    let mut arguments: Vec<String> = Vec::new();
    arguments.push(String::from_str("list"));
    match kind {
        PackageType::Formula => arguments.push(String::from_str("--formula")),
        PackageType::Cask => arguments.push(String::from_str("--cask")),
    }
    assert(texts(arguments@) =~= list_arguments(kind));
    arguments
}

impl HomebrewScanner {
    /// What the query for the install root comes to: the root, which is the
    /// output without the white space around it, or why there is none.
    pub fn get_homebrew_prefix(output: CommandOutput) -> (prefix: Result<String, ScanError>)
        ensures
            prefix is Ok <==> !prefix_fails(output),
            prefix matches Ok(root) ==> is_prefix_outcome(output, Ok(root@)),
            prefix matches Err(error) ==> error is ManagerUnavailable && is_prefix_outcome(
                output,
                Err(error.spec_message()),
            ),
    {
        match output {
            CommandOutput::Failed(reason) => {
                let mut message = String::from_str("failed to run 'brew --prefix': ");
                message.append(reason.as_str());
                Err(ScanError::ManagerUnavailable(message))
            },
            CommandOutput::Exited { success, stdout } => {
                if !success {
                    Err(
                        ScanError::ManagerUnavailable(
                            String::from_str("Hombrew not found or not properly installed."),
                        ),
                    )
                } else {
                    match decode_output(stdout, "brew --prefix") {
                        Ok(text) => Ok(trim_string(text.as_str())),
                        Err(message) => Err(ScanError::ManagerUnavailable(message)),
                    }
                }
            },
        }
    }

    /// What the two list queries come to: the names of the installed
    /// formulas and of the installed casks, or why they are not known. A
    /// query that ran and reported failure lists nothing.
    pub fn get_installed_packages(formulas: CommandOutput, casks: CommandOutput) -> (lists: Result<
        (Vec<String>, Vec<String>),
        ScanError,
    >)
        ensures
            lists is Ok <==> !list_fails(formulas) && !list_fails(casks),
            lists matches Ok(names) ==> texts(names.0@) == listed_names(formulas) && texts(
                names.1@,
            ) == listed_names(casks),
            lists matches Err(error) ==> error is ManagerOutput && is_lists_failure(
                formulas,
                casks,
                error.spec_message(),
            ),
    {
        let formula_names = match list_names(formulas, "Failed to get foruma list: ", "formulas") {
            Ok(names) => names,
            Err(message) => {
                return Err(ScanError::ManagerOutput(message));
            },
        };
        let cask_names = match list_names(casks, "Failed to get cask list: ", "casks") {
            Ok(names) => names,
            Err(message) => {
                return Err(ScanError::ManagerOutput(message));
            },
        };
        Ok((formula_names, cask_names))
    }
}

} // verus!
