use brew_usage::package::{Package, PackageType};
use brew_usage::scanner::HomebrewScanner;
use brew_usage::uninstall::{DeleteError, DeleteEvent, DeleteStage};

fn del_formula() -> Package {
    Package::new("wget".to_string(), PackageType::Formula, None, None)
}

fn del_cask() -> Package {
    Package::new("firefox".to_string(), PackageType::Cask, None, None)
}

#[test]
fn the_uninstall_command_names_the_kind_and_the_package() {
    assert_eq!(
        HomebrewScanner::uninstall_command(&del_formula()),
        vec!["uninstall", "--formula", "wget"]
    );
    assert_eq!(
        HomebrewScanner::uninstall_command(&del_cask()),
        vec!["uninstall", "--cask", "firefox"]
    );
}

#[test]
fn a_package_manager_that_is_missing_shows_nothing_and_fails_without_a_code() {
    let step = HomebrewScanner::delete_package_with_output(
        &del_formula(),
        DeleteStage::Spawning,
        DeleteEvent::SpawnFailed("No such file or directory (os error 2)".to_string()),
    );
    assert!(step.lines.is_empty());
    assert_eq!(step.stage, DeleteStage::Finished);
    let error = step.result.expect("the uninstall has ended").unwrap_err();
    assert_eq!(error.exit_code(), None);
    assert!(matches!(error, DeleteError::Spawn(_)));
    assert_eq!(
        error.message(),
        "Failed to start brew uninstall: No such file or directory (os error 2)"
    );

    let later = HomebrewScanner::delete_package_with_output(
        &del_formula(),
        step.stage,
        DeleteEvent::OutputLine("late".to_string()),
    );
    assert!(later.lines.is_empty());
    assert!(later.result.is_none());
    assert_eq!(later.stage, DeleteStage::Finished);
}

#[test]
fn a_running_uninstall_shows_its_command_first() {
    let step = HomebrewScanner::delete_package_with_output(
        &del_formula(),
        DeleteStage::Spawning,
        DeleteEvent::Spawned,
    );
    assert_eq!(step.lines, vec!["$ brew uninstall --formula wget"]);
    assert_eq!(step.stage, DeleteStage::ReadingOutput);
    assert!(step.result.is_none());
    let step = HomebrewScanner::delete_package_with_output(
        &del_cask(),
        DeleteStage::Spawning,
        DeleteEvent::Spawned,
    );
    assert_eq!(step.lines, vec!["$ brew uninstall --cask firefox"]);
}

#[test]
fn an_uninstall_that_goes_well() {
    let package = del_cask();
    let mut shown: Vec<String> = Vec::new();
    let mut stage = DeleteStage::Spawning;
    let mut results = Vec::new();
    let events = vec![
        DeleteEvent::Spawned,
        DeleteEvent::OutputLine("==> Uninstalling Cask firefox".to_string()),
        DeleteEvent::OutputLine("==> Purging files".to_string()),
        DeleteEvent::OutputClosed,
        DeleteEvent::Exited { success: true, code: Some(0) },
    ];
    for event in events {
        assert!(results.is_empty());
        let step = HomebrewScanner::delete_package_with_output(&package, stage, event);
        shown.extend(step.lines);
        stage = step.stage;
        if let Some(result) = step.result {
            results.push(result);
        }
    }
    assert_eq!(
        shown,
        vec![
            "$ brew uninstall --cask firefox",
            "==> Uninstalling Cask firefox",
            "==> Purging files",
            "",
            "✅ Uninstall completed successfully!",
        ]
    );
    assert_eq!(stage, DeleteStage::Finished);
    assert_eq!(results.len(), 1);
    assert!(results[0].is_ok());
}

#[test]
fn an_uninstall_that_ends_with_a_failure_shows_its_errors() {
    let package = del_formula();
    let mut shown: Vec<String> = Vec::new();
    let mut stage = DeleteStage::Spawning;
    let mut results = Vec::new();
    let events = vec![
        DeleteEvent::Spawned,
        DeleteEvent::OutputLine("trying".to_string()),
        DeleteEvent::OutputClosed,
        DeleteEvent::Exited { success: false, code: Some(1) },
        DeleteEvent::ErrorLine("Error: No such keg".to_string()),
        DeleteEvent::ErrorLine("giving up".to_string()),
        DeleteEvent::ErrorsClosed,
    ];
    for event in events {
        assert!(results.is_empty());
        let step = HomebrewScanner::delete_package_with_output(&package, stage, event);
        shown.extend(step.lines);
        stage = step.stage;
        if let Some(result) = step.result {
            results.push(result);
        }
    }
    assert_eq!(
        shown,
        vec!["$ brew uninstall --formula wget", "trying", "Error: No such keg", "giving up"]
    );
    assert_eq!(stage, DeleteStage::Finished);
    assert_eq!(results.len(), 1);
    let error = results.pop().expect("one result").unwrap_err();
    assert_eq!(error.exit_code(), Some(1));
    assert_eq!(error.message(), "brew uninstall failed with exit code: Some(1)");
}

#[test]
fn a_failure_without_an_exit_code() {
    let step = HomebrewScanner::delete_package_with_output(
        &del_formula(),
        DeleteStage::Waiting,
        DeleteEvent::Exited { success: false, code: None },
    );
    assert_eq!(step.stage, DeleteStage::ReadingErrors(None));
    assert!(step.lines.is_empty());
    assert!(step.result.is_none());
    let step = HomebrewScanner::delete_package_with_output(
        &del_formula(),
        step.stage,
        DeleteEvent::ErrorsClosed,
    );
    let error = step.result.expect("the uninstall has ended").unwrap_err();
    assert_eq!(error.exit_code(), None);
    assert_eq!(error.message(), "brew uninstall failed with exit code: None");
}

#[test]
fn a_negative_exit_code_is_shown_with_its_sign() {
    assert_eq!(
        DeleteError::Exit(Some(-9)).message(),
        "brew uninstall failed with exit code: Some(-9)"
    );
    assert_eq!(
        DeleteError::Exit(Some(i32::MIN)).message(),
        "brew uninstall failed with exit code: Some(-2147483648)"
    );
    assert_eq!(DeleteError::Exit(Some(-9)).exit_code(), Some(-9));
}

#[test]
fn an_end_that_cannot_be_waited_for_fails_the_uninstall() {
    let step = HomebrewScanner::delete_package_with_output(
        &del_formula(),
        DeleteStage::Waiting,
        DeleteEvent::WaitFailed("interrupted".to_string()),
    );
    assert_eq!(step.stage, DeleteStage::Finished);
    assert!(step.lines.is_empty());
    let error = step.result.expect("the uninstall has ended").unwrap_err();
    assert!(matches!(error, DeleteError::Wait(_)));
    assert_eq!(error.exit_code(), None);
    assert_eq!(error.message(), "Failed to wait for brew process: interrupted");
}

#[test]
fn an_event_out_of_turn_fails_the_uninstall() {
    let step = HomebrewScanner::delete_package_with_output(
        &del_formula(),
        DeleteStage::ReadingOutput,
        DeleteEvent::Spawned,
    );
    assert_eq!(step.stage, DeleteStage::Finished);
    assert!(step.lines.is_empty());
    let error = step.result.expect("the uninstall has ended").unwrap_err();
    assert!(matches!(error, DeleteError::Unexpected));
    assert_eq!(error.message(), "Unexpected answer during the uninstall");
    assert_eq!(error.exit_code(), None);
}
