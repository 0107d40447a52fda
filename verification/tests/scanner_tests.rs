use brew_usage::package::{Package, PackageType, Timestamp};
use brew_usage::manager::{
    decode_output, list_command, manager_program, prefix_command, CommandOutput, ScanError,
};
use brew_usage::probe::{names_application, probe_request, DirEntry, Listing};
use brew_usage::scanner::{clock_string, HomebrewScanner, ScanAction, ScanEvent, ScanningState};

fn scan_prefix(output: CommandOutput) -> Result<String, String> {
    HomebrewScanner::get_homebrew_prefix(output).map_err(|error| {
        assert!(matches!(error, ScanError::ManagerUnavailable(_)));
        error.into_message()
    })
}

fn scan_lists(formulas: CommandOutput, casks: CommandOutput) -> Result<(Vec<String>, Vec<String>), String> {
    HomebrewScanner::get_installed_packages(formulas, casks).map_err(|error| {
        assert!(matches!(error, ScanError::ManagerOutput(_)));
        error.into_message()
    })
}

fn scan_ok(text: &str) -> CommandOutput {
    CommandOutput::Exited { success: true, stdout: text.as_bytes().to_vec() }
}

fn scan_refused(text: &str) -> CommandOutput {
    CommandOutput::Exited { success: false, stdout: text.as_bytes().to_vec() }
}

fn scan_not_run(reason: &str) -> CommandOutput {
    CommandOutput::Failed(reason.to_string())
}

fn scan_entry(path: &str, name: &str, is_dir: bool) -> DirEntry {
    DirEntry { path: path.to_string(), name: Some(name.to_string()), is_dir }
}

fn scan_nothing() -> Listing {
    Listing { direct: None, entries: Vec::new() }
}

fn scan_at(secs: i64) -> Timestamp {
    Timestamp::new(secs, 0).expect("nanoseconds within a second")
}

fn scan_names(items: &[Package]) -> Vec<String> {
    items.iter().map(|p| p.name().to_string()).collect()
}

/// A scanner that has been told the install root and the two lists.
fn scan_enumerated(formulas: &str, casks: &str) -> (HomebrewScanner, ScanAction) {
    let (scanner, first) = HomebrewScanner::new().start_scan();
    assert!(matches!(first, ScanAction::QueryPrefix));
    let (scanner, second) = scanner.scan_packages(ScanEvent::PrefixQueried(scan_ok("/opt/homebrew\n")));
    assert!(matches!(second, ScanAction::QueryLists));
    scanner.scan_packages(ScanEvent::ListsQueried {
        formulas: scan_ok(formulas),
        casks: scan_ok(casks),
    })
}

#[test]
fn a_new_state_has_found_nothing() {
    let state = ScanningState::new();
    assert_eq!(state.packages_found, 0);
    assert_eq!(state.packages_scanned, 0);
    assert_eq!(state.total_packages, 0);
    assert_eq!(state.current_path, "Initializing...");
    assert!(!state.is_paused);
    assert!(!state.scan_complete);
    assert!(state.error_message.is_none());
}

#[test]
fn progress_in_whole_percent() {
    let mut state = ScanningState::new();
    assert_eq!(state.progress_percentage(), 0);
    state.total_packages = 3;
    state.packages_scanned = 1;
    assert_eq!(state.progress_percentage(), 33);
    state.packages_scanned = 2;
    assert_eq!(state.progress_percentage(), 66);
    state.packages_scanned = 3;
    assert_eq!(state.progress_percentage(), 100);
    state.total_packages = 100;
    state.packages_scanned = 29;
    assert_eq!(state.progress_percentage(), 29);
    state.total_packages = 1;
    state.packages_scanned = 1000;
    assert_eq!(state.progress_percentage(), 65535);
    state.total_packages = usize::MAX;
    state.packages_scanned = usize::MAX;
    assert_eq!(state.progress_percentage(), 100);
}

#[test]
fn seconds_as_minutes_and_seconds() {
    assert_eq!(clock_string(0), "00:00");
    assert_eq!(clock_string(65), "01:05");
    assert_eq!(clock_string(599), "09:59");
    assert_eq!(clock_string(3600), "60:00");
    assert_eq!(clock_string(6000 + 7), "100:07");
}

#[test]
fn elapsed_time_of_a_state_just_made() {
    let state = ScanningState::new();
    assert!(state.elapsed_time().as_secs() < 5);
    let text = state.format_elapsed();
    assert_eq!(text.len(), 5);
    assert!(text.starts_with("00:0"));
}

#[test]
fn a_copy_of_a_state_holds_the_same() {
    let mut state = ScanningState::new();
    state.packages_found = 4;
    state.packages_scanned = 5;
    state.total_packages = 9;
    state.is_paused = true;
    state.error_message = Some("broken".to_string());
    let copy = state.clone();
    assert_eq!(copy.packages_found, 4);
    assert_eq!(copy.packages_scanned, 5);
    assert_eq!(copy.total_packages, 9);
    assert_eq!(copy.current_path, state.current_path);
    assert_eq!(copy.start_time, state.start_time);
    assert!(copy.is_paused);
    assert!(!copy.scan_complete);
    assert_eq!(copy.error_message.as_deref(), Some("broken"));
}

#[test]
fn output_that_is_utf8_is_decoded() {
    assert_eq!(decode_output("héllo ✓".as_bytes().to_vec(), "formulas"), Ok("héllo ✓".to_string()));
    assert_eq!(decode_output(Vec::new(), "formulas"), Ok(String::new()));
}

#[test]
fn output_that_is_no_utf8_is_complained_about() {
    let complaint = decode_output(vec![b'a', 0xff, b'b'], "formulas").unwrap_err();
    assert!(complaint.starts_with("Invalid UTF-8 in formulas output: "));
    assert!(complaint.len() > "Invalid UTF-8 in formulas output: ".len());
}

#[test]
fn the_install_root_is_the_output_without_white_space() {
    assert_eq!(
        scan_prefix(scan_ok("  /opt/homebrew\n")),
        Ok("/opt/homebrew".to_string())
    );
    assert_eq!(
        scan_prefix(scan_ok("/usr/local/my brew\r\n")),
        Ok("/usr/local/my brew".to_string())
    );
    assert_eq!(scan_prefix(scan_ok("")), Ok(String::new()));
}

#[test]
fn the_install_root_query_can_fail_in_three_ways() {
    assert_eq!(
        scan_prefix(scan_not_run("No such file or directory")),
        Err("failed to run 'brew --prefix': No such file or directory".to_string())
    );
    assert_eq!(
        scan_prefix(scan_refused("/opt/homebrew\n")),
        Err("Hombrew not found or not properly installed.".to_string())
    );
    let bad = CommandOutput::Exited { success: true, stdout: vec![0xc3, 0x28] };
    let complaint = scan_prefix(bad).unwrap_err();
    assert!(complaint.starts_with("Invalid UTF-8 in brew --prefix output: "));
}

#[test]
fn the_lists_are_the_lines_that_are_not_empty() {
    let lists = scan_lists(
        scan_ok("wget\n  jq  \n\n\t\nripgrep"),
        scan_ok("firefox\r\niterm2\r\n"),
    );
    assert_eq!(
        lists,
        Ok((
            vec!["wget".to_string(), "jq".to_string(), "ripgrep".to_string()],
            vec!["firefox".to_string(), "iterm2".to_string()],
        ))
    );
}

#[test]
fn a_list_query_that_reports_failure_lists_nothing() {
    let lists = scan_lists(scan_refused("wget\n"), scan_ok("firefox\n"));
    assert_eq!(lists, Ok((Vec::new(), vec!["firefox".to_string()])));
    let lists = scan_lists(scan_ok("wget\n"), scan_refused("x"));
    assert_eq!(lists, Ok((vec!["wget".to_string()], Vec::new())));
}

#[test]
fn a_list_query_that_did_not_run_fails_the_lists() {
    assert_eq!(
        scan_lists(scan_not_run("gone"), scan_ok("firefox\n")),
        Err("Failed to get foruma list: gone".to_string())
    );
    assert_eq!(
        scan_lists(scan_ok("wget\n"), scan_not_run("gone")),
        Err("Failed to get cask list: gone".to_string())
    );
    assert_eq!(
        scan_lists(scan_not_run("first"), scan_not_run("second")),
        Err("Failed to get foruma list: first".to_string())
    );
}

#[test]
fn a_list_that_is_no_utf8_fails_the_lists() {
    let bad = CommandOutput::Exited { success: true, stdout: vec![b'w', 0x80] };
    let complaint = scan_lists(bad, scan_ok("firefox\n")).unwrap_err();
    assert!(complaint.starts_with("Invalid UTF-8 in formulas output: "));
    let bad = CommandOutput::Exited { success: true, stdout: vec![b'w', 0x80] };
    let complaint = scan_lists(scan_ok("wget\n"), bad).unwrap_err();
    assert!(complaint.starts_with("Invalid UTF-8 in casks output: "));
    let ignored = CommandOutput::Exited { success: false, stdout: vec![0xff] };
    assert_eq!(
        scan_lists(ignored, scan_ok("")),
        Ok((Vec::new(), Vec::new()))
    );
}

#[test]
fn the_places_of_a_formula_and_of_a_cask() {
    let formula = probe_request("/opt/homebrew", "wget", PackageType::Formula);
    assert_eq!(formula.name, "wget");
    assert_eq!(formula.kind, PackageType::Formula);
    assert_eq!(formula.direct, vec!["/opt/homebrew", "bin", "wget"]);
    assert_eq!(formula.listed, vec!["/opt/homebrew", "Cellar", "wget"]);
    let cask = probe_request("/opt/homebrew", "firefox", PackageType::Cask);
    assert_eq!(cask.name, "firefox");
    assert_eq!(cask.kind, PackageType::Cask);
    assert_eq!(cask.direct, vec!["/opt/homebrew", "Caskroom", "firefox"]);
    assert_eq!(cask.listed, vec!["/Applications"]);
}

#[test]
fn a_formula_shows_in_its_versions_and_then_in_its_link() {
    let listing = Listing {
        direct: Some("/opt/homebrew/bin/wget".to_string()),
        entries: vec![
            scan_entry("/opt/homebrew/Cellar/wget/1.21", "1.21", true),
            scan_entry("/opt/homebrew/Cellar/wget/.DS_Store", ".DS_Store", false),
            scan_entry("/opt/homebrew/Cellar/wget/1.24", "1.24", true),
        ],
    };
    assert_eq!(
        HomebrewScanner::find_package_paths("wget", PackageType::Formula, &listing),
        vec![
            "/opt/homebrew/Cellar/wget/1.21",
            "/opt/homebrew/Cellar/wget/1.24",
            "/opt/homebrew/bin/wget",
        ]
    );
    let only_link = Listing { direct: Some("/opt/homebrew/bin/wget".to_string()), entries: Vec::new() };
    assert_eq!(
        HomebrewScanner::find_package_paths("wget", PackageType::Formula, &only_link),
        vec!["/opt/homebrew/bin/wget"]
    );
    assert!(HomebrewScanner::find_package_paths("wget", PackageType::Formula, &scan_nothing()).is_empty());
}

#[test]
fn a_cask_shows_in_the_cask_room_and_then_in_the_applications() {
    let listing = Listing {
        direct: Some("/opt/homebrew/Caskroom/firefox".to_string()),
        entries: vec![
            scan_entry("/Applications/Safari.app", "Safari.app", true),
            scan_entry("/Applications/Firefox.app", "Firefox.app", true),
            DirEntry { path: "/Applications/odd".to_string(), name: None, is_dir: true },
            scan_entry("/Applications/My FIREFOX Nightly.app", "My FIREFOX Nightly.app", false),
        ],
    };
    assert_eq!(
        HomebrewScanner::find_package_paths("firefox", PackageType::Cask, &listing),
        vec![
            "/opt/homebrew/Caskroom/firefox",
            "/Applications/Firefox.app",
            "/Applications/My FIREFOX Nightly.app",
        ]
    );
    assert_eq!(
        HomebrewScanner::find_package_paths("FireFox", PackageType::Cask, &listing),
        vec![
            "/opt/homebrew/Caskroom/firefox",
            "/Applications/Firefox.app",
            "/Applications/My FIREFOX Nightly.app",
        ]
    );
    let no_room = Listing {
        direct: None,
        entries: vec![scan_entry("/Applications/Firefox.app", "Firefox.app", true)],
    };
    assert_eq!(
        HomebrewScanner::find_package_paths("firefox", PackageType::Cask, &no_room),
        vec!["/Applications/Firefox.app"]
    );
}

#[test]
fn an_application_goes_by_a_name_that_holds_the_packages() {
    assert!(names_application("firefox.app", "firefox"));
    assert!(names_application("my firefox", "firefox"));
    assert!(names_application("anything", ""));
    assert!(names_application("", ""));
    assert!(!names_application("firefo", "firefox"));
    assert!(!names_application("", "x"));
    assert!(!names_application("safari.app", "firefox"));
    assert!(names_application("aab", "ab"));
}

#[test]
fn a_new_scanner_waits_to_be_started() {
    let scanner = HomebrewScanner::new();
    let state = scanner.get_state();
    assert_eq!(state.current_path, "Initializing...");
    assert_eq!(state.total_packages, 0);
    assert!(!state.scan_complete);
    assert!(scanner.get_packages().is_empty());
    let (scanner, action) = scanner.scan_packages(ScanEvent::AccessRead(None));
    assert!(matches!(action, ScanAction::Stop));
    assert!(!scanner.get_state().scan_complete);
    assert!(scanner.get_state().error_message.is_none());
}

#[test]
fn a_scanner_is_started_once() {
    let (scanner, first) = HomebrewScanner::new().start_scan();
    assert!(matches!(first, ScanAction::QueryPrefix));
    assert_eq!(scanner.get_state().current_path, "Getting Hombrew prefix...");
    let (scanner, again) = scanner.start_scan();
    assert!(matches!(again, ScanAction::Stop));
    assert_eq!(scanner.get_state().current_path, "Getting Hombrew prefix...");
    assert!(!scanner.get_state().scan_complete);
}

#[test]
fn pausing_flips_the_flag_and_nothing_else() {
    let mut scanner = HomebrewScanner::new();
    scanner.toggle_pause();
    assert!(scanner.get_state().is_paused);
    assert_eq!(scanner.get_state().current_path, "Initializing...");
    scanner.toggle_pause();
    assert!(!scanner.get_state().is_paused);
}

#[test]
fn a_scan_goes_through_the_formulas_and_then_the_casks() {
    let (scanner, action) = scan_enumerated("wget\njq\n", "firefox\n");
    let state = scanner.get_state();
    assert_eq!(state.total_packages, 3);
    assert_eq!(state.packages_scanned, 0);
    assert_eq!(state.packages_found, 0);
    assert_eq!(state.current_path, "Scanning formula: wget");
    match action {
        ScanAction::List(request) => {
            assert_eq!(request.name, "wget");
            assert_eq!(request.kind, PackageType::Formula);
            assert_eq!(request.listed, vec!["/opt/homebrew", "Cellar", "wget"]);
            assert_eq!(request.direct, vec!["/opt/homebrew", "bin", "wget"]);
        }
        other => panic!("unexpected action {:?}", other),
    }

    let listing = Listing {
        direct: Some("/opt/homebrew/bin/wget".to_string()),
        entries: vec![scan_entry("/opt/homebrew/Cellar/wget/1.21", "1.21", true)],
    };
    let (scanner, action) = scanner.scan_packages(ScanEvent::Listed(listing));
    match action {
        ScanAction::ReadAccess { path } => assert_eq!(path, "/opt/homebrew/Cellar/wget/1.21"),
        other => panic!("unexpected action {:?}", other),
    }
    assert_eq!(scanner.get_state().packages_scanned, 0);
    assert_eq!(scanner.get_state().packages_found, 0);
    assert_eq!(scanner.get_state().current_path, "Scanning formula: wget");

    let (scanner, action) = scanner.scan_packages(ScanEvent::AccessRead(Some(scan_at(500))));
    assert!(matches!(action, ScanAction::List(_)));
    let state = scanner.get_state();
    assert_eq!(state.packages_found, 1);
    assert_eq!(state.packages_scanned, 1);
    assert_eq!(state.current_path, "Scanning formula: jq");
    assert!(scanner.get_packages().is_empty());

    let (scanner, action) = scanner.scan_packages(ScanEvent::Listed(scan_nothing()));
    match action {
        ScanAction::List(request) => {
            assert_eq!(request.name, "firefox");
            assert_eq!(request.kind, PackageType::Cask);
            assert_eq!(request.listed, vec!["/Applications"]);
        }
        other => panic!("unexpected action {:?}", other),
    }
    let state = scanner.get_state();
    assert_eq!(state.packages_found, 2);
    assert_eq!(state.packages_scanned, 2);
    assert_eq!(state.current_path, "Scanning cask: firefox");

    let listing = Listing {
        direct: None,
        entries: vec![scan_entry("/Applications/Firefox.app", "Firefox.app", true)],
    };
    let (scanner, action) = scanner.scan_packages(ScanEvent::Listed(listing));
    assert!(matches!(action, ScanAction::ReadAccess { .. }));
    let (scanner, action) = scanner.scan_packages(ScanEvent::AccessRead(Some(scan_at(900))));
    assert!(matches!(action, ScanAction::Stop));

    let state = scanner.get_state();
    assert!(state.scan_complete);
    assert!(state.error_message.is_none());
    assert_eq!(state.current_path, "Scan complete!");
    assert_eq!(state.packages_found, 3);
    assert_eq!(state.packages_scanned, 3);
    assert_eq!(state.total_packages, 3);
    let packages = scanner.get_packages();
    assert_eq!(scan_names(&packages), vec!["wget", "jq", "firefox"]);
    assert_eq!(packages[0].kind(), PackageType::Formula);
    assert_eq!(packages[0].accessed_at(), Some(scan_at(500)));
    assert_eq!(packages[0].last_accessed_path(), "/opt/homebrew/Cellar/wget/1.21");
    assert!(!packages[1].has_been_accessed());
    assert_eq!(packages[2].kind(), PackageType::Cask);
    assert_eq!(packages[2].last_accessed_path(), "/Applications/Firefox.app");
}

#[test]
fn the_first_candidate_path_is_the_one_that_counts() {
    let (scanner, _) = scan_enumerated("wget\n", "");
    let listing = Listing {
        direct: Some("/opt/homebrew/bin/wget".to_string()),
        entries: vec![
            scan_entry("/opt/homebrew/Cellar/wget/1.0", "1.0", true),
            scan_entry("/opt/homebrew/Cellar/wget/2.0", "2.0", true),
        ],
    };
    let (scanner, action) = scanner.scan_packages(ScanEvent::Listed(listing));
    match action {
        ScanAction::ReadAccess { path } => assert_eq!(path, "/opt/homebrew/Cellar/wget/1.0"),
        other => panic!("unexpected action {:?}", other),
    }
    let (scanner, _) = scanner.scan_packages(ScanEvent::AccessRead(Some(scan_at(7))));
    let packages = scanner.get_packages();
    assert_eq!(packages[0].last_accessed_path(), "/opt/homebrew/Cellar/wget/1.0");
    assert_eq!(packages[0].accessed_at(), Some(scan_at(7)));
}

#[test]
fn a_path_without_an_access_time_leaves_the_package_never_used() {
    let (scanner, _) = scan_enumerated("wget\n", "");
    let listing = Listing { direct: Some("/opt/homebrew/bin/wget".to_string()), entries: Vec::new() };
    let (scanner, _) = scanner.scan_packages(ScanEvent::Listed(listing));
    let (scanner, action) = scanner.scan_packages(ScanEvent::AccessRead(None));
    assert!(matches!(action, ScanAction::Stop));
    let packages = scanner.get_packages();
    assert_eq!(packages.len(), 1);
    assert!(!packages[0].has_been_accessed());
    assert_eq!(packages[0].last_accessed_path(), "");
    assert_eq!(scanner.get_state().packages_found, 1);
}

#[test]
fn a_scan_of_nothing_ends_at_once() {
    let (scanner, action) = scan_enumerated("", "\n\n");
    assert!(matches!(action, ScanAction::Stop));
    let state = scanner.get_state();
    assert!(state.scan_complete);
    assert!(state.error_message.is_none());
    assert_eq!(state.total_packages, 0);
    assert_eq!(state.packages_scanned, 0);
    assert_eq!(state.progress_percentage(), 0);
    assert!(scanner.get_packages().is_empty());
}

#[test]
fn a_failed_install_root_query_fails_the_scan() {
    let (scanner, _) = HomebrewScanner::new().start_scan();
    let (scanner, action) = scanner.scan_packages(ScanEvent::PrefixQueried(scan_refused("")));
    assert!(matches!(action, ScanAction::Stop));
    let state = scanner.get_state();
    assert!(state.scan_complete);
    assert_eq!(
        state.error_message.as_deref(),
        Some("Hombrew not found or not properly installed.")
    );
    assert_eq!(state.current_path, "Getting Hombrew prefix...");
    assert!(scanner.get_packages().is_empty());
}

#[test]
fn a_failed_list_query_fails_the_scan() {
    let (scanner, _) = HomebrewScanner::new().start_scan();
    let (scanner, _) = scanner.scan_packages(ScanEvent::PrefixQueried(scan_ok("/opt/homebrew\n")));
    assert_eq!(scanner.get_state().current_path, "Getting package list...");
    let (scanner, action) = scanner.scan_packages(ScanEvent::ListsQueried {
        formulas: scan_ok("wget\n"),
        casks: scan_not_run("Permission denied"),
    });
    assert!(matches!(action, ScanAction::Stop));
    let state = scanner.get_state();
    assert!(state.scan_complete);
    let message = state.error_message.expect("a failed scan says why");
    assert!(!message.is_empty());
    assert_eq!(message, "Failed to get cask list: Permission denied");
    assert!(scanner.get_packages().is_empty());
    assert_eq!(state.packages_found, 0);
    assert_eq!(state.total_packages, 0);
}

#[test]
fn a_scan_that_has_ended_stays_as_it_is() {
    let (scanner, _) = scan_enumerated("", "");
    let before = scanner.get_state();
    let (scanner, action) = scanner.scan_packages(ScanEvent::Listed(scan_nothing()));
    assert!(matches!(action, ScanAction::Stop));
    let after = scanner.get_state();
    assert!(after.scan_complete);
    assert!(after.error_message.is_none());
    assert_eq!(after.current_path, before.current_path);
}

#[test]
fn an_answer_out_of_turn_fails_the_scan() {
    let (scanner, _) = scan_enumerated("wget\njq\n", "");
    let (scanner, _) = scanner.scan_packages(ScanEvent::Listed(scan_nothing()));
    assert_eq!(scanner.get_state().packages_found, 1);
    let (scanner, action) = scanner.scan_packages(ScanEvent::AccessRead(Some(scan_at(1))));
    assert!(matches!(action, ScanAction::Stop));
    let state = scanner.get_state();
    assert!(state.scan_complete);
    assert_eq!(state.error_message.as_deref(), Some("Unexpected answer during the scan"));
    assert!(scanner.get_packages().is_empty());
}

#[test]
fn a_paused_scan_takes_up_no_further_package() {
    let (mut scanner, _) = scan_enumerated("wget\njq\nfd\n", "firefox\n");
    scanner.toggle_pause();
    let (scanner, action) = scanner.scan_packages(ScanEvent::Listed(scan_nothing()));
    assert!(matches!(action, ScanAction::Stop));
    let state = scanner.get_state();
    assert!(state.scan_complete);
    assert!(state.is_paused);
    assert!(state.error_message.is_none());
    assert_eq!(state.packages_scanned, 1);
    assert_eq!(state.packages_found, 1);
    assert_eq!(state.total_packages, 4);
    assert_eq!(scan_names(&scanner.get_packages()), vec!["wget"]);
}

#[test]
fn a_scan_paused_before_its_first_package_publishes_nothing() {
    let (mut scanner, _) = HomebrewScanner::new().start_scan();
    scanner.toggle_pause();
    let (scanner, _) = scanner.scan_packages(ScanEvent::PrefixQueried(scan_ok("/opt/homebrew")));
    let (scanner, action) = scanner.scan_packages(ScanEvent::ListsQueried {
        formulas: scan_ok("wget\n"),
        casks: scan_ok(""),
    });
    assert!(matches!(action, ScanAction::Stop));
    let state = scanner.get_state();
    assert!(state.scan_complete);
    assert_eq!(state.total_packages, 1);
    assert_eq!(state.packages_scanned, 0);
    assert!(scanner.get_packages().is_empty());
}

#[test]
fn a_resumed_scan_goes_on() {
    let (mut scanner, _) = scan_enumerated("wget\njq\n", "");
    scanner.toggle_pause();
    scanner.toggle_pause();
    let (scanner, action) = scanner.scan_packages(ScanEvent::Listed(scan_nothing()));
    assert!(matches!(action, ScanAction::List(_)));
    assert!(!scanner.get_state().scan_complete);
    assert_eq!(scanner.get_state().packages_scanned, 1);
    assert_eq!(scanner.get_state().current_path, "Scanning formula: jq");
}

#[test]
fn a_scan_that_has_ended_is_not_paused_any_more() {
    let (mut scanner, _) = scan_enumerated("", "");
    assert!(scanner.get_state().scan_complete);
    scanner.toggle_pause();
    assert!(!scanner.get_state().is_paused);
    let (mut failed, _) = HomebrewScanner::new().start_scan();
    failed.toggle_pause();
    let (mut failed, _) = failed.scan_packages(ScanEvent::PrefixQueried(scan_not_run("gone")));
    assert!(failed.get_state().is_paused);
    failed.toggle_pause();
    assert!(failed.get_state().is_paused);
    assert!(failed.get_state().scan_complete);
}

#[test]
fn the_count_of_scanned_packages_never_falls_and_never_passes_the_total() {
    let (mut scanner, mut action) = HomebrewScanner::new().start_scan();
    let mut last = scanner.get_state().packages_scanned;
    let mut steps = 0;
    loop {
        let event = match action {
            ScanAction::QueryPrefix => ScanEvent::PrefixQueried(scan_ok("/opt/homebrew\n")),
            ScanAction::QueryLists => ScanEvent::ListsQueried {
                formulas: scan_ok("a\nb\nc\nd\n"),
                casks: scan_ok("e\nf\n"),
            },
            ScanAction::List(request) => {
                if request.name == "b" || request.name == "e" {
                    ScanEvent::Listed(scan_nothing())
                } else {
                    ScanEvent::Listed(Listing { direct: Some(format!("/p/{}", request.name)), entries: Vec::new() })
                }
            }
            ScanAction::ReadAccess { .. } => ScanEvent::AccessRead(Some(scan_at(steps))),
            ScanAction::Stop => break,
        };
        let (next, asked) = scanner.scan_packages(event);
        scanner = next;
        action = asked;
        let state = scanner.get_state();
        assert!(state.packages_scanned >= last);
        assert!(state.packages_scanned <= state.total_packages);
        assert_eq!(state.packages_found, state.packages_scanned);
        assert!(state.progress_percentage() <= 100);
        last = state.packages_scanned;
        steps += 1;
    }
    assert_eq!(steps, 12);
    assert_eq!(last, 6);
    assert_eq!(scan_names(&scanner.get_packages()), vec!["a", "b", "c", "d", "e", "f"]);
}

#[test]
fn the_command_lines_of_the_queries() {
    assert_eq!(manager_program(), "brew");
    assert_eq!(prefix_command(), vec!["--prefix"]);
    assert_eq!(list_command(PackageType::Formula), vec!["list", "--formula"]);
    assert_eq!(list_command(PackageType::Cask), vec!["list", "--cask"]);
}

#[test]
fn a_scan_error_tells_its_message() {
    let error = ScanError::ManagerOutput("no list".to_string());
    assert_eq!(error.message(), "no list");
    assert_eq!(error.into_message(), "no list");
    assert_eq!(ScanError::ManagerUnavailable("gone".to_string()).message(), "gone");
}
