//! The interaction state machine: what the operator is looking at, which
//! package is selected, and what each command does to both.

use crate::inventory::{is_usage_order_of, sort_by_usage};
use crate::layout::{constraint_len_calculator, default_lens, inventory_lens};
use crate::package::{package_views, Package, PackageView};
use crate::scanner::{
    idle_view, is_action_of, is_consistent, is_step, pause_toggled, started, HomebrewScanner,
    ScanAction, ScanEvent, ScannerView, ScanningState,
};
use crate::text::texts;
use crate::uninstall::{error_text, result_view, DeleteError, DeleteErrorView};
use vstd::prelude::*;
use vstd::string::*;

verus! {

/// How many colour palettes there are to choose from.
pub const PALETTE_COUNT: usize = 4;

/// How many lines of an uninstall's output are kept for the operator.
pub const MAX_OUTPUT_LINES: usize = 20;

/// What the operator is looking at. The states that are about one package
/// carry its place in the inventory.
#[derive(Clone, Copy, Debug, PartialEq, Eq, Structural)]
pub enum AppState {
    /// The inventory.
    Table,
    /// The progress of a scan.
    Scanning,
    /// The summary of a scan that has come to its end.
    ScanComplete,
    /// The details of a package.
    PackageSelected(usize),
    /// The question whether a package is to be deleted.
    ConfirmDelete(usize),
    /// The output of the uninstall of a package.
    Deleting(usize),
}

/// What the operator can ask for.
#[derive(Clone, Copy, Debug, PartialEq, Eq, Structural)]
pub enum Command {
    /// Leave the program.
    Quit,
    /// Start a scan from the inventory, pause or resume a scan that runs,
    /// and leave every other view but that of an uninstall.
    Toggle,
    /// Open the selected package, agree to a deletion, and leave a summary
    /// or the details of a package.
    Accept,
    /// Ask for the deletion of the selected or the opened package.
    Delete,
    /// Scan again.
    Refresh,
    /// Agree to a deletion.
    Yes,
    /// Refuse a deletion.
    No,
    /// Move the selection down one row.
    NextRow,
    /// Move the selection up one row.
    PreviousRow,
    /// Move the selection right one column.
    NextColumn,
    /// Move the selection left one column.
    PreviousColumn,
    /// Take the next colour palette.
    NextColor,
    /// Take the previous colour palette.
    PreviousColor,
}

/// What is to be done outside after a command.
#[derive(Debug)]
pub enum Action {
    /// Nothing.
    Continue,
    /// End the program.
    Quit,
    /// Run a scan, beginning with what the new scanner asks for.
    LaunchScan(ScanAction),
    /// Run the uninstall of this package.
    LaunchDelete(Package),
}

/// The state of the dashboard.
#[derive(Debug)]
pub struct App {
    /// The inventory, in its order.
    pub items: Vec<Package>,
    /// The selected row of the table.
    pub selected: Option<usize>,
    /// The selected column of the table.
    pub selected_column: Option<usize>,
    /// How far the table can be scrolled, in rows.
    pub scroll_length: usize,
    /// How far the table is scrolled, in rows.
    pub scroll_position: usize,
    /// How long each of the four columns has to be.
    pub longest_item_lens: (u16, u16, u16, u16),
    /// The colour palette in use.
    pub color_index: usize,
    /// What the operator is looking at.
    pub app_state: AppState,
    /// The scanner of the last scan that was started.
    pub scanner: Option<HomebrewScanner>,
    /// The last lines of the output of the uninstall.
    pub delete_output: Vec<String>,
    /// What there is to say about the last uninstall.
    pub delete_message: Option<String>,
    /// Whether the last uninstall went well.
    pub delete_success: bool,
}

/// What the dashboard holds, as the contracts see it.
pub struct AppView {
    pub items: Seq<PackageView>,
    pub selected: Option<usize>,
    pub selected_column: Option<usize>,
    pub scroll_length: usize,
    pub scroll_position: usize,
    pub longest_item_lens: (u16, u16, u16, u16),
    pub color_index: usize,
    pub app_state: AppState,
    pub scanner: Option<ScannerView>,
    pub delete_output: Seq<Seq<char>>,
    pub delete_message: Option<Seq<char>>,
    pub delete_success: bool,
}

impl View for App {
    type V = AppView;

    open spec fn view(&self) -> AppView {
        AppView {
            items: package_views(self.items@),
            selected: self.selected,
            selected_column: self.selected_column,
            scroll_length: self.scroll_length,
            scroll_position: self.scroll_position,
            longest_item_lens: self.longest_item_lens,
            color_index: self.color_index,
            app_state: self.app_state,
            scanner: match self.scanner {
                Some(scanner) => Some(scanner@),
                None => None,
            },
            delete_output: texts(self.delete_output@),
            delete_message: match self.delete_message {
                Some(message) => Some(message@),
                None => None,
            },
            delete_success: self.delete_success,
        }
    }
}

/// The dashboard as it starts: the empty inventory with its first row
/// selected, and nothing scanned or deleted yet.
pub open spec fn initial_view() -> AppView {
    AppView {
        items: Seq::empty(),
        selected: Some(0usize),
        selected_column: None,
        scroll_length: 0,
        scroll_position: 0,
        longest_item_lens: default_lens(),
        color_index: 0,
        app_state: AppState::Table,
        scanner: None,
        delete_output: Seq::empty(),
        delete_message: None,
        delete_success: false,
    }
}

/// The dashboard looking at `state`.
pub open spec fn looking_at(v: AppView, state: AppState) -> AppView {
    AppView { app_state: state, ..v }
}

/// Whether the state is about a package that the inventory does not hold.
pub open spec fn has_stale_index(v: AppView) -> bool {
    match v.app_state {
        AppState::PackageSelected(index) => index >= v.items.len(),
        AppState::ConfirmDelete(index) => index >= v.items.len(),
        AppState::Deleting(index) => index >= v.items.len(),
        _ => false,
    }
}

/// The dashboard once the package that its state is about has been looked
/// up: where the inventory does not hold it, the inventory is shown instead.
pub open spec fn revalidated(v: AppView) -> AppView {
    if has_stale_index(v) {
        looking_at(v, AppState::Table)
    } else {
        v
    }
}

/// How far a table of `len` rows can be scrolled.
pub open spec fn scroll_length_of(len: nat) -> usize {
    if len == 0 {
        0
    } else {
        (len - 1) as usize
    }
}

/// Whether the selection fits the inventory: it is on one of its rows, or on
/// none where the inventory is empty.
pub open spec fn selection_fits(v: AppView) -> bool {
    match v.selected {
        Some(row) => row < v.items.len(),
        None => v.items.len() == 0,
    }
}

/// The row that is selected once the inventory has been put into its order
/// and `len` packages are in it: the first, or none in an empty inventory.
pub open spec fn selected_after_sort(len: nat) -> Option<usize> {
    if len > 0 {
        Some(0usize)
    } else {
        None
    }
}

/// Whether `post` is the dashboard `pre` with a scan just started: the
/// inventory is cleared and a new scanner asks for the install root.
pub open spec fn is_scan_started(pre: AppView, post: AppView) -> bool {
    &&& post.scanner matches Some(scanner) && scanner == started(
        idle_view(scanner.state.start_time),
    )
    &&& post == AppView {
        app_state: AppState::Scanning,
        items: Seq::empty(),
        scanner: post.scanner,
        ..pre
    }
}

/// Whether the dashboard is waiting for a scan that has come to its end.
pub open spec fn scan_has_ended(v: AppView) -> bool {
    v.app_state == AppState::Scanning && v.scanner is Some && v.scanner->0.state.scan_complete
}

/// Whether `post` is the dashboard `pre` after a look at its scanner. Once
/// the scan that it is waiting for has come to its end, what the scan
/// published is taken over, sorted, and the summary is shown with the first
/// row selected; before that, and while no scan is waited for, nothing
/// changes.
pub open spec fn is_scan_taken_over(pre: AppView, post: AppView) -> bool {
    if scan_has_ended(pre) {
        &&& is_usage_order_of(pre.scanner->0.packages, post.items)
        &&& post == AppView {
            items: post.items,
            app_state: AppState::ScanComplete,
            longest_item_lens: inventory_lens(post.items),
            scroll_length: scroll_length_of(post.items.len()),
            scroll_position: 0,
            selected: selected_after_sort(post.items.len()),
            ..pre
        }
    } else {
        post == pre
    }
}

/// Whether `post` is the dashboard `pre` with its inventory sorted and its
/// first row selected and scrolled to, or no row where the inventory is
/// empty.
pub open spec fn is_sorted_view(pre: AppView, post: AppView) -> bool {
    &&& is_usage_order_of(pre.items, post.items)
    &&& post == AppView {
        items: post.items,
        selected: selected_after_sort(post.items.len()),
        scroll_position: 0,
        ..pre
    }
}

/// The dashboard once the selected package has been opened, if there is
/// one.
pub open spec fn after_select(v: AppView) -> AppView {
    match v.selected {
        Some(index) => if index < v.items.len() {
            looking_at(v, AppState::PackageSelected(index))
        } else {
            v
        },
        None => v,
    }
}

/// The dashboard once the deletion of the selected package has been asked
/// for, if there is one.
pub open spec fn after_delete_selected(v: AppView) -> AppView {
    match v.selected {
        Some(index) => if index < v.items.len() {
            looking_at(v, AppState::ConfirmDelete(index))
        } else {
            v
        },
        None => v,
    }
}

/// The dashboard once the deletion of the package at `index` has been
/// agreed to: it shows the uninstall, with no output yet. Where the
/// inventory holds no such package, it shows the inventory.
pub open spec fn after_execute(v: AppView, index: usize) -> AppView {
    if index < v.items.len() {
        AppView { app_state: AppState::Deleting(index), delete_output: Seq::empty(), ..v }
    } else {
        looking_at(v, AppState::Table)
    }
}

/// The last lines of `lines` that are kept for the operator.
pub open spec fn last_lines(lines: Seq<Seq<char>>) -> Seq<Seq<char>> {
    if lines.len() > MAX_OUTPUT_LINES {
        lines.skip(lines.len() - MAX_OUTPUT_LINES)
    } else {
        lines
    }
}

/// The row that is selected once the package at `index` has been taken out
/// of the inventory and `len` packages are left: the same row, or the last
/// one where the same is no more, or none in an empty inventory.
pub open spec fn selected_after_removal(len: nat, index: usize) -> Option<usize> {
    if len == 0 {
        None
    } else if index >= len {
        Some((len - 1) as usize)
    } else {
        Some(index)
    }
}

/// Whether `post` is the dashboard `pre` once the uninstall of the package
/// at `index` has ended. After a success the package is out of the
/// inventory, which is sorted again; after a failure the inventory is as it
/// was. Either way the inventory is shown, with `message` to be read.
pub open spec fn is_delete_settled(
    pre: AppView,
    index: usize,
    success: bool,
    message: Seq<char>,
    post: AppView,
) -> bool {
    if success && index < pre.items.len() {
        &&& is_usage_order_of(pre.items.remove(index as int), post.items)
        &&& post == AppView {
            items: post.items,
            selected: selected_after_removal(post.items.len(), index),
            longest_item_lens: inventory_lens(post.items),
            scroll_length: scroll_length_of(post.items.len()),
            scroll_position: 0,
            delete_success: true,
            delete_message: Some(message),
            app_state: AppState::Table,
            ..pre
        }
    } else {
        post == AppView {
            delete_success: success,
            delete_message: Some(message),
            app_state: AppState::Table,
            ..pre
        }
    }
}

/// The name by which the package at `index` is spoken of: its own, or
/// `Unknown` where the inventory holds no such package.
pub open spec fn name_at(v: AppView, index: usize) -> Seq<char> {
    if index < v.items.len() {
        v.items[index as int].name
    } else {
        "Unknown"@
    }
}

/// What there is to say about the uninstall of the package `name`.
pub open spec fn settlement_text(name: Seq<char>, result: Result<(), DeleteErrorView>) -> Seq<
    char,
> {
    match result {
        Ok(_) => "Successfully deleted package '"@ + name + "'"@,
        Err(error) => "Failed to delete '"@ + name + "': "@ + error_text(error),
    }
}

/// Whether `post` is the dashboard `pre` once the news of the uninstall
/// have been taken in: the new lines of output and, if it has come, the
/// result. The lines are there before the result is acted on.
pub open spec fn is_progress_taken(
    pre: AppView,
    lines: Seq<Seq<char>>,
    result: Option<Result<(), DeleteErrorView>>,
    post: AppView,
) -> bool {
    let shown = AppView { delete_output: last_lines(pre.delete_output + lines), ..pre };
    match (result, pre.app_state) {
        (Some(outcome), AppState::Deleting(index)) => is_delete_settled(
            shown,
            index,
            outcome is Ok,
            settlement_text(name_at(pre, index), outcome),
            post,
        ),
        _ => post == shown,
    }
}

/// The row below `selected` in a table of `len` rows, the first row coming
/// after the last.
pub open spec fn row_below(selected: Option<usize>, len: nat) -> usize {
    match selected {
        Some(row) => if row >= len - 1 {
            0
        } else {
            (row + 1) as usize
        },
        None => 0,
    }
}

/// The row above `selected` in a table of `len` rows, the last row coming
/// before the first.
pub open spec fn row_above(selected: Option<usize>, len: nat) -> usize {
    match selected {
        Some(row) => if row == 0 {
            (len - 1) as usize
        } else {
            (row - 1) as usize
        },
        None => 0,
    }
}

/// The dashboard with the row `row` selected and scrolled to.
pub open spec fn at_row(v: AppView, row: usize) -> AppView {
    AppView { selected: Some(row), scroll_position: row, ..v }
}

/// The dashboard once the selection has moved down. It moves only while
/// the inventory is shown and holds a package.
pub open spec fn after_next_row(v: AppView) -> AppView {
    if v.app_state != AppState::Table || v.items.len() == 0 {
        v
    } else {
        at_row(v, row_below(v.selected, v.items.len()))
    }
}

/// The dashboard once the selection has moved up. It moves only while the
/// inventory is shown and holds a package.
pub open spec fn after_previous_row(v: AppView) -> AppView {
    if v.app_state != AppState::Table || v.items.len() == 0 {
        v
    } else {
        at_row(v, row_above(v.selected, v.items.len()))
    }
}

/// The column to the right of `column`: the first where none is selected,
/// and never beyond the largest number.
pub open spec fn column_right(column: Option<usize>) -> usize {
    match column {
        Some(c) => if c == usize::MAX {
            c
        } else {
            (c + 1) as usize
        },
        None => 0,
    }
}

/// The column to the left of `column`: the largest number where none is
/// selected, which stands for the last column, and never before the first.
pub open spec fn column_left(column: Option<usize>) -> usize {
    match column {
        Some(c) => if c == 0 {
            c
        } else {
            (c - 1) as usize
        },
        None => usize::MAX,
    }
}

/// The dashboard once the selection has moved right, which it does only
/// while the inventory is shown.
pub open spec fn after_next_column(v: AppView) -> AppView {
    if v.app_state == AppState::Table {
        AppView { selected_column: Some(column_right(v.selected_column)), ..v }
    } else {
        v
    }
}

/// The dashboard once the selection has moved left, which it does only
/// while the inventory is shown.
pub open spec fn after_previous_column(v: AppView) -> AppView {
    if v.app_state == AppState::Table {
        AppView { selected_column: Some(column_left(v.selected_column)), ..v }
    } else {
        v
    }
}

/// The dashboard with the next colour palette.
pub open spec fn after_next_color(v: AppView) -> AppView {
    AppView { color_index: ((v.color_index + 1) % (PALETTE_COUNT as int)) as usize, ..v }
}

/// The dashboard with the previous colour palette.
pub open spec fn after_previous_color(v: AppView) -> AppView {
    AppView {
        color_index: ((v.color_index + PALETTE_COUNT - 1) % (PALETTE_COUNT as int)) as usize,
        ..v
    }
}

/// The dashboard once its scanner, if it has one, has been paused or
/// resumed.
pub open spec fn after_pause_toggle(v: AppView) -> AppView {
    match v.scanner {
        Some(scanner) => AppView { scanner: Some(pause_toggled(scanner)), ..v },
        None => v,
    }
}

/// Whether `command` starts a scan: it is asked for, and the inventory is
/// what the operator is looking at.
pub open spec fn starts_scan(v: AppView, command: Command) -> bool {
    (command == Command::Toggle || command == Command::Refresh) && v.app_state == AppState::Table
}

/// The package whose uninstall `command` starts, if it starts one: the one
/// whose deletion the operator was asked about and has agreed to.
pub open spec fn starts_delete(v: AppView, command: Command) -> Option<usize> {
    match v.app_state {
        AppState::ConfirmDelete(index) => if (command == Command::Accept || command
            == Command::Yes) && index < v.items.len() {
            Some(index)
        } else {
            None
        },
        _ => None,
    }
}

/// The dashboard after `command`, for every command that does not start a
/// scan. A state that is about a package which the inventory does not hold
/// gives way to the inventory, whatever was asked for but to quit.
pub open spec fn after_command(v: AppView, command: Command) -> AppView {
    if command == Command::Quit {
        v
    } else if has_stale_index(v) {
        revalidated(v)
    } else {
        match command {
            Command::Quit => v,
            Command::Toggle => match v.app_state {
                AppState::Table => v,
                AppState::Scanning => after_pause_toggle(v),
                AppState::Deleting(_) => v,
                _ => looking_at(v, AppState::Table),
            },
            Command::Accept => match v.app_state {
                AppState::Table => after_select(v),
                AppState::ScanComplete => looking_at(v, AppState::Table),
                AppState::PackageSelected(_) => looking_at(v, AppState::Table),
                AppState::ConfirmDelete(index) => after_execute(v, index),
                _ => v,
            },
            Command::Delete => match v.app_state {
                AppState::Table => after_delete_selected(v),
                AppState::PackageSelected(index) => looking_at(v, AppState::ConfirmDelete(index)),
                _ => v,
            },
            Command::Refresh => v,
            Command::Yes => match v.app_state {
                AppState::ConfirmDelete(index) => after_execute(v, index),
                _ => v,
            },
            Command::No => match v.app_state {
                AppState::ConfirmDelete(_) => looking_at(v, AppState::Table),
                _ => v,
            },
            Command::NextRow => after_next_row(v),
            Command::PreviousRow => after_previous_row(v),
            Command::NextColumn => after_next_column(v),
            Command::PreviousColumn => after_previous_column(v),
            Command::NextColor => after_next_color(v),
            Command::PreviousColor => after_previous_color(v),
        }
    }
}

/// Whether `post` and `action` are what the dashboard `pre` makes of
/// `command`.
pub open spec fn is_command_outcome(
    pre: AppView,
    command: Command,
    post: AppView,
    action: Action,
) -> bool {
    if starts_scan(pre, command) {
        &&& is_scan_started(pre, post)
        &&& action matches Action::LaunchScan(first)
        &&& first is QueryPrefix
    } else {
        &&& post == after_command(pre, command)
        &&& match starts_delete(pre, command) {
            Some(index) => action matches Action::LaunchDelete(package) && package@
                == pre.items[index as int],
            None => if command == Command::Quit {
                action is Quit
            } else {
                action is Continue
            },
        }
    }
}

impl App {
    /// The dashboard as it starts.
    pub fn new() -> (app: App)
        ensures
            app@ == initial_view(),
    {
        let items: Vec<Package> = Vec::new();
        let delete_output: Vec<String> = Vec::new();
        let app = App {
            items,
            selected: Some(0),
            selected_column: None,
            scroll_length: 0,
            scroll_position: 0,
            longest_item_lens: (20, 10, 15, 20),
            color_index: 0,
            app_state: AppState::Table,
            scanner: None,
            delete_output,
            delete_message: None,
            delete_success: false,
        };
        proof {
            assert(app@.items =~= Seq::empty());
            assert(app@.delete_output =~= Seq::empty());
        }
        app
    }

    /// Starts a scan: the inventory is cleared, a new scanner takes the
    /// place of the last one, and what it asks for first comes back.
    pub fn start_scanning(&mut self) -> (first: ScanAction)
        ensures
            is_scan_started(old(self)@, final(self)@),
            first is QueryPrefix,
    {
        self.app_state = AppState::Scanning;
        self.items.clear();
        let (scanner, first) = HomebrewScanner::new().start_scan();
        self.scanner = Some(scanner);
        proof {
            assert(self@.items =~= Seq::empty());
        }
        first
    }

    /// Looks at the scanner while a scan is waited for. Once the scan has
    /// come to its end, what it published becomes the inventory, in the
    /// order of the inventory, and the summary of the scan is shown.
    pub fn update_scan(&mut self)
        ensures
            is_scan_taken_over(old(self)@, final(self)@),
            scan_has_ended(old(self)@) ==> selection_fits(final(self)@),
    {
        let complete = self.app_state == AppState::Scanning && match &self.scanner {
            Some(scanner) => scanner.get_state().scan_complete,
            None => false,
        };
        if complete {
            let found = match &self.scanner {
                Some(scanner) => scanner.get_packages(),
                None => Vec::new(),
            };
            self.items = found;
            sort_by_usage(&mut self.items);
            self.app_state = AppState::ScanComplete;
            self.longest_item_lens = constraint_len_calculator(self.items.as_slice());
            self.scroll_position = 0;
            self.scroll_length = if self.items.is_empty() {
                0
            } else {
                self.items.len() - 1
            };
            self.selected = if self.items.is_empty() {
                None
            } else {
                Some(0)
            };
        }
    }

    /// Opens the selected package, if the inventory holds one at the
    /// selected row.
    pub fn select_package(&mut self)
        ensures
            final(self)@ == after_select(old(self)@),
    {
        if let Some(index) = self.selected {
            if index < self.items.len() {
                self.app_state = AppState::PackageSelected(index);
            }
        }
    }

    /// Asks the operator whether the package at `package_index` is to be
    /// deleted.
    pub fn confirm_delete(&mut self, package_index: usize)
        ensures
            final(self)@ == looking_at(old(self)@, AppState::ConfirmDelete(package_index)),
    {
        self.app_state = AppState::ConfirmDelete(package_index);
    }

    /// Asks the operator whether the selected package is to be deleted, if
    /// the inventory holds one at the selected row.
    pub fn delete_selected_package(&mut self)
        ensures
            final(self)@ == after_delete_selected(old(self)@),
    {
        if let Some(index) = self.selected {
            if index < self.items.len() {
                self.confirm_delete(index);
            }
        }
    }

    /// Begins the uninstall of the package at `package_index` and hands out
    /// a copy of its record for the executor. Where the inventory holds no
    /// such package, nothing is begun and the inventory is shown.
    pub fn execute_delete(&mut self, package_index: usize) -> (package: Option<Package>)
        ensures
            final(self)@ == after_execute(old(self)@, package_index),
            package is Some <==> package_index < old(self)@.items.len(),
            package matches Some(p) ==> p@ == old(self)@.items[package_index as int],
    {
        if package_index < self.items.len() {
            self.app_state = AppState::Deleting(package_index);
            let package = self.items[package_index].clone();
            self.delete_output.clear();
            proof {
                assert(self@.delete_output =~= Seq::empty());
            }
            Some(package)
        } else {
            self.app_state = AppState::Table;
            None
        }
    }

    /// Takes in the news of the uninstall: the lines of output that have
    /// come since the last look, of which the last twenty are kept, and the
    /// result if it has come. A result ends the uninstall; whether one was
    /// given comes back, so that the caller can let go of the executor.
    pub fn check_delete_progress(
        &mut self,
        lines: Vec<String>,
        result: Option<Result<(), DeleteError>>,
    ) -> (ended: bool)
        ensures
            is_progress_taken(old(self)@, texts(lines@), result_view(result), final(self)@),
            ended == result is Some,
    {
        let mut lines = lines;
        let ghost before = texts(self.delete_output@);
        let ghost added = texts(lines@);
        self.delete_output.append(&mut lines);
        proof {
            assert(texts(self.delete_output@) =~= before + added);
        }
        if self.delete_output.len() > MAX_OUTPUT_LINES {
            let excess = self.delete_output.len() - MAX_OUTPUT_LINES;
            let kept = self.delete_output.split_off(excess);
            proof {
                assert(texts(kept@) =~= last_lines(before + added));
            }
            self.delete_output = kept;
        }
        match result {
            Some(outcome) => {
                if let AppState::Deleting(package_index) = self.app_state {
                    let mut message = match &outcome {
                        Ok(_) => String::from_str("Successfully deleted package '"),
                        Err(_) => String::from_str("Failed to delete '"),
                    };
                    if package_index < self.items.len() {
                        message.append(self.items[package_index].name());
                    } else {
                        message.append("Unknown");
                    }
                    match outcome {
                        Ok(_) => {
                            message.append("'");
                            self.handle_delete_result(package_index, true, message);
                        },
                        Err(error) => {
                            message.append("': ");
                            let reason = error.message();
                            message.append(reason.as_str());
                            self.handle_delete_result(package_index, false, message);
                        },
                    }
                }
                true
            },
            None => false,
        }
    }

    /// Settles the uninstall of the package at `package_index`. After a
    /// success the package leaves the inventory, which is sorted again, and
    /// the selection stays on its row as far as there is one. Either way the
    /// inventory is shown and `message` is there to be read.
    pub fn handle_delete_result(&mut self, package_index: usize, success: bool, message: String)
        ensures
            is_delete_settled(old(self)@, package_index, success, message@, final(self)@),
            success && package_index < old(self)@.items.len() ==> selection_fits(final(self)@)
                && final(self)@.items.len() == old(self)@.items.len() - 1,
    {
        if success {
            if package_index < self.items.len() {
                let ghost before = package_views(self.items@);
                self.items.remove(package_index);
                proof {
                    assert(package_views(self.items@) =~= before.remove(package_index as int));
                }
                self.sort_packages_by_usage();
                if self.items.is_empty() {
                    self.selected = None;
                } else if package_index >= self.items.len() {
                    self.selected = Some(self.items.len() - 1);
                } else {
                    self.selected = Some(package_index);
                }
                self.longest_item_lens = constraint_len_calculator(self.items.as_slice());
                self.scroll_position = 0;
                self.scroll_length = if self.items.is_empty() {
                    0
                } else {
                    self.items.len() - 1
                };
            }
            self.delete_success = true;
        } else {
            self.delete_success = false;
        }
        self.delete_message = Some(message);
        self.app_state = AppState::Table;
    }

    /// Puts the inventory into its order and selects its first row, or no
    /// row where the inventory is empty.
    pub fn sort_packages_by_usage(&mut self)
        ensures
            is_sorted_view(old(self)@, final(self)@),
            selection_fits(final(self)@),
    {
        sort_by_usage(&mut self.items);
        self.selected = if self.items.is_empty() {
            None
        } else {
            Some(0)
        };
        self.scroll_position = 0;
    }

    /// A copy of the progress of the scanner, if there is a scanner.
    pub fn get_scanning_state(&self) -> (state: Option<ScanningState>)
        ensures
            state is Some <==> self@.scanner is Some,
            state matches Some(snapshot) ==> snapshot@ == self@.scanner->0.state
                && snapshot.packages_scanned <= snapshot.total_packages,
    {
        match &self.scanner {
            Some(scanner) => Some(scanner.get_state()),
            None => None,
        }
    }

    /// Moves the selection down one row, and from the last row to the
    /// first.
    pub fn next_row(&mut self)
        ensures
            final(self)@ == after_next_row(old(self)@),
    {
        if self.app_state != AppState::Table || self.items.is_empty() {
            return ;
        }
        let row: usize = match self.selected {
            Some(row) => if row >= self.items.len() - 1 {
                0
            } else {
                row + 1
            },
            None => 0,
        };
        self.selected = Some(row);
        self.scroll_position = row;
    }

    /// Moves the selection up one row, and from the first row to the last.
    pub fn previous_row(&mut self)
        ensures
            final(self)@ == after_previous_row(old(self)@),
    {
        if self.app_state != AppState::Table || self.items.is_empty() {
            return ;
        }
        let row: usize = match self.selected {
            Some(row) => if row == 0 {
                self.items.len() - 1
            } else {
                row - 1
            },
            None => 0,
        };
        self.selected = Some(row);
        self.scroll_position = row;
    }

    /// Moves the selection right one column.
    pub fn next_column(&mut self)
        ensures
            final(self)@ == after_next_column(old(self)@),
    {
        if self.app_state == AppState::Table {
            let column: usize = match self.selected_column {
                Some(c) => if c == usize::MAX {
                    c
                } else {
                    c + 1
                },
                None => 0,
            };
            self.selected_column = Some(column);
        }
    }

    /// Moves the selection left one column.
    pub fn previous_column(&mut self)
        ensures
            final(self)@ == after_previous_column(old(self)@),
    {
        if self.app_state == AppState::Table {
            let column: usize = match self.selected_column {
                Some(c) => if c == 0 {
                    c
                } else {
                    c - 1
                },
                None => usize::MAX,
            };
            self.selected_column = Some(column);
        }
    }

    /// Takes the next colour palette, the first coming after the last.
    pub fn next_color(&mut self)
        ensures
            final(self)@ == after_next_color(old(self)@),
            final(self).color_index < PALETTE_COUNT,
    {
        self.color_index = (self.color_index % PALETTE_COUNT + 1) % PALETTE_COUNT;
    }

    /// Takes the previous colour palette, the last coming before the first.
    pub fn previous_color(&mut self)
        ensures
            final(self)@ == after_previous_color(old(self)@),
            final(self).color_index < PALETTE_COUNT,
    {
        self.color_index = (self.color_index % PALETTE_COUNT + (PALETTE_COUNT - 1)) % PALETTE_COUNT;
    }

    /// Pauses the scan, or lets a paused scan run again, if there is a
    /// scanner.
    pub fn toggle_pause(&mut self)
        ensures
            final(self)@ == after_pause_toggle(old(self)@),
    {
        match &mut self.scanner {
            Some(scanner) => {
                scanner.toggle_pause();
            },
            None => {},
        }
    }
}

impl App {
    /// Looks up the package that the state is about. Where the inventory
    /// does not hold it, the inventory is shown instead.
    pub fn revalidate(&mut self)
        ensures
            final(self)@ == revalidated(old(self)@),
            !has_stale_index(final(self)@),
    {
        let stale = match self.app_state {
            AppState::PackageSelected(index) => index >= self.items.len(),
            AppState::ConfirmDelete(index) => index >= self.items.len(),
            AppState::Deleting(index) => index >= self.items.len(),
            _ => false,
        };
        if stale {
            self.app_state = AppState::Table;
        }
    }

    /// The package that the state is about, if it is about one and the
    /// inventory holds it.
    pub fn current_package(&self) -> (package: Option<&Package>)
        ensures
            package is Some <==> (self@.app_state != AppState::Table && self@.app_state
                != AppState::Scanning && self@.app_state != AppState::ScanComplete
                && !has_stale_index(self@)),
            package matches Some(p) ==> (match self@.app_state {
                AppState::PackageSelected(index) => *p == self.items@[index as int],
                AppState::ConfirmDelete(index) => *p == self.items@[index as int],
                AppState::Deleting(index) => *p == self.items@[index as int],
                _ => false,
            }),
    {
        let index = match self.app_state {
            AppState::PackageSelected(index) => index,
            AppState::ConfirmDelete(index) => index,
            AppState::Deleting(index) => index,
            _ => {
                return None;
            },
        };
        if index < self.items.len() {
            Some(&self.items[index])
        } else {
            None
        }
    }

    /// Takes the scan of the dashboard's scanner one step on and says what
    /// it asks for next. Without a scanner nothing is asked for.
    pub fn scan_step(&mut self, event: ScanEvent) -> (action: ScanAction)
        ensures
            old(self)@.scanner is None ==> final(self)@ == old(self)@ && action is Stop,
            old(self)@.scanner is Some ==> {
                &&& final(self)@.scanner is Some
                &&& is_step(old(self)@.scanner->0, event, final(self)@.scanner->0)
                &&& is_action_of(final(self)@.scanner->0, action)
                &&& is_consistent(final(self)@.scanner->0)
                &&& final(self)@.scanner->0.state.packages_scanned >= old(
                    self,
                )@.scanner->0.state.packages_scanned
                &&& final(self)@ == (AppView { scanner: final(self)@.scanner, ..old(self)@ })
            },
    {
        match self.scanner.take() {
            Some(scanner) => {
                let (next, action) = scanner.scan_packages(event);
                self.scanner = Some(next);
                action
            },
            None => ScanAction::Stop,
        }
    }

    /// Does what the operator asks for, and says what is to be done outside.
    ///
    /// A scan is started from the inventory and from nowhere else, and an
    /// uninstall only once the operator has agreed to it. A state that is
    /// about a package which the inventory does not hold gives way to the
    /// inventory before anything else is done.
    pub fn handle_command(&mut self, command: Command) -> (action: Action)
        ensures
            is_command_outcome(old(self)@, command, final(self)@, action),
    {
        if command == Command::Quit {
            return Action::Quit;
        }
        let stale = match self.app_state {
            AppState::PackageSelected(index) => index >= self.items.len(),
            AppState::ConfirmDelete(index) => index >= self.items.len(),
            AppState::Deleting(index) => index >= self.items.len(),
            _ => false,
        };
        if stale {
            self.app_state = AppState::Table;
            return Action::Continue;
        }
        match command {
            Command::Quit => Action::Quit,
            Command::Toggle => match self.app_state {
                AppState::Table => Action::LaunchScan(self.start_scanning()),
                AppState::Scanning => {
                    self.toggle_pause();
                    Action::Continue
                },
                AppState::Deleting(_) => Action::Continue,
                _ => {
                    self.app_state = AppState::Table;
                    Action::Continue
                },
            },
            Command::Accept => match self.app_state {
                AppState::Table => {
                    self.select_package();
                    Action::Continue
                },
                AppState::ScanComplete => {
                    self.app_state = AppState::Table;
                    Action::Continue
                },
                AppState::PackageSelected(_) => {
                    self.app_state = AppState::Table;
                    Action::Continue
                },
                AppState::ConfirmDelete(index) => self.launch_delete(index),
                _ => Action::Continue,
            },
            Command::Delete => match self.app_state {
                AppState::Table => {
                    self.delete_selected_package();
                    Action::Continue
                },
                AppState::PackageSelected(index) => {
                    self.confirm_delete(index);
                    Action::Continue
                },
                _ => Action::Continue,
            },
            Command::Refresh => match self.app_state {
                AppState::Table => Action::LaunchScan(self.start_scanning()),
                _ => Action::Continue,
            },
            Command::Yes => match self.app_state {
                AppState::ConfirmDelete(index) => self.launch_delete(index),
                _ => Action::Continue,
            },
            Command::No => match self.app_state {
                AppState::ConfirmDelete(_) => {
                    self.app_state = AppState::Table;
                    Action::Continue
                },
                _ => Action::Continue,
            },
            Command::NextRow => {
                self.next_row();
                Action::Continue
            },
            Command::PreviousRow => {
                self.previous_row();
                Action::Continue
            },
            Command::NextColumn => {
                self.next_column();
                Action::Continue
            },
            Command::PreviousColumn => {
                self.previous_column();
                Action::Continue
            },
            Command::NextColor => {
                self.next_color();
                Action::Continue
            },
            Command::PreviousColor => {
                self.previous_color();
                Action::Continue
            },
        }
    }

    fn launch_delete(&mut self, index: usize) -> (action: Action)
        ensures
            final(self)@ == after_execute(old(self)@, index),
            index < old(self)@.items.len() ==> (action matches Action::LaunchDelete(package)
                && package@ == old(self)@.items[index as int]),
            index >= old(self)@.items.len() ==> action is Continue,
    {
        match self.execute_delete(index) {
            Some(package) => Action::LaunchDelete(package),
            None => Action::Continue,
        }
    }
}

/// A scan is started from the inventory and from no other view: not while
/// a scan runs, and not while a deletion is asked about or under way.
pub proof fn lemma_scan_starts_from_table(
    pre: AppView,
    command: Command,
    post: AppView,
    action: Action,
)
    requires
        is_command_outcome(pre, command, post, action),
        action is LaunchScan,
    ensures
        pre.app_state == AppState::Table,
        post.app_state == AppState::Scanning,
        post.items.len() == 0,
{
}

/// An uninstall is started only from the question about the deletion, for
/// the package that the question was about, and the uninstall is then what
/// the operator is shown.
pub proof fn lemma_delete_starts_from_question(
    pre: AppView,
    command: Command,
    post: AppView,
    action: Action,
)
    requires
        is_command_outcome(pre, command, post, action),
        action is LaunchDelete,
    ensures
        pre.app_state is ConfirmDelete,
        pre.app_state->ConfirmDelete_0 < pre.items.len(),
        post.app_state == AppState::Deleting(pre.app_state->ConfirmDelete_0),
        action->LaunchDelete_0@ == pre.items[pre.app_state->ConfirmDelete_0 as int],
        post.items == pre.items,
{
}

/// Refusing a deletion leads back to the inventory and changes nothing
/// else: the inventory and the selection are as they were.
pub proof fn lemma_cancel_changes_nothing(pre: AppView, post: AppView, action: Action)
    requires
        pre.app_state is ConfirmDelete,
        is_command_outcome(pre, Command::No, post, action),
    ensures
        post == looking_at(pre, AppState::Table),
        post.items == pre.items,
        post.selected == pre.selected,
        action is Continue,
{
}

/// After a command the state is about a package of the inventory, if it is
/// about a package at all.
pub proof fn lemma_command_leaves_no_stale_index(
    pre: AppView,
    command: Command,
    post: AppView,
    action: Action,
)
    requires
        is_command_outcome(pre, command, post, action),
        command != Command::Quit,
    ensures
        !has_stale_index(post),
{
}

/// A settled uninstall leaves the selection within the inventory, or on no
/// row where the inventory is empty. After a success the inventory is
/// shorter by one; after a failure it is as it was.
pub proof fn lemma_settled_delete(
    pre: AppView,
    index: usize,
    success: bool,
    message: Seq<char>,
    post: AppView,
)
    requires
        is_delete_settled(pre, index, success, message, post),
        index < pre.items.len(),
    ensures
        success ==> post.items.len() == pre.items.len() - 1,
        success && post.selected is Some ==> post.selected->0 < post.items.len(),
        success ==> (post.selected is None <==> post.items.len() == 0),
        !success ==> post.items == pre.items,
        post.app_state == AppState::Table,
        post.delete_message == Some(message),
{
    if success {
        let origin = choose|origin: Seq<int>| #[trigger]
            crate::inventory::is_arrangement(pre.items.remove(index as int), post.items, origin)
                && crate::inventory::is_stable(post.items, origin);
    }
}

} // verus!
