//! The scan engine: what a scan has found so far, what the package manager
//! and the file system answered, and the step from each answer to the next
//! thing to ask.

use crate::manager::{
    is_lists_failure, is_prefix_outcome, list_fails, listed_names, prefix_fails, CommandOutput,
};
use crate::package::{package_views, Package, PackageType, PackageView, Timestamp};
use crate::probe::{candidate_paths, is_probe_of, probe_request, Listing, ProbeRequest};
use crate::text::{texts, trimmed, two_digit_string, two_digits};
use std::time::{Duration, Instant};
use vstd::prelude::*;
use vstd::string::*;
use vstd::utf8::decode_utf8;

verus! {

/// The progress of a scan, as a reader sees it.
#[derive(Debug)]
pub struct ScanningState {
    /// How many packages have been recorded.
    pub packages_found: usize,
    /// How many packages the scan has gone through.
    pub packages_scanned: usize,
    /// How many packages are installed.
    pub total_packages: usize,
    /// What the scan is doing, in words.
    pub current_path: String,
    /// When the scan was set up.
    pub start_time: Instant,
    /// Whether the scan has been asked to take up no further package.
    pub is_paused: bool,
    /// Whether the scan has come to its end.
    pub scan_complete: bool,
    /// Why the scan failed, if it did.
    pub error_message: Option<String>,
}

/// A `ScanningState` with its texts as sequences of characters.
pub struct ScanningStateView {
    pub packages_found: nat,
    pub packages_scanned: nat,
    pub total_packages: nat,
    pub current_path: Seq<char>,
    pub start_time: Instant,
    pub is_paused: bool,
    pub scan_complete: bool,
    pub error_message: Option<Seq<char>>,
}

impl View for ScanningState {
    type V = ScanningStateView;

    open spec fn view(&self) -> ScanningStateView {
        ScanningStateView {
            packages_found: self.packages_found as nat,
            packages_scanned: self.packages_scanned as nat,
            total_packages: self.total_packages as nat,
            current_path: self.current_path@,
            start_time: self.start_time,
            is_paused: self.is_paused,
            scan_complete: self.scan_complete,
            error_message: match self.error_message {
                Some(m) => Some(m@),
                None => None,
            },
        }
    }
}

impl Clone for ScanningState {
    fn clone(&self) -> (copy: ScanningState)
        ensures
            copy == *self,
    {
        let error_message = match &self.error_message {
            Some(m) => Some(m.clone()),
            None => None,
        };
        ScanningState {
            packages_found: self.packages_found,
            packages_scanned: self.packages_scanned,
            total_packages: self.total_packages,
            current_path: self.current_path.clone(),
            start_time: self.start_time,
            is_paused: self.is_paused,
            scan_complete: self.scan_complete,
            error_message,
        }
    }
}

/// The share of `total` that `scanned` is, in whole percent, rounded down
/// and held to what sixteen bits can carry; zero where `total` is zero.
pub open spec fn percentage(scanned: nat, total: nat) -> nat {
    if total == 0 {
        0
    } else if scanned * 100 / total > u16::MAX {
        u16::MAX as nat
    } else {
        scanned * 100 / total
    }
}

/// `secs` seconds as minutes and seconds, each of at least two digits.
pub open spec fn clock_text(secs: nat) -> Seq<char> {
    two_digits(secs / 60) + ":"@ + two_digits(secs % 60)
}

/// Writes `secs` seconds as minutes and seconds.
pub fn clock_string(secs: u64) -> (s: String)
    ensures
        s@ == clock_text(secs as nat),
{
    let mut s = two_digit_string(secs / 60);
    s.append(":");
    let seconds = two_digit_string(secs % 60);
    s.append(seconds.as_str());
    s
}

impl ScanningState {
    /// The state of a scan that has not begun, with the clock read now.
    pub fn new() -> (state: ScanningState)
        ensures
            state.packages_found == 0,
            state.packages_scanned == 0,
            state.total_packages == 0,
            state.current_path@ == "Initializing..."@,
            !state.is_paused,
            !state.scan_complete,
            state.error_message is None,
    {
        ScanningState {
            packages_found: 0,
            packages_scanned: 0,
            total_packages: 0,
            current_path: String::from_str("Initializing..."),
            start_time: Instant::now(),
            is_paused: false,
            scan_complete: false,
            error_message: None,
        }
    }

    /// How far the scan has come, in percent.
    pub fn progress_percentage(&self) -> (percent: u16)
        ensures
            percent == percentage(self.packages_scanned as nat, self.total_packages as nat),
            self.packages_scanned <= self.total_packages ==> percent <= 100,
    {
        if self.total_packages == 0 {
            0
        } else {
            let scaled: u128 = self.packages_scanned as u128 * 100;
            let percent: u128 = scaled / (self.total_packages as u128);
            assert(self.packages_scanned <= self.total_packages ==> percent <= 100) by {
                if self.packages_scanned <= self.total_packages {
                    vstd::arithmetic::div_mod::lemma_div_is_ordered(
                        scaled as int,
                        self.total_packages as int * 100,
                        self.total_packages as int,
                    );
                    vstd::arithmetic::div_mod::lemma_div_multiples_vanish(
                        100,
                        self.total_packages as int,
                    );
                }
            }
            if percent > 65535 {
                65535
            } else {
                percent as u16
            }
        }
    }

    /// The time that has passed since the state was set up.
    pub fn elapsed_time(&self) -> Duration {
        self.start_time.elapsed()
    }

    /// The time that has passed since the state was set up, as minutes and
    /// seconds. How many seconds have passed is for the clock to say; the
    /// text is that of some number of seconds.
    pub fn format_elapsed(&self) -> (s: String)
        ensures
            exists|secs: u64| s@ == #[trigger] clock_text(secs as nat),
    {
        let elapsed = self.elapsed_time();
        let secs = elapsed.as_secs();
        clock_string(secs)
    }
}

/// What a scan is waiting for.
#[derive(Clone, Copy, Debug, PartialEq, Eq, Structural)]
pub enum ScanPhase {
    /// To be started.
    Idle,
    /// The install root of the package manager.
    AwaitingPrefix,
    /// The lists of the installed formulas and casks.
    AwaitingLists,
    /// What the file system shows of the package that is being scanned.
    AwaitingListing,
    /// The access time of the path that was picked for that package.
    AwaitingAccess,
    /// Nothing: the scan has come to its end.
    Finished,
}

/// An answer from outside to what the scan asked for.
#[derive(Debug)]
pub enum ScanEvent {
    /// How the query for the install root ended.
    PrefixQueried(CommandOutput),
    /// How the two list queries ended.
    ListsQueried {
        /// The query for the formulas.
        formulas: CommandOutput,
        /// The query for the casks.
        casks: CommandOutput,
    },
    /// What the file system showed of the places that were asked about.
    Listed(Listing),
    /// The access time of the path that was asked about, if it has one.
    AccessRead(Option<Timestamp>),
}

/// What the scan asks to be done next.
#[derive(Debug)]
pub enum ScanAction {
    /// Ask the package manager for its install root.
    QueryPrefix,
    /// Ask the package manager for the installed formulas and casks.
    QueryLists,
    /// Look at the places where the package leaves traces.
    List(ProbeRequest),
    /// Read the access time of a path.
    ReadAccess {
        /// The path to read it of.
        path: String,
    },
    /// Nothing is left to do.
    Stop,
}

/// A package that waits to be scanned.
#[derive(Debug)]
pub struct Queued {
    /// Its name.
    pub name: String,
    /// Its kind.
    pub kind: PackageType,
}

/// The packages that wait to be scanned, as names and kinds.
pub open spec fn queue_view(queue: Seq<Queued>) -> Seq<(Seq<char>, PackageType)> {
    queue.map_values(|q: Queued| (q.name@, q.kind))
}

/// The engine that enumerates the installed packages and finds out when
/// each was last used. It does nothing by itself: it is told what came back
/// from outside and answers with what to ask for next.
#[derive(Debug)]
pub struct HomebrewScanner {
    state: ScanningState,
    packages: Vec<Package>,
    phase: ScanPhase,
    prefix: String,
    queue: Vec<Queued>,
    collected: Vec<Package>,
    pending_path: Option<String>,
}

/// What a scanner holds, as the contracts see it.
pub struct ScannerView {
    /// The progress that readers are shown.
    pub state: ScanningStateView,
    /// The inventory that the scan has published.
    pub packages: Seq<PackageView>,
    /// What the scan is waiting for.
    pub phase: ScanPhase,
    /// The install root of the package manager.
    pub prefix: Seq<char>,
    /// The installed packages, formulas first, in the order of their scan.
    pub queue: Seq<(Seq<char>, PackageType)>,
    /// The records made so far, which are not published yet.
    pub collected: Seq<PackageView>,
    /// The path whose access time is being read.
    pub pending_path: Option<Seq<char>>,
}

impl View for HomebrewScanner {
    type V = ScannerView;

    closed spec fn view(&self) -> ScannerView {
        ScannerView {
            state: self.state@,
            packages: package_views(self.packages@),
            phase: self.phase,
            prefix: self.prefix@,
            queue: queue_view(self.queue@),
            collected: package_views(self.collected@),
            pending_path: match self.pending_path {
                Some(p) => Some(p@),
                None => None,
            },
        }
    }
}

/// Whether the scan is under way: started and not at its end.
pub open spec fn is_under_way(phase: ScanPhase) -> bool {
    phase != ScanPhase::Idle && phase != ScanPhase::Finished
}

/// Whether records `records` were made of the first packages of `queue`,
/// one of each, in the order of the queue.
pub open spec fn follows_queue(
    records: Seq<PackageView>,
    queue: Seq<(Seq<char>, PackageType)>,
) -> bool {
    &&& records.len() <= queue.len()
    &&& forall|i: int|
        0 <= i < records.len() ==> (#[trigger] records[i]).name == queue[i].0
            && records[i].package_type == queue[i].1
}

/// What holds of a scanner at all times.
pub open spec fn is_consistent(v: ScannerView) -> bool {
    &&& v.state.packages_scanned <= v.state.total_packages
    &&& v.state.scan_complete <==> v.phase == ScanPhase::Finished
    &&& v.state.error_message is Some ==> v.phase == ScanPhase::Finished && v.packages.len() == 0
    &&& v.state.packages_found == v.state.packages_scanned
    &&& follows_queue(v.collected, v.queue)
    &&& follows_queue(v.packages, v.queue)
    &&& forall|i: int|
        0 <= i < v.collected.len() ==> ((#[trigger] v.collected[i]).last_accessed is Some
            <==> v.collected[i].last_accessed_path is Some)
    &&& forall|i: int|
        0 <= i < v.packages.len() ==> ((#[trigger] v.packages[i]).last_accessed is Some
            <==> v.packages[i].last_accessed_path is Some)
    &&& match v.phase {
        ScanPhase::Idle | ScanPhase::AwaitingPrefix | ScanPhase::AwaitingLists => {
            &&& v.state.total_packages == 0
            &&& v.queue.len() == 0
            &&& v.packages.len() == 0
            &&& v.pending_path is None
        },
        ScanPhase::AwaitingListing | ScanPhase::AwaitingAccess => {
            &&& v.state.total_packages == v.queue.len()
            &&& v.collected.len() < v.queue.len()
            &&& v.state.packages_scanned == v.collected.len()
            &&& v.state.packages_found == v.collected.len()
            &&& v.packages.len() == 0
            &&& v.pending_path is Some <==> v.phase == ScanPhase::AwaitingAccess
        },
        ScanPhase::Finished => {
            &&& v.collected.len() == 0
            &&& v.pending_path is None
            &&& v.state.error_message is None ==> v.state.packages_found == v.packages.len()
                && v.state.packages_scanned == v.packages.len() && v.state.total_packages
                == v.queue.len()
        },
    }
}

/// A scanner that waits to be started, set up at `start_time`: it has found
/// nothing and knows of no package.
pub open spec fn idle_view(start_time: Instant) -> ScannerView {
    ScannerView {
        state: ScanningStateView {
            packages_found: 0,
            packages_scanned: 0,
            total_packages: 0,
            current_path: "Initializing..."@,
            start_time,
            is_paused: false,
            scan_complete: false,
            error_message: None,
        },
        packages: Seq::empty(),
        phase: ScanPhase::Idle,
        prefix: Seq::empty(),
        queue: Seq::empty(),
        collected: Seq::empty(),
        pending_path: None,
    }
}

/// The scan once it has been asked to pause or to go on: the flag is
/// flipped, unless the scan has come to its end.
pub open spec fn pause_toggled(v: ScannerView) -> ScannerView {
    if v.state.scan_complete {
        v
    } else {
        ScannerView {
            state: ScanningStateView { is_paused: !v.state.is_paused, ..v.state },
            ..v
        }
    }
}

/// The label of the progress while the package `name` is scanned.
pub open spec fn scanning_label(name: Seq<char>, kind: PackageType) -> Seq<char> {
    match kind {
        PackageType::Formula => "Scanning formula: "@ + name,
        PackageType::Cask => "Scanning cask: "@ + name,
    }
}

/// The packages to scan: the formulas in the order of their list, then the
/// casks in the order of theirs.
pub open spec fn work_queue(formulas: Seq<Seq<char>>, casks: Seq<Seq<char>>) -> Seq<
    (Seq<char>, PackageType),
> {
    formulas.map_values(|name: Seq<char>| (name, PackageType::Formula)) + casks.map_values(
        |name: Seq<char>| (name, PackageType::Cask),
    )
}

/// The scan once it has been started: it asks for the install root.
pub open spec fn started(v: ScannerView) -> ScannerView {
    ScannerView {
        state: ScanningStateView { current_path: "Getting Hombrew prefix..."@, ..v.state },
        phase: ScanPhase::AwaitingPrefix,
        ..v
    }
}

/// The scan once it has failed for the reason `message`: it is at its end,
/// and the reason is there to be read. Nothing is published.
pub open spec fn failed(v: ScannerView, message: Seq<char>) -> ScannerView {
    ScannerView {
        state: ScanningStateView {
            error_message: Some(message),
            scan_complete: true,
            ..v.state
        },
        phase: ScanPhase::Finished,
        collected: Seq::empty(),
        pending_path: None,
        ..v
    }
}

/// The scan after an answer that it was not waiting for: one that is under
/// way fails, and one that is not stays as it is.
pub open spec fn strayed(v: ScannerView) -> ScannerView {
    if is_under_way(v.phase) {
        failed(v, "Unexpected answer during the scan"@)
    } else {
        v
    }
}

/// The scan once the install root `prefix` is known: it asks for the lists.
pub open spec fn rooted(v: ScannerView, prefix: Seq<char>) -> ScannerView {
    ScannerView {
        state: ScanningStateView { current_path: "Getting package list..."@, ..v.state },
        phase: ScanPhase::AwaitingLists,
        prefix,
        ..v
    }
}

/// The scan as it goes on from a point at which no package is being
/// scanned. While packages are left and the scan is not paused, it takes up
/// the next one and names it in its label. Otherwise it ends: what was
/// recorded is published.
pub open spec fn advanced(v: ScannerView) -> ScannerView {
    let next = v.collected.len() as int;
    if next < v.queue.len() && !(v.state.is_paused && !v.state.scan_complete) {
        ScannerView {
            state: ScanningStateView {
                current_path: scanning_label(v.queue[next].0, v.queue[next].1),
                ..v.state
            },
            phase: ScanPhase::AwaitingListing,
            pending_path: None,
            ..v
        }
    } else {
        ScannerView {
            state: ScanningStateView {
                scan_complete: true,
                current_path: "Scan complete!"@,
                ..v.state
            },
            packages: v.collected,
            collected: Seq::empty(),
            phase: ScanPhase::Finished,
            pending_path: None,
            ..v
        }
    }
}

/// The scan once the installed packages are known.
pub open spec fn enumerated(v: ScannerView, formulas: Seq<Seq<char>>, casks: Seq<Seq<char>>) -> ScannerView {
    let queue = work_queue(formulas, casks);
    advanced(
        ScannerView {
            state: ScanningStateView { total_packages: queue.len(), ..v.state },
            queue,
            ..v
        },
    )
}

/// The scan once the package that was being scanned is on record, with the
/// time and the path of its last access where both are known. The package
/// counts as scanned and as found from then on.
pub open spec fn recorded(v: ScannerView, access: Option<(int, Seq<char>)>) -> ScannerView {
    let item = v.queue[v.collected.len() as int];
    let record = PackageView {
        name: item.0,
        package_type: item.1,
        last_accessed: match access {
            Some(a) => Some(a.0),
            None => None,
        },
        last_accessed_path: match access {
            Some(a) => Some(a.1),
            None => None,
        },
    };
    ScannerView {
        state: ScanningStateView {
            packages_scanned: v.collected.len() + 1,
            packages_found: v.collected.len() + 1,
            ..v.state
        },
        collected: v.collected.push(record),
        pending_path: None,
        ..v
    }
}

/// The scan once the file system has shown the places of the package that
/// is being scanned. The first path at which its use may show is picked and
/// its access time asked for; a package without any goes on record as never
/// used.
pub open spec fn probed(v: ScannerView, listing: Listing) -> ScannerView {
    let item = v.queue[v.collected.len() as int];
    let candidates = candidate_paths(item.0, item.1, listing);
    if candidates.len() > 0 {
        ScannerView { phase: ScanPhase::AwaitingAccess, pending_path: Some(candidates[0]), ..v }
    } else {
        advanced(recorded(v, None))
    }
}

/// The scan once the access time of the picked path has been read: the
/// package goes on record with the time and the path, or as never used
/// where the path showed no time.
pub open spec fn timed(v: ScannerView, time: Option<Timestamp>) -> ScannerView {
    advanced(
        recorded(
            v,
            match time {
                Some(t) => Some((t@, v.pending_path->0)),
                None => None,
            },
        ),
    )
}

/// Whether `post` is the scan `pre` after the answer `event`.
pub open spec fn is_step(pre: ScannerView, event: ScanEvent, post: ScannerView) -> bool {
    match event {
        ScanEvent::PrefixQueried(output) => if pre.phase != ScanPhase::AwaitingPrefix {
            post == strayed(pre)
        } else if prefix_fails(output) {
            post.state.error_message matches Some(message) && is_prefix_outcome(
                output,
                Err(message),
            ) && post == failed(pre, message)
        } else {
            post == rooted(pre, trimmed(decode_utf8(output->stdout@)))
        },
        ScanEvent::ListsQueried { formulas, casks } => if pre.phase != ScanPhase::AwaitingLists {
            post == strayed(pre)
        } else if list_fails(formulas) || list_fails(casks) {
            post.state.error_message matches Some(message) && is_lists_failure(
                formulas,
                casks,
                message,
            ) && post == failed(pre, message)
        } else {
            post == enumerated(pre, listed_names(formulas), listed_names(casks))
        },
        ScanEvent::Listed(listing) => if pre.phase != ScanPhase::AwaitingListing {
            post == strayed(pre)
        } else {
            post == probed(pre, listing)
        },
        ScanEvent::AccessRead(time) => if pre.phase != ScanPhase::AwaitingAccess {
            post == strayed(pre)
        } else {
            post == timed(pre, time)
        },
    }
}

/// Whether `action` is what a scan in the state `v` asks for.
pub open spec fn is_action_of(v: ScannerView, action: ScanAction) -> bool {
    match v.phase {
        ScanPhase::AwaitingPrefix => action is QueryPrefix,
        ScanPhase::AwaitingLists => action is QueryLists,
        ScanPhase::AwaitingListing => action matches ScanAction::List(request) && is_probe_of(
            request,
            v.prefix,
            v.queue[v.collected.len() as int].0,
            v.queue[v.collected.len() as int].1,
        ),
        ScanPhase::AwaitingAccess => action matches ScanAction::ReadAccess { path } && Some(path@)
            == v.pending_path,
        ScanPhase::Idle | ScanPhase::Finished => action is Stop,
    }
}

fn enqueue(queue: &mut Vec<Queued>, names: &Vec<String>, kind: PackageType)
    ensures
        queue_view(final(queue)@) == queue_view(old(queue)@) + texts(names@).map_values(
            |name: Seq<char>| (name, kind),
        ),
{
    let ghost tagged = texts(names@).map_values(|name: Seq<char>| (name, kind));
    assert(queue_view(queue@) =~= queue_view(old(queue)@) + tagged.take(0));
    let mut i: usize = 0;
    while i < names.len()
        invariant
            i <= names.len(),
            tagged == texts(names@).map_values(|name: Seq<char>| (name, kind)),
            queue_view(queue@) == queue_view(old(queue)@) + tagged.take(i as int),
        decreases names.len() - i,
    {
        let ghost before = queue_view(queue@);
        let name = names[i].clone();
        queue.push(Queued { name, kind });
        assert(queue_view(queue@) =~= before.push((names@[i as int]@, kind)));
        assert(tagged.take(i + 1) =~= tagged.take(i as int).push((names@[i as int]@, kind)));
        i += 1;
    }
    assert(tagged.take(i as int) =~= tagged);
}

impl HomebrewScanner {
    #[verifier::type_invariant]
    closed spec fn consistent(self) -> bool {
        is_consistent(self@)
    }

    /// A scanner that waits to be started. It has found nothing.
    pub fn new() -> (scanner: HomebrewScanner)
        ensures
            scanner@ == idle_view(scanner@.state.start_time),
            is_consistent(scanner@),
    {
        let packages: Vec<Package> = Vec::new();
        let queue: Vec<Queued> = Vec::new();
        let collected: Vec<Package> = Vec::new();
        let scanner = HomebrewScanner {
            state: ScanningState::new(),
            packages,
            phase: ScanPhase::Idle,
            prefix: String::new(),
            queue,
            collected,
            pending_path: None,
        };
        proof {
            assert(scanner@.packages =~= Seq::empty());
            assert(scanner@.queue =~= Seq::empty());
            assert(scanner@.collected =~= Seq::empty());
        }
        scanner
    }

    /// A copy of the progress as it stands.
    pub fn get_state(&self) -> (snapshot: ScanningState)
        ensures
            snapshot@ == self@.state,
            snapshot.packages_scanned <= snapshot.total_packages,
            snapshot.packages_found == snapshot.packages_scanned,
    {
        proof {
            use_type_invariant(self);
        }
        self.state.clone()
    }

    /// A copy of the inventory that the scan has published: empty until the
    /// scan has come to its end, and for ever after a scan that failed.
    pub fn get_packages(&self) -> (packages: Vec<Package>)
        ensures
            package_views(packages@) == self@.packages,
            !self@.state.scan_complete ==> packages@.len() == 0,
            self@.state.error_message is Some ==> packages@.len() == 0,
    {
        proof {
            use_type_invariant(self);
        }
        let packages = self.packages.clone();
        assert(packages@ =~= self.packages@);
        packages
    }

    /// Pauses a scan that runs, and lets a paused one run again. A paused
    /// scan takes up no further package. A scan that has come to its end
    /// stays as it is.
    pub fn toggle_pause(&mut self)
        ensures
            final(self)@ == pause_toggled(old(self)@),
            is_consistent(final(self)@),
    {
        proof {
            use_type_invariant(&*self);
        }
        if !self.state.scan_complete {
            self.state.is_paused = !self.state.is_paused;
        }
    }
}

/// Whether every record of `records` holds a path exactly when it holds a
/// time.
pub open spec fn records_whole(records: Seq<PackageView>) -> bool {
    forall|i: int|
        0 <= i < records.len() ==> ((#[trigger] records[i]).last_accessed is Some
            <==> records[i].last_accessed_path is Some)
}

fn advance(
    state: ScanningState,
    prefix: String,
    queue: Vec<Queued>,
    collected: Vec<Package>,
) -> (next: (HomebrewScanner, ScanAction))
    requires
        state.total_packages == queue.len(),
        state.packages_found == collected.len(),
        state.packages_scanned == collected.len(),
        !state.scan_complete,
        state.error_message is None,
        follows_queue(package_views(collected@), queue_view(queue@)),
        records_whole(package_views(collected@)),
    ensures
        next.0@ == advanced(
            ScannerView {
                state: state@,
                packages: Seq::empty(),
                phase: ScanPhase::AwaitingLists,
                prefix: prefix@,
                queue: queue_view(queue@),
                collected: package_views(collected@),
                pending_path: None,
            },
        ),
        is_action_of(next.0@, next.1),
{
    let mut state = state;
    let ghost pre = ScannerView {
        state: state@,
        packages: Seq::empty(),
        phase: ScanPhase::AwaitingLists,
        prefix: prefix@,
        queue: queue_view(queue@),
        collected: package_views(collected@),
        pending_path: None,
    };
    let at = collected.len();
    if at < queue.len() && !(state.is_paused && !state.scan_complete) {
        let item = &queue[at];
        let mut label = match item.kind {
            PackageType::Formula => String::from_str("Scanning formula: "),
            PackageType::Cask => String::from_str("Scanning cask: "),
        };
        label.append(item.name.as_str());
        state.current_path = label;
        let request = probe_request(prefix.as_str(), item.name.as_str(), item.kind);
        let packages: Vec<Package> = Vec::new();
        proof {
            assert(queue_view(queue@)[at as int] == (item.name@, item.kind));
            assert(package_views(packages@) =~= Seq::<PackageView>::empty());
            assert(state@ == advanced(pre).state);
        }
        let scanner = HomebrewScanner {
            state,
            packages,
            phase: ScanPhase::AwaitingListing,
            prefix,
            queue,
            collected,
            pending_path: None,
        };
        (scanner, ScanAction::List(request))
    } else {
        state.scan_complete = true;
        state.current_path = String::from_str("Scan complete!");
        let rest: Vec<Package> = Vec::new();
        proof {
            assert(package_views(rest@) =~= Seq::<PackageView>::empty());
            assert(state@ == advanced(pre).state);
        }
        let scanner = HomebrewScanner {
            state,
            packages: collected,
            phase: ScanPhase::Finished,
            prefix,
            queue,
            collected: rest,
            pending_path: None,
        };
        (scanner, ScanAction::Stop)
    }
}

fn record(
    state: ScanningState,
    prefix: String,
    queue: Vec<Queued>,
    collected: Vec<Package>,
    time: Option<Timestamp>,
    path: Option<String>,
) -> (next: (HomebrewScanner, ScanAction))
    requires
        state.total_packages == queue.len(),
        collected.len() < queue.len(),
        state.packages_scanned == collected.len(),
        !state.scan_complete,
        state.error_message is None,
        follows_queue(package_views(collected@), queue_view(queue@)),
        records_whole(package_views(collected@)),
        time is Some ==> path is Some,
    ensures
        next.0@ == advanced(
            recorded(
                ScannerView {
                    state: state@,
                    packages: Seq::empty(),
                    phase: ScanPhase::AwaitingListing,
                    prefix: prefix@,
                    queue: queue_view(queue@),
                    collected: package_views(collected@),
                    pending_path: None,
                },
                match time {
                    Some(t) => Some((t@, path->0@)),
                    None => None,
                },
            ),
        ),
        is_action_of(next.0@, next.1),
{
    let mut state = state;
    let mut collected = collected;
    let ghost before = package_views(collected@);
    let item = &queue[collected.len()];
    let package = Package::new(item.name.clone(), item.kind, time, path);
    let ghost access: Option<(int, Seq<char>)> = match time {
        Some(t) => Some((t@, path->0@)),
        None => None,
    };
    let ghost pre = ScannerView {
        state: state@,
        packages: Seq::empty(),
        phase: ScanPhase::AwaitingListing,
        prefix: prefix@,
        queue: queue_view(queue@),
        collected: before,
        pending_path: None,
    };
    collected.push(package);
    state.packages_scanned = collected.len();
    state.packages_found = collected.len();
    proof {
        assert(package_views(collected@) =~= before.push(package@));
        assert(package@ == recorded(pre, access).collected.last());
        assert(package_views(collected@) =~= recorded(pre, access).collected);
    }
    advance(state, prefix, queue, collected)
}

impl HomebrewScanner {
    fn fail(self, message: String) -> (next: (HomebrewScanner, ScanAction))
        requires
            is_under_way(self@.phase),
        ensures
            next.0@ == failed(self@, message@),
            next.1 is Stop,
    {
        proof {
            use_type_invariant(&self);
        }
        let HomebrewScanner {
            state,
            packages,
            phase: _,
            prefix,
            queue,
            collected: _,
            pending_path: _,
        } = self;
        let mut state = state;
        state.error_message = Some(message);
        state.scan_complete = true;
        let rest: Vec<Package> = Vec::new();
        proof {
            assert(package_views(rest@) =~= Seq::<PackageView>::empty());
        }
        let scanner = HomebrewScanner {
            state,
            packages,
            phase: ScanPhase::Finished,
            prefix,
            queue,
            collected: rest,
            pending_path: None,
        };
        (scanner, ScanAction::Stop)
    }

    fn stray(self) -> (next: (HomebrewScanner, ScanAction))
        ensures
            next.0@ == strayed(self@),
            next.1 is Stop,
    {
        if self.phase == ScanPhase::Idle || self.phase == ScanPhase::Finished {
            (self, ScanAction::Stop)
        } else {
            self.fail(String::from_str("Unexpected answer during the scan"))
        }
    }

    /// Starts the scan, which then asks for the install root. A scanner
    /// that has been started before stays as it is and asks for nothing.
    pub fn start_scan(self) -> (next: (HomebrewScanner, ScanAction))
        ensures
            self@.phase == ScanPhase::Idle ==> next.0@ == started(self@) && next.1 is QueryPrefix,
            self@.phase != ScanPhase::Idle ==> next.0@ == self@ && next.1 is Stop,
            is_consistent(next.0@),
            next.0@.state.packages_scanned >= self@.state.packages_scanned,
    {
        proof {
            use_type_invariant(&self);
        }
        if self.phase == ScanPhase::Idle {
            let HomebrewScanner {
                state,
                packages,
                phase: _,
                prefix,
                queue,
                collected,
                pending_path,
            } = self;
            let mut state = state;
            state.current_path = String::from_str("Getting Hombrew prefix...");
            let scanner = HomebrewScanner {
                state,
                packages,
                phase: ScanPhase::AwaitingPrefix,
                prefix,
                queue,
                collected,
                pending_path,
            };
            (scanner, ScanAction::QueryPrefix)
        } else {
            (self, ScanAction::Stop)
        }
    }

    fn prefix_queried(self, output: CommandOutput) -> (next: (HomebrewScanner, ScanAction))
        requires
            self@.phase == ScanPhase::AwaitingPrefix,
        ensures
            is_step(self@, ScanEvent::PrefixQueried(output), next.0@),
            is_action_of(next.0@, next.1),
    {
        proof {
            use_type_invariant(&self);
        }
        match HomebrewScanner::get_homebrew_prefix(output) {
            Ok(root) => {
                let HomebrewScanner {
                    state,
                    packages,
                    phase: _,
                    prefix: _,
                    queue,
                    collected,
                    pending_path,
                } = self;
                let mut state = state;
                state.current_path = String::from_str("Getting package list...");
                let scanner = HomebrewScanner {
                    state,
                    packages,
                    phase: ScanPhase::AwaitingLists,
                    prefix: root,
                    queue,
                    collected,
                    pending_path,
                };
                (scanner, ScanAction::QueryLists)
            },
            Err(error) => self.fail(error.into_message()),
        }
    }

    fn lists_queried(self, formulas: CommandOutput, casks: CommandOutput) -> (next: (
        HomebrewScanner,
        ScanAction,
    ))
        requires
            self@.phase == ScanPhase::AwaitingLists,
        ensures
            is_step(self@, ScanEvent::ListsQueried { formulas, casks }, next.0@),
            is_action_of(next.0@, next.1),
    {
        proof {
            use_type_invariant(&self);
        }
        match HomebrewScanner::get_installed_packages(formulas, casks) {
            Ok((formula_names, cask_names)) => {
                let HomebrewScanner {
                    state,
                    packages,
                    phase: _,
                    prefix,
                    queue,
                    collected,
                    pending_path: _,
                } = self;
                let mut state = state;
                let mut queue = queue;
                assert(queue_view(queue@).len() == 0);
                enqueue(&mut queue, &formula_names, PackageType::Formula);
                enqueue(&mut queue, &cask_names, PackageType::Cask);
                state.total_packages = queue.len();
                proof {
                    assert(queue_view(queue@) =~= work_queue(
                        listed_names(formulas),
                        listed_names(casks),
                    ));
                    assert(package_views(collected@).len() == 0);
                    assert(package_views(packages@) =~= Seq::<PackageView>::empty());
                }
                advance(state, prefix, queue, collected)
            },
            Err(error) => self.fail(error.into_message()),
        }
    }

    fn listed(self, listing: Listing) -> (next: (HomebrewScanner, ScanAction))
        requires
            self@.phase == ScanPhase::AwaitingListing,
        ensures
            is_step(self@, ScanEvent::Listed(listing), next.0@),
            is_action_of(next.0@, next.1),
    {
        proof {
            use_type_invariant(&self);
        }
        let HomebrewScanner {
            state,
            packages,
            phase: _,
            prefix,
            queue,
            collected,
            pending_path: _,
        } = self;
        let item = &queue[collected.len()];
        assert(queue_view(queue@)[collected.len() as int] == (item.name@, item.kind));
        assert(package_views(packages@) =~= Seq::<PackageView>::empty());
        let mut paths = HomebrewScanner::find_package_paths(
            item.name.as_str(),
            item.kind,
            &listing,
        );
        if paths.len() > 0 {
            let path = paths.swap_remove(0);
            assert(path@ == candidate_paths(item.name@, item.kind, listing)[0]);
            let ask = path.clone();
            let scanner = HomebrewScanner {
                state,
                packages,
                phase: ScanPhase::AwaitingAccess,
                prefix,
                queue,
                collected,
                pending_path: Some(path),
            };
            (scanner, ScanAction::ReadAccess { path: ask })
        } else {
            record(state, prefix, queue, collected, None, None)
        }
    }

    fn access_read(self, time: Option<Timestamp>) -> (next: (HomebrewScanner, ScanAction))
        requires
            self@.phase == ScanPhase::AwaitingAccess,
        ensures
            is_step(self@, ScanEvent::AccessRead(time), next.0@),
            is_action_of(next.0@, next.1),
    {
        proof {
            use_type_invariant(&self);
        }
        let HomebrewScanner {
            state,
            packages,
            phase: _,
            prefix,
            queue,
            collected,
            pending_path,
        } = self;
        assert(package_views(packages@) =~= Seq::<PackageView>::empty());
        record(state, prefix, queue, collected, time, pending_path)
    }

    /// Takes the scan one step on: `event` is the answer to what the scan
    /// asked for last, and the action that comes back is what it asks for
    /// next.
    ///
    /// The scan asks for the install root, then for the lists of formulas
    /// and casks, and then goes through the packages, formulas first: for
    /// each it asks what the file system shows of the package's places and,
    /// where that gives a path, for the access time of the first one. Before
    /// it takes up a package it looks at the pause flag, and ends early when
    /// the flag is set. A query that fails ends the scan with the reason as
    /// its error message and with nothing published.
    ///
    /// At every step the number of packages gone through stays or grows, and
    /// it never exceeds the number of packages installed.
    pub fn scan_packages(self, event: ScanEvent) -> (next: (HomebrewScanner, ScanAction))
        ensures
            is_step(self@, event, next.0@),
            is_action_of(next.0@, next.1),
            is_consistent(next.0@),
            next.0@.state.packages_scanned >= self@.state.packages_scanned,
            next.0@.state.packages_scanned <= next.0@.state.total_packages,
            next.0@.state.error_message is Some ==> next.0@.packages.len() == 0
                && next.0@.state.scan_complete,
    {
        proof {
            use_type_invariant(&self);
        }
        let next = match event {
            ScanEvent::PrefixQueried(output) => {
                if self.phase == ScanPhase::AwaitingPrefix {
                    self.prefix_queried(output)
                } else {
                    self.stray()
                }
            },
            ScanEvent::ListsQueried { formulas, casks } => {
                if self.phase == ScanPhase::AwaitingLists {
                    self.lists_queried(formulas, casks)
                } else {
                    self.stray()
                }
            },
            ScanEvent::Listed(listing) => {
                if self.phase == ScanPhase::AwaitingListing {
                    self.listed(listing)
                } else {
                    self.stray()
                }
            },
            ScanEvent::AccessRead(time) => {
                if self.phase == ScanPhase::AwaitingAccess {
                    self.access_read(time)
                } else {
                    self.stray()
                }
            },
        };
        proof {
            use_type_invariant(&next.0);
        }
        next
    }
}

/// Whatever the scan is told, it stays consistent, and its count of the
/// packages gone through neither falls nor passes the number of packages
/// installed. The count of the packages recorded does not fall either.
pub proof fn lemma_step_keeps_progress(pre: ScannerView, event: ScanEvent, post: ScannerView)
    requires
        is_consistent(pre),
        is_step(pre, event, post),
    ensures
        is_consistent(post),
        post.state.packages_scanned >= pre.state.packages_scanned,
        post.state.packages_scanned <= post.state.total_packages,
        post.state.packages_found >= pre.state.packages_found,
{
    match event {
        ScanEvent::ListsQueried { formulas, casks } => {
            if pre.phase == ScanPhase::AwaitingLists && !(list_fails(formulas) || list_fails(
                casks,
            )) {
                let queue = work_queue(listed_names(formulas), listed_names(casks));
                assert(pre.collected =~= Seq::empty());
                assert(follows_queue(Seq::empty(), queue));
            }
        },
        ScanEvent::Listed(listing) => {
            if pre.phase == ScanPhase::AwaitingListing {
                lemma_recording_keeps_records(pre, None);
            }
        },
        ScanEvent::AccessRead(time) => {
            if pre.phase == ScanPhase::AwaitingAccess {
                lemma_recording_keeps_records(
                    pre,
                    match time {
                        Some(t) => Some((t@, pre.pending_path->0)),
                        None => None,
                    },
                );
            }
        },
        _ => {},
    }
}

proof fn lemma_recording_keeps_records(pre: ScannerView, access: Option<(int, Seq<char>)>)
    requires
        is_consistent(pre),
        pre.phase == ScanPhase::AwaitingListing || pre.phase == ScanPhase::AwaitingAccess,
    ensures
        follows_queue(recorded(pre, access).collected, pre.queue),
        records_whole(recorded(pre, access).collected),
        is_consistent(advanced(recorded(pre, access))),
{
    let now = recorded(pre, access);
    assert forall|i: int| 0 <= i < now.collected.len() implies (#[trigger] now.collected[i]).name
        == pre.queue[i].0 && now.collected[i].package_type == pre.queue[i].1 by {
        if i < pre.collected.len() {
            assert(now.collected[i] == pre.collected[i]);
        }
    }
    assert forall|i: int| 0 <= i < now.collected.len() implies ((
    #[trigger] now.collected[i]).last_accessed is Some
        <==> now.collected[i].last_accessed_path is Some) by {
        if i < pre.collected.len() {
            assert(now.collected[i] == pre.collected[i]);
        }
    }
}

/// A scan that has come to its end stays as it is, whatever it is told.
pub proof fn lemma_finished_scan_is_frozen(pre: ScannerView, event: ScanEvent, post: ScannerView)
    requires
        pre.phase == ScanPhase::Finished,
        is_step(pre, event, post),
    ensures
        post == pre,
{
}

/// A scan that fails publishes nothing: its inventory is empty, its error
/// message is there, and it is at its end.
pub proof fn lemma_failed_scan_publishes_nothing(
    pre: ScannerView,
    event: ScanEvent,
    post: ScannerView,
)
    requires
        is_consistent(pre),
        is_step(pre, event, post),
        post.state.error_message is Some,
    ensures
        post.packages.len() == 0,
        post.state.scan_complete,
        post.phase == ScanPhase::Finished,
{
    lemma_step_keeps_progress(pre, event, post);
}

} // verus!
