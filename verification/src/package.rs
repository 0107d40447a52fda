//! Package records and the instants at which they were last used.

use crate::text::{decimal, decimal_string, signed_decimal, signed_decimal_string, texts};
use crate::trusted::unix_epoch;
use std::time::SystemTime;
use vstd::prelude::*;
use vstd::string::*;

verus! {

/// Nanoseconds in one second.
pub const NANOS_PER_SEC: u32 = 1_000_000_000;

/// The two kinds of unit the package manager installs.
#[derive(Clone, Copy, Debug, PartialEq, Eq, Structural)]
pub enum PackageType {
    /// A command-line package.
    Formula,
    /// A graphical application.
    Cask,
}

/// An instant on the wall clock: whole seconds relative to the Unix epoch
/// (negative before it) and the nanoseconds that follow that second.
#[derive(Clone, Copy, Debug, PartialEq, Eq, Structural)]
pub struct Timestamp {
    secs: i64,
    nanos: u32,
}

impl View for Timestamp {
    type V = int;

    /// Nanoseconds since the Unix epoch.
    closed spec fn view(&self) -> int {
        self.secs * NANOS_PER_SEC + self.nanos
    }
}

impl Timestamp {
    #[verifier::type_invariant]
    closed spec fn within_second(self) -> bool {
        self.nanos < NANOS_PER_SEC
    }

    /// The instant `nanos` nanoseconds after second `secs`, or nothing when
    /// `nanos` does not lie within one second.
    pub fn new(secs: i64, nanos: u32) -> (t: Option<Timestamp>)
        ensures
            t is Some <==> nanos < NANOS_PER_SEC,
            t matches Some(ts) ==> ts@ == secs * NANOS_PER_SEC + nanos,
    {
        if nanos < NANOS_PER_SEC {
            Some(Timestamp { secs, nanos })
        } else {
            None
        }
    }

    /// The instant that lies `secs` seconds and `nanos` nanoseconds after the
    /// Unix epoch, or nothing when `nanos` does not lie within one second or
    /// the instant is too late to be held.
    pub fn since_epoch(secs: u64, nanos: u32) -> (t: Option<Timestamp>)
        ensures
            t is Some <==> nanos < NANOS_PER_SEC && secs <= i64::MAX,
            t matches Some(ts) ==> ts@ == secs * NANOS_PER_SEC + nanos,
    {
        if nanos < NANOS_PER_SEC && secs <= i64::MAX as u64 {
            Some(Timestamp { secs: secs as i64, nanos })
        } else {
            None
        }
    }

    /// The instant that lies `secs` seconds and `nanos` nanoseconds before
    /// the Unix epoch, or nothing when `nanos` does not lie within one second
    /// or the instant is too early to be held.
    pub fn before_epoch(secs: u64, nanos: u32) -> (t: Option<Timestamp>)
        ensures
            t is Some <==> nanos < NANOS_PER_SEC && secs * NANOS_PER_SEC + nanos <= -(i64::MIN
                * NANOS_PER_SEC),
            t matches Some(ts) ==> ts@ == -(secs * NANOS_PER_SEC + nanos),
    {
        if nanos >= NANOS_PER_SEC {
            None
        } else if nanos == 0 {
            if secs <= i64::MAX as u64 {
                Some(Timestamp { secs: -(secs as i64), nanos: 0 })
            } else if secs == i64::MAX as u64 + 1 {
                Some(Timestamp { secs: i64::MIN, nanos: 0 })
            } else {
                None
            }
        } else if secs <= i64::MAX as u64 {
            Some(Timestamp { secs: -(secs as i64) - 1, nanos: NANOS_PER_SEC - nanos })
        } else {
            None
        }
    }

    /// The earliest instant that can be held.
    pub fn earliest() -> (t: Timestamp)
        ensures
            t@ == i64::MIN * NANOS_PER_SEC,
    {
        Timestamp { secs: i64::MIN, nanos: 0 }
    }

    /// The latest instant that can be held.
    pub fn latest() -> (t: Timestamp)
        ensures
            t@ == i64::MAX * NANOS_PER_SEC + (NANOS_PER_SEC - 1),
    {
        Timestamp { secs: i64::MAX, nanos: NANOS_PER_SEC - 1 }
    }

    /// The instant that `time` stands for. How far `time` lies from the Unix
    /// epoch is for the standard library to say; which instant goes with that
    /// distance is what `nearest_after_epoch` and `nearest_before_epoch` say.
    pub fn from_system_time(time: SystemTime) -> Timestamp {
        match time.duration_since(unix_epoch()) {
            Ok(after) => {
                let secs = after.as_secs();
                let nanos = after.subsec_nanos();
                Timestamp::nearest_after_epoch(secs, nanos)
            },
            Err(error) => {
                let before = error.duration();
                let secs = before.as_secs();
                let nanos = before.subsec_nanos();
                Timestamp::nearest_before_epoch(secs, nanos)
            },
        }
    }

    /// The instant that the wall clock shows.
    pub fn now() -> Timestamp {
        Timestamp::from_system_time(SystemTime::now())
    }

    /// The instant that stands for a point `offset` nanoseconds after the
    /// Unix epoch: the point itself where it can be held, and else the
    /// earliest or the latest instant that can, whichever lies nearer.
    pub open spec fn nearest(offset: int) -> int {
        if offset < i64::MIN * NANOS_PER_SEC {
            i64::MIN * NANOS_PER_SEC
        } else if offset > i64::MAX * NANOS_PER_SEC + (NANOS_PER_SEC - 1) {
            i64::MAX * NANOS_PER_SEC + (NANOS_PER_SEC - 1)
        } else {
            offset
        }
    }

    /// The instant that lies `secs` seconds and `nanos` nanoseconds after the
    /// Unix epoch, or the latest instant that can be held where that one lies
    /// beyond it.
    pub fn nearest_after_epoch(secs: u64, nanos: u32) -> (t: Timestamp)
        ensures
            t@ == Timestamp::nearest(secs * NANOS_PER_SEC + nanos),
    {
        let carried: u64 = (nanos / NANOS_PER_SEC) as u64;
        let rest: u32 = nanos % NANOS_PER_SEC;
        if secs > u64::MAX - carried {
            return Timestamp::latest();
        }
        match Timestamp::since_epoch(secs + carried, rest) {
            Some(t) => t,
            None => Timestamp::latest(),
        }
    }

    /// The instant that lies `secs` seconds and `nanos` nanoseconds before
    /// the Unix epoch, or the earliest instant that can be held where that
    /// one lies beyond it.
    pub fn nearest_before_epoch(secs: u64, nanos: u32) -> (t: Timestamp)
        ensures
            t@ == Timestamp::nearest(-(secs * NANOS_PER_SEC + nanos)),
    {
        let carried: u64 = (nanos / NANOS_PER_SEC) as u64;
        let rest: u32 = nanos % NANOS_PER_SEC;
        if secs > u64::MAX - carried {
            return Timestamp::earliest();
        }
        match Timestamp::before_epoch(secs + carried, rest) {
            Some(t) => t,
            None => Timestamp::earliest(),
        }
    }

    /// The whole seconds of this instant, negative before the epoch.
    pub fn secs(&self) -> (s: i64)
        ensures
            s == self@ / (NANOS_PER_SEC as int),
    {
        proof {
            use_type_invariant(self);
            vstd::arithmetic::div_mod::lemma_fundamental_div_mod_converse(
                self@,
                NANOS_PER_SEC as int,
                self.secs as int,
                self.nanos as int,
            );
        }
        self.secs
    }

    /// The nanoseconds after the whole second.
    pub fn nanos(&self) -> (n: u32)
        ensures
            n == self@ % (NANOS_PER_SEC as int),
            n < NANOS_PER_SEC,
    {
        proof {
            use_type_invariant(self);
            vstd::arithmetic::div_mod::lemma_fundamental_div_mod_converse(
                self@,
                NANOS_PER_SEC as int,
                self.secs as int,
                self.nanos as int,
            );
        }
        self.nanos
    }

    /// Whether this instant lies strictly before `other`.
    pub fn is_before(&self, other: &Timestamp) -> (b: bool)
        ensures
            b == (self@ < other@),
    {
        proof {
            use_type_invariant(self);
            use_type_invariant(other);
        }
        self.secs < other.secs || (self.secs == other.secs && self.nanos < other.nanos)
    }

    /// The whole seconds that have passed from this instant until `now`,
    /// or nothing when this instant lies after `now`.
    pub fn elapsed_secs(&self, now: &Timestamp) -> (e: Option<u64>)
        ensures
            e is Some <==> self@ <= now@,
            e matches Some(s) ==> s == (now@ - self@) / (NANOS_PER_SEC as int),
    {
        proof {
            use_type_invariant(self);
            use_type_invariant(now);
        }
        if now.is_before(self) {
            None
        } else {
            let whole: i128 = now.secs as i128 - self.secs as i128;
            let passed: i128 = if now.nanos < self.nanos {
                whole - 1
            } else {
                whole
            };
            Some(passed as u64)
        }
    }

    /// The whole seconds from the Unix epoch to this instant, or nothing
    /// when this instant lies before the epoch.
    pub fn secs_since_epoch(&self) -> (e: Option<u64>)
        ensures
            e is Some <==> self@ >= 0,
            e matches Some(s) ==> s == self@ / (NANOS_PER_SEC as int),
    {
        proof {
            use_type_invariant(self);
        }
        if self.secs < 0 {
            None
        } else {
            Some(self.secs as u64)
        }
    }
}

/// What a package record holds, as the contracts see it.
pub struct PackageView {
    /// The identifier the package manager knows the package by.
    pub name: Seq<char>,
    /// The kind of the package.
    pub package_type: PackageType,
    /// When the package was last used, in nanoseconds since the Unix epoch.
    pub last_accessed: Option<int>,
    /// The path whose access time `last_accessed` is.
    pub last_accessed_path: Option<Seq<char>>,
}

/// The views of a sequence of package records.
pub open spec fn package_views(packages: Seq<Package>) -> Seq<PackageView> {
    packages.map_values(|p: Package| p@)
}

/// One installed package. A record never changes once it is made, and it
/// holds a path exactly when it holds the time of the last access.
#[derive(Debug)]
pub struct Package {
    name: String,
    package_type: PackageType,
    last_accessed: Option<Timestamp>,
    last_accessed_path: Option<String>,
}

impl View for Package {
    type V = PackageView;

    closed spec fn view(&self) -> PackageView {
        PackageView {
            name: self.name@,
            package_type: self.package_type,
            last_accessed: match self.last_accessed {
                Some(t) => Some(t@),
                None => None,
            },
            last_accessed_path: match self.last_accessed_path {
                Some(p) => Some(p@),
                None => None,
            },
        }
    }
}

impl Clone for Package {
    fn clone(&self) -> (copy: Package)
        ensures
            copy == *self,
    {
        proof {
            use_type_invariant(self);
        }
        let path = match &self.last_accessed_path {
            Some(p) => Some(p.clone()),
            None => None,
        };
        Package {
            name: self.name.clone(),
            package_type: self.package_type,
            last_accessed: self.last_accessed,
            last_accessed_path: path,
        }
    }
}

/// The name of a package kind.
pub open spec fn kind_text(kind: PackageType) -> Seq<char> {
    match kind {
        PackageType::Formula => "Formula"@,
        PackageType::Cask => "Cask"@,
    }
}

/// "`count` `unit`s ago", with the plural `s` left out for a count of one.
pub open spec fn ago_text(count: nat, unit: Seq<char>) -> Seq<char> {
    decimal(count) + " "@ + unit + (if count == 1 {
        Seq::empty()
    } else {
        "s"@
    }) + " ago"@
}

/// How long ago something happened that lies `secs` seconds back, in the
/// largest unit that fits: minutes, hours, days, months of thirty days or
/// years of 365 days.
pub open spec fn age_text(secs: nat) -> Seq<char> {
    if secs < 60 {
        "Just now"@
    } else if secs < 3600 {
        ago_text(secs / 60, "min"@)
    } else if secs < 86400 {
        ago_text(secs / 3600, "hour"@)
    } else if secs < 2592000 {
        ago_text(secs / 86400, "day"@)
    } else if secs < 31536000 {
        ago_text(secs / 2592000, "month"@)
    } else {
        ago_text(secs / 31536000, "year"@)
    }
}

/// What the table shows for a last access at `last`, seen at `now` (both in
/// nanoseconds since the Unix epoch): the age of an access in the past, the
/// bare second count of one that lies in the future, and a fixed text where
/// there is none or where it lies in the future and before the epoch.
pub open spec fn last_accessed_text(last: Option<int>, now: int) -> Seq<char> {
    match last {
        None => "Never accessed"@,
        Some(t) => if t <= now {
            age_text(((now - t) / (NANOS_PER_SEC as int)) as nat)
        } else if t >= 0 {
            "Timestamp: "@ + decimal((t / (NANOS_PER_SEC as int)) as nat)
        } else {
            "Unknown date"@
        },
    }
}

/// The text an instant is written as where its two parts are to be read,
/// the instant given in nanoseconds since the Unix epoch:
/// `SystemTime { tv_sec: <seconds>, tv_nsec: <nanoseconds> }`.
pub open spec fn timestamp_text(instant: int) -> Seq<char> {
    "SystemTime { tv_sec: "@ + signed_decimal(instant / (NANOS_PER_SEC as int)) + ", tv_nsec: "@
        + decimal((instant % (NANOS_PER_SEC as int)) as nat) + " }"@
}

/// The time of the last access as it is written out in full, or `Unknown`
/// where there is none.
pub open spec fn access_text(last: Option<int>) -> Seq<char> {
    match last {
        Some(instant) => timestamp_text(instant),
        None => "Unknown"@,
    }
}

/// The path of the last access, or `missing` where there is none.
pub open spec fn path_text(path: Option<Seq<char>>, missing: Seq<char>) -> Seq<char> {
    match path {
        Some(p) => p,
        None => missing,
    }
}

/// The four cells of the row that the table shows for the package `p`
/// at the instant `now`: the name, the kind, the last access and the path
/// (`no path` without one).
pub open spec fn display_row(p: PackageView, now: int) -> Seq<Seq<char>> {
    seq![
        p.name,
        kind_text(p.package_type),
        last_accessed_text(p.last_accessed, now),
        path_text(p.last_accessed_path, "no path"@),
    ]
}

/// Whether `cells` are the cells of the row of `p` at the instant `now`.
pub open spec fn is_row_of(cells: Seq<Seq<char>>, p: PackageView, now: int) -> bool {
    cells == display_row(p, now)
}

fn ago_string(count: u64, unit: &str) -> (s: String)
    ensures
        s@ == ago_text(count as nat, unit@),
{
    let mut s = decimal_string(count);
    s.append(" ");
    s.append(unit);
    let ghost stem = s@;
    if count != 1 {
        s.append("s");
    }
    s.append(" ago");
    proof {
        assert(stem + Seq::<char>::empty() =~= stem);
    }
    s
}

/// Writes how long ago something happened that lies `secs` seconds back.
pub fn age_string(secs: u64) -> (s: String)
    ensures
        s@ == age_text(secs as nat),
{
    if secs < 60 {
        String::from_str("Just now")
    } else if secs < 3600 {
        ago_string(secs / 60, "min")
    } else if secs < 86400 {
        ago_string(secs / 3600, "hour")
    } else if secs < 2592000 {
        ago_string(secs / 86400, "day")
    } else if secs < 31536000 {
        ago_string(secs / 2592000, "month")
    } else {
        ago_string(secs / 31536000, "year")
    }
}

impl Package {
    #[verifier::type_invariant]
    closed spec fn access_recorded_whole(self) -> bool {
        self.last_accessed is Some <==> self.last_accessed_path is Some
    }

    /// A record of the package `name`. The access is recorded only whole:
    /// where the time or the path is missing, the record holds neither.
    pub fn new(
        name: String,
        package_type: PackageType,
        last_accessed: Option<Timestamp>,
        last_accessed_path: Option<String>,
    ) -> (p: Package)
        ensures
            p@.name == name@,
            p@.package_type == package_type,
            p@.last_accessed is Some <==> p@.last_accessed_path is Some,
            p@.last_accessed is Some <==> last_accessed is Some && last_accessed_path is Some,
            p@.last_accessed matches Some(t) ==> t == last_accessed->0@
                && p@.last_accessed_path == Some(last_accessed_path->0@),
    {
        match (last_accessed, last_accessed_path) {
            (Some(time), Some(path)) => Package {
                name,
                package_type,
                last_accessed: Some(time),
                last_accessed_path: Some(path),
            },
            _ => Package { name, package_type, last_accessed: None, last_accessed_path: None },
        }
    }

    /// Whether an access to the package is on record. The time and the path
    /// of the access are then both there, and otherwise neither is.
    pub fn has_been_accessed(&self) -> (b: bool)
        ensures
            b == self@.last_accessed is Some,
            b == self@.last_accessed_path is Some,
    {
        proof {
            use_type_invariant(self);
        }
        self.last_accessed.is_some()
    }

    /// The identifier of the package.
    pub fn name(&self) -> (s: &str)
        ensures
            s@ == self@.name,
    {
        self.name.as_str()
    }

    /// The kind of the package.
    pub fn kind(&self) -> (k: PackageType)
        ensures
            k == self@.package_type,
    {
        self.package_type
    }

    /// The name of the package's kind.
    pub fn package_type(&self) -> (s: &str)
        ensures
            s@ == kind_text(self@.package_type),
    {
        match self.package_type {
            PackageType::Formula => "Formula",
            PackageType::Cask => "Cask",
        }
    }

    /// When the package was last used, if that is known.
    pub fn accessed_at(&self) -> (t: Option<Timestamp>)
        ensures
            t is Some <==> self@.last_accessed is Some,
            t matches Some(ts) ==> self@.last_accessed == Some(ts@),
    {
        self.last_accessed
    }

    /// The path whose access time is on record, or the empty text.
    pub fn last_accessed_path(&self) -> (s: &str)
        ensures
            s@ == path_text(self@.last_accessed_path, ""@),
    {
        match &self.last_accessed_path {
            Some(p) => p.as_str(),
            None => "",
        }
    }

    /// The time of the last access with its two parts written out, or
    /// `Unknown` where there is none.
    pub fn last_accessed(&self) -> (s: String)
        ensures
            s@ == access_text(self@.last_accessed),
    {
        match &self.last_accessed {
            Some(t) => {
                let mut s = String::from_str("SystemTime { tv_sec: ");
                let secs = signed_decimal_string(t.secs());
                s.append(secs.as_str());
                s.append(", tv_nsec: ");
                let nanos = decimal_string(t.nanos() as u64);
                s.append(nanos.as_str());
                s.append(" }");
                s
            },
            None => String::from_str("Unknown"),
        }
    }

    /// What the table shows for the last access, seen now. What time it is
    /// is for the clock to say; the text is that of some instant.
    pub fn format_last_accessed(&self) -> (s: String)
        ensures
            exists|now: int| s@ == #[trigger] last_accessed_text(self@.last_accessed, now),
    {
        self.format_last_accessed_at(Timestamp::now())
    }

    /// What the table shows for the last access, seen at `now`.
    pub fn format_last_accessed_at(&self, now: Timestamp) -> (s: String)
        ensures
            s@ == last_accessed_text(self@.last_accessed, now@),
    {
        match &self.last_accessed {
            Some(time) => match time.elapsed_secs(&now) {
                Some(secs) => age_string(secs),
                None => match time.secs_since_epoch() {
                    Some(secs) => {
                        let mut s = String::from_str("Timestamp: ");
                        let digits = decimal_string(secs);
                        s.append(digits.as_str());
                        s
                    },
                    None => String::from_str("Unknown date"),
                },
            },
            None => String::from_str("Never accessed"),
        }
    }

    /// The four cells of the package's row in the table, seen now: the
    /// name, the kind, the last access and the path (`no path` without one).
    pub fn get_display_fields(&self) -> (fields: Vec<String>)
        ensures
            exists|now: int| #[trigger] is_row_of(texts(fields@), self@, now),
    {
        let now = Timestamp::now();
        let fields = self.get_display_fields_at(now);
        assert(is_row_of(texts(fields@), self@, now@));
        fields
    }

    /// The four cells of the package's row in the table, seen at `now`.
    pub fn get_display_fields_at(&self, now: Timestamp) -> (fields: Vec<String>)
        ensures
            is_row_of(texts(fields@), self@, now@),
    {
        let mut fields: Vec<String> = Vec::new();
        fields.push(self.name.clone());
        fields.push(String::from_str(self.package_type()));
        fields.push(self.format_last_accessed_at(now));
        let path = match &self.last_accessed_path {
            Some(p) => p.clone(),
            None => String::from_str("no path"),
        };
        fields.push(path);
        assert(texts(fields@) =~= display_row(self@, now@));
        fields
    }
}

} // verus!
