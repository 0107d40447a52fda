//! Where a package leaves its traces in the file system, and which of the
//! paths that were found tell of its last use.

use crate::package::PackageType;
use crate::scanner::HomebrewScanner;
use crate::text::{contains_str, contains_text, texts};
use crate::trusted::lowercase;
use vstd::prelude::*;
use vstd::string::*;

verus! {

/// One entry of a directory, as the file system showed it.
#[derive(Debug)]
pub struct DirEntry {
    /// The full path of the entry.
    pub path: String,
    /// The name of the entry, where it can be read as text.
    pub name: Option<String>,
    /// Whether the entry is a directory.
    pub is_dir: bool,
}

/// What the file system showed of the two places where a package leaves
/// traces.
#[derive(Debug)]
pub struct Listing {
    /// The path of the place that is checked for being there, if it is.
    pub direct: Option<String>,
    /// The entries of the place that is listed; none where it is missing or
    /// cannot be read.
    pub entries: Vec<DirEntry>,
}

/// Where to look for the traces of a package. Each place is given by the
/// parts of its path, to be joined in their order.
#[derive(Debug)]
pub struct ProbeRequest {
    /// The package that is looked for.
    pub name: String,
    /// Its kind.
    pub kind: PackageType,
    /// The place to check for being there.
    pub direct: Vec<String>,
    /// The directory to list.
    pub listed: Vec<String>,
}

/// The place to check for a package: the link to a formula's program among
/// the programs, and a cask's entry in the cask room.
pub open spec fn direct_place(prefix: Seq<char>, name: Seq<char>, kind: PackageType) -> Seq<
    Seq<char>,
> {
    match kind {
        PackageType::Formula => seq![prefix, "bin"@, name],
        PackageType::Cask => seq![prefix, "Caskroom"@, name],
    }
}

/// The directory to list for a package: a formula's entry in the cellar,
/// which holds its versions, and for a cask the applications of the host.
pub open spec fn listed_place(prefix: Seq<char>, name: Seq<char>, kind: PackageType) -> Seq<
    Seq<char>,
> {
    match kind {
        PackageType::Formula => seq![prefix, "Cellar"@, name],
        PackageType::Cask => seq!["/Applications"@],
    }
}

/// Whether a listed entry counts as a trace of the package `name` of kind
/// `kind`: for a formula every directory, and for a cask every entry whose
/// name holds the package's name, both taken in lower case.
pub open spec fn is_trace(entry: DirEntry, name: Seq<char>, kind: PackageType) -> bool {
    match kind {
        PackageType::Formula => entry.is_dir,
        PackageType::Cask => entry.name matches Some(entry_name) && contains_text(
            lowercase(entry_name@),
            lowercase(name),
        ),
    }
}

/// The paths of the listed entries that are traces of the package, in the
/// order of the listing.
pub open spec fn trace_paths(entries: Seq<DirEntry>, name: Seq<char>, kind: PackageType) -> Seq<
    Seq<char>,
> {
    entries.filter_map(
        |entry: DirEntry|
            if is_trace(entry, name, kind) {
                Some(entry.path@)
            } else {
                None
            },
    )
}

/// The paths at which the last use of a package may show, the most telling
/// first: for a formula its versions in the cellar and then the link to its
/// program; for a cask its entry in the cask room and then the applications
/// that go by its name.
pub open spec fn candidate_paths(name: Seq<char>, kind: PackageType, listing: Listing) -> Seq<
    Seq<char>,
> {
    let direct = match listing.direct {
        Some(path) => seq![path@],
        None => Seq::empty(),
    };
    match kind {
        PackageType::Formula => trace_paths(listing.entries@, name, kind) + direct,
        PackageType::Cask => direct + trace_paths(listing.entries@, name, kind),
    }
}

/// Tells whether an entry named `entry_name` belongs to the package `name`,
/// both given in lower case: the entry's name holds the package's.
pub fn names_application(entry_name: &str, name: &str) -> (b: bool)
    ensures
        b == contains_text(entry_name@, name@),
{
    contains_str(entry_name, name)
}

fn entry_is_trace(entry: &DirEntry, name: &str, lower_name: &str, kind: PackageType) -> (b: bool)
    requires
        lower_name@ == lowercase(name@),
    ensures
        b == is_trace(*entry, name@, kind),
{
    match kind {
        PackageType::Formula => entry.is_dir,
        PackageType::Cask => match &entry.name {
            Some(entry_name) => {
                let lower_entry = entry_name.as_str().to_lowercase();
                names_application(lower_entry.as_str(), lower_name)
            },
            None => false,
        },
    }
}

/// Whether `request` asks about the package `name` of kind `kind` under the
/// install root `prefix`.
pub open spec fn is_probe_of(
    request: ProbeRequest,
    prefix: Seq<char>,
    name: Seq<char>,
    kind: PackageType,
) -> bool {
    &&& request.name@ == name
    &&& request.kind == kind
    &&& texts(request.direct@) == direct_place(prefix, name, kind)
    &&& texts(request.listed@) == listed_place(prefix, name, kind)
}

/// Says where to look for the package `name` of kind `kind` under the
/// install root `prefix`.
pub fn probe_request(prefix: &str, name: &str, kind: PackageType) -> (request: ProbeRequest)
    ensures
        is_probe_of(request, prefix@, name@, kind),
{
    let mut direct: Vec<String> = Vec::new();
    let mut listed: Vec<String> = Vec::new();
    direct.push(String::from_str(prefix));
    match kind {
        PackageType::Formula => {
            direct.push(String::from_str("bin"));
            direct.push(String::from_str(name));
            listed.push(String::from_str(prefix));
            listed.push(String::from_str("Cellar"));
            listed.push(String::from_str(name));
        },
        PackageType::Cask => {
            direct.push(String::from_str("Caskroom"));
            direct.push(String::from_str(name));
            listed.push(String::from_str("/Applications"));
        },
    }
    assert(texts(direct@) =~= direct_place(prefix@, name@, kind));
    assert(texts(listed@) =~= listed_place(prefix@, name@, kind));
    ProbeRequest { name: String::from_str(name), kind, direct, listed }
}

impl HomebrewScanner {
    /// The paths at which the last use of the package `package_name` may
    /// show, given what the file system showed of its places.
    pub fn find_package_paths(
        package_name: &str,
        package_type: PackageType,
        listing: &Listing,
    ) -> (paths: Vec<String>)
        ensures
            texts(paths@) == candidate_paths(package_name@, package_type, *listing),
    {
        let lower_name = package_name.to_lowercase();
        let mut paths: Vec<String> = Vec::new();
        if package_type == PackageType::Cask {
            if let Some(path) = &listing.direct {
                paths.push(path.clone());
            }
        }
        let ghost direct_first = texts(paths@);
        assert(listing.entries@.take(0) =~= Seq::<DirEntry>::empty());
        assert(texts(paths@) =~= direct_first + trace_paths(
            listing.entries@.take(0),
            package_name@,
            package_type,
        ));
        let mut i: usize = 0;
        while i < listing.entries.len()
            invariant
                i <= listing.entries.len(),
                lower_name@ == lowercase(package_name@),
                texts(paths@) == direct_first + trace_paths(
                    listing.entries@.take(i as int),
                    package_name@,
                    package_type,
                ),
            decreases listing.entries.len() - i,
        {
            let entry = &listing.entries[i];
            let ghost before = texts(paths@);
            proof {
                assert(listing.entries@.take(i + 1).drop_last() =~= listing.entries@.take(
                    i as int,
                ));
                assert(listing.entries@.take(i + 1).last() == listing.entries@[i as int]);
            }
            if entry_is_trace(entry, package_name, lower_name.as_str(), package_type) {
                paths.push(entry.path.clone());
                assert(texts(paths@) =~= before + seq![entry.path@]);
            }
            i += 1;
            assert(texts(paths@) =~= direct_first + trace_paths(
                listing.entries@.take(i as int),
                package_name@,
                package_type,
            ));
        }
        assert(listing.entries@.take(i as int) =~= listing.entries@);
        if package_type == PackageType::Formula {
            let ghost before = texts(paths@);
            if let Some(path) = &listing.direct {
                paths.push(path.clone());
                assert(texts(paths@) =~= before + seq![path@]);
            }
            assert(direct_first =~= Seq::<Seq<char>>::empty());
            assert(texts(paths@) =~= candidate_paths(package_name@, package_type, *listing));
        } else {
            assert(texts(paths@) =~= candidate_paths(package_name@, package_type, *listing));
        }
        paths
    }
}

} // verus!
