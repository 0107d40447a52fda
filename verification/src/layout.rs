//! How wide the columns of the inventory table have to be.

use crate::package::{access_text, kind_text, path_text, Package, PackageView};
use crate::trusted::{display_width, str_width};
use vstd::prelude::*;

verus! {

/// The widths of the four columns where there is nothing to measure.
pub open spec fn default_lens() -> (u16, u16, u16, u16) {
    (20u16, 10u16, 15u16, 20u16)
}

/// The largest of `widths`, or zero where there are none.
pub open spec fn widest(widths: Seq<usize>) -> usize
    decreases widths.len(),
{
    if widths.len() == 0 {
        0
    } else if widest(widths.drop_last()) >= widths.last() {
        widest(widths.drop_last())
    } else {
        widths.last()
    }
}

/// `widest` is a width of the sequence, and none of the sequence is larger.
pub proof fn lemma_widest(widths: Seq<usize>)
    ensures
        forall|i: int| 0 <= i < widths.len() ==> widths[i] <= widest(widths),
        widths.len() > 0 ==> exists|i: int| 0 <= i < widths.len() && widths[i] == widest(widths),
        widths.len() == 0 ==> widest(widths) == 0,
    decreases widths.len(),
{
    if widths.len() > 0 {
        let front = widths.drop_last();
        lemma_widest(front);
        assert forall|i: int| 0 <= i < widths.len() implies widths[i] <= widest(widths) by {
            if i < front.len() {
                assert(front[i] == widths[i]);
            }
        }
        if widest(front) >= widths.last() && front.len() > 0 {
            let at = choose|i: int| 0 <= i < front.len() && front[i] == widest(front);
            assert(widths[at] == widest(widths));
        } else {
            assert(widths[widths.len() - 1] == widest(widths));
        }
    }
}

/// A width as a column length: what is left of it in sixteen bits.
pub open spec fn as_len(width: usize) -> u16 {
    (width % 0x1_0000) as u16
}

/// The four texts of a package that the widths are taken of: its name, the
/// name of its kind, the path of its last access (empty without one) and the
/// time of its last access written out in full.
pub open spec fn measured_texts(p: PackageView) -> (Seq<char>, Seq<char>, Seq<char>, Seq<char>) {
    (
        p.name,
        kind_text(p.package_type),
        path_text(p.last_accessed_path, ""@),
        access_text(p.last_accessed),
    )
}

/// The widths of the four measured texts of a package.
pub open spec fn measured(p: PackageView) -> (usize, usize, usize, usize) {
    (
        display_width(measured_texts(p).0),
        display_width(measured_texts(p).1),
        display_width(measured_texts(p).2),
        display_width(measured_texts(p).3),
    )
}

/// The column lengths that go with the measured widths `rows`, one row for
/// each package: for each column the largest width, and the default lengths
/// where there is no package at all.
pub open spec fn column_lens(rows: Seq<(usize, usize, usize, usize)>) -> (u16, u16, u16, u16) {
    if rows.len() == 0 {
        default_lens()
    } else {
        (
            as_len(widest(rows.map_values(|r: (usize, usize, usize, usize)| r.0))),
            as_len(widest(rows.map_values(|r: (usize, usize, usize, usize)| r.1))),
            as_len(widest(rows.map_values(|r: (usize, usize, usize, usize)| r.2))),
            as_len(widest(rows.map_values(|r: (usize, usize, usize, usize)| r.3))),
        )
    }
}

/// The column lengths that the inventory `items` asks for.
pub open spec fn inventory_lens(items: Seq<PackageView>) -> (u16, u16, u16, u16) {
    column_lens(items.map_values(|p: PackageView| measured(p)))
}

fn larger(a: usize, b: usize) -> (m: usize)
    ensures
        m == if a >= b {
            a
        } else {
            b
        },
{
    if a >= b {
        a
    } else {
        b
    }
}

fn len_of(width: usize) -> (len: u16)
    ensures
        len == as_len(width),
{
    (width % 0x1_0000) as u16
}

/// Works out the column lengths from the measured widths `rows`.
pub fn lens_of_widths(rows: &Vec<(usize, usize, usize, usize)>) -> (lens: (u16, u16, u16, u16))
    ensures
        lens == column_lens(rows@),
{
    if rows.len() == 0 {
        return (20, 10, 15, 20);
    }
    let ghost names = rows@.map_values(|r: (usize, usize, usize, usize)| r.0);
    let ghost kinds = rows@.map_values(|r: (usize, usize, usize, usize)| r.1);
    let ghost paths = rows@.map_values(|r: (usize, usize, usize, usize)| r.2);
    let ghost times = rows@.map_values(|r: (usize, usize, usize, usize)| r.3);
    let mut name_len: usize = 0;
    let mut kind_len: usize = 0;
    let mut path_len: usize = 0;
    let mut time_len: usize = 0;
    let mut i: usize = 0;
    while i < rows.len()
        invariant
            i <= rows.len(),
            names == rows@.map_values(|r: (usize, usize, usize, usize)| r.0),
            kinds == rows@.map_values(|r: (usize, usize, usize, usize)| r.1),
            paths == rows@.map_values(|r: (usize, usize, usize, usize)| r.2),
            times == rows@.map_values(|r: (usize, usize, usize, usize)| r.3),
            name_len == widest(names.take(i as int)),
            kind_len == widest(kinds.take(i as int)),
            path_len == widest(paths.take(i as int)),
            time_len == widest(times.take(i as int)),
        decreases rows.len() - i,
    {
        proof {
            assert(names.take(i + 1).drop_last() =~= names.take(i as int));
            assert(kinds.take(i + 1).drop_last() =~= kinds.take(i as int));
            assert(paths.take(i + 1).drop_last() =~= paths.take(i as int));
            assert(times.take(i + 1).drop_last() =~= times.take(i as int));
        }
        let row = rows[i];
        name_len = larger(name_len, row.0);
        kind_len = larger(kind_len, row.1);
        path_len = larger(path_len, row.2);
        time_len = larger(time_len, row.3);
        i += 1;
    }
    proof {
        assert(names.take(i as int) =~= names);
        assert(kinds.take(i as int) =~= kinds);
        assert(paths.take(i as int) =~= paths);
        assert(times.take(i as int) =~= times);
    }
    (len_of(name_len), len_of(kind_len), len_of(path_len), len_of(time_len))
}

/// Measures the inventory and works out how long each column of the table
/// has to be.
pub fn constraint_len_calculator(items: &[Package]) -> (lens: (u16, u16, u16, u16))
    ensures
        lens == inventory_lens(crate::package::package_views(items@)),
{
    let mut rows: Vec<(usize, usize, usize, usize)> = Vec::new();
    let ghost views = crate::package::package_views(items@);
    let ghost all = views.map_values(|p: PackageView| measured(p));
    let mut i: usize = 0;
    while i < items.len()
        invariant
            i <= items.len(),
            views == crate::package::package_views(items@),
            all == views.map_values(|p: PackageView| measured(p)),
            rows@ == all.take(i as int),
        decreases items.len() - i,
    {
        let package = &items[i];
        let time = package.last_accessed();
        let row = (
            str_width(package.name()),
            str_width(package.package_type()),
            str_width(package.last_accessed_path()),
            str_width(time.as_str()),
        );
        rows.push(row);
        assert(rows@ =~= all.take(i + 1));
        i += 1;
    }
    assert(all.take(i as int) =~= all);
    lens_of_widths(&rows)
}

} // verus!
