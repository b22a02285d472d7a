//! Finding what a package offers for export in the listing of its files.

use vstd::prelude::*;
use crate::pkgdetect::PackageFormat;
use crate::text::{
    ascending, ends_with, finishes_with, has_char, includes_char, insert_ascending,
    last_index_of, law_ascending_is_unique, lines, rfind, slice_to_vec, split_lines, str_views,
    strip_one, strip_prefix, to_chars, to_strings, trim, trimmed, views, without_first,
    without_prefix,
};

verus! {

/// What a package offers for export: the names of its binaries and of its
/// desktop entries, each list in order and without repetition.
#[derive(Clone, Debug, PartialEq, Eq, Default)]
pub struct PackageManifest {
    pub binaries: Vec<String>,
    pub desktop_entries: Vec<String>,
}

/// What a [`PackageManifest`] holds.
pub struct PackageManifestView {
    pub binaries: Seq<Seq<char>>,
    pub desktop_entries: Seq<Seq<char>>,
}

impl View for PackageManifest {
    type V = PackageManifestView;

    open spec fn view(&self) -> PackageManifestView {
        PackageManifestView {
            binaries: str_views(self.binaries@),
            desktop_entries: str_views(self.desktop_entries@),
        }
    }
}

/// The two shapes of a file listing.
#[derive(Clone, Copy, Debug, PartialEq, Eq, Structural)]
pub enum ListingKind {
    /// Lines of an archive listing: the path is the last word of the line,
    /// often behind a dot.
    Archive,
    /// One path on each line.
    Paths,
}

/// The path that a line of a listing names, without a leading slash; an
/// archive line without a space names none.
pub open spec fn path_of_line(kind: ListingKind, line: Seq<char>) -> Option<Seq<char>> {
    match kind {
        ListingKind::Archive => {
            let k = rfind(line, ' ');
            if k < 0 {
                None
            } else {
                Some(strip_one(strip_one(trim(line.skip(k)), '.'), '/'))
            }
        },
        ListingKind::Paths => Some(strip_one(trim(line), '/')),
    }
}

/// The binary that `path` is: a file directly under `usr/bin/`, so that
/// what follows the directory is a name without a slash.
pub open spec fn binary_of(path: Seq<char>) -> Option<Seq<char>> {
    match strip_prefix(path, "usr/bin/"@) {
        Some(name) => if name.len() > 0 && !has_char(name, '/') {
            Some(name)
        } else {
            None
        },
        None => None,
    }
}

/// The desktop entry that `path` is: what follows `usr/share/applications/`
/// where it ends in `.desktop`.
pub open spec fn desktop_of(path: Seq<char>) -> Option<Seq<char>> {
    match strip_prefix(path, "usr/share/applications/"@) {
        Some(rest) => if ends_with(rest, ".desktop"@) {
            Some(rest)
        } else {
            None
        },
        None => None,
    }
}

/// Whether some line of `ls` names the binary `x`.
pub open spec fn lists_binary(kind: ListingKind, ls: Seq<Seq<char>>, x: Seq<char>) -> bool {
    exists|i: int| 0 <= i < ls.len() && #[trigger] line_binary(kind, ls[i]) == Some(x)
}

/// Whether some line of `ls` names the desktop entry `x`.
pub open spec fn lists_desktop(kind: ListingKind, ls: Seq<Seq<char>>, x: Seq<char>) -> bool {
    exists|i: int| 0 <= i < ls.len() && #[trigger] line_desktop(kind, ls[i]) == Some(x)
}

/// The binary that a line of a listing names.
pub open spec fn line_binary(kind: ListingKind, line: Seq<char>) -> Option<Seq<char>> {
    match path_of_line(kind, line) {
        Some(p) => binary_of(p),
        None => None,
    }
}

/// The desktop entry that a line of a listing names.
pub open spec fn line_desktop(kind: ListingKind, line: Seq<char>) -> Option<Seq<char>> {
    match path_of_line(kind, line) {
        Some(p) => desktop_of(p),
        None => None,
    }
}

/// Whether `m` is the manifest of the listing `text`: both lists in order
/// and without repetition, holding exactly the names that the lines give.
pub open spec fn is_manifest_of(m: PackageManifestView, kind: ListingKind, text: Seq<char>) -> bool {
    &&& ascending(m.binaries)
    &&& ascending(m.desktop_entries)
    &&& forall|x: Seq<char>| m.binaries.contains(x) <==> lists_binary(kind, lines(text), x)
    &&& forall|x: Seq<char>|
        m.desktop_entries.contains(x) <==> lists_desktop(kind, lines(text), x)
}

fn line_path(kind: ListingKind, line: &[char]) -> (r: Option<Vec<char>>)
    ensures
        match r {
            Some(p) => path_of_line(kind, line@) == Some(p@),
            None => path_of_line(kind, line@) is None,
        },
{
    match kind {
        ListingKind::Archive => {
            match last_index_of(line, ' ') {
                Some(k) => {
                    let tail = slice_to_vec(line, k, line.len());
                    assert(tail@ =~= line@.skip(k as int));
                    let t = trimmed(tail.as_slice());
                    let a = without_first(t.as_slice(), '.');
                    Some(without_first(a.as_slice(), '/'))
                },
                None => None,
            }
        },
        ListingKind::Paths => {
            let t = trimmed(line);
            Some(without_first(t.as_slice(), '/'))
        },
    }
}

fn path_binary(path: &[char]) -> (r: Option<Vec<char>>)
    ensures
        match r {
            Some(n) => binary_of(path@) == Some(n@),
            None => binary_of(path@) is None,
        },
{
    match without_prefix(path, to_chars("usr/bin/").as_slice()) {
        Some(name) => {
            if name.len() > 0 && !includes_char(name.as_slice(), '/') {
                Some(name)
            } else {
                None
            }
        },
        None => None,
    }
}

fn path_desktop(path: &[char]) -> (r: Option<Vec<char>>)
    ensures
        match r {
            Some(n) => desktop_of(path@) == Some(n@),
            None => desktop_of(path@) is None,
        },
{
    match without_prefix(path, to_chars("usr/share/applications/").as_slice()) {
        Some(rest) => {
            if finishes_with(rest.as_slice(), to_chars(".desktop").as_slice()) {
                Some(rest)
            } else {
                None
            }
        },
        None => None,
    }
}

/// The names that are exported: those that the caller gave where there are
/// any, else those that the scan found.
pub open spec fn chosen(given: Seq<Seq<char>>, found: Seq<Seq<char>>) -> Seq<Seq<char>> {
    if given.len() > 0 {
        given
    } else {
        found
    }
}

/// A copy of `v`.
pub fn clone_strings(v: &Vec<String>) -> (r: Vec<String>)
    ensures
        str_views(r@) == str_views(v@),
{
    let mut r: Vec<String> = Vec::new();
    let mut i: usize = 0;
    while i < v.len()
        invariant
            i <= v.len(),
            r@.len() == i,
            forall|j: int| 0 <= j < i ==> r@[j]@ == v@[j]@,
        decreases v.len() - i,
    {
        r.push(v[i].clone());
        i += 1;
    }
    assert(str_views(r@) =~= str_views(v@));
    r
}

/// Replaces each list of `scanned` by the caller's list of that kind where
/// the caller gave one: a given list replaces the scanned one whole.
pub fn resolve_export_lists(scanned: PackageManifest, bins: &Vec<String>, apps: &Vec<String>) -> (m:
    PackageManifest)
    ensures
        m@.binaries == chosen(str_views(bins@), scanned@.binaries),
        m@.desktop_entries == chosen(str_views(apps@), scanned@.desktop_entries),
{
    let binaries = if bins.len() > 0 {
        clone_strings(bins)
    } else {
        scanned.binaries
    };
    let desktop_entries = if apps.len() > 0 {
        clone_strings(apps)
    } else {
        scanned.desktop_entries
    };
    PackageManifest { binaries, desktop_entries }
}

/// Reads the listing `text` of a package's files and collects the binaries
/// and the desktop entries that it names.
pub fn scan_listing(kind: ListingKind, text: &str) -> (m: PackageManifest)
    ensures
        is_manifest_of(m@, kind, text@),
{
    let chars = to_chars(text);
    let ls = split_lines(chars.as_slice());
    let ghost all = lines(text@);
    let mut bins: Vec<Vec<char>> = Vec::new();
    let mut apps: Vec<Vec<char>> = Vec::new();
    let mut i: usize = 0;
    assert(views(bins@) =~= Seq::<Seq<char>>::empty());
    assert(views(apps@) =~= Seq::<Seq<char>>::empty());
    while i < ls.len()
        invariant
            i <= ls.len(),
            views(ls@) == all,
            ascending(views(bins@)),
            ascending(views(apps@)),
            forall|x: Seq<char>| views(bins@).contains(x) <==> lists_binary(kind, all.take(i as int), x),
            forall|x: Seq<char>| views(apps@).contains(x) <==> lists_desktop(kind, all.take(i as int), x),
        decreases ls.len() - i,
    {
        let ghost line = all[i as int];
        let ghost seen = all.take(i as int);
        let ghost next = all.take(i + 1);
        let ghost old_bins = views(bins@);
        let ghost old_apps = views(apps@);
        assert(ls@[i as int]@ == line);
        assert(next =~= seen.push(line));
        let path = line_path(kind, ls[i].as_slice());
        if let Some(p) = path {
            if let Some(name) = path_binary(p.as_slice()) {
                insert_ascending(&mut bins, name);
            }
            if let Some(rest) = path_desktop(p.as_slice()) {
                insert_ascending(&mut apps, rest);
            }
        }
        assert forall|x: Seq<char>| views(bins@).contains(x) <==> lists_binary(kind, next, x) by {
            if lists_binary(kind, next, x) {
                let j = choose|j: int| 0 <= j < next.len() && #[trigger] line_binary(kind, next[j]) == Some(x);
                if j < i {
                    assert(line_binary(kind, seen[j]) == Some(x));
                }
            }
            if lists_binary(kind, seen, x) {
                let j = choose|j: int| 0 <= j < seen.len() && #[trigger] line_binary(kind, seen[j]) == Some(x);
                assert(line_binary(kind, next[j]) == Some(x));
            }
            if line_binary(kind, line) == Some(x) {
                assert(line_binary(kind, next[i as int]) == Some(x));
            }
        }
        assert forall|x: Seq<char>| views(apps@).contains(x) <==> lists_desktop(kind, next, x) by {
            if lists_desktop(kind, next, x) {
                let j = choose|j: int| 0 <= j < next.len() && #[trigger] line_desktop(kind, next[j]) == Some(x);
                if j < i {
                    assert(line_desktop(kind, seen[j]) == Some(x));
                }
            }
            if lists_desktop(kind, seen, x) {
                let j = choose|j: int| 0 <= j < seen.len() && #[trigger] line_desktop(kind, seen[j]) == Some(x);
                assert(line_desktop(kind, next[j]) == Some(x));
            }
            if line_desktop(kind, line) == Some(x) {
                assert(line_desktop(kind, next[i as int]) == Some(x));
            }
        }
        i += 1;
    }
    assert(all.take(ls.len() as int) =~= all);
    PackageManifest { binaries: to_strings(&bins), desktop_entries: to_strings(&apps) }
}

/// The shape of the listing of a package file of the given format.
pub open spec fn kind_of_format(fmt: PackageFormat) -> ListingKind {
    match fmt {
        PackageFormat::Deb => ListingKind::Archive,
        PackageFormat::Rpm => ListingKind::Paths,
    }
}

/// Reads what the listing command printed for a package file that is not
/// installed yet.
pub fn prescan_package(fmt: PackageFormat, listing: &str) -> (m: PackageManifest)
    ensures
        is_manifest_of(m@, kind_of_format(fmt), listing@),
{
    match fmt {
        PackageFormat::Deb => scan_listing(ListingKind::Archive, listing),
        PackageFormat::Rpm => scan_listing(ListingKind::Paths, listing),
    }
}

/// Reads the list of files of an installed package.
pub fn scan_installed_pkg(listing: &str) -> (m: PackageManifest)
    ensures
        is_manifest_of(m@, ListingKind::Paths, listing@),
{
    scan_listing(ListingKind::Paths, listing)
}

/// Whether nothing was found to export.
pub fn nothing_to_export(bins: &Vec<String>, apps: &Vec<String>) -> (b: bool)
    ensures
        b == (bins@.len() == 0 && apps@.len() == 0),
{
    bins.len() == 0 && apps.len() == 0
}

/// A listing has one manifest only: what is found in it does not depend on
/// how it is searched.
pub proof fn law_manifest_is_unique(
    a: PackageManifestView,
    b: PackageManifestView,
    kind: ListingKind,
    text: Seq<char>,
)
    requires
        is_manifest_of(a, kind, text),
        is_manifest_of(b, kind, text),
    ensures
        a == b,
{
    assert forall|x: Seq<char>| a.binaries.contains(x) <==> b.binaries.contains(x) by {
        assert(a.binaries.contains(x) <==> lists_binary(kind, lines(text), x));
        assert(b.binaries.contains(x) <==> lists_binary(kind, lines(text), x));
    }
    assert forall|x: Seq<char>| a.desktop_entries.contains(x) <==> b.desktop_entries.contains(
        x,
    ) by {
        assert(a.desktop_entries.contains(x) <==> lists_desktop(kind, lines(text), x));
        assert(b.desktop_entries.contains(x) <==> lists_desktop(kind, lines(text), x));
    }
    law_ascending_is_unique(a.binaries, b.binaries);
    law_ascending_is_unique(a.desktop_entries, b.desktop_entries);
}

} // verus!
