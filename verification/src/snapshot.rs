//! Inventories of installed packages, and what changed between two of them.

use vstd::prelude::*;
use vstd::string::StringExecFns;
use crate::error::{BridgeError, BridgeErrorView, ErrorKind};
use crate::text::{
    find_char, find_from, from_chars, join_strings, joined, lines, same, slice_to_vec, split_lines,
    str_views, to_chars, trim, trimmed, views,
};

verus! {

/// A package's name and its version.
pub type Entry = (Seq<char>, Seq<char>);

/// The version that the entries `s` give for the package `name`: that of
/// the last entry with that name.
pub open spec fn lookup(s: Seq<Entry>, name: Seq<char>) -> Option<Seq<char>>
    decreases s.len(),
{
    if s.len() == 0 {
        None
    } else if s.last().0 == name {
        Some(s.last().1)
    } else {
        lookup(s.drop_last(), name)
    }
}

/// The mapping from names to versions that the entries `s` stand for.
pub open spec fn mapping(s: Seq<Entry>) -> Map<Seq<char>, Seq<char>> {
    Map::new(|name: Seq<char>| lookup(s, name) is Some, |name: Seq<char>| lookup(s, name)->0)
}

/// The inventory of a container: a version for each installed package.
#[derive(Clone, Debug, PartialEq, Eq, Default)]
pub struct Snapshot {
    /// Names with versions; of two entries with one name the later counts.
    pub entries: Vec<(String, String)>,
}

/// What a vector of entries holds.
pub open spec fn entry_views(v: Seq<(String, String)>) -> Seq<Entry> {
    Seq::new(v.len(), |i: int| (v[i].0@, v[i].1@))
}

impl View for Snapshot {
    type V = Map<Seq<char>, Seq<char>>;

    open spec fn view(&self) -> Map<Seq<char>, Seq<char>> {
        mapping(entry_views(self.entries@))
    }
}

/// The name and the version on a line of a stored snapshot: what stands
/// before the first tab and what stands behind it; a line without a tab is
/// a name with an empty version.
pub open spec fn stored_entry(line: Seq<char>) -> Entry {
    let e = find_from(line, '\t', 0);
    if e < line.len() {
        (line.take(e), line.skip(e + 1))
    } else {
        (line, Seq::empty())
    }
}

/// The name and the version on a line of an inventory; a line without a tab
/// names no package.
pub open spec fn listed_entry(line: Seq<char>) -> Option<Entry> {
    let e = find_from(line, '\t', 0);
    if e < line.len() {
        Some((line.take(e), line.skip(e + 1)))
    } else {
        None
    }
}

/// The entries of a stored snapshot with the lines `ls`.
pub open spec fn stored_entries(ls: Seq<Seq<char>>) -> Seq<Entry>
    decreases ls.len(),
{
    if ls.len() == 0 {
        Seq::empty()
    } else {
        stored_entries(ls.drop_last()).push(stored_entry(ls.last()))
    }
}

/// The entries of an inventory with the lines `ls`.
pub open spec fn listed_entries(ls: Seq<Seq<char>>) -> Seq<Entry>
    decreases ls.len(),
{
    if ls.len() == 0 {
        Seq::empty()
    } else {
        match listed_entry(ls.last()) {
            Some(e) => listed_entries(ls.drop_last()).push(e),
            None => listed_entries(ls.drop_last()),
        }
    }
}

/// The lines of `ls`, trimmed, without those that are empty then.
pub open spec fn filled(ls: Seq<Seq<char>>) -> Seq<Seq<char>>
    decreases ls.len(),
{
    if ls.len() == 0 {
        Seq::empty()
    } else if trim(ls.last()).len() > 0 {
        filled(ls.drop_last()).push(trim(ls.last()))
    } else {
        filled(ls.drop_last())
    }
}

/// The lines of an inventory as the package query printed it.
pub open spec fn inventory(out: Seq<char>) -> Seq<Seq<char>> {
    filled(lines(out))
}

/// Whether `s` holds nothing twice.
pub open spec fn distinct(s: Seq<Seq<char>>) -> bool {
    forall|i: int, j: int| 0 <= i < j < s.len() ==> s[i] != s[j]
}

/// Whether the package `name` is installed now and was not before.
pub open spec fn is_new(
    before: Map<Seq<char>, Seq<char>>,
    after: Map<Seq<char>, Seq<char>>,
    name: Seq<char>,
) -> bool {
    after.contains_key(name) && !before.contains_key(name)
}

/// Whether the package `name` was installed before and has another version
/// now.
pub open spec fn is_upgraded(
    before: Map<Seq<char>, Seq<char>>,
    after: Map<Seq<char>, Seq<char>>,
    name: Seq<char>,
) -> bool {
    after.contains_key(name) && before.contains_key(name) && before[name] != after[name]
}

/// What changed between two inventories.
#[derive(Clone, Debug, PartialEq, Eq, Default)]
pub struct Changes {
    /// The packages that were not installed before, each once.
    pub new_pkgs: Vec<String>,
    /// The packages whose version differs, each once.
    pub upgraded: Vec<String>,
}

/// Whether `c` says what changed from `before` to `after`: each list holds
/// exactly the packages of its kind, each once. Packages that are gone are
/// in neither.
pub open spec fn is_diff(
    new_pkgs: Seq<Seq<char>>,
    upgraded: Seq<Seq<char>>,
    before: Map<Seq<char>, Seq<char>>,
    after: Map<Seq<char>, Seq<char>>,
) -> bool {
    &&& distinct(new_pkgs)
    &&& distinct(upgraded)
    &&& forall|n: Seq<char>| new_pkgs.contains(n) <==> is_new(before, after, n)
    &&& forall|n: Seq<char>| upgraded.contains(n) <==> is_upgraded(before, after, n)
}

pub proof fn lemma_lookup_last(s: Seq<Entry>, i: int)
    requires
        0 <= i < s.len(),
        forall|j: int| i < j < s.len() ==> s[j].0 != s[i].0,
    ensures
        lookup(s, s[i].0) == Some(s[i].1),
    decreases s.len(),
{
    if i < s.len() - 1 {
        lemma_lookup_last(s.drop_last(), i);
    }
}

pub proof fn lemma_lookup_has_last(s: Seq<Entry>, name: Seq<char>)
    requires
        lookup(s, name) is Some,
    ensures
        exists|i: int|
            0 <= i < s.len() && (#[trigger] s[i]).0 == name && s[i].1 == lookup(s, name)->0
                && forall|j: int| i < j < s.len() ==> s[j].0 != name,
    decreases s.len(),
{
    if s.last().0 == name {
        assert(s[s.len() - 1].0 == name);
    } else {
        lemma_lookup_has_last(s.drop_last(), name);
        let i = choose|i: int|
            0 <= i < s.drop_last().len() && (#[trigger] s.drop_last()[i]).0 == name
                && s.drop_last()[i].1 == lookup(s.drop_last(), name)->0 && forall|j: int|
                i < j < s.drop_last().len() ==> s.drop_last()[j].0 != name;
        assert(s[i].0 == name);
        assert forall|j: int| i < j < s.len() implies s[j].0 != name by {
            if j < s.len() - 1 {
                assert(s.drop_last()[j].0 != name);
            }
        }
    }
}

impl Snapshot {
    /// The version recorded for the package `name`.
    pub fn get(&self, name: &str) -> (r: Option<&String>)
        ensures
            match r {
                Some(v) => self@.contains_key(name@) && self@[name@] == v@,
                None => !self@.contains_key(name@),
            },
    {
        let ghost s = entry_views(self.entries@);
        let key = to_chars(name);
        let mut j: usize = self.entries.len();
        assert(s.take(j as int) =~= s);
        while j > 0
            invariant
                j <= self.entries.len(),
                s == entry_views(self.entries@),
                key@ == name@,
                lookup(s.take(j as int), name@) == lookup(s, name@),
            decreases j,
        {
            assert(s.take(j as int).last() == s[j - 1]);
            assert(s.take(j as int).drop_last() =~= s.take(j - 1));
            let candidate = to_chars(self.entries[j - 1].0.as_str());
            if same(candidate.as_slice(), key.as_slice()) {
                return Some(&self.entries[j - 1].1);
            }
            j -= 1;
        }
        None
    }

    /// The number of entries, repeated names counted each time.
    pub fn len(&self) -> (n: usize)
        ensures
            n == self.entries@.len(),
    {
        self.entries.len()
    }
}

/// Reads the lines that the package query printed: each trimmed, the empty
/// ones left out.
pub fn list_installed_pkgs(out: &str) -> (r: Vec<String>)
    ensures
        str_views(r@) == inventory(out@),
{
    let chars = to_chars(out);
    let ls = split_lines(chars.as_slice());
    let ghost all = lines(out@);
    let mut r: Vec<String> = Vec::new();
    let mut i: usize = 0;
    assert(str_views(r@) =~= filled(all.take(0)));
    while i < ls.len()
        invariant
            i <= ls.len(),
            views(ls@) == all,
            str_views(r@) == filled(all.take(i as int)),
        decreases ls.len() - i,
    {
        let ghost before = str_views(r@);
        assert(all.take(i + 1).drop_last() =~= all.take(i as int));
        assert(all.take(i + 1).last() == ls@[i as int]@);
        let t = trimmed(ls[i].as_slice());
        if t.len() > 0 {
            let line = from_chars(t.as_slice());
            r.push(line);
            assert(str_views(r@) =~= before.push(t@));
        }
        i += 1;
    }
    assert(all.take(ls.len() as int) =~= all);
    r
}

/// The text under which an inventory is stored: its lines, joined by line
/// feeds.
pub fn snapshot_text(list: &Vec<String>) -> (r: String)
    ensures
        r@ == joined(str_views(list@)),
{
    join_strings(list)
}

/// Reads a stored snapshot; nothing stored is an empty text.
pub fn parse_snapshot(text: &str) -> (r: Snapshot)
    ensures
        entry_views(r.entries@) == stored_entries(lines(text@)),
{
    let chars = to_chars(text);
    let ls = split_lines(chars.as_slice());
    let ghost all = lines(text@);
    let mut entries: Vec<(String, String)> = Vec::new();
    let mut i: usize = 0;
    assert(entry_views(entries@) =~= stored_entries(all.take(0)));
    while i < ls.len()
        invariant
            i <= ls.len(),
            views(ls@) == all,
            entry_views(entries@) == stored_entries(all.take(i as int)),
        decreases ls.len() - i,
    {
        let ghost before = entry_views(entries@);
        assert(all.take(i + 1).drop_last() =~= all.take(i as int));
        assert(all.take(i + 1).last() == ls@[i as int]@);
        let line = &ls[i];
        let e = find_char(line.as_slice(), '\t', 0);
        let entry = if e < line.len() {
            let name = slice_to_vec(line.as_slice(), 0, e);
            let version = slice_to_vec(line.as_slice(), e + 1, line.len());
            assert(name@ =~= line@.take(e as int));
            assert(version@ =~= line@.skip(e + 1));
            (from_chars(name.as_slice()), from_chars(version.as_slice()))
        } else {
            (from_chars(line.as_slice()), String::new())
        };
        entries.push(entry);
        assert(entry_views(entries@) =~= before.push(stored_entry(line@)));
        i += 1;
    }
    assert(all.take(ls.len() as int) =~= all);
    Snapshot { entries }
}

/// The snapshot that an inventory stands for: one entry for each line that
/// has a name, a tab and a version.
pub fn inventory_snapshot(list: &Vec<String>) -> (r: Snapshot)
    ensures
        entry_views(r.entries@) == listed_entries(str_views(list@)),
{
    let ghost all = str_views(list@);
    let mut entries: Vec<(String, String)> = Vec::new();
    let mut i: usize = 0;
    assert(entry_views(entries@) =~= listed_entries(all.take(0)));
    while i < list.len()
        invariant
            i <= list.len(),
            all == str_views(list@),
            entry_views(entries@) == listed_entries(all.take(i as int)),
        decreases list.len() - i,
    {
        let ghost before = entry_views(entries@);
        assert(all.take(i + 1).drop_last() =~= all.take(i as int));
        assert(all.take(i + 1).last() == list@[i as int]@);
        let line = to_chars(list[i].as_str());
        let e = find_char(line.as_slice(), '\t', 0);
        if e < line.len() {
            let name = slice_to_vec(line.as_slice(), 0, e);
            let version = slice_to_vec(line.as_slice(), e + 1, line.len());
            assert(name@ =~= line@.take(e as int));
            assert(version@ =~= line@.skip(e + 1));
            entries.push((from_chars(name.as_slice()), from_chars(version.as_slice())));
            assert(entry_views(entries@) =~= before.push(listed_entry(line@)->0));
        }
        i += 1;
    }
    assert(all.take(list.len() as int) =~= all);
    Snapshot { entries }
}

fn named_later(entries: &Vec<(String, String)>, i: usize) -> (b: bool)
    requires
        i < entries.len(),
    ensures
        b == exists|j: int|
            i < j < entries@.len() && (#[trigger] entry_views(entries@)[j]).0 == entries@[i as int].0@,
{
    let key = to_chars(entries[i].0.as_str());
    let mut j: usize = i + 1;
    while j < entries.len()
        invariant
            i < j <= entries.len(),
            key@ == entries@[i as int].0@,
            forall|k: int| i < k < j ==> (#[trigger] entry_views(entries@)[k]).0 != key@,
        decreases entries.len() - j,
    {
        assert(entry_views(entries@)[j as int].0 == entries@[j as int].0@);
        if same(to_chars(entries[j].0.as_str()).as_slice(), key.as_slice()) {
            return true;
        }
        j += 1;
    }
    false
}

/// Whether the entries below index `i` that count, those whose name does
/// not come again, account for the name `n` of the given kind.
spec fn seen(s: Seq<Entry>, i: int, n: Seq<char>) -> bool {
    exists|k: int|
        0 <= k < i && k < s.len() && (#[trigger] s[k]).0 == n && forall|j: int|
            k < j < s.len() ==> s[j].0 != n
}

/// Tells what changed from `before` to `after`: the packages that are new
/// and those whose version differs. Packages that are gone are not told.
pub fn diff_snapshots(before: &Snapshot, after: &Snapshot) -> (c: Changes)
    ensures
        is_diff(str_views(c.new_pkgs@), str_views(c.upgraded@), before@, after@),
{
    let ghost s = entry_views(after.entries@);
    let mut new_pkgs: Vec<String> = Vec::new();
    let mut upgraded: Vec<String> = Vec::new();
    let mut i: usize = 0;
    while i < after.entries.len()
        invariant
            i <= after.entries.len(),
            s == entry_views(after.entries@),
            distinct(str_views(new_pkgs@)),
            distinct(str_views(upgraded@)),
            forall|n: Seq<char>|
                #[trigger] str_views(new_pkgs@).contains(n) <==> (seen(s, i as int, n) && is_new(
                    before@,
                    after@,
                    n,
                )),
            forall|n: Seq<char>|
                #[trigger] str_views(upgraded@).contains(n) <==> (seen(s, i as int, n)
                    && is_upgraded(before@, after@, n)),
        decreases after.entries.len() - i,
    {
        let ghost name = s[i as int].0;
        let ghost old_new = str_views(new_pkgs@);
        let ghost old_up = str_views(upgraded@);
        assert(s[i as int] == (after.entries@[i as int].0@, after.entries@[i as int].1@));
        let again = named_later(&after.entries, i);
        let mut added_new = false;
        let mut added_up = false;
        if !again {
            proof {
                lemma_lookup_last(s, i as int);
            }
            assert(after@.contains_key(name) && after@[name] == s[i as int].1);
            match before.get(after.entries[i].0.as_str()) {
                None => {
                    assert(!old_new.contains(name)) by {
                        if old_new.contains(name) {
                            let k = choose|k: int|
                                0 <= k < i && k < s.len() && (#[trigger] s[k]).0 == name
                                    && forall|j: int| k < j < s.len() ==> s[j].0 != name;
                            assert(s[i as int].0 != name);
                        }
                    }
                    new_pkgs.push(after.entries[i].0.clone());
                    added_new = true;
                    assert(str_views(new_pkgs@) =~= old_new.push(name));
                },
                Some(prev) => {
                    if *prev != after.entries[i].1 {
                        assert(!old_up.contains(name)) by {
                            if old_up.contains(name) {
                                let k = choose|k: int|
                                    0 <= k < i && k < s.len() && (#[trigger] s[k]).0 == name
                                        && forall|j: int| k < j < s.len() ==> s[j].0 != name;
                                assert(s[i as int].0 != name);
                            }
                        }
                        upgraded.push(after.entries[i].0.clone());
                        added_up = true;
                        assert(str_views(upgraded@) =~= old_up.push(name));
                    }
                },
            }
        }
        proof {
            let now_new = str_views(new_pkgs@);
            let now_up = str_views(upgraded@);
            assert forall|n: Seq<char>| seen(s, i + 1, n) <==> (seen(s, i as int, n) || (n == name
                && !again)) by {
                if seen(s, i + 1, n) {
                    let k = choose|k: int|
                        0 <= k < i + 1 && k < s.len() && (#[trigger] s[k]).0 == n && forall|j: int|
                            k < j < s.len() ==> s[j].0 != n;
                    if k < i {
                        assert(seen(s, i as int, n));
                    } else {
                        assert(n == name);
                        if again {
                            let j = choose|j: int|
                                i < j < after.entries@.len() && (#[trigger] s[j]).0 == name;
                            assert(s[j].0 != n);
                        }
                    }
                }
                if seen(s, i as int, n) {
                    let k = choose|k: int|
                        0 <= k < i && k < s.len() && (#[trigger] s[k]).0 == n && forall|j: int|
                            k < j < s.len() ==> s[j].0 != n;
                    assert(0 <= k < i + 1 && s[k].0 == n);
                }
                if n == name && !again {
                    assert(s[i as int].0 == n);
                    assert(forall|j: int| i < j < s.len() ==> s[j].0 != n);
                }
            }
            assert forall|n: Seq<char>| now_new.contains(n) <==> (seen(s, i + 1, n) && is_new(
                before@,
                after@,
                n,
            )) by {
                if added_new {
                    assert(now_new.contains(n) <==> (old_new.contains(n) || n == name)) by {
                        if old_new.contains(n) {
                            let k = choose|k: int| 0 <= k < old_new.len() && old_new[k] == n;
                            assert(now_new[k] == n);
                        }
                        if n == name {
                            assert(now_new[now_new.len() - 1] == n);
                        }
                    }
                }
            }
            assert forall|n: Seq<char>| now_up.contains(n) <==> (seen(s, i + 1, n) && is_upgraded(
                before@,
                after@,
                n,
            )) by {
                if added_up {
                    assert(now_up.contains(n) <==> (old_up.contains(n) || n == name)) by {
                        if old_up.contains(n) {
                            let k = choose|k: int| 0 <= k < old_up.len() && old_up[k] == n;
                            assert(now_up[k] == n);
                        }
                        if n == name {
                            assert(now_up[now_up.len() - 1] == n);
                        }
                    }
                }
            }
        }
        i += 1;
    }
    proof {
        let len = after.entries@.len() as int;
        assert forall|n: Seq<char>| after@.contains_key(n) implies seen(s, len, n) by {
            lemma_lookup_has_last(s, n);
            let k = choose|k: int|
                0 <= k < s.len() && (#[trigger] s[k]).0 == n && s[k].1 == lookup(s, n)->0
                    && forall|j: int| k < j < s.len() ==> s[j].0 != n;
            assert(0 <= k < len && k < s.len() && s[k].0 == n);
        }
        assert forall|n: Seq<char>|
            str_views(new_pkgs@).contains(n) <==> is_new(before@, after@, n) by {
            if is_new(before@, after@, n) {
                assert(after@.contains_key(n));
                assert(seen(s, len, n));
            }
        }
        assert forall|n: Seq<char>|
            str_views(upgraded@).contains(n) <==> is_upgraded(before@, after@, n) by {
            if is_upgraded(before@, after@, n) {
                assert(after@.contains_key(n));
                assert(seen(s, len, n));
            }
        }
    }
    Changes { new_pkgs, upgraded }
}

/// The packages that `c` names, the new ones first.
pub fn changed_packages(c: &Changes) -> (r: Vec<String>)
    ensures
        str_views(r@) == str_views(c.new_pkgs@) + str_views(c.upgraded@),
{
    let mut r: Vec<String> = Vec::new();
    let mut i: usize = 0;
    while i < c.new_pkgs.len()
        invariant
            i <= c.new_pkgs.len(),
            r@.len() == i,
            forall|k: int| 0 <= k < i ==> r@[k]@ == c.new_pkgs@[k]@,
        decreases c.new_pkgs.len() - i,
    {
        r.push(c.new_pkgs[i].clone());
        i += 1;
    }
    let mut j: usize = 0;
    while j < c.upgraded.len()
        invariant
            j <= c.upgraded.len(),
            r@.len() == c.new_pkgs@.len() + j,
            forall|k: int| 0 <= k < c.new_pkgs@.len() ==> r@[k]@ == c.new_pkgs@[k]@,
            forall|k: int| 0 <= k < j ==> r@[c.new_pkgs@.len() + k]@ == c.upgraded@[k]@,
        decreases c.upgraded.len() - j,
    {
        r.push(c.upgraded[j].clone());
        j += 1;
    }
    assert(str_views(r@) =~= str_views(c.new_pkgs@) + str_views(c.upgraded@));
    r
}

/// The mapping that a stored snapshot stands for; nothing stored is the
/// empty mapping.
pub open spec fn stored_mapping(text: Option<Seq<char>>) -> Map<Seq<char>, Seq<char>> {
    match text {
        Some(t) => mapping(stored_entries(lines(t))),
        None => mapping(Seq::empty()),
    }
}

/// The mapping that the output of the package query stands for.
pub open spec fn current_mapping(out: Seq<char>) -> Map<Seq<char>, Seq<char>> {
    mapping(listed_entries(inventory(out)))
}

/// What is to be done after a transaction of the package manager.
#[derive(Clone, Debug, PartialEq, Eq, Default)]
pub struct PostTransaction {
    /// What changed since the stored snapshot.
    pub changes: Changes,
    /// The text to store as the new snapshot, whatever becomes of the
    /// exports.
    pub snapshot: String,
}

/// Compares the stored snapshot `stored`, if there is one, with what the
/// package query printed now, `out`. Every package that is new or has
/// another version is named once, for export; the text to store next is the
/// whole current inventory.
pub fn post_transaction(stored: Option<&str>, out: &str) -> (r: PostTransaction)
    ensures
        is_diff(
            str_views(r.changes.new_pkgs@),
            str_views(r.changes.upgraded@),
            stored_mapping(
                match stored {
                    Some(t) => Some(t@),
                    None => None,
                },
            ),
            current_mapping(out@),
        ),
        r.snapshot@ == joined(inventory(out@)),
{
    let before = match stored {
        Some(t) => parse_snapshot(t),
        None => {
            let e = Snapshot { entries: Vec::new() };
            assert(entry_views(e.entries@) =~= Seq::<Entry>::empty());
            e
        },
    };
    let list = list_installed_pkgs(out);
    let after = inventory_snapshot(&list);
    let changes = diff_snapshots(&before, &after);
    PostTransaction { changes, snapshot: snapshot_text(&list) }
}

/// The argument that follows the first `flag` among `args` from index `i`
/// on, where there is one.
pub open spec fn option_value(args: Seq<Seq<char>>, flag: Seq<char>, i: int) -> Option<Seq<char>>
    decreases args.len() - i,
{
    if i < 0 || i >= args.len() {
        None
    } else if args[i] == flag {
        if i + 1 < args.len() {
            Some(args[i + 1])
        } else {
            None
        }
    } else {
        option_value(args, flag, i + 1)
    }
}

/// The container that a snapshot command works on: the argument behind
/// `--container`, else what the environment names.
pub open spec fn named_container(args: Seq<Seq<char>>, env: Option<Seq<char>>) -> Option<Seq<char>> {
    match option_value(args, "--container"@, 0) {
        Some(c) => Some(c),
        None => env,
    }
}

/// The failure of a snapshot command that was given no container.
pub open spec fn container_required(command: Seq<char>) -> BridgeErrorView {
    BridgeErrorView {
        kind: ErrorKind::NotFound,
        message: "--container is required for pm "@ + command,
    }
}

/// Finds the container that the snapshot command `command` works on among
/// the arguments of the program, or else in `env`, the value of the
/// variable that may name it.
pub fn container_from_args(args: &Vec<String>, env: Option<&str>, command: &str) -> (r: Result<
    String,
    BridgeError,
>)
    ensures
        match named_container(
            str_views(args@),
            match env {
                Some(e) => Some(e@),
                None => None,
            },
        ) {
            Some(c) => r is Ok && r->Ok_0@ == c,
            None => r is Err && r->Err_0@ == container_required(command@),
        },
{
    let flag = to_chars("--container");
    let ghost a = str_views(args@);
    let mut i: usize = 0;
    let mut found: Option<String> = None;
    while i < args.len()
        invariant_except_break
            found is None,
            option_value(a, "--container"@, i as int) == option_value(a, "--container"@, 0),
        invariant
            i <= args.len(),
            a == str_views(args@),
            flag@ == "--container"@,
        ensures
            match found {
                Some(c) => option_value(a, "--container"@, 0) == Some(c@),
                None => option_value(a, "--container"@, 0) is None,
            },
        decreases args.len() - i,
    {
        assert(a[i as int] == args@[i as int]@);
        if same(to_chars(args[i].as_str()).as_slice(), flag.as_slice()) {
            if i + 1 < args.len() {
                assert(a[i + 1] == args@[i + 1]@);
                found = Some(args[i + 1].clone());
            }
            break ;
        }
        i += 1;
    }
    match found {
        Some(c) => Ok(c),
        None => match env {
            Some(e) => Ok(String::from_str(e)),
            None => {
                let mut message = String::from_str("--container is required for pm ");
                message.append(command);
                Err(BridgeError { kind: ErrorKind::NotFound, message })
            },
        },
    }
}

/// A package whose version is what it was is named in neither list, and
/// neither is a package that is gone: only what is installed now and is new
/// or changed is exported.
pub proof fn law_unchanged_and_removed_are_ignored(
    new_pkgs: Seq<Seq<char>>,
    upgraded: Seq<Seq<char>>,
    before: Map<Seq<char>, Seq<char>>,
    after: Map<Seq<char>, Seq<char>>,
    name: Seq<char>,
)
    requires
        is_diff(new_pkgs, upgraded, before, after),
        !after.contains_key(name) || (before.contains_key(name) && before[name] == after[name]),
    ensures
        !new_pkgs.contains(name),
        !upgraded.contains(name),
{
}

/// No package is both new and upgraded.
pub proof fn law_new_and_upgraded_are_apart(
    new_pkgs: Seq<Seq<char>>,
    upgraded: Seq<Seq<char>>,
    before: Map<Seq<char>, Seq<char>>,
    after: Map<Seq<char>, Seq<char>>,
    name: Seq<char>,
)
    requires
        is_diff(new_pkgs, upgraded, before, after),
    ensures
        !(new_pkgs.contains(name) && upgraded.contains(name)),
{
}

} // verus!
