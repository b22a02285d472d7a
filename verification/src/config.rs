//! The settings that outlive one run, and where they are stored.

use vstd::prelude::*;
use vstd::string::StringExecFns;
use crate::error::{BridgeError, BridgeErrorView, ErrorKind};
use crate::paths::{base_dir, join_path, joined_path, opt_str, resolve_base_dir};
use crate::snapshot::{entry_views, lookup, mapping, Entry};
use crate::text::{same, to_chars};

verus! {

/// Whether no two entries of `s` have the same name.
pub open spec fn keys_distinct(s: Seq<Entry>) -> bool {
    forall|i: int, j: int| 0 <= i < j < s.len() ==> s[i].0 != s[j].0
}

/// The defaults: for each family key the container that its package
/// manager runs in.
#[derive(Debug, PartialEq, Eq)]
pub struct Config {
    pm_defaults: Vec<(String, String)>,
}

/// Whether the first run was gone through.
#[derive(Clone, Copy, Debug, PartialEq, Eq, Default)]
pub struct State {
    pub first_run_done: bool,
}

impl View for Config {
    type V = Map<Seq<char>, Seq<char>>;

    closed spec fn view(&self) -> Map<Seq<char>, Seq<char>> {
        mapping(entry_views(self.pm_defaults@))
    }
}

impl Config {
    #[verifier::type_invariant]
    spec fn wf(self) -> bool {
        keys_distinct(entry_views(self.pm_defaults@))
    }

    /// Settings without any default.
    pub fn new() -> (c: Config)
        ensures
            c@ == Map::<Seq<char>, Seq<char>>::empty(),
    {
        let c = Config { pm_defaults: Vec::new() };
        assert(entry_views(c.pm_defaults@) =~= Seq::<Entry>::empty());
        assert(c@ =~= Map::<Seq<char>, Seq<char>>::empty());
        c
    }

    /// Makes `value` the default for `key`, in place of what was there.
    pub fn insert(&mut self, key: &str, value: &str)
        ensures
            final(self)@ == old(self)@.insert(key@, value@),
    {
        proof {
            use_type_invariant(&*self);
        }
        let ghost prev = entry_views(self.pm_defaults@);
        let k = to_chars(key);
        let mut next: Vec<(String, String)> = Vec::new();
        let mut i: usize = 0;
        while i < self.pm_defaults.len()
            invariant
                i <= self.pm_defaults.len(),
                prev == entry_views(self.pm_defaults@),
                keys_distinct(prev),
                *self == *old(self),
                k@ == key@,
                keys_distinct(entry_views(next@)),
                forall|j: int|
                    0 <= j < next@.len() ==> (#[trigger] entry_views(next@)[j]).0 != key@
                        && exists|m: int| 0 <= m < i && prev[m].0 == entry_views(next@)[j].0,
                forall|n: Seq<char>|
                    n != key@ ==> #[trigger] lookup(entry_views(next@), n) == lookup(
                        prev.take(i as int),
                        n,
                    ),
            decreases self.pm_defaults.len() - i,
        {
            let ghost done = entry_views(next@);
            assert(prev.take(i + 1).drop_last() =~= prev.take(i as int));
            assert(prev.take(i + 1).last() == prev[i as int]);
            assert(prev[i as int] == (self.pm_defaults@[i as int].0@, self.pm_defaults@[i as int].1@));
            if !same(to_chars(self.pm_defaults[i].0.as_str()).as_slice(), k.as_slice()) {
                next.push((self.pm_defaults[i].0.clone(), self.pm_defaults[i].1.clone()));
                let ghost now = entry_views(next@);
                assert(now =~= done.push(prev[i as int]));
                assert(now.drop_last() =~= done);
                assert forall|n: Seq<char>| n != key@ implies #[trigger] lookup(now, n) == lookup(
                    prev.take(i + 1),
                    n,
                ) by {
                    assert(lookup(done, n) == lookup(prev.take(i as int), n));
                    assert(now.last() == prev[i as int]);
                }
                assert forall|a: int, b: int| 0 <= a < b < now.len() implies now[a].0 != now[b].0 by {
                    if b == now.len() - 1 {
                        assert(now[a] == done[a]);
                        let m = choose|m: int| 0 <= m < i && prev[m].0 == done[a].0;
                        assert(prev[m].0 != prev[i as int].0);
                    } else {
                        assert(now[a] == done[a] && now[b] == done[b]);
                    }
                }
                assert forall|j: int| 0 <= j < now.len() implies (#[trigger] now[j]).0 != key@
                    && exists|m: int| 0 <= m < i + 1 && prev[m].0 == now[j].0 by {
                    if j < done.len() {
                        assert(now[j] == done[j]);
                        let m = choose|m: int| 0 <= m < i && prev[m].0 == done[j].0;
                        assert(0 <= m < i + 1 && prev[m].0 == now[j].0);
                    } else {
                        assert(prev[i as int].0 == now[j].0);
                    }
                }
            } else {
                assert forall|n: Seq<char>| n != key@ implies #[trigger] lookup(done, n) == lookup(
                    prev.take(i + 1),
                    n,
                ) by {
                    assert(lookup(done, n) == lookup(prev.take(i as int), n));
                    assert(prev.take(i + 1).last().0 == key@);
                }
                assert forall|j: int| 0 <= j < done.len() implies (#[trigger] done[j]).0 != key@
                    && exists|m: int| 0 <= m < i + 1 && prev[m].0 == done[j].0 by {
                    let m = choose|m: int| 0 <= m < i && prev[m].0 == done[j].0;
                    assert(0 <= m < i + 1 && prev[m].0 == done[j].0);
                }
            }
            i += 1;
        }
        assert(prev.take(self.pm_defaults.len() as int) =~= prev);
        let ghost kept = entry_views(next@);
        next.push((String::from_str(key), String::from_str(value)));
        let ghost last = entry_views(next@);
        assert(last =~= kept.push((key@, value@)));
        assert(last.drop_last() =~= kept);
        assert forall|a: int, b: int| 0 <= a < b < last.len() implies last[a].0 != last[b].0 by {
            assert(last[a] == kept[a]);
            if b < last.len() - 1 {
                assert(last[b] == kept[b]);
            }
        }
        assert forall|n: Seq<char>| #[trigger] lookup(last, n) == (if n == key@ {
            Some(value@)
        } else {
            lookup(prev, n)
        }) by {
            assert(last.last() == (key@, value@));
            if n != key@ {
                assert(lookup(kept, n) == lookup(prev, n));
            }
        }
        assert(mapping(last) =~= mapping(prev).insert(key@, value@));
        self.pm_defaults = next;
    }

    /// The default for `key`, where there is one.
    pub fn get(&self, key: &str) -> (r: Option<&String>)
        ensures
            match r {
                Some(v) => self@.contains_key(key@) && self@[key@] == v@,
                None => !self@.contains_key(key@),
            },
    {
        let ghost s = entry_views(self.pm_defaults@);
        let k = to_chars(key);
        let mut j: usize = self.pm_defaults.len();
        assert(s.take(j as int) =~= s);
        while j > 0
            invariant
                j <= self.pm_defaults.len(),
                s == entry_views(self.pm_defaults@),
                k@ == key@,
                lookup(s.take(j as int), key@) == lookup(s, key@),
            decreases j,
        {
            assert(s.take(j as int).last() == s[j - 1]);
            assert(s.take(j as int).drop_last() =~= s.take(j - 1));
            if same(to_chars(self.pm_defaults[j - 1].0.as_str()).as_slice(), k.as_slice()) {
                return Some(&self.pm_defaults[j - 1].1);
            }
            j -= 1;
        }
        None
    }

    /// Whether there is no default at all.
    pub fn is_empty(&self) -> (b: bool)
        ensures
            b == (forall|k: Seq<char>| !self@.contains_key(k)),
    {
        let n = self.pm_defaults.len();
        proof {
            let s = entry_views(self.pm_defaults@);
            if n > 0 {
                assert(lookup(s, s.last().0) is Some);
                assert(self@.contains_key(s.last().0));
            }
        }
        n == 0
    }

    /// Every default as a key and its container, each key once.
    pub fn entries(&self) -> (r: Vec<(String, String)>)
        ensures
            keys_distinct(entry_views(r@)),
            mapping(entry_views(r@)) == self@,
    {
        proof {
            use_type_invariant(self);
        }
        let mut r: Vec<(String, String)> = Vec::new();
        let mut i: usize = 0;
        while i < self.pm_defaults.len()
            invariant
                i <= self.pm_defaults.len(),
                r@.len() == i,
                forall|j: int|
                    0 <= j < i ==> r@[j].0@ == self.pm_defaults@[j].0@ && r@[j].1@
                        == self.pm_defaults@[j].1@,
            decreases self.pm_defaults.len() - i,
        {
            r.push((self.pm_defaults[i].0.clone(), self.pm_defaults[i].1.clone()));
            i += 1;
        }
        assert(entry_views(r@) =~= entry_views(self.pm_defaults@));
        r
    }
}

/// Where the settings are stored: the program's own directory under the
/// user's configuration directory.
pub open spec fn config_directory(named: Option<Seq<char>>, home: Option<Seq<char>>) -> Seq<char> {
    joined_path(base_dir(named, home, "/.config"@), "pkgbridge"@)
}

/// Where what the program remembers is stored: its own directory under the
/// user's state directory.
pub open spec fn state_directory(named: Option<Seq<char>>, home: Option<Seq<char>>) -> Seq<char> {
    joined_path(base_dir(named, home, "/.local/state"@), "pkgbridge"@)
}

/// Where the snapshots are stored.
pub open spec fn snapshot_directory(named: Option<Seq<char>>, home: Option<Seq<char>>) -> Seq<char> {
    joined_path(state_directory(named, home), "snapshots"@)
}

/// Where the snapshot of the container `container` is stored.
pub open spec fn snapshot_file(
    named: Option<Seq<char>>,
    home: Option<Seq<char>>,
    container: Seq<char>,
) -> Seq<char> {
    joined_path(snapshot_directory(named, home), container + ".txt"@)
}

/// Where the settings are stored, given what the environment names as the
/// configuration directory and as the home directory.
pub fn config_dir(xdg_config_home: Option<&str>, home: Option<&str>) -> (r: String)
    ensures
        r@ == config_directory(opt_str(xdg_config_home), opt_str(home)),
{
    let base = resolve_base_dir(xdg_config_home, home, "/.config");
    join_path(base.as_str(), "pkgbridge")
}

/// Where what the program remembers is stored, given what the environment
/// names as the state directory and as the home directory.
pub fn state_dir(xdg_state_home: Option<&str>, home: Option<&str>) -> (r: String)
    ensures
        r@ == state_directory(opt_str(xdg_state_home), opt_str(home)),
{
    let base = resolve_base_dir(xdg_state_home, home, "/.local/state");
    join_path(base.as_str(), "pkgbridge")
}

/// Where the snapshots are stored.
pub fn snapshot_dir(xdg_state_home: Option<&str>, home: Option<&str>) -> (r: String)
    ensures
        r@ == snapshot_directory(opt_str(xdg_state_home), opt_str(home)),
{
    let dir = state_dir(xdg_state_home, home);
    join_path(dir.as_str(), "snapshots")
}

/// Where the snapshot of the container `container` is stored.
pub fn snapshot_path(xdg_state_home: Option<&str>, home: Option<&str>, container: &str) -> (r:
    String)
    ensures
        r@ == snapshot_file(opt_str(xdg_state_home), opt_str(home), container@),
{
    let dir = snapshot_dir(xdg_state_home, home);
    let mut name = String::from_str(container);
    name.append(".txt");
    join_path(dir.as_str(), name.as_str())
}

/// The failure to store settings at `path`.
pub open spec fn store_failed(path: Seq<char>) -> BridgeErrorView {
    BridgeErrorView { kind: ErrorKind::ConfigIo, message: "writing "@ + path }
}

/// The warning for settings that could not be stored at `path`: it never
/// ends the operation.
pub fn store_warning(path: &str) -> (e: BridgeError)
    ensures
        e@ == store_failed(path@),
{
    let mut message = String::from_str("writing ");
    message.append(path);
    BridgeError { kind: ErrorKind::ConfigIo, message }
}

} // verus!
