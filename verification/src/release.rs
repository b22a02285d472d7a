//! Telling a container's distribution family from its release file.

use vstd::prelude::*;
use vstd::string::StringExecFns;
use crate::distro::{opt_view, Capture, Family};
use crate::error::{BridgeError, BridgeErrorView, ErrorKind};
use crate::text::{
    find_ws, from_chars, is_ws, lines, lower, lowered, same, skip_ws, slice_to_vec, split_lines,
    split_words, str_views, strip_prefix, to_chars, to_strings, tokens, tokens_from, trim,
    trimmed, views, without_prefix,
};

verus! {

/// `s` trimmed and without the pair of quotes around it, double or single.
pub open spec fn unquoted(s: Seq<char>) -> Seq<char> {
    let t = trim(s);
    if t.len() >= 2 && ((t[0] == '"' && t.last() == '"') || (t[0] == '\'' && t.last() == '\'')) {
        t.subrange(1, t.len() - 1)
    } else {
        t
    }
}

/// What a release file says of the distribution: the identifiers that it
/// gives itself, one for each `ID=` line, and those of the distributions it
/// is like.
pub struct ReleaseView {
    pub ids: Seq<Seq<char>>,
    pub id_like: Seq<Seq<char>>,
}

/// What a release file says of the distribution.
#[derive(Clone, Debug, PartialEq, Eq, Default)]
pub struct Release {
    /// The value of each `ID=` line, in the order of the lines.
    pub ids: Vec<String>,
    /// The words of the `ID_LIKE=` lines, in the order of the lines.
    pub id_like: Vec<String>,
}

impl View for Release {
    type V = ReleaseView;

    open spec fn view(&self) -> ReleaseView {
        ReleaseView { ids: str_views(self.ids@), id_like: str_views(self.id_like@) }
    }
}

/// The identifier that the release file gives last, where it gives one.
pub open spec fn last_id(r: ReleaseView) -> Option<Seq<char>> {
    if r.ids.len() > 0 {
        Some(r.ids.last())
    } else {
        None
    }
}

/// What is known of the distribution after the line `line`, given what was
/// known before it. Empty lines and comments say nothing; an `ID=` line adds
/// an identifier; an `ID_LIKE=` line adds its words. Values are unquoted
/// and put in lower case.
pub open spec fn after_line(known: ReleaseView, line: Seq<char>) -> ReleaseView {
    let t = trim(line);
    if t.len() == 0 || t[0] == '#' {
        known
    } else if strip_prefix(t, "ID="@) is Some {
        ReleaseView { ids: known.ids.push(lower(unquoted(strip_prefix(t, "ID="@)->0))), ..known }
    } else if strip_prefix(t, "ID_LIKE="@) is Some {
        ReleaseView {
            id_like: known.id_like + tokens(lower(unquoted(strip_prefix(t, "ID_LIKE="@)->0))),
            ..known
        }
    } else {
        known
    }
}

/// What the lines `ls` of a release file say.
pub open spec fn release_of_lines(ls: Seq<Seq<char>>) -> ReleaseView
    decreases ls.len(),
{
    if ls.len() == 0 {
        ReleaseView { ids: Seq::empty(), id_like: Seq::empty() }
    } else {
        after_line(release_of_lines(ls.drop_last()), ls.last())
    }
}

/// What the release file `s` says.
pub open spec fn release(s: Seq<char>) -> ReleaseView {
    release_of_lines(lines(s))
}

/// The identifiers by which a distribution is classified: every one that
/// it gives itself, then those of the distributions it is like.
pub open spec fn identifiers(r: ReleaseView) -> Seq<Seq<char>> {
    r.ids + r.id_like
}

/// The identifiers by which a distribution with at most one identifier of
/// its own is classified.
pub open spec fn given_identifiers(id: Option<Seq<char>>, id_like: Seq<Seq<char>>) -> Seq<
    Seq<char>,
> {
    match id {
        Some(i) => seq![i] + id_like,
        None => id_like,
    }
}

/// Whether one of the identifiers belongs to the family.
pub open spec fn names_family(ids: Seq<Seq<char>>, f: Family) -> bool {
    match f {
        Family::Debian => ids.contains("debian"@) || ids.contains("ubuntu"@),
        Family::Fedora => ids.contains("fedora"@) || ids.contains("rhel"@) || ids.contains(
            "centos"@,
        ),
        Family::OpenSuse => ids.contains("opensuse"@) || ids.contains("sles"@) || ids.contains(
            "suse"@,
        ),
        Family::Arch => ids.contains("arch"@) || ids.contains("manjaro"@) || ids.contains(
            "endeavouros"@,
        ),
    }
}

/// The family that the identifiers name: the first of Debian, Fedora,
/// openSUSE and Arch to which one of them belongs.
pub open spec fn family_of(ids: Seq<Seq<char>>) -> Option<Family> {
    if names_family(ids, Family::Debian) {
        Some(Family::Debian)
    } else if names_family(ids, Family::Fedora) {
        Some(Family::Fedora)
    } else if names_family(ids, Family::OpenSuse) {
        Some(Family::OpenSuse)
    } else if names_family(ids, Family::Arch) {
        Some(Family::Arch)
    } else {
        None
    }
}

/// The failure for a container whose release file names no known family.
pub open spec fn unknown_family(name: Seq<char>) -> BridgeErrorView {
    BridgeErrorView {
        kind: ErrorKind::ClassificationFailure,
        message: "could not classify family for box "@ + name,
    }
}

/// The failure for a container that could not be entered.
pub open spec fn cannot_enter(name: Seq<char>) -> BridgeErrorView {
    BridgeErrorView {
        kind: ErrorKind::ClassificationFailure,
        message: "failed to enter box "@ + name + " to read /etc/os-release"@,
    }
}

/// The failure for a container for which no command could be started.
pub open spec fn cannot_run(name: Seq<char>) -> BridgeErrorView {
    BridgeErrorView {
        kind: ErrorKind::ClassificationFailure,
        message: "running 'distrobox enter' for "@ + name,
    }
}

/// Executable form of [`unquoted`].
pub fn unquote(s: &str) -> (r: String)
    ensures
        r@ == unquoted(s@),
{
    from_chars(unquote_chars(to_chars(s).as_slice()).as_slice())
}

fn unquote_chars(s: &[char]) -> (r: Vec<char>)
    ensures
        r@ == unquoted(s@),
{
    let t = trimmed(s);
    let n = t.len();
    if n >= 2 && ((t[0] == '"' && t[n - 1] == '"') || (t[0] == '\'' && t[n - 1] == '\'')) {
        slice_to_vec(t.as_slice(), 1, n - 1)
    } else {
        t
    }
}

fn read_identifiers(s: &str) -> (r: (Vec<Vec<char>>, Vec<Vec<char>>))
    ensures
        views(r.0@) == release(s@).ids,
        views(r.1@) == release(s@).id_like,
{
    let chars = to_chars(s);
    let ls = split_lines(chars.as_slice());
    let ghost all = lines(s@);
    let mut ids: Vec<Vec<char>> = Vec::new();
    let mut like: Vec<Vec<char>> = Vec::new();
    let mut i: usize = 0;
    assert(views(ids@) =~= Seq::<Seq<char>>::empty());
    assert(views(like@) =~= Seq::<Seq<char>>::empty());
    while i < ls.len()
        invariant
            i <= ls.len(),
            views(ls@) == all,
            views(ids@) == release_of_lines(all.take(i as int)).ids,
            views(like@) == release_of_lines(all.take(i as int)).id_like,
        decreases ls.len() - i,
    {
        assert(all.take(i + 1).drop_last() =~= all.take(i as int));
        assert(all.take(i + 1).last() == ls@[i as int]@);
        let t = trimmed(ls[i].as_slice());
        if t.len() > 0 && t[0] != '#' {
            match without_prefix(t.as_slice(), to_chars("ID=").as_slice()) {
                Some(rest) => {
                    let value = lowered(unquote_chars(rest.as_slice()).as_slice());
                    let ghost before = views(ids@);
                    let ghost added = value@;
                    ids.push(value);
                    assert(views(ids@) =~= before.push(added));
                },
                None => {
                    match without_prefix(t.as_slice(), to_chars("ID_LIKE=").as_slice()) {
                        Some(rest) => {
                            let value = lowered(unquote_chars(rest.as_slice()).as_slice());
                            let mut words = split_words(value.as_slice());
                            let ghost before = views(like@);
                            let ghost added = views(words@);
                            like.append(&mut words);
                            assert(views(like@) =~= before + added);
                        },
                        None => {},
                    }
                },
            }
        }
        i += 1;
    }
    assert(all.take(ls.len() as int) =~= all);
    (ids, like)
}

/// Reads a release file: every identifier that the distribution gives
/// itself, and the identifiers of the distributions it is like.
pub fn read_release(s: &str) -> (r: Release)
    ensures
        r@ == release(s@),
{
    let (ids, like) = read_identifiers(s);
    Release { ids: to_strings(&ids), id_like: to_strings(&like) }
}

/// Reads a release file: the identifier of the distribution, which is the
/// one that the file gives last, where it gives one, and the identifiers of
/// the distributions it is like.
pub fn parse_os_release(s: &str) -> (r: (Option<String>, Vec<String>))
    ensures
        opt_view(r.0) == last_id(release(s@)),
        str_views(r.1@) == release(s@).id_like,
{
    let (ids, like) = read_identifiers(s);
    let id = if ids.len() > 0 {
        assert(views(ids@).last() == ids@[ids.len() - 1]@);
        Some(from_chars(ids[ids.len() - 1].as_slice()))
    } else {
        None
    };
    (id, to_strings(&like))
}

fn holds(ids: &Vec<Vec<char>>, word: &str) -> (b: bool)
    ensures
        b == views(ids@).contains(word@),
{
    let w = to_chars(word);
    let mut i: usize = 0;
    while i < ids.len()
        invariant
            i <= ids.len(),
            w@ == word@,
            forall|k: int| 0 <= k < i ==> views(ids@)[k] != word@,
        decreases ids.len() - i,
    {
        assert(views(ids@)[i as int] == ids@[i as int]@);
        if same(ids[i].as_slice(), w.as_slice()) {
            return true;
        }
        i += 1;
    }
    false
}

fn family_of_identifiers(ids: &Vec<Vec<char>>) -> (r: Option<Family>)
    ensures
        r == family_of(views(ids@)),
{
    if holds(ids, "debian") || holds(ids, "ubuntu") {
        return Some(Family::Debian);
    }
    if holds(ids, "fedora") || holds(ids, "rhel") || holds(ids, "centos") {
        return Some(Family::Fedora);
    }
    if holds(ids, "opensuse") || holds(ids, "sles") || holds(ids, "suse") {
        return Some(Family::OpenSuse);
    }
    if holds(ids, "arch") || holds(ids, "manjaro") || holds(ids, "endeavouros") {
        return Some(Family::Arch);
    }
    None
}

/// Tells the family from a distribution's identifier and from the
/// identifiers of the distributions it is like.
pub fn classify_ids(id: &Option<String>, id_like: &Vec<String>) -> (r: Option<Family>)
    ensures
        r == family_of(given_identifiers(opt_view(*id), str_views(id_like@))),
{
    let ghost want = given_identifiers(opt_view(*id), str_views(id_like@));
    let mut ids: Vec<Vec<char>> = Vec::new();
    assert(views(ids@) =~= Seq::<Seq<char>>::empty());
    if let Some(i) = id {
        ids.push(to_chars(i.as_str()));
        assert(views(ids@) =~= seq![i@]);
    }
    let ghost head = views(ids@);
    let mut k: usize = 0;
    assert(str_views(id_like@).take(0) =~= Seq::<Seq<char>>::empty());
    assert(head + str_views(id_like@).take(0) =~= head);
    while k < id_like.len()
        invariant
            k <= id_like.len(),
            views(ids@) == head + str_views(id_like@).take(k as int),
        decreases id_like.len() - k,
    {
        let ghost before = views(ids@);
        let item = to_chars(id_like[k].as_str());
        ids.push(item);
        assert(views(ids@) =~= before.push(id_like@[k as int]@));
        assert(str_views(id_like@).take(k + 1) =~= str_views(id_like@).take(k as int).push(
            id_like@[k as int]@,
        ));
        assert(views(ids@) =~= head + str_views(id_like@).take(k + 1));
        k += 1;
    }
    assert(str_views(id_like@).take(id_like.len() as int) =~= str_views(id_like@));
    assert(views(ids@) =~= want);
    family_of_identifiers(&ids)
}

/// Tells the family of a distribution from its release file: every
/// identifier that the file gives counts, wherever it stands.
pub fn classify_release(text: &str) -> (r: Option<Family>)
    ensures
        r == family_of(identifiers(release(text@))),
{
    let (mut ids, mut like) = read_identifiers(text);
    let ghost own = views(ids@);
    let ghost others = views(like@);
    ids.append(&mut like);
    assert(views(ids@) =~= own + others);
    family_of_identifiers(&ids)
}

/// Tells the family of the container `name` from what the command that
/// prints its release file left behind. It fails where the command could
/// not be started or did not succeed, and where the file names no known
/// family.
pub fn classify_box_family(name: &str, captured: Option<&Capture>) -> (r: Result<
    Family,
    BridgeError,
>)
    ensures
        match captured {
            None => r is Err && r->Err_0@ == cannot_run(name@),
            Some(c) => if !c.success {
                r is Err && r->Err_0@ == cannot_enter(name@)
            } else {
                match family_of(identifiers(release(c.stdout@))) {
                    Some(f) => r == Ok::<Family, BridgeError>(f),
                    None => r is Err && r->Err_0@ == unknown_family(name@),
                }
            },
        },
{
    match captured {
        None => {
            let mut message = String::from_str("running 'distrobox enter' for ");
            message.append(name);
            Err(BridgeError { kind: ErrorKind::ClassificationFailure, message })
        },
        Some(c) => {
            if !c.success {
                let mut message = String::from_str("failed to enter box ");
                message.append(name);
                message.append(" to read /etc/os-release");
                return Err(BridgeError { kind: ErrorKind::ClassificationFailure, message });
            }
            match classify_release(c.stdout.as_str()) {
                Some(f) => Ok(f),
                None => {
                    let mut message = String::from_str("could not classify family for box ");
                    message.append(name);
                    Err(BridgeError { kind: ErrorKind::ClassificationFailure, message })
                },
            }
        },
    }
}

/// A distribution that calls itself `ubuntu`, or that says it is like
/// `debian`, belongs to the Debian family, whatever else it says.
pub proof fn law_ubuntu_and_debian_like_are_debian(r: ReleaseView)
    requires
        r.ids.contains("ubuntu"@) || r.id_like.contains("debian"@),
    ensures
        family_of(identifiers(r)) == Some(Family::Debian),
{
    let ids = identifiers(r);
    if r.ids.contains("ubuntu"@) {
        let k = choose|k: int| 0 <= k < r.ids.len() && r.ids[k] == "ubuntu"@;
        assert(ids[k] == "ubuntu"@);
    } else {
        let k = choose|k: int| 0 <= k < r.id_like.len() && r.id_like[k] == "debian"@;
        assert(ids[r.ids.len() + k] == "debian"@);
    }
}

proof fn lemma_trim_keeps(s: Seq<char>)
    requires
        s.len() > 0,
        !is_ws(s[0]),
        !is_ws(s.last()),
    ensures
        trim(s) == s,
{
    assert(skip_ws(s, 0) == 0);
    assert(trim(s) =~= s);
}

proof fn lemma_word_ends(s: Seq<char>, i: int)
    requires
        0 <= i <= s.len(),
        forall|k: int| 0 <= k < s.len() ==> !is_ws(#[trigger] s[k]),
    ensures
        find_ws(s, i) == s.len(),
    decreases s.len() - i,
{
    if i < s.len() {
        lemma_word_ends(s, i + 1);
    }
}

proof fn lemma_one_word(s: Seq<char>)
    requires
        s.len() > 0,
        forall|k: int| 0 <= k < s.len() ==> !is_ws(#[trigger] s[k]),
    ensures
        tokens(s) == seq![s],
{
    lemma_word_ends(s, 0);
    assert(skip_ws(s, 0) == 0);
    assert(skip_ws(s, s.len() as int) == s.len());
    assert(tokens_from(s, s.len() as int) =~= Seq::<Seq<char>>::empty());
    assert(s.subrange(0, s.len() as int) =~= s);
    assert(tokens(s) =~= seq![s]);
}

proof fn lemma_debian_like_line(known: ReleaseView, line: Seq<char>)
    requires
        trim(line) == "ID_LIKE=\"debian\""@,
    ensures
        after_line(known, line) == (ReleaseView {
            id_like: known.id_like.push("debian"@),
            ..known
        }),
{
    reveal_strlit("ID_LIKE=\"debian\"");
    reveal_strlit("ID=");
    reveal_strlit("ID_LIKE=");
    reveal_strlit("debian");
    let t = trim(line);
    assert(t.len() == 16);
    assert(t[0] == 'I');
    assert(t.subrange(0, 3)[2] == '_');
    assert(strip_prefix(t, "ID="@) is None);
    assert(t.subrange(0, 8) =~= "ID_LIKE="@);
    let q = t.skip(8);
    assert(strip_prefix(t, "ID_LIKE="@) == Some(q));
    assert(q.len() == 8);
    assert(q[0] == '"' && q[7] == '"');
    lemma_trim_keeps(q);
    assert(q.subrange(1, 7) =~= "debian"@);
    assert(unquoted(q) == "debian"@);
    assert(lower("debian"@) =~= "debian"@);
    lemma_one_word("debian"@);
    assert(known.id_like + seq!["debian"@] =~= known.id_like.push("debian"@));
}

proof fn lemma_ubuntu_line(known: ReleaseView, line: Seq<char>)
    requires
        trim(line) == "ID=ubuntu"@,
    ensures
        after_line(known, line) == (ReleaseView { ids: known.ids.push("ubuntu"@), ..known }),
{
    reveal_strlit("ID=ubuntu");
    reveal_strlit("ID=");
    reveal_strlit("ubuntu");
    let t = trim(line);
    assert(t.len() == 9);
    assert(t[0] == 'I');
    assert(t.subrange(0, 3) =~= "ID="@);
    let q = t.skip(3);
    assert(strip_prefix(t, "ID="@) == Some(q));
    assert(q =~= "ubuntu"@);
    lemma_trim_keeps(q);
    assert(unquoted(q) == "ubuntu"@);
    assert(lower("ubuntu"@) =~= "ubuntu"@);
}

proof fn lemma_like_stays(ls: Seq<Seq<char>>, k: int, x: Seq<char>)
    requires
        0 <= k <= ls.len(),
        release_of_lines(ls.take(k)).id_like.contains(x),
    ensures
        release_of_lines(ls).id_like.contains(x),
    decreases ls.len() - k,
{
    if k < ls.len() {
        let before = release_of_lines(ls.take(k));
        assert(ls.take(k + 1).drop_last() =~= ls.take(k));
        assert(ls.take(k + 1).last() == ls[k]);
        let after = after_line(before, ls[k]);
        assert(after == release_of_lines(ls.take(k + 1)));
        let j = choose|j: int| 0 <= j < before.id_like.len() && before.id_like[j] == x;
        if after.id_like != before.id_like {
            let t = trim(ls[k]);
            let added = tokens(lower(unquoted(strip_prefix(t, "ID_LIKE="@)->0)));
            assert(after.id_like == before.id_like + added);
            assert((before.id_like + added)[j] == x);
        }
        lemma_like_stays(ls, k + 1, x);
    } else {
        assert(ls.take(k) =~= ls);
    }
}

proof fn lemma_id_stays(ls: Seq<Seq<char>>, k: int, x: Seq<char>)
    requires
        0 <= k <= ls.len(),
        release_of_lines(ls.take(k)).ids.contains(x),
    ensures
        release_of_lines(ls).ids.contains(x),
    decreases ls.len() - k,
{
    if k < ls.len() {
        let before = release_of_lines(ls.take(k));
        assert(ls.take(k + 1).drop_last() =~= ls.take(k));
        assert(ls.take(k + 1).last() == ls[k]);
        let after = after_line(before, ls[k]);
        assert(after == release_of_lines(ls.take(k + 1)));
        let j = choose|j: int| 0 <= j < before.ids.len() && before.ids[j] == x;
        if after.ids != before.ids {
            assert(after.ids[j] == x);
        }
        lemma_id_stays(ls, k + 1, x);
    } else {
        assert(ls.take(k) =~= ls);
    }
}

/// A release file with the line `ID_LIKE="debian"` is of the Debian family,
/// whatever else it says.
pub proof fn law_debian_like_text(s: Seq<char>, i: int)
    requires
        0 <= i < lines(s).len(),
        trim(lines(s)[i]) == "ID_LIKE=\"debian\""@,
    ensures
        family_of(identifiers(release(s))) == Some(Family::Debian),
{
    let ls = lines(s);
    assert(ls.take(i + 1).drop_last() =~= ls.take(i));
    assert(ls.take(i + 1).last() == ls[i]);
    let before = release_of_lines(ls.take(i));
    lemma_debian_like_line(before, ls[i]);
    let now = release_of_lines(ls.take(i + 1));
    assert(now.id_like[before.id_like.len() as int] == "debian"@);
    lemma_like_stays(ls, i + 1, "debian"@);
    law_ubuntu_and_debian_like_are_debian(release(s));
}

/// A release file with the line `ID=ubuntu` is of the Debian family,
/// whatever else it says, before that line or after it.
pub proof fn law_ubuntu_text(s: Seq<char>, i: int)
    requires
        0 <= i < lines(s).len(),
        trim(lines(s)[i]) == "ID=ubuntu"@,
    ensures
        family_of(identifiers(release(s))) == Some(Family::Debian),
{
    let ls = lines(s);
    assert(ls.take(i + 1).drop_last() =~= ls.take(i));
    assert(ls.take(i + 1).last() == ls[i]);
    let before = release_of_lines(ls.take(i));
    lemma_ubuntu_line(before, ls[i]);
    let now = release_of_lines(ls.take(i + 1));
    assert(now.ids[before.ids.len() as int] == "ubuntu"@);
    lemma_id_stays(ls, i + 1, "ubuntu"@);
    law_ubuntu_and_debian_like_are_debian(release(s));
}

} // verus!
