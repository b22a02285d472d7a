//! Choosing the one container that an operation works in.

use vstd::prelude::*;
use vstd::string::StringExecFns;
use crate::distro::{opt_view, DistroBox, Family};
use crate::error::{BridgeError, BridgeErrorView, ErrorKind};
use crate::pkgdetect::PackageFormat;
use crate::text::{lower, lowered, parse_u64, parsed_u64, same, to_chars, trim, trimmed};

verus! {

/// A container that exists, with its family where that could be told.
#[derive(Clone, Debug, PartialEq, Eq)]
pub struct ClassifiedBox {
    pub name: String,
    pub family: Option<Family>,
}

/// What a [`ClassifiedBox`] holds.
pub struct ClassifiedBoxView {
    pub name: Seq<char>,
    pub family: Option<Family>,
}

impl View for ClassifiedBox {
    type V = ClassifiedBoxView;

    open spec fn view(&self) -> ClassifiedBoxView {
        ClassifiedBoxView { name: self.name@, family: self.family }
    }
}

/// What a vector of classified containers holds.
pub open spec fn classified_views(v: Seq<ClassifiedBox>) -> Seq<ClassifiedBoxView> {
    Seq::new(v.len(), |i: int| v[i]@)
}

/// The container that an operation works in.
#[derive(Clone, Debug, PartialEq, Eq)]
pub struct SelectedBox {
    pub name: String,
    pub family: Family,
}

/// What a [`SelectedBox`] holds.
pub struct SelectedBoxView {
    pub name: Seq<char>,
    pub family: Family,
}

impl View for SelectedBox {
    type V = SelectedBoxView;

    open spec fn view(&self) -> SelectedBoxView {
        SelectedBoxView { name: self.name@, family: self.family }
    }
}

/// What a vector of selected containers holds.
pub open spec fn selected_views(v: Seq<SelectedBox>) -> Seq<SelectedBoxView> {
    Seq::new(v.len(), |i: int| v[i]@)
}

/// What the caller asked for.
#[derive(Clone, Debug, PartialEq, Eq, Default)]
pub struct SelectionPolicy {
    /// The container to use, by name.
    pub container: Option<String>,
    /// The family to look for in place of the one that the format asks for.
    pub family: Option<Family>,
    /// Whether a container may be created without asking.
    pub create: bool,
    /// The image to create from in place of the family's own.
    pub create_image: Option<String>,
    /// Whether a human sits at the terminal.
    pub interactive: bool,
}

/// What a [`SelectionPolicy`] holds.
pub struct SelectionPolicyView {
    pub container: Option<Seq<char>>,
    pub family: Option<Family>,
    pub create: bool,
    pub create_image: Option<Seq<char>>,
    pub interactive: bool,
}

impl View for SelectionPolicy {
    type V = SelectionPolicyView;

    open spec fn view(&self) -> SelectionPolicyView {
        SelectionPolicyView {
            container: opt_view(self.container),
            family: self.family,
            create: self.create,
            create_image: opt_view(self.create_image),
            interactive: self.interactive,
        }
    }
}

/// A container that does not exist yet.
#[derive(Clone, Debug, PartialEq, Eq)]
pub struct NewBox {
    pub name: String,
    pub image: String,
    pub family: Family,
}

/// What a [`NewBox`] holds.
pub struct NewBoxView {
    pub name: Seq<char>,
    pub image: Seq<char>,
    pub family: Family,
}

impl View for NewBox {
    type V = NewBoxView;

    open spec fn view(&self) -> NewBoxView {
        NewBoxView { name: self.name@, image: self.image@, family: self.family }
    }
}

/// What selection came to.
#[derive(Clone, Debug, PartialEq, Eq)]
pub enum Selection {
    /// This container is the one.
    Selected(SelectedBox),
    /// Several containers fit: show them with numbers from one and hand the
    /// answer to [`resolve_choice`].
    Choose(Vec<SelectedBox>),
    /// None fits: create this one.
    Create(NewBox),
    /// None fits: ask whether to create this one and hand the answer to
    /// [`confirm_create`].
    OfferCreate(NewBox),
    /// No container can be used.
    Fail(BridgeError),
}

/// What a [`Selection`] holds.
pub enum SelectionView {
    Selected(SelectedBoxView),
    Choose(Seq<SelectedBoxView>),
    Create(NewBoxView),
    OfferCreate(NewBoxView),
    Fail(BridgeErrorView),
}

impl View for Selection {
    type V = SelectionView;

    open spec fn view(&self) -> SelectionView {
        match self {
            Selection::Selected(b) => SelectionView::Selected(b@),
            Selection::Choose(m) => SelectionView::Choose(selected_views(m@)),
            Selection::Create(n) => SelectionView::Create(n@),
            Selection::OfferCreate(n) => SelectionView::OfferCreate(n@),
            Selection::Fail(e) => SelectionView::Fail(e@),
        }
    }
}

/// The families that can take a package: the one asked for, else those
/// that install the format, the preferred one first.
pub open spec fn candidate_families(fmt: PackageFormat, wanted: Option<Family>) -> Seq<Family> {
    match wanted {
        Some(f) => seq![f],
        None => match fmt {
            PackageFormat::Deb => seq![Family::Debian],
            PackageFormat::Rpm => seq![Family::Fedora, Family::OpenSuse],
        },
    }
}

/// The name and the image of the container that is created for a family.
pub open spec fn default_box(f: Family) -> (Seq<char>, Seq<char>) {
    match f {
        Family::Debian => ("debian-stable"@, "docker.io/library/debian:stable"@),
        Family::Fedora => ("fedora-latest"@, "registry.fedoraproject.org/fedora:latest"@),
        Family::OpenSuse => (
            "opensuse-tumbleweed"@,
            "registry.opensuse.org/opensuse/tumbleweed:latest"@,
        ),
        Family::Arch => ("arch"@, "docker.io/library/archlinux:latest"@),
    }
}

/// Whether a container's family is known and among `fams`.
pub open spec fn fits(b: ClassifiedBoxView, fams: Seq<Family>) -> bool {
    b.family is Some && fams.contains(b.family->0)
}

/// The containers of `c` that fit `fams`, in the order of `c`.
pub open spec fn matching(c: Seq<ClassifiedBoxView>, fams: Seq<Family>) -> Seq<SelectedBoxView>
    decreases c.len(),
{
    if c.len() == 0 {
        Seq::empty()
    } else if fits(c.last(), fams) {
        matching(c.drop_last(), fams).push(
            SelectedBoxView { name: c.last().name, family: c.last().family->0 },
        )
    } else {
        matching(c.drop_last(), fams)
    }
}

/// The first index of `c` that holds a container called `name`, or the
/// length.
pub open spec fn index_of_name(c: Seq<ClassifiedBoxView>, name: Seq<char>, i: int) -> int
    decreases c.len() - i,
{
    if 0 <= i < c.len() && c[i].name != name {
        index_of_name(c, name, i + 1)
    } else {
        i
    }
}

/// The failure of a selection that found nothing to use.
pub open spec fn no_match() -> BridgeErrorView {
    BridgeErrorView {
        kind: ErrorKind::NoMatchFound,
        message: "no matching box found; re-run with --create, pass --container/--family, or answer 'Y' when prompted"@,
    }
}

/// The failure of a selection that found several containers and nobody to
/// pick one.
pub open spec fn ambiguous() -> BridgeErrorView {
    BridgeErrorView {
        kind: ErrorKind::NoMatchFound,
        message: "several boxes match; re-run with --container or --family to pick one"@,
    }
}

/// The failure for a named container that does not exist.
pub open spec fn not_found(name: Seq<char>) -> BridgeErrorView {
    BridgeErrorView {
        kind: ErrorKind::NotFound,
        message: "container '"@ + name + "' not found"@,
    }
}

/// The failure for a named container whose family could not be told.
pub open spec fn unclassified(name: Seq<char>) -> BridgeErrorView {
    BridgeErrorView {
        kind: ErrorKind::ClassificationFailure,
        message: "classifying requested container: could not classify family for box "@ + name,
    }
}

/// The container that is created for the first of `fams`, from the image
/// that the policy names or else from the family's own.
pub open spec fn new_box(fams: Seq<Family>, policy: SelectionPolicyView) -> NewBoxView {
    NewBoxView {
        name: default_box(fams[0]).0,
        image: match policy.create_image {
            Some(image) => image,
            None => default_box(fams[0]).1,
        },
        family: fams[0],
    }
}

/// What selection comes to where no container fits: one is created where
/// the policy allows it, offered where a human can answer, and selection
/// fails otherwise.
pub open spec fn without_match(fams: Seq<Family>, policy: SelectionPolicyView) -> SelectionView {
    if policy.create {
        SelectionView::Create(new_box(fams, policy))
    } else if policy.interactive {
        SelectionView::OfferCreate(new_box(fams, policy))
    } else {
        SelectionView::Fail(no_match())
    }
}

/// What selection comes to.
///
/// A container asked for by name must exist and have a known family; no
/// family is asked of it. Otherwise the containers that fit the format, or
/// the family asked for, are counted: one is selected, several are put
/// before a human where there is one and fail otherwise, and none leads to
/// creation as far as the policy allows.
pub open spec fn selection(
    c: Seq<ClassifiedBoxView>,
    fmt: PackageFormat,
    policy: SelectionPolicyView,
) -> SelectionView {
    match policy.container {
        Some(name) => {
            let i = index_of_name(c, name, 0);
            if i >= c.len() {
                SelectionView::Fail(not_found(name))
            } else {
                match c[i].family {
                    Some(f) => SelectionView::Selected(SelectedBoxView { name, family: f }),
                    None => SelectionView::Fail(unclassified(name)),
                }
            }
        },
        None => {
            let fams = candidate_families(fmt, policy.family);
            let m = matching(c, fams);
            if m.len() == 1 {
                SelectionView::Selected(m[0])
            } else if m.len() > 1 {
                if policy.interactive {
                    SelectionView::Choose(m)
                } else {
                    SelectionView::Fail(ambiguous())
                }
            } else {
                without_match(fams, policy)
            }
        },
    }
}

/// What the answer to a numbered list comes to: the container with that
/// number, counted from one; any other answer fails, and nothing is created.
pub open spec fn choice(matches: Seq<SelectedBoxView>, answer: Seq<char>) -> SelectionView {
    match parsed_u64(trim(answer)) {
        Some(n) => if 1 <= n <= matches.len() {
            SelectionView::Selected(matches[n - 1])
        } else {
            SelectionView::Fail(ambiguous())
        },
        None => SelectionView::Fail(ambiguous()),
    }
}

/// Whether an answer to a yes-or-no question means yes: nothing, `y` or
/// `yes`, in any case.
pub open spec fn means_yes(answer: Seq<char>) -> bool {
    let a = lower(trim(answer));
    a.len() == 0 || a == "y"@ || a == "yes"@
}

/// What the answer to an offer comes to.
pub open spec fn confirmed(offer: NewBoxView, answer: Seq<char>) -> SelectionView {
    if means_yes(answer) {
        SelectionView::Create(offer)
    } else {
        SelectionView::Fail(no_match())
    }
}

/// Executable form of [`candidate_families`].
pub fn target_families(fmt: PackageFormat, wanted: Option<Family>) -> (r: Vec<Family>)
    ensures
        r@ == candidate_families(fmt, wanted),
        r@.len() >= 1,
{
    let mut r: Vec<Family> = Vec::new();
    match wanted {
        Some(f) => {
            r.push(f);
            assert(r@ =~= seq![f]);
        },
        None => match fmt {
            PackageFormat::Deb => {
                r.push(Family::Debian);
                assert(r@ =~= seq![Family::Debian]);
            },
            PackageFormat::Rpm => {
                r.push(Family::Fedora);
                r.push(Family::OpenSuse);
                assert(r@ =~= seq![Family::Fedora, Family::OpenSuse]);
            },
        },
    }
    r
}

/// The name and the image of the container that is created for a family.
pub fn default_box_for_family(f: Family) -> (r: (&'static str, &'static str))
    ensures
        r.0@ == default_box(f).0,
        r.1@ == default_box(f).1,
{
    match f {
        Family::Debian => ("debian-stable", "docker.io/library/debian:stable"),
        Family::Fedora => ("fedora-latest", "registry.fedoraproject.org/fedora:latest"),
        Family::OpenSuse => (
            "opensuse-tumbleweed",
            "registry.opensuse.org/opensuse/tumbleweed:latest",
        ),
        Family::Arch => ("arch", "docker.io/library/archlinux:latest"),
    }
}

/// Whether `fams` holds `f`.
pub fn has_family(fams: &Vec<Family>, f: Family) -> (b: bool)
    ensures
        b == fams@.contains(f),
{
    let mut i: usize = 0;
    while i < fams.len()
        invariant
            i <= fams.len(),
            forall|j: int| 0 <= j < i ==> fams@[j] != f,
        decreases fams.len() - i,
    {
        if fams[i] == f {
            return true;
        }
        i += 1;
    }
    false
}

/// The names of the containers whose family has to be found out before
/// selection: the one asked for by name, if it exists, else all of them.
pub fn boxes_to_classify(boxes: &Vec<DistroBox>, policy: &SelectionPolicy) -> (r: Vec<String>)
    ensures
        match policy@.container {
            Some(name) => (r@.len() == 0 && forall|i: int|
                0 <= i < boxes@.len() ==> boxes@[i]@.name != name) || (r@.len() == 1 && r@[0]@
                == name && exists|i: int| 0 <= i < boxes@.len() && boxes@[i]@.name == name),
            None => r@.len() == boxes@.len() && forall|i: int|
                0 <= i < r@.len() ==> r@[i]@ == boxes@[i]@.name,
        },
{
    let mut r: Vec<String> = Vec::new();
    match &policy.container {
        Some(name) => {
            let mut i: usize = 0;
            while i < boxes.len()
                invariant
                    i <= boxes.len(),
                    r@.len() == 0,
                    policy@.container == Some(name@),
                    forall|j: int| 0 <= j < i ==> boxes@[j]@.name != name@,
                decreases boxes.len() - i,
            {
                if boxes[i].name == *name {
                    r.push(name.clone());
                    assert(boxes@[i as int]@.name == name@);
                    assert(r@[0]@ == name@);
                    return r;
                }
                i += 1;
            }
        },
        None => {
            let mut i: usize = 0;
            while i < boxes.len()
                invariant
                    i <= boxes.len(),
                    r@.len() == i,
                    forall|j: int| 0 <= j < i ==> r@[j]@ == boxes@[j]@.name,
                decreases boxes.len() - i,
            {
                r.push(boxes[i].name.clone());
                i += 1;
            }
        },
    }
    r
}

fn find_matching(classified: &Vec<ClassifiedBox>, fams: &Vec<Family>) -> (m: Vec<SelectedBox>)
    ensures
        selected_views(m@) == matching(classified_views(classified@), fams@),
{
    let ghost c = classified_views(classified@);
    let mut m: Vec<SelectedBox> = Vec::new();
    let mut i: usize = 0;
    assert(selected_views(m@) =~= matching(c.take(0), fams@));
    while i < classified.len()
        invariant
            i <= classified.len(),
            c == classified_views(classified@),
            selected_views(m@) == matching(c.take(i as int), fams@),
        decreases classified.len() - i,
    {
        let ghost before = selected_views(m@);
        assert(c.take(i + 1).drop_last() =~= c.take(i as int));
        assert(c.take(i + 1).last() == classified@[i as int]@);
        if let Some(f) = classified[i].family {
            if has_family(fams, f) {
                let b = SelectedBox { name: classified[i].name.clone(), family: f };
                m.push(b);
                assert(selected_views(m@) =~= before.push(b@));
            }
        }
        i += 1;
    }
    assert(c.take(classified.len() as int) =~= c);
    m
}

fn find_name(classified: &Vec<ClassifiedBox>, name: &String) -> (i: usize)
    ensures
        i == index_of_name(classified_views(classified@), name@, 0),
        i <= classified.len(),
{
    let ghost c = classified_views(classified@);
    let mut i: usize = 0;
    while i < classified.len()
        invariant
            i <= classified.len(),
            c == classified_views(classified@),
            index_of_name(c, name@, i as int) == index_of_name(c, name@, 0),
        decreases classified.len() - i,
    {
        assert(c[i as int] == classified@[i as int]@);
        if classified[i].name == *name {
            return i;
        }
        i += 1;
    }
    i
}

fn no_match_error() -> (e: BridgeError)
    ensures
        e@ == no_match(),
{
    BridgeError {
        kind: ErrorKind::NoMatchFound,
        message: String::from_str(
            "no matching box found; re-run with --create, pass --container/--family, or answer 'Y' when prompted",
        ),
    }
}

fn ambiguous_error() -> (e: BridgeError)
    ensures
        e@ == ambiguous(),
{
    BridgeError {
        kind: ErrorKind::NoMatchFound,
        message: String::from_str(
            "several boxes match; re-run with --container or --family to pick one",
        ),
    }
}

fn creation(fams: &Vec<Family>, policy: &SelectionPolicy) -> (r: Selection)
    requires
        fams@.len() >= 1,
    ensures
        r@ == without_match(fams@, policy@),
{
    if !policy.create && !policy.interactive {
        return Selection::Fail(no_match_error());
    }
    let fam = fams[0];
    let (name, image) = default_box_for_family(fam);
    let chosen = match &policy.create_image {
        Some(i) => i.clone(),
        None => String::from_str(image),
    };
    let b = NewBox { name: String::from_str(name), image: chosen, family: fam };
    if policy.create {
        Selection::Create(b)
    } else {
        Selection::OfferCreate(b)
    }
}

/// Chooses the container for a package of format `fmt` among the containers
/// that exist, `classified`, as the policy asks. Nothing is asked of anybody
/// here: where a human has to answer, the result says what to ask.
pub fn select_or_create(
    classified: &Vec<ClassifiedBox>,
    fmt: PackageFormat,
    policy: &SelectionPolicy,
) -> (r: Selection)
    ensures
        r@ == selection(classified_views(classified@), fmt, policy@),
{
    if let Some(name) = &policy.container {
        let i = find_name(classified, name);
        if i >= classified.len() {
            let mut message = String::from_str("container '");
            message.append(name.as_str());
            message.append("' not found");
            return Selection::Fail(BridgeError { kind: ErrorKind::NotFound, message });
        }
        assert(classified_views(classified@)[i as int] == classified@[i as int]@);
        return match classified[i].family {
            Some(f) => Selection::Selected(SelectedBox { name: name.clone(), family: f }),
            None => {
                let mut message = String::from_str(
                    "classifying requested container: could not classify family for box ",
                );
                message.append(name.as_str());
                Selection::Fail(BridgeError { kind: ErrorKind::ClassificationFailure, message })
            },
        };
    }
    let fams = target_families(fmt, policy.family);
    let mut m = find_matching(classified, &fams);
    if m.len() == 1 {
        let ghost views = selected_views(m@);
        let only = m.pop().unwrap();
        assert(only@ == views[0]);
        Selection::Selected(only)
    } else if m.len() > 1 {
        if policy.interactive {
            Selection::Choose(m)
        } else {
            Selection::Fail(ambiguous_error())
        }
    } else {
        creation(&fams, policy)
    }
}

/// Reads the answer to the numbered list of `matches`.
pub fn resolve_choice(matches: &Vec<SelectedBox>, answer: &str) -> (r: Selection)
    ensures
        r@ == choice(selected_views(matches@), answer@),
{
    let t = trimmed(to_chars(answer).as_slice());
    match parse_u64(t.as_slice()) {
        Some(n) => {
            if 1 <= n && n <= matches.len() as u64 {
                let k: usize = (n - 1) as usize;
                assert(selected_views(matches@)[k as int] == matches@[k as int]@);
                Selection::Selected(
                    SelectedBox { name: matches[k].name.clone(), family: matches[k].family },
                )
            } else {
                Selection::Fail(ambiguous_error())
            }
        },
        None => Selection::Fail(ambiguous_error()),
    }
}

/// Whether an answer to a yes-or-no question means yes.
pub fn is_yes(answer: &str) -> (b: bool)
    ensures
        b == means_yes(answer@),
{
    let a = lowered(trimmed(to_chars(answer).as_slice()).as_slice());
    a.len() == 0 || same(a.as_slice(), to_chars("y").as_slice()) || same(
        a.as_slice(),
        to_chars("yes").as_slice(),
    )
}

/// Reads the answer to the offer to create `offer`.
pub fn confirm_create(offer: NewBox, answer: &str) -> (r: Selection)
    ensures
        r@ == confirmed(offer@, answer@),
{
    if is_yes(answer) {
        Selection::Create(offer)
    } else {
        Selection::Fail(no_match_error())
    }
}

/// The failure for a container that could not be created.
pub open spec fn create_failed(name: Seq<char>) -> BridgeErrorView {
    BridgeErrorView {
        kind: ErrorKind::NoMatchFound,
        message: "distrobox create failed for "@ + name,
    }
}

/// What a creation came to: the new container is the one selected where the
/// tool reported success.
pub fn finish_create(created: NewBox, ok: bool) -> (r: Result<SelectedBox, BridgeError>)
    ensures
        ok ==> r is Ok && r->Ok_0@ == (SelectedBoxView {
            name: created@.name,
            family: created@.family,
        }),
        !ok ==> r is Err && r->Err_0@ == create_failed(created@.name),
{
    if ok {
        Ok(SelectedBox { name: created.name, family: created.family })
    } else {
        let mut message = String::from_str("distrobox create failed for ");
        message.append(created.name.as_str());
        Err(BridgeError { kind: ErrorKind::NoMatchFound, message })
    }
}

/// Given exactly one container that fits and no container asked for by
/// name, that container is selected, and nobody is asked anything.
pub proof fn law_single_match_is_selected(
    c: Seq<ClassifiedBoxView>,
    fmt: PackageFormat,
    policy: SelectionPolicyView,
)
    requires
        policy.container is None,
        matching(c, candidate_families(fmt, policy.family)).len() == 1,
    ensures
        selection(c, fmt, policy) == SelectionView::Selected(
            matching(c, candidate_families(fmt, policy.family))[0],
        ),
{
}

/// Where containers fit, none is ever created: selection creates or offers
/// to create only where nothing fits.
pub proof fn law_creation_only_without_match(
    c: Seq<ClassifiedBoxView>,
    fmt: PackageFormat,
    policy: SelectionPolicyView,
)
    requires
        selection(c, fmt, policy) is Create || selection(c, fmt, policy) is OfferCreate,
    ensures
        policy.container is None,
        matching(c, candidate_families(fmt, policy.family)).len() == 0,
{
}

/// Each container that fits is one of the containers that exist, with the
/// family that was found for it, and that family is among those asked for.
pub proof fn law_matching_exists(c: Seq<ClassifiedBoxView>, fams: Seq<Family>, k: int)
    requires
        0 <= k < matching(c, fams).len(),
    ensures
        exists|i: int|
            0 <= i < c.len() && (#[trigger] c[i]).name == matching(c, fams)[k].name && c[i].family
                == Some(matching(c, fams)[k].family) && fams.contains(matching(c, fams)[k].family),
    decreases c.len(),
{
    let rest = c.drop_last();
    if fits(c.last(), fams) && k == matching(rest, fams).len() {
        assert(c[c.len() - 1].name == matching(c, fams)[k].name);
    } else {
        law_matching_exists(rest, fams, k);
        let i = choose|i: int|
            0 <= i < rest.len() && (#[trigger] rest[i]).name == matching(rest, fams)[k].name
                && rest[i].family == Some(matching(rest, fams)[k].family) && fams.contains(
                matching(rest, fams)[k].family,
            );
        assert(c[i].name == matching(c, fams)[k].name);
    }
}

/// The container that is selected exists, and its family is the one that
/// was found for it when it was selected.
pub proof fn law_selected_is_classified(
    c: Seq<ClassifiedBoxView>,
    fmt: PackageFormat,
    policy: SelectionPolicyView,
)
    requires
        selection(c, fmt, policy) is Selected,
    ensures
        exists|i: int|
            0 <= i < c.len() && (#[trigger] c[i]).name == selection(
                c,
                fmt,
                policy,
            )->Selected_0.name && c[i].family == Some(
                selection(c, fmt, policy)->Selected_0.family,
            ),
{
    match policy.container {
        Some(name) => {
            let i = index_of_name(c, name, 0);
            lemma_index_of_name(c, name, 0);
            assert(c[i].name == name);
        },
        None => {
            let fams = candidate_families(fmt, policy.family);
            law_matching_exists(c, fams, 0);
            let i = choose|i: int|
                0 <= i < c.len() && (#[trigger] c[i]).name == matching(c, fams)[0].name
                    && c[i].family == Some(matching(c, fams)[0].family) && fams.contains(
                    matching(c, fams)[0].family,
                );
            assert(c[i].name == selection(c, fmt, policy)->Selected_0.name);
        },
    }
}

proof fn lemma_index_of_name(c: Seq<ClassifiedBoxView>, name: Seq<char>, i: int)
    requires
        0 <= i <= c.len(),
    ensures
        i <= index_of_name(c, name, i) <= c.len(),
        index_of_name(c, name, i) < c.len() ==> c[index_of_name(c, name, i)].name == name,
    decreases c.len() - i,
{
    if i < c.len() && c[i].name != name {
        lemma_index_of_name(c, name, i + 1);
    }
}

} // verus!
