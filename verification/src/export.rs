//! Publishing a container's binaries and desktop entries on the host, and
//! taking them back.

use vstd::prelude::*;
use vstd::string::StringExecFns;
use crate::distro::{command_views, push_arg, Command, CommandView};
use crate::error::{BridgeError, BridgeErrorView, ErrorKind};
use crate::paths::{file_name_of, path_file_name};
use crate::shell::{shell_escaped, shell_quote};
use crate::text::{
    begins_with, contains, ends_with, finishes_with, has_char, includes, includes_char, joined,
    lines, matches_at, push_chars, same, slice_to_vec, split_lines, starts_with, str_views,
    to_chars, views,
};

verus! {

/// The two ways of calling the export helper.
#[derive(Clone, Copy, Debug, PartialEq, Eq, Structural)]
pub enum Convention {
    /// From the host, naming the container.
    Host,
    /// From inside the container, with absolute paths.
    Inside,
}

/// The way of calling the helper that its help text shows: from the host
/// where the helper is there and its help names the container option.
pub open spec fn convention_of(helper_found: bool, help: Option<Seq<char>>) -> Convention {
    if helper_found && help is Some && contains(help->0, "--container"@) {
        Convention::Host
    } else {
        Convention::Inside
    }
}

/// The script that runs `cmd` inside the container `box_name` with the
/// arguments it was called with.
pub open spec fn shim_text(box_name: Seq<char>, cmd: Seq<char>) -> Seq<char> {
    "#!/usr/bin/env sh\nexec distrobox enter -n "@ + box_name + " -- "@ + cmd + " \"$@\"\n"@
}

/// The name under which a binary is published where its own name is taken.
pub open spec fn suffixed(name: Seq<char>, box_name: Seq<char>) -> Seq<char> {
    name + "-"@ + box_name
}

/// A script to be written into the host's directory of binaries.
#[derive(Clone, Debug, PartialEq, Eq)]
pub struct Shim {
    /// The file's name in that directory.
    pub name: String,
    pub content: String,
}

/// What a [`Shim`] holds.
pub struct ShimView {
    pub name: Seq<char>,
    pub content: Seq<char>,
}

impl View for Shim {
    type V = ShimView;

    open spec fn view(&self) -> ShimView {
        ShimView { name: self.name@, content: self.content@ }
    }
}

/// What the host holds under a name.
#[derive(Clone, Debug, PartialEq, Eq)]
pub enum HostFile {
    /// Nothing.
    Absent,
    /// A file with this text.
    Text(String),
    /// Something else: a file that is no text, or that cannot be read, or a
    /// directory.
    Other,
}

/// What a [`HostFile`] holds.
pub enum HostFileView {
    Absent,
    Text(Seq<char>),
    Other,
}

impl View for HostFile {
    type V = HostFileView;

    open spec fn view(&self) -> HostFileView {
        match self {
            HostFile::Absent => HostFileView::Absent,
            HostFile::Text(t) => HostFileView::Text(t@),
            HostFile::Other => HostFileView::Other,
        }
    }
}

/// Whether `content` may be written under a name of which the host holds
/// `held`: only where nothing is there, or the very same text, which an
/// earlier export wrote. Anything else was made outside this program and
/// stays as it is.
pub open spec fn may_write(held: HostFileView, content: Seq<char>) -> bool {
    match held {
        HostFileView::Absent => true,
        HostFileView::Text(t) => t == content,
        HostFileView::Other => false,
    }
}

/// The failure to publish under `name`, which is taken by something that
/// this program did not write.
pub open spec fn name_taken(name: Seq<char>) -> BridgeErrorView {
    BridgeErrorView {
        kind: ErrorKind::ExportFailure,
        message: "'"@ + name + "' exists and was not written by pkgbridge; left as it is"@,
    }
}

/// Whether a file is written.
#[derive(Clone, Debug, PartialEq, Eq)]
pub enum WriteDecision {
    /// Write it.
    Write,
    /// Leave what is there and warn.
    Warn(BridgeError),
}

/// What a [`WriteDecision`] holds.
pub enum WriteDecisionView {
    Write,
    Warn(BridgeErrorView),
}

impl View for WriteDecision {
    type V = WriteDecisionView;

    open spec fn view(&self) -> WriteDecisionView {
        match self {
            WriteDecision::Write => WriteDecisionView::Write,
            WriteDecision::Warn(e) => WriteDecisionView::Warn(e@),
        }
    }
}

/// Whether `content` is written under `name`, of which the host holds
/// `held`.
pub open spec fn write_decision(name: Seq<char>, content: Seq<char>, held: HostFileView) -> WriteDecisionView {
    if may_write(held, content) {
        WriteDecisionView::Write
    } else {
        WriteDecisionView::Warn(name_taken(name))
    }
}

/// How one binary is published.
#[derive(Clone, Debug, PartialEq, Eq)]
pub enum BinPlan {
    /// The name is taken on the host: write this script beside the file
    /// that has it.
    Collision(Shim),
    /// The name is taken, and so is the name beside it, by something that
    /// this program did not write: write nothing and warn.
    Spared(BridgeError),
    /// Run the commands in order until one succeeds; where none does,
    /// write the script and warn.
    Helper { commands: Vec<Command>, fallback: Shim },
}

/// What a [`BinPlan`] holds.
pub enum BinPlanView {
    Collision(ShimView),
    Spared(BridgeErrorView),
    Helper { commands: Seq<CommandView>, fallback: ShimView },
}

impl View for BinPlan {
    type V = BinPlanView;

    open spec fn view(&self) -> BinPlanView {
        match self {
            BinPlan::Collision(s) => BinPlanView::Collision(s@),
            BinPlan::Spared(e) => BinPlanView::Spared(e@),
            BinPlan::Helper { commands, fallback } => BinPlanView::Helper {
                commands: command_views(commands@),
                fallback: fallback@,
            },
        }
    }
}

/// The helper call from the host for the container `box_name`.
pub open spec fn host_call(box_name: Seq<char>, rest: Seq<Seq<char>>) -> CommandView {
    CommandView { program: "distrobox-export"@, args: seq!["--container"@, box_name] + rest }
}

/// The helper call from inside the container `box_name`.
pub open spec fn inside_call(box_name: Seq<char>, rest: Seq<Seq<char>>) -> CommandView {
    CommandView {
        program: "distrobox"@,
        args: seq!["enter"@, "-n"@, box_name, "--"@, "distrobox-export"@] + rest,
    }
}

/// The helper call in the given convention.
pub open spec fn helper_call(conv: Convention, box_name: Seq<char>, rest: Seq<Seq<char>>) -> CommandView {
    match conv {
        Convention::Host => host_call(box_name, rest),
        Convention::Inside => inside_call(box_name, rest),
    }
}

/// Where a binary lies inside a container.
pub open spec fn bin_path(bin: Seq<char>) -> Seq<char> {
    "/usr/bin/"@ + bin
}

/// The helper calls that export a binary, in the order in which they are
/// tried: from the host by name and then by path, from inside by path.
pub open spec fn bin_export_calls(conv: Convention, box_name: Seq<char>, bin: Seq<char>) -> Seq<
    CommandView,
> {
    match conv {
        Convention::Host => seq![
            host_call(box_name, seq!["--bin"@, bin]),
            host_call(box_name, seq!["--bin"@, bin_path(bin)]),
        ],
        Convention::Inside => seq![inside_call(box_name, seq!["--bin"@, bin_path(bin)])],
    }
}

/// How the binary `bin` of the container `box_name` is published, given
/// whether a file of that name exists on the host already, and what the
/// host holds under the suffixed name. An existing file is left alone: the
/// binary then gets a script under the suffixed name, unless that name is
/// taken too by something that this program did not write.
pub open spec fn bin_plan(
    conv: Convention,
    box_name: Seq<char>,
    bin: Seq<char>,
    exists: bool,
    held: HostFileView,
) -> BinPlanView {
    if exists {
        if may_write(held, shim_text(box_name, bin)) {
            BinPlanView::Collision(
                ShimView { name: suffixed(bin, box_name), content: shim_text(box_name, bin) },
            )
        } else {
            BinPlanView::Spared(name_taken(suffixed(bin, box_name)))
        }
    } else {
        BinPlanView::Helper {
            commands: bin_export_calls(conv, box_name, bin),
            fallback: ShimView { name: bin, content: shim_text(box_name, bin) },
        }
    }
}

/// The names of the host files that a plan may write.
pub open spec fn written_names(plan: BinPlanView) -> Set<Seq<char>> {
    match plan {
        BinPlanView::Collision(s) => set![s.name],
        BinPlanView::Spared(e) => Set::empty(),
        BinPlanView::Helper { commands, fallback } => set![fallback.name],
    }
}

/// `s` without every repetition of the suffix `p` at its end.
pub open spec fn strip_suffixes(s: Seq<char>, p: Seq<char>) -> Seq<char>
    decreases s.len(),
{
    if p.len() > 0 && ends_with(s, p) {
        strip_suffixes(s.take(s.len() - p.len()), p)
    } else {
        s
    }
}

/// The name under which a desktop entry is published where its own name is
/// taken: the container's name goes before the extension.
pub open spec fn suffixed_entry(base: Seq<char>, box_name: Seq<char>) -> Seq<char> {
    strip_suffixes(base, ".desktop"@) + "."@ + box_name + ".desktop"@
}

/// Where a desktop entry lies inside a container.
pub open spec fn entry_path(base: Seq<char>) -> Seq<char> {
    "/usr/share/applications/"@ + base
}

/// What the helper is given for a desktop entry: a path stays as it is, a
/// file name of an entry becomes its path inside the container, and
/// anything else is taken for the name of an application.
pub open spec fn normalized_entry(app: Seq<char>) -> Seq<char> {
    if has_char(app, '/') {
        app
    } else if ends_with(app, ".desktop"@) {
        entry_path(app)
    } else {
        app
    }
}

/// What is exported for the desktop entry `app` whose last component is
/// `base`: an absolute path as it is, another path or an entry's file name
/// as the entry's path inside the container, anything else by name.
pub open spec fn entry_target(app: Seq<char>, base: Seq<char>) -> Seq<char> {
    normalized_entry(
        if has_char(app, '/') || ends_with(base, ".desktop"@) {
            if app.len() > 0 && app[0] == '/' {
                app
            } else {
                entry_path(base)
            }
        } else {
            base
        },
    )
}

/// A line of a desktop entry as it is published under a suffixed name: a
/// line that starts a program gets the entry into the container in front,
/// unless it has one already.
pub open spec fn rewritten_line(line: Seq<char>, box_name: Seq<char>) -> Seq<char> {
    if starts_with(line, "Exec="@) && !contains(line, "distrobox enter -n"@) {
        "Exec=distrobox enter -n "@ + box_name + " -- "@ + line.skip(5)
    } else {
        line
    }
}

/// The lines of a desktop entry, each rewritten for the container.
pub open spec fn rewritten_lines(content: Seq<char>, box_name: Seq<char>) -> Seq<Seq<char>> {
    Seq::new(lines(content).len(), |i: int| rewritten_line(lines(content)[i], box_name))
}

/// A desktop entry as it is published under a suffixed name.
pub open spec fn rewritten_entry(content: Seq<char>, box_name: Seq<char>) -> Seq<char> {
    joined(rewritten_lines(content, box_name))
}

/// How one desktop entry is published.
#[derive(Clone, Debug, PartialEq, Eq)]
pub enum AppPlan {
    /// The name is taken on the host: read the entry with `read_command`
    /// inside the container, rewrite it with [`rewrite_desktop_entry`] and
    /// write it under `name` beside the file that has its own name, as far
    /// as [`settle_write`] allows.
    Collision { read_command: String, name: String },
    /// Run the command; where it fails, warn.
    Helper(Command),
}

/// What an [`AppPlan`] holds.
pub enum AppPlanView {
    Collision { read_command: Seq<char>, name: Seq<char> },
    Helper(CommandView),
}

impl View for AppPlan {
    type V = AppPlanView;

    open spec fn view(&self) -> AppPlanView {
        match self {
            AppPlan::Collision { read_command, name } => AppPlanView::Collision {
                read_command: read_command@,
                name: name@,
            },
            AppPlan::Helper(c) => AppPlanView::Helper(c@),
        }
    }
}

/// The last component of `app`, or all of it where it has none.
pub open spec fn base_of(app: Seq<char>) -> Seq<char> {
    match path_file_name(app) {
        Some(b) => b,
        None => app,
    }
}

/// How the desktop entry `app`, whose last component is `base`, is
/// published, given whether a file called `base` exists on the host
/// already.
pub open spec fn app_plan(
    conv: Convention,
    box_name: Seq<char>,
    app: Seq<char>,
    base: Seq<char>,
    exists: bool,
) -> AppPlanView {
    if exists {
        AppPlanView::Collision {
            read_command: "cat "@ + shell_escaped(entry_path(base)),
            name: suffixed_entry(base, box_name),
        }
    } else {
        AppPlanView::Helper(helper_call(conv, box_name, seq!["--app"@, entry_target(app, base)]))
    }
}

/// The helper call that takes back the binary `bin`.
pub open spec fn bin_unexport_call(conv: Convention, box_name: Seq<char>, bin: Seq<char>) -> CommandView {
    match conv {
        Convention::Host => host_call(box_name, seq!["--delete"@, "--bin"@, bin]),
        Convention::Inside => inside_call(box_name, seq!["--delete"@, "--bin"@, bin_path(bin)]),
    }
}

/// The helper call that takes back the desktop entry whose last component
/// is `base`.
pub open spec fn app_unexport_call(conv: Convention, box_name: Seq<char>, base: Seq<char>) -> CommandView {
    helper_call(conv, box_name, seq!["--delete"@, "--app"@, base])
}

/// Tells the way of calling the export helper from whether it was found on
/// the host and from what its help printed.
pub fn select_convention(helper_found: bool, help: Option<&str>) -> (r: Convention)
    ensures
        r == convention_of(
            helper_found,
            match help {
                Some(h) => Some(h@),
                None => None,
            },
        ),
{
    if !helper_found {
        return Convention::Inside;
    }
    match help {
        Some(h) => {
            if includes(to_chars(h).as_slice(), to_chars("--container").as_slice()) {
                Convention::Host
            } else {
                Convention::Inside
            }
        },
        None => Convention::Inside,
    }
}

/// The script that runs `cmd` inside the container `box_name`.
pub fn shim_content(box_name: &str, cmd: &str) -> (r: String)
    ensures
        r@ == shim_text(box_name@, cmd@),
{
    let mut s = String::from_str("#!/usr/bin/env sh\nexec distrobox enter -n ");
    s.append(box_name);
    s.append(" -- ");
    s.append(cmd);
    s.append(" \"$@\"\n");
    s
}

fn call(conv: Convention, box_name: &str, rest: Vec<String>) -> (r: Command)
    ensures
        r@ == helper_call(conv, box_name@, str_views(rest@)),
{
    let mut args: Vec<String> = Vec::new();
    assert(str_views(args@) =~= Seq::<Seq<char>>::empty());
    let program = match conv {
        Convention::Host => {
            push_arg(&mut args, "--container");
            push_arg(&mut args, box_name);
            String::from_str("distrobox-export")
        },
        Convention::Inside => {
            push_arg(&mut args, "enter");
            push_arg(&mut args, "-n");
            push_arg(&mut args, box_name);
            push_arg(&mut args, "--");
            push_arg(&mut args, "distrobox-export");
            String::from_str("distrobox")
        },
    };
    let ghost head = str_views(args@);
    assert(head =~= match conv {
        Convention::Host => seq!["--container"@, box_name@],
        Convention::Inside => seq!["enter"@, "-n"@, box_name@, "--"@, "distrobox-export"@],
    });
    let mut i: usize = 0;
    assert(str_views(rest@).take(0) =~= Seq::<Seq<char>>::empty());
    assert(head + str_views(rest@).take(0) =~= head);
    while i < rest.len()
        invariant
            i <= rest.len(),
            str_views(args@) == head + str_views(rest@).take(i as int),
        decreases rest.len() - i,
    {
        let ghost before = str_views(args@);
        args.push(rest[i].clone());
        assert(str_views(args@) =~= before.push(rest@[i as int]@));
        assert(str_views(rest@).take(i + 1) =~= str_views(rest@).take(i as int).push(
            rest@[i as int]@,
        ));
        assert(str_views(args@) =~= head + str_views(rest@).take(i + 1));
        i += 1;
    }
    assert(str_views(rest@).take(rest.len() as int) =~= str_views(rest@));
    Command { program, args }
}

fn two_args(a: &str, b: &str) -> (r: Vec<String>)
    ensures
        str_views(r@) == seq![a@, b@],
{
    let mut r: Vec<String> = Vec::new();
    assert(str_views(r@) =~= Seq::<Seq<char>>::empty());
    push_arg(&mut r, a);
    push_arg(&mut r, b);
    assert(str_views(r@) =~= seq![a@, b@]);
    r
}

fn three_args(a: &str, b: &str, c: &str) -> (r: Vec<String>)
    ensures
        str_views(r@) == seq![a@, b@, c@],
{
    let mut r: Vec<String> = Vec::new();
    assert(str_views(r@) =~= Seq::<Seq<char>>::empty());
    push_arg(&mut r, a);
    push_arg(&mut r, b);
    push_arg(&mut r, c);
    assert(str_views(r@) =~= seq![a@, b@, c@]);
    r
}

fn path_of_bin(bin: &str) -> (r: String)
    ensures
        r@ == bin_path(bin@),
{
    let mut s = String::from_str("/usr/bin/");
    s.append(bin);
    s
}

fn path_of_entry(base: &str) -> (r: String)
    ensures
        r@ == entry_path(base@),
{
    let mut s = String::from_str("/usr/share/applications/");
    s.append(base);
    s
}

/// The helper calls that export the binary `bin`, in the order in which
/// they are tried.
pub fn export_bin(conv: Convention, box_name: &str, bin: &str) -> (r: Vec<Command>)
    ensures
        command_views(r@) == bin_export_calls(conv, box_name@, bin@),
{
    let mut r: Vec<Command> = Vec::new();
    let abs = path_of_bin(bin);
    match conv {
        Convention::Host => {
            let by_name = call(conv, box_name, two_args("--bin", bin));
            let by_path = call(conv, box_name, two_args("--bin", abs.as_str()));
            r.push(by_name);
            r.push(by_path);
        },
        Convention::Inside => {
            let by_path = call(conv, box_name, two_args("--bin", abs.as_str()));
            r.push(by_path);
        },
    }
    assert(command_views(r@) =~= bin_export_calls(conv, box_name@, bin@));
    r
}

/// Whether the host holds nothing under a name, or the very text `content`.
pub fn writable(held: &HostFile, content: &str) -> (b: bool)
    ensures
        b == may_write(held@, content@),
{
    match held {
        HostFile::Absent => true,
        HostFile::Text(t) => same(to_chars(t.as_str()).as_slice(), to_chars(content).as_slice()),
        HostFile::Other => false,
    }
}

fn taken_warning(name: &str) -> (e: BridgeError)
    ensures
        e@ == name_taken(name@),
{
    let mut message = String::from_str("'");
    message.append(name);
    message.append("' exists and was not written by pkgbridge; left as it is");
    BridgeError { kind: ErrorKind::ExportFailure, message }
}

/// Decides whether `content` is written under `name`, of which the host
/// holds `held`: a file that this program did not write is never written
/// over.
pub fn settle_write(name: &str, content: &str, held: &HostFile) -> (r: WriteDecision)
    ensures
        r@ == write_decision(name@, content@, held@),
{
    if writable(held, content) {
        WriteDecision::Write
    } else {
        WriteDecision::Warn(taken_warning(name))
    }
}

/// The name under which the binary `bin` is published where its own name is
/// taken.
pub fn suffixed_bin_name(bin: &str, box_name: &str) -> (r: String)
    ensures
        r@ == suffixed(bin@, box_name@),
{
    let mut name = String::from_str(bin);
    name.append("-");
    name.append(box_name);
    name
}

/// Plans the export of the binary `bin` of the container `box_name`;
/// `exists` says whether the host has a file of that name already, and
/// `held` what it holds under the name that [`suffixed_bin_name`] gives.
pub fn plan_bin_export(conv: Convention, box_name: &str, bin: &str, exists: bool, held: &HostFile) -> (r:
    BinPlan)
    ensures
        r@ == bin_plan(conv, box_name@, bin@, exists, held@),
{
    let content = shim_content(box_name, bin);
    if exists {
        let name = suffixed_bin_name(bin, box_name);
        if writable(held, content.as_str()) {
            BinPlan::Collision(Shim { name, content })
        } else {
            BinPlan::Spared(taken_warning(name.as_str()))
        }
    } else {
        BinPlan::Helper {
            commands: export_bin(conv, box_name, bin),
            fallback: Shim { name: String::from_str(bin), content },
        }
    }
}

fn without_suffixes(v: &[char], p: &[char]) -> (r: Vec<char>)
    ensures
        r@ == strip_suffixes(v@, p@),
{
    let mut end: usize = v.len();
    assert(v@.take(end as int) =~= v@);
    while p.len() > 0 && end >= p.len() && matches_at(v, p, end - p.len())
        invariant
            end <= v.len(),
            strip_suffixes(v@.take(end as int), p@) == strip_suffixes(v@, p@),
        decreases end,
    {
        let ghost cur = v@.take(end as int);
        assert(cur.subrange(end - p.len(), end as int) =~= v@.subrange(end - p.len(), end as int));
        assert(ends_with(cur, p@));
        assert(cur.take(cur.len() - p.len()) =~= v@.take(end - p.len()));
        end -= p.len();
    }
    proof {
        let cur = v@.take(end as int);
        if p.len() > 0 && end >= p.len() {
            assert(cur.subrange(end - p.len(), end as int) =~= v@.subrange(
                end - p.len(),
                end as int,
            ));
        }
        assert(!(p@.len() > 0 && ends_with(cur, p@)));
    }
    let r = slice_to_vec(v, 0, end);
    assert(r@ =~= v@.take(end as int));
    r
}

/// The name under which the desktop entry `base` is published where its
/// own name is taken.
pub fn suffixed_entry_name(base: &str, box_name: &str) -> (r: String)
    ensures
        r@ == suffixed_entry(base@, box_name@),
{
    let stem = without_suffixes(to_chars(base).as_slice(), to_chars(".desktop").as_slice());
    let mut s = String::new();
    push_chars(&mut s, stem.as_slice());
    assert(s@ =~= strip_suffixes(base@, ".desktop"@));
    s.append(".");
    s.append(box_name);
    s.append(".desktop");
    s
}

fn normalize_entry(app: &str) -> (r: String)
    ensures
        r@ == normalized_entry(app@),
{
    let v = to_chars(app);
    if includes_char(v.as_slice(), '/') {
        String::from_str(app)
    } else if finishes_with(v.as_slice(), to_chars(".desktop").as_slice()) {
        path_of_entry(app)
    } else {
        String::from_str(app)
    }
}

/// What the helper is given for the desktop entry `app`, whose last
/// component is `base`.
pub fn export_target(app: &str, base: &str) -> (r: String)
    ensures
        r@ == entry_target(app@, base@),
{
    let a = to_chars(app);
    let b = to_chars(base);
    let first = if includes_char(a.as_slice(), '/') || finishes_with(
        b.as_slice(),
        to_chars(".desktop").as_slice(),
    ) {
        if a.len() > 0 && a[0] == '/' {
            String::from_str(app)
        } else {
            path_of_entry(base)
        }
    } else {
        String::from_str(base)
    };
    normalize_entry(first.as_str())
}

/// The helper call that exports the desktop entry given as `app_spec`: a
/// path, the file name of an entry, or the name of an application.
pub fn export_app(conv: Convention, box_name: &str, app_spec: &str) -> (r: Command)
    ensures
        r@ == helper_call(conv, box_name@, seq!["--app"@, normalized_entry(app_spec@)]),
{
    let normalized = normalize_entry(app_spec);
    call(conv, box_name, two_args("--app", normalized.as_str()))
}

/// Plans the export of the desktop entry `app`, whose last component is
/// `base`; `exists` says whether the host has a file called `base` already.
pub fn plan_app_export_for(conv: Convention, box_name: &str, app: &str, base: &str, exists: bool) -> (r:
    AppPlan)
    ensures
        r@ == app_plan(conv, box_name@, app@, base@, exists),
{
    if exists {
        let mut read_command = String::from_str("cat ");
        read_command.append(shell_quote(path_of_entry(base).as_str()).as_str());
        AppPlan::Collision { read_command, name: suffixed_entry_name(base, box_name) }
    } else {
        let target = export_target(app, base);
        AppPlan::Helper(call(conv, box_name, two_args("--app", target.as_str())))
    }
}

/// The name under which the desktop entry `app` lies on the host: its last
/// component, or all of it where it has none.
pub fn host_entry_name(app: &str) -> (r: String)
    ensures
        r@ == base_of(app@),
{
    match file_name_of(app) {
        Some(b) => b,
        None => String::from_str(app),
    }
}

/// Plans the export of the desktop entry `app`; `exists` says whether the
/// host has a file with the name that [`host_entry_name`] gives already.
pub fn plan_app_export(conv: Convention, box_name: &str, app: &str, exists: bool) -> (r: AppPlan)
    ensures
        r@ == app_plan(conv, box_name@, app@, base_of(app@), exists),
{
    let base = host_entry_name(app);
    plan_app_export_for(conv, box_name, app, base.as_str(), exists)
}

fn rewrite_line(line: &[char], box_name: &str) -> (r: Vec<char>)
    ensures
        r@ == rewritten_line(line@, box_name@),
{
    if begins_with(line, to_chars("Exec=").as_slice()) && !includes(
        line,
        to_chars("distrobox enter -n").as_slice(),
    ) {
        proof {
            reveal_strlit("Exec=");
        }
        let mut s = String::from_str("Exec=distrobox enter -n ");
        s.append(box_name);
        s.append(" -- ");
        let rest = slice_to_vec(line, 5, line.len());
        assert(rest@ =~= line@.skip(5));
        push_chars(&mut s, rest.as_slice());
        to_chars(s.as_str())
    } else {
        let r = slice_to_vec(line, 0, line.len());
        assert(r@ =~= line@);
        r
    }
}

/// Rewrites the desktop entry `content`, read from the container
/// `box_name`, so that each program it starts is started inside that
/// container. The lines come out joined by line feeds.
pub fn rewrite_desktop_entry(content: &str, box_name: &str) -> (r: String)
    ensures
        r@ == rewritten_entry(content@, box_name@),
{
    let chars = to_chars(content);
    let ls = split_lines(chars.as_slice());
    let ghost want = rewritten_lines(content@, box_name@);
    let mut out = String::new();
    let mut i: usize = 0;
    assert(want.take(0) =~= Seq::<Seq<char>>::empty());
    while i < ls.len()
        invariant
            i <= ls.len(),
            views(ls@) == lines(content@),
            want == rewritten_lines(content@, box_name@),
            want.len() == ls.len(),
            out@ == joined(want.take(i as int)),
        decreases ls.len() - i,
    {
        let line = rewrite_line(ls[i].as_slice(), box_name);
        assert(views(ls@)[i as int] == ls@[i as int]@);
        assert(line@ == want[i as int]);
        assert(want.take(i + 1).drop_last() =~= want.take(i as int));
        assert(want.take(i + 1).last() == want[i as int]);
        if i > 0 {
            out.push('\n');
            assert(want.take(i as int).len() > 0);
            push_chars(&mut out, line.as_slice());
            assert(out@ =~= joined(want.take(i as int)) + seq!['\n'] + line@);
        } else {
            push_chars(&mut out, line.as_slice());
            assert(out@ =~= line@);
            assert(want.take(1)[0] == line@);
        }
        i += 1;
    }
    assert(want.take(ls.len() as int) =~= want);
    out
}

/// The helper call that takes back the binary `bin`.
pub fn unexport_bin(conv: Convention, box_name: &str, bin: &str) -> (r: Command)
    ensures
        r@ == bin_unexport_call(conv, box_name@, bin@),
{
    match conv {
        Convention::Host => call(conv, box_name, three_args("--delete", "--bin", bin)),
        Convention::Inside => {
            let abs = path_of_bin(bin);
            call(conv, box_name, three_args("--delete", "--bin", abs.as_str()))
        },
    }
}

/// The helper call that takes back the desktop entry `app`.
pub fn unexport_app(conv: Convention, box_name: &str, app: &str) -> (r: Command)
    ensures
        r@ == app_unexport_call(conv, box_name@, base_of(app@)),
{
    let base = host_entry_name(app);
    call(conv, box_name, three_args("--delete", "--app", base.as_str()))
}

/// The helper calls that take back the given items, binaries first, each
/// list in its order. Every call is made whatever became of the others.
pub fn unexport_items(conv: Convention, box_name: &str, bins: &Vec<String>, apps: &Vec<String>) -> (r:
    Vec<Command>)
    ensures
        r@.len() == bins@.len() + apps@.len(),
        forall|i: int|
            0 <= i < bins@.len() ==> (#[trigger] r@[i])@ == bin_unexport_call(
                conv,
                box_name@,
                bins@[i]@,
            ),
        forall|i: int|
            0 <= i < apps@.len() ==> (#[trigger] r@[bins@.len() + i])@ == app_unexport_call(
                conv,
                box_name@,
                base_of(apps@[i]@),
            ),
{
    let mut r: Vec<Command> = Vec::new();
    let mut i: usize = 0;
    while i < bins.len()
        invariant
            i <= bins.len(),
            r@.len() == i,
            forall|j: int|
                0 <= j < i ==> (#[trigger] r@[j])@ == bin_unexport_call(conv, box_name@, bins@[j]@),
        decreases bins.len() - i,
    {
        r.push(unexport_bin(conv, box_name, bins[i].as_str()));
        i += 1;
    }
    let mut k: usize = 0;
    while k < apps.len()
        invariant
            k <= apps.len(),
            r@.len() == bins@.len() + k,
            forall|j: int|
                0 <= j < bins@.len() ==> (#[trigger] r@[j])@ == bin_unexport_call(
                    conv,
                    box_name@,
                    bins@[j]@,
                ),
            forall|j: int|
                0 <= j < k ==> (#[trigger] r@[bins@.len() + j])@ == app_unexport_call(
                    conv,
                    box_name@,
                    base_of(apps@[j]@),
                ),
        decreases apps.len() - k,
    {
        r.push(unexport_app(conv, box_name, apps[k].as_str()));
        k += 1;
    }
    r
}

/// The failure to export the binary `bin` through the helper; the script
/// was written in its place.
pub open spec fn bin_export_failed(bin: Seq<char>) -> BridgeErrorView {
    BridgeErrorView {
        kind: ErrorKind::ExportFailure,
        message: "distrobox-export failed; wrote shim for "@ + bin,
    }
}

/// The failure to export the desktop entry whose last component is `base`.
pub open spec fn app_export_failed(base: Seq<char>) -> BridgeErrorView {
    BridgeErrorView { kind: ErrorKind::ExportFailure, message: "failed exporting app "@ + base }
}

/// The warning for a binary that the helper did not export: it never ends
/// the operation.
pub fn bin_export_warning(bin: &str) -> (e: BridgeError)
    ensures
        e@ == bin_export_failed(bin@),
{
    let mut message = String::from_str("distrobox-export failed; wrote shim for ");
    message.append(bin);
    BridgeError { kind: ErrorKind::ExportFailure, message }
}

/// The warning for a desktop entry that could not be exported: it never
/// ends the operation.
pub fn app_export_warning(base: &str) -> (e: BridgeError)
    ensures
        e@ == app_export_failed(base@),
{
    let mut message = String::from_str("failed exporting app ");
    message.append(base);
    BridgeError { kind: ErrorKind::ExportFailure, message }
}

/// A binary whose name is taken on the host never has that file written:
/// it stays as it is. What is written, if anything, goes under the name
/// with the container's name behind it, and only where the host holds
/// nothing there or the very script that is written. Where nothing is
/// there, the script is written.
pub proof fn law_collision_spares_existing(
    conv: Convention,
    box_name: Seq<char>,
    bin: Seq<char>,
    held: HostFileView,
)
    ensures
        !written_names(bin_plan(conv, box_name, bin, true, held)).contains(bin),
        forall|n: Seq<char>|
            written_names(bin_plan(conv, box_name, bin, true, held)).contains(n) ==> n == suffixed(
                bin,
                box_name,
            ) && may_write(held, shim_text(box_name, bin)),
        held is Absent ==> bin_plan(conv, box_name, bin, true, held) == BinPlanView::Collision(
            ShimView { name: suffixed(bin, box_name), content: shim_text(box_name, bin) },
        ),
{
    reveal_strlit("-");
    assert(suffixed(bin, box_name).len() == bin.len() + 1 + box_name.len());
}

/// A file under the suffixed name that this program did not write is
/// spared: the plan writes nothing at all and carries a warning.
pub proof fn law_foreign_file_is_spared(
    conv: Convention,
    box_name: Seq<char>,
    bin: Seq<char>,
    held: HostFileView,
)
    requires
        !may_write(held, shim_text(box_name, bin)),
    ensures
        bin_plan(conv, box_name, bin, true, held) is Spared,
        written_names(bin_plan(conv, box_name, bin, true, held)) == Set::<Seq<char>>::empty(),
        bin_plan(conv, box_name, bin, true, held)->Spared_0.kind == ErrorKind::ExportFailure,
{
}

/// Exporting a binary again while the host has a file of its name comes to
/// the same as before, whichever way the helper is called. Where the first
/// export wrote its script, the second finds that script and writes the
/// same text under the same name. Where the first spared what it found, so
/// does the second. Neither writes the file that has the name.
pub proof fn law_export_twice(
    first: Convention,
    second: Convention,
    box_name: Seq<char>,
    bin: Seq<char>,
    held: HostFileView,
)
    ensures
        bin_plan(first, box_name, bin, true, held) is Collision ==> bin_plan(
            second,
            box_name,
            bin,
            true,
            HostFileView::Text(bin_plan(first, box_name, bin, true, held)->Collision_0.content),
        ) == bin_plan(first, box_name, bin, true, held),
        !(bin_plan(first, box_name, bin, true, held) is Collision) ==> bin_plan(
            second,
            box_name,
            bin,
            true,
            held,
        ) == bin_plan(first, box_name, bin, true, held) && written_names(
            bin_plan(second, box_name, bin, true, held),
        ) == Set::<Seq<char>>::empty(),
        !written_names(bin_plan(second, box_name, bin, true, held)).contains(bin),
{
    law_collision_spares_existing(second, box_name, bin, held);
}

/// A file is written only where the host holds nothing under its name, or
/// the very text that is written; otherwise the answer is a warning that
/// never ends the operation.
pub proof fn law_write_spares_foreign(name: Seq<char>, content: Seq<char>, held: HostFileView)
    ensures
        write_decision(name, content, held) is Write <==> may_write(held, content),
        write_decision(name, content, held) is Warn ==> write_decision(
            name,
            content,
            held,
        )->Warn_0.kind == ErrorKind::ExportFailure,
{
}

} // verus!
