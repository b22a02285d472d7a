//! Containers, their distribution families, and the commands that reach them.

use vstd::prelude::*;
use vstd::string::StringExecFns;
use crate::error::{BridgeError, BridgeErrorView, ErrorKind};
use crate::shell::{all_plain, is_plain, shell_escaped, shell_quote};
use crate::text::{is_alnum, is_alphanumeric, str_views, to_chars};

verus! {

/// A container as the listing tool reports it.
#[derive(Clone, Debug, PartialEq, Eq, Default)]
pub struct DistroBox {
    pub name: String,
    pub image: Option<String>,
    /// The container engine, or `unknown`.
    pub runtime: String,
}

/// What a [`DistroBox`] holds.
pub struct DistroBoxView {
    pub name: Seq<char>,
    pub image: Option<Seq<char>>,
    pub runtime: Seq<char>,
}

/// The characters of an optional string.
pub open spec fn opt_view(o: Option<String>) -> Option<Seq<char>> {
    match o {
        Some(s) => Some(s@),
        None => None,
    }
}

impl View for DistroBox {
    type V = DistroBoxView;

    open spec fn view(&self) -> DistroBoxView {
        DistroBoxView { name: self.name@, image: opt_view(self.image), runtime: self.runtime@ }
    }
}

/// What a vector of containers holds.
pub open spec fn box_views(v: Seq<DistroBox>) -> Seq<DistroBoxView> {
    Seq::new(v.len(), |i: int| v[i]@)
}

/// The lineage of a container's distribution.
#[derive(Clone, Copy, Debug, PartialEq, Eq, Hash, Structural)]
pub enum Family {
    Debian,
    Fedora,
    OpenSuse,
    Arch,
}

/// Whether a character of a file name is kept when the file is copied into
/// a container.
pub open spec fn kept_in_name(c: char) -> bool {
    is_alnum(c) || c == '.' || c == '-' || c == '_'
}

/// The name under which a file called `base` is stored inside a container:
/// each character that is not kept becomes an underscore, and an empty name
/// becomes `package`.
pub open spec fn sanitized_name(base: Seq<char>) -> Seq<char> {
    if base.len() == 0 {
        "package"@
    } else {
        Seq::new(
            base.len(),
            |i: int|
                if kept_in_name(base[i]) {
                    base[i]
                } else {
                    '_'
                },
        )
    }
}

/// Where inside a container the local file with the given name is stored;
/// a file without a usable name counts as `package`.
pub open spec fn destination(file_name: Option<Seq<char>>) -> Seq<char> {
    "/tmp/pkgbridge/"@ + sanitized_name(
        match file_name {
            Some(n) => n,
            None => "package"@,
        },
    )
}

/// The command that stores its input at the quoted path `q` inside a
/// container.
pub open spec fn copy_cmd(q: Seq<char>) -> Seq<char> {
    "mkdir -p /tmp/pkgbridge && cat > "@ + q
}

/// Executable form of [`sanitized_name`].
pub fn sanitize_file_name(base: &str) -> (r: String)
    ensures
        r@ == sanitized_name(base@),
{
    let v = to_chars(base);
    if v.len() == 0 {
        return String::from_str("package");
    }
    let mut r = String::new();
    let mut i: usize = 0;
    while i < v.len()
        invariant
            i <= v.len(),
            v@ == base@,
            r@.len() == i,
            forall|j: int| 0 <= j < i ==> r@[j] == sanitized_name(base@)[j],
        decreases v.len() - i,
    {
        let c = v[i];
        if is_alphanumeric(c) || c == '.' || c == '-' || c == '_' {
            r.push(c);
        } else {
            r.push('_');
        }
        i += 1;
    }
    assert(r@ =~= sanitized_name(base@));
    r
}

/// Executable form of [`destination`].
pub fn copy_destination(file_name: Option<&str>) -> (r: String)
    ensures
        r@ == destination(
            match file_name {
                Some(n) => Some(n@),
                None => None,
            },
        ),
{
    let name = match file_name {
        Some(n) => sanitize_file_name(n),
        None => sanitize_file_name("package"),
    };
    let mut r = String::from_str("/tmp/pkgbridge/");
    r.append(name.as_str());
    r
}

/// The copy command for a destination that is already quoted.
pub fn copy_cmd_quoted(quoted: &str) -> (r: String)
    ensures
        r@ == copy_cmd(quoted@),
{
    let mut r = String::from_str("mkdir -p /tmp/pkgbridge && cat > ");
    r.append(quoted);
    r
}

/// The command that, run inside a container, stores what it reads at
/// `dest`.
pub fn build_copy_cmd(dest: &str) -> (r: String)
    ensures
        r@ == copy_cmd(shell_escaped(dest@)),
{
    let q = shell_quote(dest);
    copy_cmd_quoted(q.as_str())
}

/// What a command that ran to its end left behind.
#[derive(Clone, Debug, PartialEq, Eq, Default)]
pub struct Capture {
    /// Whether the command ended with success.
    pub success: bool,
    pub stdout: String,
    pub stderr: String,
}

/// What a [`Capture`] holds.
pub struct CaptureView {
    pub success: bool,
    pub stdout: Seq<char>,
    pub stderr: Seq<char>,
}

impl View for Capture {
    type V = CaptureView;

    open spec fn view(&self) -> CaptureView {
        CaptureView { success: self.success, stdout: self.stdout@, stderr: self.stderr@ }
    }
}

/// A program with its arguments, to be run on the host.
#[derive(Clone, Debug, PartialEq, Eq, Default)]
pub struct Command {
    pub program: String,
    pub args: Vec<String>,
}

/// What a [`Command`] holds.
pub struct CommandView {
    pub program: Seq<char>,
    pub args: Seq<Seq<char>>,
}

impl View for Command {
    type V = CommandView;

    open spec fn view(&self) -> CommandView {
        CommandView { program: self.program@, args: str_views(self.args@) }
    }
}

/// What a vector of commands holds.
pub open spec fn command_views(v: Seq<Command>) -> Seq<CommandView> {
    Seq::new(v.len(), |i: int| v[i]@)
}

/// Appends the argument `s`.
pub fn push_arg(args: &mut Vec<String>, s: &str)
    ensures
        str_views(final(args)@) == str_views(old(args)@).push(s@),
{
    args.push(String::from_str(s));
    assert(str_views(args@) =~= str_views(old(args)@).push(s@));
}

/// The command that runs the shell command `cmd` inside the container
/// `name`, as its root where `as_root` is set.
pub open spec fn enter_cmd(name: Seq<char>, cmd: Seq<char>, as_root: bool) -> CommandView {
    CommandView {
        program: "distrobox"@,
        args: if as_root {
            seq!["enter"@, "--root"@, "-n"@, name, "--"@, "sh"@, "-lc"@, cmd]
        } else {
            seq!["enter"@, "-n"@, name, "--"@, "sh"@, "-lc"@, cmd]
        },
    }
}

/// The command that creates the container `name` from `image`, answering
/// yes to whatever the tool asks.
pub open spec fn create_cmd(name: Seq<char>, image: Seq<char>) -> CommandView {
    CommandView {
        program: "distrobox"@,
        args: seq!["create"@, "--name"@, name, "--image"@, image, "-Y"@, "--yes"@],
    }
}

/// The command that lists the containers, in the structured form where
/// `json` is set.
pub open spec fn list_cmd(json: bool) -> CommandView {
    CommandView {
        program: "distrobox"@,
        args: if json {
            seq!["list"@, "--json"@]
        } else {
            seq!["list"@]
        },
    }
}

/// The shell command that prints a container's release file, and nothing
/// where there is none.
pub open spec fn release_file_cmd() -> Seq<char> {
    "cat /etc/os-release 2>/dev/null || true"@
}

/// Executable form of [`enter_cmd`].
pub fn enter_command(name: &str, cmd: &str, as_root: bool) -> (r: Command)
    ensures
        r@ == enter_cmd(name@, cmd@, as_root),
{
    let mut args: Vec<String> = Vec::new();
    assert(str_views(args@) =~= Seq::<Seq<char>>::empty());
    push_arg(&mut args, "enter");
    if as_root {
        push_arg(&mut args, "--root");
    }
    push_arg(&mut args, "-n");
    push_arg(&mut args, name);
    push_arg(&mut args, "--");
    push_arg(&mut args, "sh");
    push_arg(&mut args, "-lc");
    push_arg(&mut args, cmd);
    assert(str_views(args@) =~= enter_cmd(name@, cmd@, as_root).args);
    Command { program: String::from_str("distrobox"), args }
}

/// Executable form of [`create_cmd`].
pub fn create_command(name: &str, image: &str) -> (r: Command)
    ensures
        r@ == create_cmd(name@, image@),
{
    let mut args: Vec<String> = Vec::new();
    assert(str_views(args@) =~= Seq::<Seq<char>>::empty());
    push_arg(&mut args, "create");
    push_arg(&mut args, "--name");
    push_arg(&mut args, name);
    push_arg(&mut args, "--image");
    push_arg(&mut args, image);
    push_arg(&mut args, "-Y");
    push_arg(&mut args, "--yes");
    assert(str_views(args@) =~= create_cmd(name@, image@).args);
    Command { program: String::from_str("distrobox"), args }
}

/// Executable form of [`list_cmd`].
pub fn list_command(json: bool) -> (r: Command)
    ensures
        r@ == list_cmd(json),
{
    let mut args: Vec<String> = Vec::new();
    assert(str_views(args@) =~= Seq::<Seq<char>>::empty());
    push_arg(&mut args, "list");
    if json {
        push_arg(&mut args, "--json");
    }
    assert(str_views(args@) =~= list_cmd(json).args);
    Command { program: String::from_str("distrobox"), args }
}

/// The command that prints the release file of the container `name`.
pub fn classify_command(name: &str) -> (r: Command)
    ensures
        r@ == enter_cmd(name@, release_file_cmd(), false),
{
    enter_command(name, "cat /etc/os-release 2>/dev/null || true", false)
}

/// The failure for a command that could not be started inside `name`.
pub open spec fn enter_failed(name: Seq<char>, cmd: Seq<char>) -> BridgeErrorView {
    BridgeErrorView {
        kind: ErrorKind::NotFound,
        message: "entering box "@ + name + " to run: "@ + cmd,
    }
}

/// Whether the shell command `cmd`, run inside the container `name`, ended
/// with success, from what it left behind; a command that could not be
/// started is a failure of its own.
pub fn enter_status(name: &str, cmd: &str, captured: Option<&Capture>) -> (r: Result<
    bool,
    BridgeError,
>)
    ensures
        match captured {
            Some(c) => r == Ok::<bool, BridgeError>(c.success),
            None => r is Err && r->Err_0@ == enter_failed(name@, cmd@),
        },
{
    match captured {
        Some(c) => Ok(c.success),
        None => {
            let mut message = String::from_str("entering box ");
            message.append(name);
            message.append(" to run: ");
            message.append(cmd);
            Err(BridgeError { kind: ErrorKind::NotFound, message })
        },
    }
}

proof fn lemma_sanitized_is_plain(base: Seq<char>)
    ensures
        all_plain(sanitized_name(base)),
        sanitized_name(base).len() > 0,
{
    reveal_strlit("package");
    let n = sanitized_name(base);
    assert forall|i: int| 0 <= i < n.len() implies is_plain(#[trigger] n[i]) by {
        if base.len() > 0 {
            assert(n[i] == '_' || (n[i] == base[i] && kept_in_name(base[i])));
        }
    }
}

/// Where a file is stored inside a container needs no quoting: the shell
/// reads the path as it stands, whatever the local file is called.
pub proof fn law_destination_needs_no_quoting(file_name: Option<Seq<char>>)
    ensures
        shell_escaped(destination(file_name)) == destination(file_name),
        copy_cmd(shell_escaped(destination(file_name))) == "mkdir -p /tmp/pkgbridge && cat > "@
            + destination(file_name),
{
    reveal_strlit("/tmp/pkgbridge/");
    let name = sanitized_name(
        match file_name {
            Some(n) => n,
            None => "package"@,
        },
    );
    lemma_sanitized_is_plain(
        match file_name {
            Some(n) => n,
            None => "package"@,
        },
    );
    let d = destination(file_name);
    let head = "/tmp/pkgbridge/"@;
    assert(d == head + name);
    assert forall|i: int| 0 <= i < d.len() implies is_plain(#[trigger] d[i]) by {
        if i < head.len() {
            assert(d[i] == head[i]);
        } else {
            assert(d[i] == name[i - head.len()]);
        }
    }
}

} // verus!
