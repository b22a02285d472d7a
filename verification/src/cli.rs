//! What the command line asks for, and what that means to the pipeline.

use vstd::prelude::*;
use vstd::string::StringExecFns;
use crate::distro::{opt_view, DistroBox, DistroBoxView, Family};
use crate::error::{BridgeError, BridgeErrorView, ErrorKind};
use crate::install::{InstallJob, InstallJobView};
use crate::pkgdetect::PackageFormat;
use crate::pm::{family_key, key_of};
use crate::scan::clone_strings;
use crate::select::{SelectionPolicy, SelectionPolicyView};
use crate::text::str_views;

verus! {

/// A family as the command line names it.
#[derive(Clone, Copy, Debug, PartialEq, Eq, Structural)]
pub enum FamilyArg {
    Debian,
    Fedora,
    Opensuse,
    Arch,
}

/// How much is logged.
#[derive(Clone, Copy, Debug, PartialEq, Eq, Structural)]
pub enum LogLevel {
    Trace,
    Debug,
    Info,
    Warn,
    Error,
}

/// What can be listed.
#[derive(Clone, Copy, Debug, PartialEq, Eq, Structural)]
pub enum ListTarget {
    Boxes,
}

/// A package file.
#[derive(Clone, Debug, PartialEq, Eq)]
pub struct FileArg {
    /// The path of the file.
    pub file: String,
}

/// What to list.
#[derive(Clone, Copy, Debug, PartialEq, Eq)]
pub struct ListArgs {
    pub target: ListTarget,
}

/// A package inside a container.
#[derive(Clone, Debug, PartialEq, Eq)]
pub struct PkgArg {
    /// The name of the package.
    pub pkg: String,
}

/// The commands about package managers.
#[derive(Clone, Debug, PartialEq, Eq)]
pub enum PmCmd {
    /// Make a container the default for a family.
    SetDefault { family: FamilyArg, box_name: String },
    /// Write the scripts for the defaults.
    GenerateShims,
    /// Show the defaults.
    ShowDefaults,
    /// Record the inventory before a transaction.
    Snapshot,
    /// Export what a transaction changed.
    PostTransaction,
}

/// The commands about the desktop entry.
#[derive(Clone, Copy, Debug, PartialEq, Eq, Structural)]
pub enum DesktopCmd {
    Install,
    Uninstall,
}

/// The commands.
#[derive(Clone, Debug, PartialEq, Eq)]
pub enum Commands {
    /// Install a package file that was opened from the desktop.
    Open(FileArg),
    /// Install a package file and export what it brings.
    Install(FileArg),
    /// Export what an installed package brings.
    Export(PkgArg),
    /// Remove a package and what was exported of it.
    Uninstall(PkgArg),
    /// List the containers.
    List(ListArgs),
    /// Check the environment.
    Doctor,
    /// Package manager defaults and scripts.
    Pm(PmCmd),
    /// The desktop entry.
    Desktop(DesktopCmd),
}

/// Everything the command line says.
#[derive(Clone, Debug, PartialEq, Eq)]
pub struct Cli {
    pub command: Commands,
    /// Show what would be done, and do nothing.
    pub dry_run: bool,
    /// The container to use, by name.
    pub container: Option<String>,
    /// The family to select or create.
    pub family: Option<FamilyArg>,
    /// Whether a container may be created without asking.
    pub create: bool,
    /// The image to create from.
    pub create_image: Option<String>,
    /// Whether to leave out the export after an installation.
    pub no_export: bool,
    /// The binaries to export in place of those found.
    pub bin: Vec<String>,
    /// The desktop entries to export in place of those found.
    pub app: Vec<String>,
    pub log_level: Option<LogLevel>,
}

/// `yes` or `no`.
pub fn yes_no(b: bool) -> (r: &'static str)
    ensures
        r@ == (if b {
            "yes"@
        } else {
            "no"@
        }),
{
    if b {
        "yes"
    } else {
        "no"
    }
}

/// The family that a command line argument names.
pub open spec fn family_of_arg(arg: FamilyArg) -> Family {
    match arg {
        FamilyArg::Debian => Family::Debian,
        FamilyArg::Fedora => Family::Fedora,
        FamilyArg::Opensuse => Family::OpenSuse,
        FamilyArg::Arch => Family::Arch,
    }
}

/// The family that a command line argument names.
pub fn to_family(arg: FamilyArg) -> (f: Family)
    ensures
        f == family_of_arg(arg),
{
    match arg {
        FamilyArg::Debian => Family::Debian,
        FamilyArg::Fedora => Family::Fedora,
        FamilyArg::Opensuse => Family::OpenSuse,
        FamilyArg::Arch => Family::Arch,
    }
}

/// The name of a family as it is shown.
pub fn format_family(f: Family) -> (r: &'static str)
    ensures
        r@ == key_of(f),
{
    family_key(f)
}

/// The name of a package format as it is shown.
pub fn format_name(fmt: PackageFormat) -> (r: &'static str)
    ensures
        r@ == (match fmt {
            PackageFormat::Deb => "deb"@,
            PackageFormat::Rpm => "rpm"@,
        }),
{
    match fmt {
        PackageFormat::Deb => "deb",
        PackageFormat::Rpm => "rpm",
    }
}

/// The names under which binaries are exported: they are what was found.
pub fn to_names_only(bins: Vec<String>) -> (r: Vec<String>)
    ensures
        r == bins,
{
    bins
}

/// How much is logged where the command line does not say.
pub fn effective_log_level(level: Option<LogLevel>) -> (r: LogLevel)
    ensures
        r == (match level {
            Some(l) => l,
            None => LogLevel::Info,
        }),
{
    match level {
        Some(l) => l,
        None => LogLevel::Info,
    }
}

/// What the command line asks of selection.
pub open spec fn policy_of(
    container: Option<Seq<char>>,
    family: Option<FamilyArg>,
    create: bool,
    create_image: Option<Seq<char>>,
    interactive: bool,
) -> SelectionPolicyView {
    SelectionPolicyView {
        container,
        family: match family {
            Some(a) => Some(family_of_arg(a)),
            None => None,
        },
        create,
        create_image,
        interactive,
    }
}

/// What the command line asks of selection; `interactive` says whether a
/// human sits at the terminal.
pub fn selection_policy(cli: &Cli, interactive: bool) -> (r: SelectionPolicy)
    ensures
        r@ == policy_of(
            opt_view(cli.container),
            cli.family,
            cli.create,
            opt_view(cli.create_image),
            interactive,
        ),
{
    SelectionPolicy {
        container: match &cli.container {
            Some(c) => Some(c.clone()),
            None => None,
        },
        family: match cli.family {
            Some(a) => Some(to_family(a)),
            None => None,
        },
        create: cli.create,
        create_image: match &cli.create_image {
            Some(i) => Some(i.clone()),
            None => None,
        },
        interactive,
    }
}

/// The installation that the command line asks for: the package file at
/// `path`, of format `fmt` and `host_size` bytes where that is known, goes
/// into the container `container`.
pub fn install_job(
    cli: &Cli,
    path: &str,
    fmt: PackageFormat,
    container: &str,
    host_size: Option<u64>,
    interactive: bool,
) -> (r: InstallJob)
    ensures
        r@ == (InstallJobView {
            container: container@,
            format: fmt,
            path: path@,
            host_size,
            interactive,
            dry_run: cli.dry_run,
            no_export: cli.no_export,
            bins: str_views(cli.bin@),
            apps: str_views(cli.app@),
        }),
{
    InstallJob {
        container: String::from_str(container),
        format: fmt,
        path: String::from_str(path),
        host_size,
        interactive,
        dry_run: cli.dry_run,
        no_export: cli.no_export,
        bins: clone_strings(&cli.bin),
        apps: clone_strings(&cli.app),
    }
}

/// The line that shows a container in the list: its name, its family or a
/// question mark, its engine and its image, with tabs between.
pub open spec fn list_line(b: DistroBoxView, family: Option<Family>) -> Seq<char> {
    b.name + "\t"@ + (match family {
        Some(f) => key_of(f),
        None => "?"@,
    }) + "\t"@ + b.runtime + "\t"@ + (match b.image {
        Some(i) => i,
        None => Seq::empty(),
    })
}

/// The line that shows a container in the list.
pub fn list_row(b: &DistroBox, family: Option<Family>) -> (r: String)
    ensures
        r@ == list_line(b@, family),
{
    let mut s = String::new();
    s.append(b.name.as_str());
    assert(s@ =~= b@.name);
    s.append("\t");
    match family {
        Some(f) => s.append(format_family(f)),
        None => s.append("?"),
    }
    s.append("\t");
    s.append(b.runtime.as_str());
    s.append("\t");
    match &b.image {
        Some(i) => s.append(i.as_str()),
        None => {
            assert(s@ =~= s@ + Seq::<char>::empty());
        },
    }
    s
}

/// The failure of a command that needs a container and was given none.
pub open spec fn needs_container(what: Seq<char>) -> BridgeErrorView {
    BridgeErrorView { kind: ErrorKind::NotFound, message: "--container is required for "@ + what }
}

/// The container that the command `what` works on: the one that the
/// command line names. Exporting and removing a package select nothing.
pub fn require_container(cli: &Cli, what: &str) -> (r: Result<String, BridgeError>)
    ensures
        match cli.container {
            Some(c) => r is Ok && r->Ok_0@ == c@,
            None => r is Err && r->Err_0@ == needs_container(what@),
        },
{
    match &cli.container {
        Some(c) => Ok(c.clone()),
        None => {
            let mut message = String::from_str("--container is required for ");
            message.append(what);
            Err(BridgeError { kind: ErrorKind::NotFound, message })
        },
    }
}

} // verus!
