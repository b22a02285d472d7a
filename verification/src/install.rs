//! The installation pipeline as a state machine: each step takes what the
//! last action brought and says what to do next.

use vstd::prelude::*;
use vstd::string::StringExecFns;
use crate::commands::{
    build_diagnostic_cmd, build_install_cmd_root, build_install_cmd_user, build_listing_cmd,
    build_size_cmd, diagnostic_cmd, install_cmd_root, install_cmd_user, listing_cmd, size_cmd,
};
use crate::distro::{build_copy_cmd, copy_cmd, copy_destination, destination, Capture, CaptureView};
use crate::error::{BridgeError, BridgeErrorView, ErrorKind};
use crate::paths::{file_name_of, path_file_name};
use crate::pkgdetect::PackageFormat;
use crate::scan::{
    chosen, clone_strings, is_manifest_of, kind_of_format, prescan_package, resolve_export_lists,
    PackageManifest, PackageManifestView,
};
use crate::shell::shell_escaped;
use crate::text::{
    decimal, decimal_text, parse_u64, parsed_u64, push_chars, split_words, str_views, to_chars,
    tokens, trim, trimmed,
};

verus! {

/// What the last action brought.
#[derive(Clone, Debug, PartialEq, Eq)]
pub enum Event {
    /// Nothing yet: the pipeline starts.
    Begin,
    /// A command ran: whether it ended with success. A command that could
    /// not be started counts as failed.
    Status(bool),
    /// A command ran with its output kept; `None` where it could not be
    /// started.
    Captured(Option<Capture>),
    /// The export stage is over, whatever became of its items.
    Exported,
}

/// What an [`Event`] holds.
pub enum EventView {
    Begin,
    Status(bool),
    Captured(Option<CaptureView>),
    Exported,
}

impl View for Event {
    type V = EventView;

    open spec fn view(&self) -> EventView {
        match self {
            Event::Begin => EventView::Begin,
            Event::Status(b) => EventView::Status(*b),
            Event::Captured(Some(c)) => EventView::Captured(Some(c@)),
            Event::Captured(None) => EventView::Captured(None),
            Event::Exported => EventView::Exported,
        }
    }
}

/// One installation: what is installed where, and how.
#[derive(Clone, Debug, PartialEq, Eq)]
pub struct InstallJob {
    /// The container that was selected.
    pub container: String,
    pub format: PackageFormat,
    /// The path of the local package file.
    pub path: String,
    /// The size of the local file in bytes, where it could be read.
    pub host_size: Option<u64>,
    /// Whether a human sits at the terminal.
    pub interactive: bool,
    /// Whether to stop before anything is changed.
    pub dry_run: bool,
    /// Whether to leave out the export stage.
    pub no_export: bool,
    /// The binaries to export in place of those found; empty for none given.
    pub bins: Vec<String>,
    /// The desktop entries to export in place of those found.
    pub apps: Vec<String>,
}

/// What an [`InstallJob`] holds.
pub struct InstallJobView {
    pub container: Seq<char>,
    pub format: PackageFormat,
    pub path: Seq<char>,
    pub host_size: Option<u64>,
    pub interactive: bool,
    pub dry_run: bool,
    pub no_export: bool,
    pub bins: Seq<Seq<char>>,
    pub apps: Seq<Seq<char>>,
}

impl View for InstallJob {
    type V = InstallJobView;

    open spec fn view(&self) -> InstallJobView {
        InstallJobView {
            container: self.container@,
            format: self.format,
            path: self.path@,
            host_size: self.host_size,
            interactive: self.interactive,
            dry_run: self.dry_run,
            no_export: self.no_export,
            bins: str_views(self.bins@),
            apps: str_views(self.apps@),
        }
    }
}

/// Where the pipeline stands: the action that it waits for.
#[derive(Clone, Copy, Debug, PartialEq, Eq, Structural)]
pub enum Stage {
    /// Nothing was done yet.
    Start,
    /// The file is being copied into the container.
    Transfer,
    /// The size of the copy is being asked for.
    Verify,
    /// The package's files are being listed.
    Scan,
    /// The first way of installing runs.
    First,
    /// The second way of installing runs.
    Second,
    /// The root command runs again for its output.
    DiagnoseRoot,
    /// The user command runs again for its output.
    DiagnoseUser,
    /// The items are being exported.
    Export,
    /// The pipeline is over.
    Done,
}

/// What the pipeline has gathered so far.
#[derive(Clone, Debug, PartialEq, Eq)]
pub struct InstallState {
    pub stage: Stage,
    /// What will be exported; empty until the scan.
    pub manifest: PackageManifest,
    /// What the failed commands printed; empty until they ran again.
    pub details: String,
}

/// What an [`InstallState`] holds.
pub struct InstallStateView {
    pub stage: Stage,
    pub manifest: PackageManifestView,
    pub details: Seq<char>,
}

impl View for InstallState {
    type V = InstallStateView;

    open spec fn view(&self) -> InstallStateView {
        InstallStateView { stage: self.stage, manifest: self.manifest@, details: self.details@ }
    }
}

/// What the caller is to do next.
#[derive(Clone, Debug, PartialEq, Eq)]
pub enum Action {
    /// Stream the local file into `command`, run inside the container; it
    /// stores the file at `dest`. Report a `Status`.
    CopyIn { dest: String, command: String },
    /// Run `command` inside the container and keep its output. Report a
    /// `Captured`.
    Capture { command: String, as_root: bool },
    /// Run `command` inside the container, attached to the terminal where
    /// `inherit` is set. Report a `Status`.
    Run { command: String, as_root: bool, inherit: bool },
    /// Export these items from the container. Report `Exported`.
    Export { bins: Vec<String>, apps: Vec<String> },
    /// The installation succeeded: tell the user so, as well as may be.
    Notify { summary: String, body: String },
    /// The pipeline ended with nothing more to do.
    Done,
    /// The pipeline failed.
    Fail(BridgeError),
}

/// What an [`Action`] holds.
pub enum ActionView {
    CopyIn { dest: Seq<char>, command: Seq<char> },
    Capture { command: Seq<char>, as_root: bool },
    Run { command: Seq<char>, as_root: bool, inherit: bool },
    Export { bins: Seq<Seq<char>>, apps: Seq<Seq<char>> },
    Notify { summary: Seq<char>, body: Seq<char> },
    Done,
    Fail(BridgeErrorView),
}

impl View for Action {
    type V = ActionView;

    open spec fn view(&self) -> ActionView {
        match self {
            Action::CopyIn { dest, command } => ActionView::CopyIn {
                dest: dest@,
                command: command@,
            },
            Action::Capture { command, as_root } => ActionView::Capture {
                command: command@,
                as_root: *as_root,
            },
            Action::Run { command, as_root, inherit } => ActionView::Run {
                command: command@,
                as_root: *as_root,
                inherit: *inherit,
            },
            Action::Export { bins, apps } => ActionView::Export {
                bins: str_views(bins@),
                apps: str_views(apps@),
            },
            Action::Notify { summary, body } => ActionView::Notify {
                summary: summary@,
                body: body@,
            },
            Action::Done => ActionView::Done,
            Action::Fail(e) => ActionView::Fail(e@),
        }
    }
}

/// One way of running the installation: which command, under which
/// identity, and whether attached to the terminal.
#[derive(Clone, Debug, PartialEq, Eq)]
pub struct Attempt {
    pub command: String,
    pub as_root: bool,
    pub inherit: bool,
}

/// What an [`Attempt`] holds.
pub struct AttemptView {
    pub command: Seq<char>,
    pub as_root: bool,
    pub inherit: bool,
}

impl View for Attempt {
    type V = AttemptView;

    open spec fn view(&self) -> AttemptView {
        AttemptView { command: self.command@, as_root: self.as_root, inherit: self.inherit }
    }
}

/// Where the job's file lies inside the container, quoted for the shell.
pub open spec fn quoted_dest(job: InstallJobView) -> Seq<char> {
    shell_escaped(destination(path_file_name(job.path)))
}

/// The job's installation command for the container's root.
pub open spec fn root_cmd(job: InstallJobView) -> Seq<char> {
    install_cmd_root(job.format, quoted_dest(job))
}

/// The job's installation command for an ordinary user.
pub open spec fn user_cmd(job: InstallJobView) -> Seq<char> {
    install_cmd_user(job.format, quoted_dest(job))
}

/// The root way of installing.
pub open spec fn root_attempt(job: InstallJobView) -> AttemptView {
    AttemptView { command: root_cmd(job), as_root: true, inherit: job.interactive }
}

/// The user way of installing.
pub open spec fn user_attempt(job: InstallJobView) -> AttemptView {
    AttemptView { command: user_cmd(job), as_root: false, inherit: job.interactive }
}

/// The ways of installing in the order in which they are tried. With a
/// human at the terminal the user way comes first, so that a prompt for a
/// password reaches them, and the root way second; without one the root way
/// comes first.
pub open spec fn attempts(job: InstallJobView) -> Seq<AttemptView> {
    if job.interactive {
        seq![user_attempt(job), root_attempt(job)]
    } else {
        seq![root_attempt(job), user_attempt(job)]
    }
}

/// The action that runs an attempt.
pub open spec fn run_of(a: AttemptView) -> ActionView {
    ActionView::Run { command: a.command, as_root: a.as_root, inherit: a.inherit }
}

/// The size that a size query reported: the number that the first word of
/// its output writes, where the command succeeded.
pub open spec fn reported_size(event: EventView) -> Option<u64> {
    match event {
        EventView::Captured(Some(c)) => if c.success && tokens(c.stdout).len() > 0 {
            parsed_u64(trim(tokens(c.stdout)[0]))
        } else {
            None
        },
        _ => None,
    }
}

/// Whether the copy is known to differ in size from the local file.
pub open spec fn size_mismatch(host_size: Option<u64>, reported: Option<u64>) -> bool {
    host_size is Some && reported is Some && host_size->0 != reported->0
}

/// The text of an integrity failure.
pub open spec fn mismatch_message(expected: u64, got: u64, dest: Seq<char>) -> Seq<char> {
    "copied file size mismatch inside container: expected "@ + decimal_text(expected as nat)
        + " bytes, got "@ + decimal_text(got as nat) + " (path: "@ + dest + ")"@
}

/// The text of an installation failure with the collected output.
pub open spec fn failure_message(details: Seq<char>) -> Seq<char> {
    "installation command failed inside container. Details:\n"@ + trim(details)
}

/// The text of a failure to copy the file.
pub open spec fn transfer_message() -> Seq<char> {
    "copying package into container: copy into container failed"@
}

/// The text of a failure to list the package's files.
pub open spec fn scan_message(job: InstallJobView) -> Seq<char> {
    "entering box "@ + job.container + " to run: "@ + listing_cmd(job.format, quoted_dest(job))
}

/// What a command printed, its output before its error output; nothing
/// where it could not be started.
pub open spec fn printed(event: EventView) -> Seq<char> {
    match event {
        EventView::Captured(Some(c)) => c.stdout + c.stderr,
        _ => Seq::empty(),
    }
}

/// The action that asks for the listing of the package's files.
pub open spec fn scan_action(job: InstallJobView) -> ActionView {
    ActionView::Capture { command: listing_cmd(job.format, quoted_dest(job)), as_root: false }
}

/// The summary line of the notice of success.
pub open spec fn notice_summary(job: InstallJobView) -> Seq<char> {
    "Installed in "@ + job.container
}

/// The body of the notice of success.
pub open spec fn notice_body(m: PackageManifestView) -> Seq<char> {
    "Exported "@ + decimal_text(m.binaries.len()) + " bins, "@ + decimal_text(
        m.desktop_entries.len(),
    ) + " apps"@
}

/// Whether `m` is what is exported after the listing `text` was read: for
/// each kind the caller's list where one was given, else what the listing
/// names, in order and without repetition.
pub open spec fn is_export_of(m: PackageManifestView, job: InstallJobView, text: Seq<char>) -> bool {
    exists|found: PackageManifestView|
        is_manifest_of(found, kind_of_format(job.format), text) && m.binaries == chosen(
            job.bins,
            found.binaries,
        ) && m.desktop_entries == chosen(job.apps, found.desktop_entries)
}

/// What follows a successful installation: the export, unless it is left
/// out.
pub open spec fn after_success(job: InstallJobView, state: InstallStateView) -> (
    InstallStateView,
    ActionView,
) {
    if job.no_export {
        (InstallStateView { stage: Stage::Done, ..state }, ActionView::Done)
    } else {
        (
            InstallStateView { stage: Stage::Export, ..state },
            ActionView::Export {
                bins: state.manifest.binaries,
                apps: state.manifest.desktop_entries,
            },
        )
    }
}

/// The failure that ends the pipeline in a state.
pub open spec fn failed(state: InstallStateView, kind: ErrorKind, message: Seq<char>) -> (
    InstallStateView,
    ActionView,
) {
    (
        InstallStateView { stage: Stage::Done, ..state },
        ActionView::Fail(BridgeErrorView { kind, message }),
    )
}

/// The step that the pipeline takes from `state` on `event`, for every stage
/// but the scan, whose outcome [`step_allowed`] describes.
///
/// The file is copied, its size inside the container is compared with the
/// local size where that is known, the package's files are listed, and the
/// two ways of installing are tried in order. Where both fail, both commands
/// run once more for their output, which the failure then carries. After a
/// success the items are exported, unless that was switched off, and a
/// notice follows whatever the export achieved.
pub open spec fn step(job: InstallJobView, state: InstallStateView, event: EventView) -> (
    InstallStateView,
    ActionView,
) {
    match state.stage {
        Stage::Start => if job.dry_run {
            (InstallStateView { stage: Stage::Done, ..state }, ActionView::Done)
        } else {
            (
                InstallStateView { stage: Stage::Transfer, ..state },
                ActionView::CopyIn {
                    dest: destination(path_file_name(job.path)),
                    command: copy_cmd(quoted_dest(job)),
                },
            )
        },
        Stage::Transfer => if event != EventView::Status(true) {
            failed(state, ErrorKind::InstallFailure, transfer_message())
        } else if job.host_size is Some {
            (
                InstallStateView { stage: Stage::Verify, ..state },
                ActionView::Capture { command: size_cmd(quoted_dest(job)), as_root: false },
            )
        } else {
            (InstallStateView { stage: Stage::Scan, ..state }, scan_action(job))
        },
        Stage::Verify => if size_mismatch(job.host_size, reported_size(event)) {
            failed(
                state,
                ErrorKind::IntegrityMismatch,
                mismatch_message(
                    job.host_size->0,
                    reported_size(event)->0,
                    destination(path_file_name(job.path)),
                ),
            )
        } else {
            (InstallStateView { stage: Stage::Scan, ..state }, scan_action(job))
        },
        Stage::Scan => match event {
            EventView::Captured(Some(c)) => (
                InstallStateView { stage: Stage::First, ..state },
                run_of(attempts(job)[0]),
            ),
            _ => failed(state, ErrorKind::InstallFailure, scan_message(job)),
        },
        Stage::First => if event == EventView::Status(true) {
            after_success(job, state)
        } else {
            (InstallStateView { stage: Stage::Second, ..state }, run_of(attempts(job)[1]))
        },
        Stage::Second => if event == EventView::Status(true) {
            after_success(job, state)
        } else {
            (
                InstallStateView { stage: Stage::DiagnoseRoot, ..state },
                ActionView::Capture { command: diagnostic_cmd(root_cmd(job)), as_root: true },
            )
        },
        Stage::DiagnoseRoot => (
            InstallStateView {
                stage: Stage::DiagnoseUser,
                details: state.details + printed(event),
                ..state
            },
            ActionView::Capture { command: diagnostic_cmd(user_cmd(job)), as_root: false },
        ),
        Stage::DiagnoseUser => failed(
            InstallStateView { details: state.details + printed(event), ..state },
            ErrorKind::InstallFailure,
            failure_message(state.details + printed(event)),
        ),
        Stage::Export => (
            InstallStateView { stage: Stage::Done, ..state },
            ActionView::Notify {
                summary: notice_summary(job),
                body: notice_body(state.manifest),
            },
        ),
        Stage::Done => (state, ActionView::Done),
    }
}

/// Whether the pipeline may go from `state` to `next` with `action` on
/// `event`. Outside the scan that is [`step`] exactly; after a scan that
/// brought a listing the new state also holds what will be exported.
pub open spec fn step_allowed(
    job: InstallJobView,
    state: InstallStateView,
    event: EventView,
    next: InstallStateView,
    action: ActionView,
) -> bool {
    match (state.stage, event) {
        (Stage::Scan, EventView::Captured(Some(c))) => {
            &&& action == step(job, state, event).1
            &&& next.stage == Stage::First
            &&& next.details == state.details
            &&& is_export_of(next.manifest, job, c.stdout)
        },
        _ => (next, action) == step(job, state, event),
    }
}

/// The state in which every installation starts: nothing was done, nothing
/// was found to export, and no command has printed anything.
pub open spec fn starting_state() -> InstallStateView {
    InstallStateView {
        stage: Stage::Start,
        manifest: PackageManifestView { binaries: Seq::empty(), desktop_entries: Seq::empty() },
        details: Seq::empty(),
    }
}

/// The state in which every installation starts.
pub fn initial_state() -> (s: InstallState)
    ensures
        s@ == starting_state(),
{
    let s = InstallState {
        stage: Stage::Start,
        manifest: PackageManifest { binaries: Vec::new(), desktop_entries: Vec::new() },
        details: String::new(),
    };
    assert(s@.manifest.binaries =~= Seq::<Seq<char>>::empty());
    assert(s@.manifest.desktop_entries =~= Seq::<Seq<char>>::empty());
    assert(s@.details =~= Seq::<char>::empty());
    s
}

/// Whether the event reports a command that ended with success.
pub fn succeeded(event: &Event) -> (b: bool)
    ensures
        b == (event@ == EventView::Status(true)),
{
    match event {
        Event::Status(ok) => *ok,
        _ => false,
    }
}

/// Where the job's file is stored inside the container.
pub fn job_destination(job: &InstallJob) -> (r: String)
    ensures
        r@ == destination(path_file_name(job@.path)),
{
    match file_name_of(job.path.as_str()) {
        Some(n) => copy_destination(Some(n.as_str())),
        None => copy_destination(None),
    }
}

/// The ways of installing in the order in which they are tried.
pub fn execution_plan(job: &InstallJob) -> (plan: Vec<Attempt>)
    ensures
        plan@.len() == 2,
        plan@[0]@ == attempts(job@)[0],
        plan@[1]@ == attempts(job@)[1],
{
    let dest = job_destination(job);
    let root = Attempt {
        command: build_install_cmd_root(job.format, dest.as_str()),
        as_root: true,
        inherit: job.interactive,
    };
    let user = Attempt {
        command: build_install_cmd_user(job.format, dest.as_str()),
        as_root: false,
        inherit: job.interactive,
    };
    let mut plan: Vec<Attempt> = Vec::new();
    if job.interactive {
        plan.push(user);
        plan.push(root);
    } else {
        plan.push(root);
        plan.push(user);
    }
    plan
}

/// The size that a size query reported.
pub fn parse_reported_size(event: &Event) -> (r: Option<u64>)
    ensures
        r == reported_size(event@),
{
    match event {
        Event::Captured(Some(c)) => {
            if !c.success {
                return None;
            }
            let chars = to_chars(c.stdout.as_str());
            let words = split_words(chars.as_slice());
            if words.len() == 0 {
                return None;
            }
            assert(tokens(c.stdout@)[0] == words@[0]@);
            let first = trimmed(words[0].as_slice());
            parse_u64(first.as_slice())
        },
        _ => None,
    }
}

/// Compares the size of the local file with the size that the container
/// reported for the copy at `dest`. The copy is refused exactly where both
/// sizes are known and differ.
pub fn check_integrity(host_size: Option<u64>, reported: Option<u64>, dest: &str) -> (r: Result<
    (),
    BridgeError,
>)
    ensures
        size_mismatch(host_size, reported) ==> r is Err && r->Err_0@ == (BridgeErrorView {
            kind: ErrorKind::IntegrityMismatch,
            message: mismatch_message(host_size->0, reported->0, dest@),
        }),
        !size_mismatch(host_size, reported) ==> r is Ok,
{
    match (host_size, reported) {
        (Some(h), Some(n)) => {
            if h != n {
                let mut message = String::from_str(
                    "copied file size mismatch inside container: expected ",
                );
                push_chars(&mut message, decimal(h).as_slice());
                message.append(" bytes, got ");
                push_chars(&mut message, decimal(n).as_slice());
                message.append(" (path: ");
                message.append(dest);
                message.append(")");
                Err(BridgeError { kind: ErrorKind::IntegrityMismatch, message })
            } else {
                Ok(())
            }
        },
        _ => Ok(()),
    }
}

fn fail(state: InstallState, kind: ErrorKind, message: String) -> (r: (InstallState, Action))
    ensures
        (r.0@, r.1@) == failed(state@, kind, message@),
{
    (
        InstallState { stage: Stage::Done, manifest: state.manifest, details: state.details },
        Action::Fail(BridgeError { kind, message }),
    )
}

fn scan_request(job: &InstallJob) -> (r: Action)
    ensures
        r@ == scan_action(job@),
{
    let dest = job_destination(job);
    Action::Capture { command: build_listing_cmd(job.format, dest.as_str()), as_root: false }
}

fn run_attempt(job: &InstallJob, index: usize) -> (r: Action)
    requires
        index < 2,
    ensures
        r@ == run_of(attempts(job@)[index as int]),
{
    let mut plan = execution_plan(job);
    let second = plan.pop().unwrap();
    let first = plan.pop().unwrap();
    let a = if index == 0 {
        first
    } else {
        second
    };
    Action::Run { command: a.command, as_root: a.as_root, inherit: a.inherit }
}

fn succeed(job: &InstallJob, state: InstallState) -> (r: (InstallState, Action))
    ensures
        (r.0@, r.1@) == after_success(job@, state@),
{
    if job.no_export {
        (
            InstallState { stage: Stage::Done, manifest: state.manifest, details: state.details },
            Action::Done,
        )
    } else {
        let bins = clone_strings(&state.manifest.binaries);
        let apps = clone_strings(&state.manifest.desktop_entries);
        (
            InstallState { stage: Stage::Export, manifest: state.manifest, details: state.details },
            Action::Export { bins, apps },
        )
    }
}

fn add_printed(details: &mut String, event: &Event)
    ensures
        final(details)@ == old(details)@ + printed(event@),
{
    match event {
        Event::Captured(Some(c)) => {
            details.append(c.stdout.as_str());
            details.append(c.stderr.as_str());
            assert(details@ =~= old(details)@ + (c.stdout@ + c.stderr@));
        },
        _ => {
            assert(details@ =~= old(details)@ + Seq::<char>::empty());
        },
    }
}

fn notice(job: &InstallJob, manifest: &PackageManifest) -> (r: Action)
    ensures
        r@ == (ActionView::Notify {
            summary: notice_summary(job@),
            body: notice_body(manifest@),
        }),
{
    let mut summary = String::from_str("Installed in ");
    summary.append(job.container.as_str());
    let mut body = String::from_str("Exported ");
    push_chars(&mut body, decimal(manifest.binaries.len() as u64).as_slice());
    body.append(" bins, ");
    push_chars(&mut body, decimal(manifest.desktop_entries.len() as u64).as_slice());
    body.append(" apps");
    Action::Notify { summary, body }
}

/// Takes one step of the pipeline: from the state and from what the last
/// action brought to the next state and the next action. The first call
/// takes [`initial_state`] and `Event::Begin`; the pipeline is over once the
/// action is `Done`, `Notify` or `Fail`.
pub fn install_step(job: &InstallJob, state: InstallState, event: &Event) -> (r: (
    InstallState,
    Action,
))
    ensures
        step_allowed(job@, state@, event@, r.0@, r.1@),
{
    match state.stage {
        Stage::Start => {
            if job.dry_run {
                (
                    InstallState {
                        stage: Stage::Done,
                        manifest: state.manifest,
                        details: state.details,
                    },
                    Action::Done,
                )
            } else {
                let dest = job_destination(job);
                let command = build_copy_cmd(dest.as_str());
                (
                    InstallState {
                        stage: Stage::Transfer,
                        manifest: state.manifest,
                        details: state.details,
                    },
                    Action::CopyIn { dest, command },
                )
            }
        },
        Stage::Transfer => {
            if !succeeded(event) {
                fail(
                    state,
                    ErrorKind::InstallFailure,
                    String::from_str("copying package into container: copy into container failed"),
                )
            } else if job.host_size.is_some() {
                let dest = job_destination(job);
                (
                    InstallState {
                        stage: Stage::Verify,
                        manifest: state.manifest,
                        details: state.details,
                    },
                    Action::Capture { command: build_size_cmd(dest.as_str()), as_root: false },
                )
            } else {
                (
                    InstallState {
                        stage: Stage::Scan,
                        manifest: state.manifest,
                        details: state.details,
                    },
                    scan_request(job),
                )
            }
        },
        Stage::Verify => {
            let dest = job_destination(job);
            match check_integrity(job.host_size, parse_reported_size(event), dest.as_str()) {
                Err(e) => (
                    InstallState {
                        stage: Stage::Done,
                        manifest: state.manifest,
                        details: state.details,
                    },
                    Action::Fail(e),
                ),
                Ok(_) => (
                    InstallState {
                        stage: Stage::Scan,
                        manifest: state.manifest,
                        details: state.details,
                    },
                    scan_request(job),
                ),
            }
        },
        Stage::Scan => {
            match event {
                Event::Captured(Some(c)) => {
                    let found = prescan_package(job.format, c.stdout.as_str());
                    let ghost found_view = found@;
                    let manifest = resolve_export_lists(found, &job.bins, &job.apps);
                    assert(is_export_of(manifest@, job@, c.stdout@)) by {
                        assert(is_manifest_of(found_view, kind_of_format(job@.format), c.stdout@));
                    }
                    (
                        InstallState { stage: Stage::First, manifest, details: state.details },
                        run_attempt(job, 0),
                    )
                },
                _ => {
                    let dest = job_destination(job);
                    let mut message = String::from_str("entering box ");
                    message.append(job.container.as_str());
                    message.append(" to run: ");
                    message.append(build_listing_cmd(job.format, dest.as_str()).as_str());
                    fail(state, ErrorKind::InstallFailure, message)
                },
            }
        },
        Stage::First => {
            if succeeded(event) {
                succeed(job, state)
            } else {
                (
                    InstallState {
                        stage: Stage::Second,
                        manifest: state.manifest,
                        details: state.details,
                    },
                    run_attempt(job, 1),
                )
            }
        },
        Stage::Second => {
            if succeeded(event) {
                succeed(job, state)
            } else {
                let dest = job_destination(job);
                let root = build_install_cmd_root(job.format, dest.as_str());
                (
                    InstallState {
                        stage: Stage::DiagnoseRoot,
                        manifest: state.manifest,
                        details: state.details,
                    },
                    Action::Capture {
                        command: build_diagnostic_cmd(root.as_str()),
                        as_root: true,
                    },
                )
            }
        },
        Stage::DiagnoseRoot => {
            let mut details = state.details;
            add_printed(&mut details, event);
            let dest = job_destination(job);
            let user = build_install_cmd_user(job.format, dest.as_str());
            (
                InstallState { stage: Stage::DiagnoseUser, manifest: state.manifest, details },
                Action::Capture { command: build_diagnostic_cmd(user.as_str()), as_root: false },
            )
        },
        Stage::DiagnoseUser => {
            let mut details = state.details;
            add_printed(&mut details, event);
            let shown = trimmed(to_chars(details.as_str()).as_slice());
            let mut message = String::from_str(
                "installation command failed inside container. Details:\n",
            );
            push_chars(&mut message, shown.as_slice());
            fail(
                InstallState { stage: state.stage, manifest: state.manifest, details },
                ErrorKind::InstallFailure,
                message,
            )
        },
        Stage::Export => {
            let action = notice(job, &state.manifest);
            (
                InstallState {
                    stage: Stage::Done,
                    manifest: state.manifest,
                    details: state.details,
                },
                action,
            )
        },
        Stage::Done => (state, Action::Done),
    }
}

/// Where the size that the container reports for the copy is anything but
/// the size of the local file, the pipeline ends there with an integrity
/// failure, and nothing is installed.
pub proof fn law_size_mismatch_fails(
    job: InstallJobView,
    state: InstallStateView,
    event: EventView,
    next: InstallStateView,
    action: ActionView,
)
    requires
        state.stage == Stage::Verify,
        job.host_size is Some,
        reported_size(event) is Some,
        reported_size(event)->0 != job.host_size->0,
        step_allowed(job, state, event, next, action),
    ensures
        next.stage == Stage::Done,
        action is Fail,
        action->Fail_0.kind == ErrorKind::IntegrityMismatch,
{
}

/// Whatever the pipeline is told, it exports only from the stage in which
/// an installation just succeeded.
pub proof fn law_export_follows_success(
    job: InstallJobView,
    state: InstallStateView,
    event: EventView,
    next: InstallStateView,
    action: ActionView,
)
    requires
        step_allowed(job, state, event, next, action),
        action is Export,
    ensures
        state.stage == Stage::First || state.stage == Stage::Second,
        event == EventView::Status(true),
        !job.no_export,
{
}

} // verus!
