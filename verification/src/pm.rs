//! Defaults for the package managers, and the scripts that stand in for
//! them on the host.

use vstd::prelude::*;
use vstd::string::StringExecFns;
use crate::config::{keys_distinct, Config};
use crate::distro::Family;
use crate::export::{Shim, ShimView};
use crate::paths::{base_dir, on_path, opt_str, path_contains, resolve_base_dir};
use crate::snapshot::{entry_views, mapping};
use crate::text::{
    contains, ends_with, finishes_with, includes, is_alnum, is_alphanumeric, same, str_views,
    to_chars, trim, trimmed,
};

verus! {

/// The key under which a family's default is stored.
pub open spec fn key_of(f: Family) -> Seq<char> {
    match f {
        Family::Debian => "debian"@,
        Family::Fedora => "fedora"@,
        Family::OpenSuse => "opensuse"@,
        Family::Arch => "arch"@,
    }
}

/// The key under which a family's default is stored.
pub fn family_key(f: Family) -> (r: &'static str)
    ensures
        r@ == key_of(f),
{
    match f {
        Family::Debian => "debian",
        Family::Fedora => "fedora",
        Family::OpenSuse => "opensuse",
        Family::Arch => "arch",
    }
}

/// Makes the container `box_name` the default for the family.
pub fn set_default(cfg: &mut Config, fam: Family, box_name: &str)
    ensures
        final(cfg)@ == old(cfg)@.insert(key_of(fam), box_name@),
{
    cfg.insert(family_key(fam), box_name);
}

/// Every default as a family key and its container, each key once.
pub fn show_defaults(cfg: &Config) -> (r: Vec<(String, String)>)
    ensures
        keys_distinct(entry_views(r@)),
        mapping(entry_views(r@)) == cfg@,
{
    cfg.entries()
}

/// The name and the image of the container that is created for a family
/// key; an unknown key gets a name and no image.
pub open spec fn default_box_for_key(key: Seq<char>) -> (Seq<char>, Seq<char>) {
    if key == "debian"@ || key == "ubuntu"@ {
        ("debian-stable"@, "docker.io/library/debian:stable"@)
    } else if key == "fedora"@ {
        ("fedora-latest"@, "registry.fedoraproject.org/fedora:latest"@)
    } else if key == "opensuse"@ {
        ("opensuse-tumbleweed"@, "registry.opensuse.org/opensuse/tumbleweed:latest"@)
    } else if key == "arch"@ {
        ("arch"@, "docker.io/library/archlinux:latest"@)
    } else {
        ("distro"@, ""@)
    }
}

fn is_word(v: &Vec<char>, word: &str) -> (b: bool)
    ensures
        b == (v@ == word@),
{
    same(v.as_slice(), to_chars(word).as_slice())
}

/// Executable form of [`default_box_for_key`].
pub fn default_box_for_family_key(fam_key: &str) -> (r: (&'static str, &'static str))
    ensures
        r.0@ == default_box_for_key(fam_key@).0,
        r.1@ == default_box_for_key(fam_key@).1,
{
    let k = to_chars(fam_key);
    if is_word(&k, "debian") || is_word(&k, "ubuntu") {
        ("debian-stable", "docker.io/library/debian:stable")
    } else if is_word(&k, "fedora") {
        ("fedora-latest", "registry.fedoraproject.org/fedora:latest")
    } else if is_word(&k, "opensuse") {
        ("opensuse-tumbleweed", "registry.opensuse.org/opensuse/tumbleweed:latest")
    } else if is_word(&k, "arch") {
        ("arch", "docker.io/library/archlinux:latest")
    } else {
        ("distro", "")
    }
}

/// The package managers that get a script for a family key, in order.
pub open spec fn managers_of(key: Seq<char>) -> Seq<Seq<char>> {
    if key == "debian"@ || key == "ubuntu"@ {
        seq!["apt"@, "apt-get"@]
    } else if key == "fedora"@ {
        seq!["dnf"@]
    } else if key == "opensuse"@ {
        seq!["zypper"@]
    } else if key == "arch"@ {
        seq!["pacman"@]
    } else {
        Seq::empty()
    }
}

/// Executable form of [`managers_of`].
pub fn managers_for_family_key(fam_key: &str) -> (r: Vec<String>)
    ensures
        str_views(r@) == managers_of(fam_key@),
{
    let k = to_chars(fam_key);
    let mut r: Vec<String> = Vec::new();
    if is_word(&k, "debian") || is_word(&k, "ubuntu") {
        r.push(String::from_str("apt"));
        r.push(String::from_str("apt-get"));
    } else if is_word(&k, "fedora") {
        r.push(String::from_str("dnf"));
    } else if is_word(&k, "opensuse") {
        r.push(String::from_str("zypper"));
    } else if is_word(&k, "arch") {
        r.push(String::from_str("pacman"));
    }
    assert(str_views(r@) =~= managers_of(fam_key@));
    r
}

/// Whether a character of a container's name is kept in the name of a
/// script.
pub open spec fn kept_in_suffix(c: char) -> bool {
    is_alnum(c) || c == '-' || c == '_'
}

/// `s` with each character that is not kept replaced by a hyphen.
pub open spec fn sanitized(s: Seq<char>) -> Seq<char> {
    Seq::new(
        s.len(),
        |i: int|
            if kept_in_suffix(s[i]) {
                s[i]
            } else {
                '-'
            },
    )
}

/// Executable form of [`sanitized`].
pub fn sanitize(s: &str) -> (r: String)
    ensures
        r@ == sanitized(s@),
{
    let v = to_chars(s);
    let mut r = String::new();
    let mut i: usize = 0;
    while i < v.len()
        invariant
            i <= v.len(),
            v@ == s@,
            r@.len() == i,
            forall|j: int| 0 <= j < i ==> r@[j] == sanitized(s@)[j],
        decreases v.len() - i,
    {
        let c = v[i];
        if is_alphanumeric(c) || c == '-' || c == '_' {
            r.push(c);
        } else {
            r.push('-');
        }
        i += 1;
    }
    assert(r@ =~= sanitized(s@));
    r
}

/// The script that stands in for the package manager `inner` of the
/// container `box_name`: it records the inventory, runs the manager inside
/// the container with the privileges it can get, and has what changed
/// exported.
pub open spec fn shim_script(inner: Seq<char>, box_name: Seq<char>, fam_key: Seq<char>) -> Seq<char> {
    "#!/usr/bin/env sh\nset -e\nbox=\""@
        + box_name
        + "\"\nfam=\""@
        + fam_key
        + "\"\n# Fast-path readonly queries without sudo to avoid prompts\ncase \"$1\" in\n  --version|-v|--help|-h)\n    exec distrobox enter -n \"$box\" -- "@
        + inner
        + " \"$@\";;\n  *) ;;\nesac\n# Pre-transaction snapshot\npkgbridge pm snapshot --family \"$fam\" --container \"$box\" >/dev/null 2>&1 || true\nstatus=0\n# Run inside container as user; prefer sudo, then doas, else non-root (may fail)\nif distrobox enter -n \"$box\" -- sh -lc 'command -v sudo >/dev/null' >/dev/null 2>&1; then\n  # If passwordless sudo works, great; otherwise allow interactive prompt\n  if distrobox enter -n \"$box\" -- sudo -n true >/dev/null 2>&1; then\n    distrobox enter -n \"$box\" -- sudo "@
        + inner
        + " \"$@\" || status=$?\n  else\n    distrobox enter -n \"$box\" -- sudo "@
        + inner
        + " \"$@\" || status=$?\n  fi\nelif distrobox enter -n \"$box\" -- sh -lc 'command -v doas >/dev/null' >/dev/null 2>&1; then\n  distrobox enter -n \"$box\" -- doas "@
        + inner
        + " \"$@\" || status=$?\nelse\n  distrobox enter -n \"$box\" -- "@
        + inner
        + " \"$@\" || status=$?\nfi\n# Post-transaction export\npkgbridge pm post-transaction --family \"$fam\" --container \"$box\" >/dev/null 2>&1 || true\nexit $status\n"@
}

/// Executable form of [`shim_script`].
pub fn build_shim_script(inner: &str, box_name: &str, fam_key: &str) -> (r: String)
    ensures
        r@ == shim_script(inner@, box_name@, fam_key@),
{
    let mut s = String::from_str(
        "#!/usr/bin/env sh\nset -e\nbox=\"",
    );
    s.append(box_name);
    s.append(
        "\"\nfam=\"",
    );
    s.append(fam_key);
    s.append(
        "\"\n# Fast-path readonly queries without sudo to avoid prompts\ncase \"$1\" in\n  --version|-v|--help|-h)\n    exec distrobox enter -n \"$box\" -- ",
    );
    s.append(inner);
    s.append(
        " \"$@\";;\n  *) ;;\nesac\n# Pre-transaction snapshot\npkgbridge pm snapshot --family \"$fam\" --container \"$box\" >/dev/null 2>&1 || true\nstatus=0\n# Run inside container as user; prefer sudo, then doas, else non-root (may fail)\nif distrobox enter -n \"$box\" -- sh -lc 'command -v sudo >/dev/null' >/dev/null 2>&1; then\n  # If passwordless sudo works, great; otherwise allow interactive prompt\n  if distrobox enter -n \"$box\" -- sudo -n true >/dev/null 2>&1; then\n    distrobox enter -n \"$box\" -- sudo ",
    );
    s.append(inner);
    s.append(
        " \"$@\" || status=$?\n  else\n    distrobox enter -n \"$box\" -- sudo ",
    );
    s.append(inner);
    s.append(
        " \"$@\" || status=$?\n  fi\nelif distrobox enter -n \"$box\" -- sh -lc 'command -v doas >/dev/null' >/dev/null 2>&1; then\n  distrobox enter -n \"$box\" -- doas ",
    );
    s.append(inner);
    s.append(
        " \"$@\" || status=$?\nelse\n  distrobox enter -n \"$box\" -- ",
    );
    s.append(inner);
    s.append(
        " \"$@\" || status=$?\nfi\n# Post-transaction export\npkgbridge pm post-transaction --family \"$fam\" --container \"$box\" >/dev/null 2>&1 || true\nexit $status\n",
    );
    s
}

/// The script that stands in for the package manager `mgr` while no
/// container is the default for its family: it offers to create one.
pub open spec fn bootstrap_script(fam_key: Seq<char>, mgr: Seq<char>) -> Seq<char> {
    "#!/usr/bin/env sh\nset -e\nfam=\""@
        + fam_key
        + "\"\nmgr=\""@
        + mgr
        + "\"\ndef_name=\""@
        + default_box_for_key(fam_key).0
        + "\"\ndef_img=\""@
        + default_box_for_key(fam_key).1
        + "\"\n# If a default exists, use it; else offer to create one\nbox=$(pkgbridge pm show-defaults 2>/dev/null | awk -v f=\"$fam\" '$1==f && $2==\"=>\" {print $3; exit}')\nif [ -z \"$box\" ]; then\n  if [ -t 0 ]; then\n    echo \"pkgbridge: '$mgr' not found on host.\"\n    printf \"Create a %s box '%s' from '%s' and run '%s' from it? [Y/n] \" \"$fam\" \"$def_name\" \"$def_img\" \"$mgr\"\n    read ans || true\n    case \"$ans\" in \n      ''|y|Y|yes|YES)\n        distrobox create --name \"$def_name\" --image \"$def_img\" -Y --yes\n        pkgbridge pm set-default \"$fam\" \"$def_name\"\n        box=\"$def_name\"\n        ;;\n      *) echo \"Aborting.\"; exit 1;;\n    esac\n  else\n    echo \"pkgbridge: no default $fam container; run: pkgbridge pm set-default $fam $def_name; then pkgbridge pm generate-shims\"\n    exit 1\n  fi\nfi\n# Hand off to proper shim behavior (snapshot + sudo inside box)\npkgbridge pm snapshot --family \"$fam\" --container \"$box\" >/dev/null 2>&1 || true\nstatus=0\nif distrobox enter -n \"$box\" -- sh -lc 'command -v sudo >/dev/null' >/dev/null 2>&1; then\n  if distrobox enter -n \"$box\" -- sudo -n true >/dev/null 2>&1; then\n    distrobox enter -n \"$box\" -- sudo "@
        + mgr
        + " \"$@\" || status=$?\n  else\n    distrobox enter -n \"$box\" -- sudo "@
        + mgr
        + " \"$@\" || status=$?\n  fi\nelif distrobox enter -n \"$box\" -- sh -lc 'command -v doas >/dev/null' >/dev/null 2>&1; then\n  distrobox enter -n \"$box\" -- doas "@
        + mgr
        + " \"$@\" || status=$?\nelse\n  distrobox enter -n \"$box\" -- "@
        + mgr
        + " \"$@\" || status=$?\nfi\npkgbridge pm post-transaction --family \"$fam\" --container \"$box\" >/dev/null 2>&1 || true\nexit $status\n"@
}

/// Executable form of [`bootstrap_script`].
pub fn build_bootstrap_script(fam_key: &str, mgr: &str) -> (r: String)
    ensures
        r@ == bootstrap_script(fam_key@, mgr@),
{
    let (def_name, def_img) = default_box_for_family_key(fam_key);
    let mut s = String::from_str(
        "#!/usr/bin/env sh\nset -e\nfam=\"",
    );
    s.append(fam_key);
    s.append(
        "\"\nmgr=\"",
    );
    s.append(mgr);
    s.append(
        "\"\ndef_name=\"",
    );
    s.append(def_name);
    s.append(
        "\"\ndef_img=\"",
    );
    s.append(def_img);
    s.append(
        "\"\n# If a default exists, use it; else offer to create one\nbox=$(pkgbridge pm show-defaults 2>/dev/null | awk -v f=\"$fam\" '$1==f && $2==\"=>\" {print $3; exit}')\nif [ -z \"$box\" ]; then\n  if [ -t 0 ]; then\n    echo \"pkgbridge: '$mgr' not found on host.\"\n    printf \"Create a %s box '%s' from '%s' and run '%s' from it? [Y/n] \" \"$fam\" \"$def_name\" \"$def_img\" \"$mgr\"\n    read ans || true\n    case \"$ans\" in \n      ''|y|Y|yes|YES)\n        distrobox create --name \"$def_name\" --image \"$def_img\" -Y --yes\n        pkgbridge pm set-default \"$fam\" \"$def_name\"\n        box=\"$def_name\"\n        ;;\n      *) echo \"Aborting.\"; exit 1;;\n    esac\n  else\n    echo \"pkgbridge: no default $fam container; run: pkgbridge pm set-default $fam $def_name; then pkgbridge pm generate-shims\"\n    exit 1\n  fi\nfi\n# Hand off to proper shim behavior (snapshot + sudo inside box)\npkgbridge pm snapshot --family \"$fam\" --container \"$box\" >/dev/null 2>&1 || true\nstatus=0\nif distrobox enter -n \"$box\" -- sh -lc 'command -v sudo >/dev/null' >/dev/null 2>&1; then\n  if distrobox enter -n \"$box\" -- sudo -n true >/dev/null 2>&1; then\n    distrobox enter -n \"$box\" -- sudo ",
    );
    s.append(mgr);
    s.append(
        " \"$@\" || status=$?\n  else\n    distrobox enter -n \"$box\" -- sudo ",
    );
    s.append(mgr);
    s.append(
        " \"$@\" || status=$?\n  fi\nelif distrobox enter -n \"$box\" -- sh -lc 'command -v doas >/dev/null' >/dev/null 2>&1; then\n  distrobox enter -n \"$box\" -- doas ",
    );
    s.append(mgr);
    s.append(
        " \"$@\" || status=$?\nelse\n  distrobox enter -n \"$box\" -- ",
    );
    s.append(mgr);
    s.append(
        " \"$@\" || status=$?\nfi\npkgbridge pm post-transaction --family \"$fam\" --container \"$box\" >/dev/null 2>&1 || true\nexit $status\n",
    );
    s
}

/// What is done about the script for one package manager.
#[derive(Clone, Debug, PartialEq, Eq)]
pub enum ShimChoice {
    /// Nothing: what would be written is there already.
    Nothing,
    /// Write the script under `wrapper`, and tell the user `notice` where
    /// there is one.
    Write { wrapper: String, notice: Option<String> },
}

/// What a [`ShimChoice`] holds.
pub enum ShimChoiceView {
    Nothing,
    Write { wrapper: Seq<char>, notice: Option<Seq<char>> },
}

impl View for ShimChoice {
    type V = ShimChoiceView;

    open spec fn view(&self) -> ShimChoiceView {
        match self {
            ShimChoice::Nothing => ShimChoiceView::Nothing,
            ShimChoice::Write { wrapper, notice } => ShimChoiceView::Write {
                wrapper: wrapper@,
                notice: match notice {
                    Some(n) => Some(n@),
                    None => None,
                },
            },
        }
    }
}

/// The name of the script for `name` that carries the container's name.
pub open spec fn alternative(name: Seq<char>, box_name: Seq<char>) -> Seq<char> {
    name + "-"@ + sanitized(box_name)
}

/// What is done about the script for the package manager `name` of the
/// container `box_name`. A manager that the host has itself is never
/// shadowed, and no existing file is ever written over: the script then
/// goes under the alternative name, unless that exists too.
pub open spec fn shim_choice(
    name: Seq<char>,
    box_name: Seq<char>,
    host_has: bool,
    target_exists: bool,
    alt_exists: bool,
) -> ShimChoiceView {
    let alt = alternative(name, box_name);
    if host_has {
        if alt_exists {
            ShimChoiceView::Nothing
        } else {
            ShimChoiceView::Write {
                wrapper: alt,
                notice: Some("Host has '"@ + name + "'; created '"@ + alt + "' instead"@),
            }
        }
    } else if target_exists {
        if alt_exists {
            ShimChoiceView::Nothing
        } else {
            ShimChoiceView::Write {
                wrapper: alt,
                notice: Some("'"@ + name + "' exists; created '"@ + alt + "' as well"@),
            }
        }
    } else {
        ShimChoiceView::Write { wrapper: name, notice: None }
    }
}

/// The name of the script for `name` that carries the container's name.
pub fn alternative_name(name: &str, box_name: &str) -> (r: String)
    ensures
        r@ == alternative(name@, box_name@),
{
    let mut alt = String::from_str(name);
    alt.append("-");
    alt.append(sanitize(box_name).as_str());
    alt
}

/// Decides what is done about the script for the package manager `name`,
/// given whether the host has the manager itself, whether a file of its
/// name lies in the directory of scripts, and whether one of the
/// alternative name does.
pub fn generate_shim_with_policy(
    name: &str,
    box_name: &str,
    host_has: bool,
    target_exists: bool,
    alt_exists: bool,
) -> (r: ShimChoice)
    ensures
        r@ == shim_choice(name@, box_name@, host_has, target_exists, alt_exists),
{
    if !host_has && !target_exists {
        return ShimChoice::Write { wrapper: String::from_str(name), notice: None };
    }
    if alt_exists {
        return ShimChoice::Nothing;
    }
    let alt = alternative_name(name, box_name);
    let notice = if host_has {
        let mut n = String::from_str("Host has '");
        n.append(name);
        n.append("'; created '");
        n.append(alt.as_str());
        n.append("' instead");
        n
    } else {
        let mut n = String::from_str("'");
        n.append(name);
        n.append("' exists; created '");
        n.append(alt.as_str());
        n.append("' as well");
        n
    };
    ShimChoice::Write { wrapper: alt, notice: Some(notice) }
}

/// Which package managers the host has itself.
#[derive(Clone, Copy, Debug, PartialEq, Eq, Default, Structural)]
pub struct HostManagers {
    pub apt: bool,
    pub apt_get: bool,
    pub dnf: bool,
    pub zypper: bool,
    pub pacman: bool,
}

/// The script for `mgr` of the family `fam_key`, unless the host has the
/// manager.
pub open spec fn bootstrap_for(present: bool, fam_key: Seq<char>, mgr: Seq<char>) -> Seq<ShimView> {
    if present {
        Seq::empty()
    } else {
        seq![ShimView { name: mgr, content: bootstrap_script(fam_key, mgr) }]
    }
}

/// The scripts that are written for the managers that the host lacks.
pub open spec fn bootstrap_shims(host: HostManagers) -> Seq<ShimView> {
    bootstrap_for(host.apt, "debian"@, "apt"@) + bootstrap_for(host.apt_get, "debian"@, "apt-get"@)
        + bootstrap_for(host.dnf, "fedora"@, "dnf"@) + bootstrap_for(
        host.zypper,
        "opensuse"@,
        "zypper"@,
    ) + bootstrap_for(host.pacman, "arch"@, "pacman"@)
}

/// What a vector of scripts holds.
pub open spec fn shim_views(v: Seq<Shim>) -> Seq<ShimView> {
    Seq::new(v.len(), |i: int| v[i]@)
}

fn add_bootstrap(out: &mut Vec<Shim>, present: bool, fam_key: &str, mgr: &str)
    ensures
        shim_views(final(out)@) == shim_views(old(out)@) + bootstrap_for(present, fam_key@, mgr@),
{
    if !present {
        let s = Shim { name: String::from_str(mgr), content: build_bootstrap_script(fam_key, mgr) };
        out.push(s);
        assert(shim_views(out@) =~= shim_views(old(out)@) + bootstrap_for(present, fam_key@, mgr@));
    } else {
        assert(shim_views(out@) =~= shim_views(old(out)@) + bootstrap_for(present, fam_key@, mgr@));
    }
}

/// The scripts to write for the package managers that the host lacks, so
/// that calling one of them offers to set up a container for it.
pub fn generate_bootstrap_shims_into(host: HostManagers) -> (r: Vec<Shim>)
    ensures
        shim_views(r@) == bootstrap_shims(host),
{
    let mut r: Vec<Shim> = Vec::new();
    assert(shim_views(r@) =~= Seq::<ShimView>::empty());
    add_bootstrap(&mut r, host.apt, "debian", "apt");
    add_bootstrap(&mut r, host.apt_get, "debian", "apt-get");
    add_bootstrap(&mut r, host.dnf, "fedora", "dnf");
    add_bootstrap(&mut r, host.zypper, "opensuse", "zypper");
    add_bootstrap(&mut r, host.pacman, "arch", "pacman");
    assert(shim_views(r@) =~= bootstrap_shims(host));
    r
}

/// What puts the directory of scripts on the search path.
#[derive(Clone, Debug, PartialEq, Eq)]
pub enum PathSetup {
    /// Nothing: the search path names the directory already.
    Nothing,
    /// For the fish shell: a snippet in its directory of snippets.
    FishSnippet { dir: String, file: String, content: String },
    /// For other shells: a block at the end of the user's profile.
    Profile { file: String, block: String },
}

/// What a [`PathSetup`] holds.
pub enum PathSetupView {
    Nothing,
    FishSnippet { dir: Seq<char>, file: Seq<char>, content: Seq<char> },
    Profile { file: Seq<char>, block: Seq<char> },
}

impl View for PathSetup {
    type V = PathSetupView;

    open spec fn view(&self) -> PathSetupView {
        match self {
            PathSetup::Nothing => PathSetupView::Nothing,
            PathSetup::FishSnippet { dir, file, content } => PathSetupView::FishSnippet {
                dir: dir@,
                file: file@,
                content: content@,
            },
            PathSetup::Profile { file, block } => PathSetupView::Profile {
                file: file@,
                block: block@,
            },
        }
    }
}

/// The line by which the block in the profile is known again.
pub open spec fn profile_marker() -> Seq<char> {
    "# pkgbridge: add user bin to PATH"@
}

/// The block that puts `bindir` on the search path unless it is there.
pub open spec fn profile_block(bindir: Seq<char>) -> Seq<char> {
    profile_marker() + "\nif [ -d \""@ + bindir + "\" ] && ! printf %s \"\n:$PATH:\n\" | grep -q \"\n:"@
        + bindir + ":\n\"; then\n  export PATH=\""@ + bindir + ":$PATH\"\nfi\n"@
}

/// The snippet that puts `bindir` on the search path of the fish shell.
pub open spec fn fish_snippet(bindir: Seq<char>) -> Seq<char> {
    "# Added by pkgbridge: ensure user bin dir on PATH\nfish_add_path -g "@ + bindir + "\n"@
}

/// The user's home directory, `.` where the environment names none.
pub open spec fn home_of(home: Option<Seq<char>>) -> Seq<char> {
    match home {
        Some(h) => h,
        None => "."@,
    }
}

/// What puts `bindir` on the search path, given the search path, the home
/// directory and the shell that the environment names, and whether it shows
/// a fish shell at work.
pub open spec fn path_setup(
    path_var: Option<Seq<char>>,
    bindir: Seq<char>,
    home: Option<Seq<char>>,
    shell: Option<Seq<char>>,
    fish_at_work: bool,
) -> PathSetupView {
    if on_path(path_var, bindir) {
        PathSetupView::Nothing
    } else if (shell is Some && ends_with(shell->0, "fish"@)) || fish_at_work {
        PathSetupView::FishSnippet {
            dir: home_of(home) + "/.config/fish/conf.d"@,
            file: home_of(home) + "/.config/fish/conf.d"@ + "/pkgbridge.fish"@,
            content: fish_snippet(bindir),
        }
    } else {
        PathSetupView::Profile { file: home_of(home) + "/.profile"@, block: profile_block(bindir) }
    }
}

/// Decides what puts `bindir` on the search path.
pub fn ensure_bindir_on_path(
    path_var: Option<&str>,
    bindir: &str,
    home: Option<&str>,
    shell: Option<&str>,
    fish_at_work: bool,
) -> (r: PathSetup)
    ensures
        r@ == path_setup(opt_str(path_var), bindir@, opt_str(home), opt_str(shell), fish_at_work),
{
    if path_contains(path_var, bindir) {
        return PathSetup::Nothing;
    }
    let h = match home {
        Some(h) => h,
        None => ".",
    };
    let fish = fish_at_work || match shell {
        Some(s) => finishes_with(to_chars(s).as_slice(), to_chars("fish").as_slice()),
        None => false,
    };
    if fish {
        let mut dir = String::from_str(h);
        dir.append("/.config/fish/conf.d");
        let mut file = dir.clone();
        file.append("/pkgbridge.fish");
        let mut content = String::from_str(
            "# Added by pkgbridge: ensure user bin dir on PATH\nfish_add_path -g ",
        );
        content.append(bindir);
        content.append("\n");
        PathSetup::FishSnippet { dir, file, content }
    } else {
        let mut file = String::from_str(h);
        file.append("/.profile");
        let mut block = String::from_str("# pkgbridge: add user bin to PATH");
        block.append("\nif [ -d \"");
        block.append(bindir);
        block.append("\" ] && ! printf %s \"\n:$PATH:\n\" | grep -q \"\n:");
        block.append(bindir);
        block.append(":\n\"; then\n  export PATH=\"");
        block.append(bindir);
        block.append(":$PATH\"\nfi\n");
        PathSetup::Profile { file, block }
    }
}

/// Whether the snippet has to be written: whether there is none yet, or one
/// that differs from `content` in more than white space at its ends.
pub fn snippet_needs_write(existing: Option<&str>, content: &str) -> (b: bool)
    ensures
        b == (match existing {
            Some(e) => trim(e@) != trim(content@),
            None => true,
        }),
{
    match existing {
        Some(e) => !same(
            trimmed(to_chars(e).as_slice()).as_slice(),
            trimmed(to_chars(content).as_slice()).as_slice(),
        ),
        None => true,
    }
}

/// Whether the block has to be added to the profile: whether the profile,
/// if there is one, names neither the directory nor the marker.
pub fn profile_needs_write(existing: Option<&str>, bindir: &str) -> (b: bool)
    ensures
        b == (match existing {
            Some(e) => !(contains(e@, bindir@) || contains(e@, profile_marker())),
            None => true,
        }),
{
    match existing {
        Some(e) => {
            let v = to_chars(e);
            !(includes(v.as_slice(), to_chars(bindir).as_slice()) || includes(
                v.as_slice(),
                to_chars("# pkgbridge: add user bin to PATH").as_slice(),
            ))
        },
        None => true,
    }
}

/// The user's directory of scripts: what the environment names for it, else
/// `.local/bin` under the home directory.
pub fn host_bin_dir(xdg_bin_home: Option<&str>, home: Option<&str>) -> (r: String)
    ensures
        r@ == base_dir(opt_str(xdg_bin_home), opt_str(home), "/.local/bin"@),
{
    resolve_base_dir(xdg_bin_home, home, "/.local/bin")
}

} // verus!
