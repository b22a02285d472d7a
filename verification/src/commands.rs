//! The shell commands that run inside a container.

use vstd::prelude::*;
use vstd::string::StringExecFns;
use crate::distro::Family;
use crate::pkgdetect::PackageFormat;
use crate::shell::{shell_escaped, shell_quote};

verus! {

/// The installation of the package file whose quoted path is `p`, as the
/// container's root runs it. A Debian package goes through the low-level
/// tool after the indexes are updated, and a failure of that tool is mended
/// by the resolver; an RPM package goes to the first tool present among the
/// high-level resolver, the simpler one and the lowest-level one.
pub open spec fn install_cmd_root(fmt: PackageFormat, p: Seq<char>) -> Seq<char> {
    match fmt {
        PackageFormat::Deb => "set -e; if command -v apt-get >/dev/null; then apt-get -y update; elif command -v apt >/dev/null; then apt -y update; fi; dpkg -i "@
            + p
            + " || { if command -v apt-get >/dev/null; then apt-get -y -f install; elif command -v apt >/dev/null; then apt -y -f install; else printf %s\\n apt-not-found >&2; exit 1; fi; }"@,
        PackageFormat::Rpm => rpm_install(p),
    }
}

/// The installation of an RPM file whose quoted path is `p`.
pub open spec fn rpm_install(p: Seq<char>) -> Seq<char> {
    "set -e; if command -v dnf >/dev/null; then dnf -y install "@ + p
        + "; elif command -v zypper >/dev/null; then zypper --non-interactive install "@ + p
        + "; else rpm -i "@ + p + "; fi"@
}

/// The installation of the package file whose quoted path is `p`, before it
/// is wrapped in a way to gain privileges.
pub open spec fn install_inner(fmt: PackageFormat, p: Seq<char>) -> Seq<char> {
    match fmt {
        PackageFormat::Deb => "set -e; if command -v apt-get >/dev/null; then apt-get -y update; elif command -v apt >/dev/null; then apt -y update; fi; dpkg -i "@
            + p
            + " || { if command -v apt-get >/dev/null; then apt-get -y -f install; elif command -v apt >/dev/null; then apt -y -f install; else true; fi; }"@,
        PackageFormat::Rpm => rpm_install(p),
    }
}

/// `inner` run with privileges by an ordinary user: through `sudo` where it
/// is there, without a password if that works and with a prompt if not;
/// else through `doas`; else as it is.
pub open spec fn elevated(inner: Seq<char>) -> Seq<char> {
    "set -e; if command -v sudo >/dev/null; then if sudo -n true >/dev/null 2>&1; then sudo sh -lc '"@
        + inner + "' ; else sudo sh -lc '"@ + inner
        + "' ; fi; elif command -v doas >/dev/null; then doas sh -lc '"@ + inner
        + "' ; else sh -lc '"@ + inner + "' ; fi"@
}

/// `inner` run with privileges by an ordinary user without ever asking for a
/// password.
pub open spec fn elevated_quietly(inner: Seq<char>) -> Seq<char> {
    "set -e; if command -v sudo >/dev/null; then sudo -n sh -lc '"@ + inner
        + "' ; elif command -v doas >/dev/null; then doas sh -lc '"@ + inner
        + "' ; else sh -lc '"@ + inner + "' ; fi"@
}

/// The installation as an ordinary user of the container runs it.
pub open spec fn install_cmd_user(fmt: PackageFormat, p: Seq<char>) -> Seq<char> {
    elevated(install_inner(fmt, p))
}

/// The installation as an ordinary user runs it where nobody can answer a
/// prompt.
pub open spec fn install_cmd_user_quiet(fmt: PackageFormat, p: Seq<char>) -> Seq<char> {
    elevated_quietly(install_inner(fmt, p))
}

/// The removal of the package whose quoted name is `p`, before it is wrapped
/// in a way to gain privileges.
pub open spec fn uninstall_inner(fam: Family, p: Seq<char>) -> Seq<char> {
    match fam {
        Family::Debian => "set -e; if command -v apt-get >/dev/null; then apt-get -y remove "@ + p
            + "; else dpkg -r "@ + p + "; fi"@,
        Family::Fedora => "set -e; if command -v dnf >/dev/null; then dnf -y remove "@ + p
            + "; else rpm -e "@ + p + "; fi"@,
        Family::OpenSuse => "set -e; if command -v zypper >/dev/null; then zypper --non-interactive rm "@
            + p + "; else rpm -e "@ + p + "; fi"@,
        Family::Arch => "set -e; if command -v pacman >/dev/null; then pacman -R --noconfirm "@ + p
            + "; else echo 'pacman not found' >&2; exit 1; fi"@,
    }
}

/// The removal of a package as an ordinary user of the container runs it.
pub open spec fn uninstall_cmd(fam: Family, p: Seq<char>) -> Seq<char> {
    elevated(uninstall_inner(fam, p))
}

/// The command that lists the files of the package file whose quoted path
/// is `p`; it never fails.
pub open spec fn listing_cmd(fmt: PackageFormat, p: Seq<char>) -> Seq<char> {
    match fmt {
        PackageFormat::Deb => "dpkg -c "@ + p + " || true"@,
        PackageFormat::Rpm => "rpm -qlp "@ + p + " || true"@,
    }
}

/// The command that lists the files of the installed package whose quoted
/// name is `p`.
pub open spec fn installed_listing_cmd(fam: Family, p: Seq<char>) -> Seq<char> {
    match fam {
        Family::Debian => "dpkg -L "@ + p,
        _ => "rpm -ql "@ + p,
    }
}

/// The command that prints every installed package as a name, a tab and a
/// version.
pub open spec fn inventory_cmd(fam: Family) -> Seq<char> {
    match fam {
        Family::Debian => "dpkg-query -W -f='${Package}\t${Version}\n'"@,
        _ => "rpm -qa --qf '%{NAME}\t%{VERSION}-%{RELEASE}\n'"@,
    }
}

/// The command that prints the size in bytes of the file whose quoted path
/// is `p`.
pub open spec fn size_cmd(p: Seq<char>) -> Seq<char> {
    "stat -c %s "@ + p + " 2>/dev/null || wc -c < "@ + p + " 2>/dev/null"@
}

/// `cmd` with its error output joined to its output, and never failing.
pub open spec fn diagnostic_cmd(cmd: Seq<char>) -> Seq<char> {
    cmd + " 2>&1 || true"@
}

/// The command that sets the password `p` (quoted) for the first ordinary
/// user of the container.
pub open spec fn preseed_cmd(p: Seq<char>) -> Seq<char> {
    "u=$(awk -F: '$3>=1000 && $1!=\"nobody\" {print $1; exit}' /etc/passwd); \\\n         if [ -z \"$u\" ]; then u=$(getent passwd 1000 | cut -d: -f1 || true); fi; \\\n         if [ -z \"$u\" ]; then u=$(getent passwd 1001 | cut -d: -f1 || true); fi; \\\n         if [ -z \"$u\" ]; then echo 'no non-root user found' >&2; exit 1; fi; \\\n         printf '%s:%s\\n' \"$u\" "@
        + p + " | chpasswd"@
}

fn rpm_install_text(p: &str) -> (r: String)
    ensures
        r@ == rpm_install(p@),
{
    let mut s = String::from_str("set -e; if command -v dnf >/dev/null; then dnf -y install ");
    s.append(p);
    s.append("; elif command -v zypper >/dev/null; then zypper --non-interactive install ");
    s.append(p);
    s.append("; else rpm -i ");
    s.append(p);
    s.append("; fi");
    s
}

fn install_inner_text(fmt: PackageFormat, p: &str) -> (r: String)
    ensures
        r@ == install_inner(fmt, p@),
{
    match fmt {
        PackageFormat::Deb => {
            let mut s = String::from_str(
                "set -e; if command -v apt-get >/dev/null; then apt-get -y update; elif command -v apt >/dev/null; then apt -y update; fi; dpkg -i ",
            );
            s.append(p);
            s.append(
                " || { if command -v apt-get >/dev/null; then apt-get -y -f install; elif command -v apt >/dev/null; then apt -y -f install; else true; fi; }",
            );
            s
        },
        PackageFormat::Rpm => rpm_install_text(p),
    }
}

/// Wraps `inner` so that an ordinary user runs it with privileges.
pub fn elevate(inner: &str) -> (r: String)
    ensures
        r@ == elevated(inner@),
{
    let mut s = String::from_str(
        "set -e; if command -v sudo >/dev/null; then if sudo -n true >/dev/null 2>&1; then sudo sh -lc '",
    );
    s.append(inner);
    s.append("' ; else sudo sh -lc '");
    s.append(inner);
    s.append("' ; fi; elif command -v doas >/dev/null; then doas sh -lc '");
    s.append(inner);
    s.append("' ; else sh -lc '");
    s.append(inner);
    s.append("' ; fi");
    s
}

/// Wraps `inner` so that an ordinary user runs it with privileges and is
/// never asked for a password.
pub fn elevate_quietly(inner: &str) -> (r: String)
    ensures
        r@ == elevated_quietly(inner@),
{
    let mut s = String::from_str("set -e; if command -v sudo >/dev/null; then sudo -n sh -lc '");
    s.append(inner);
    s.append("' ; elif command -v doas >/dev/null; then doas sh -lc '");
    s.append(inner);
    s.append("' ; else sh -lc '");
    s.append(inner);
    s.append("' ; fi");
    s
}

/// The root installation command for a package file whose path is already
/// quoted.
pub fn install_cmd_root_quoted(fmt: PackageFormat, quoted: &str) -> (r: String)
    ensures
        r@ == install_cmd_root(fmt, quoted@),
{
    match fmt {
        PackageFormat::Deb => {
            let mut s = String::from_str(
                "set -e; if command -v apt-get >/dev/null; then apt-get -y update; elif command -v apt >/dev/null; then apt -y update; fi; dpkg -i ",
            );
            s.append(quoted);
            s.append(
                " || { if command -v apt-get >/dev/null; then apt-get -y -f install; elif command -v apt >/dev/null; then apt -y -f install; else printf %s\\n apt-not-found >&2; exit 1; fi; }",
            );
            s
        },
        PackageFormat::Rpm => rpm_install_text(quoted),
    }
}

/// The user installation command for a package file whose path is already
/// quoted.
pub fn install_cmd_user_quoted(fmt: PackageFormat, quoted: &str) -> (r: String)
    ensures
        r@ == install_cmd_user(fmt, quoted@),
{
    let inner = install_inner_text(fmt, quoted);
    elevate(inner.as_str())
}

/// The prompt-free user installation command for a package file whose path
/// is already quoted.
pub fn install_cmd_user_quiet_quoted(fmt: PackageFormat, quoted: &str) -> (r: String)
    ensures
        r@ == install_cmd_user_quiet(fmt, quoted@),
{
    let inner = install_inner_text(fmt, quoted);
    elevate_quietly(inner.as_str())
}

/// The command that installs the package file at `path` inside a container
/// as its root.
pub fn build_install_cmd_root(fmt: PackageFormat, path: &str) -> (r: String)
    ensures
        r@ == install_cmd_root(fmt, shell_escaped(path@)),
{
    let q = shell_quote(path);
    install_cmd_root_quoted(fmt, q.as_str())
}

/// The command that installs the package file at `path` inside a container
/// as an ordinary user, who gains privileges on the way.
pub fn build_install_cmd_user(fmt: PackageFormat, path: &str) -> (r: String)
    ensures
        r@ == install_cmd_user(fmt, shell_escaped(path@)),
{
    let q = shell_quote(path);
    install_cmd_user_quoted(fmt, q.as_str())
}

/// As [`build_install_cmd_user`], but never asking for a password.
pub fn build_install_cmd_user_noninteractive(fmt: PackageFormat, path: &str) -> (r: String)
    ensures
        r@ == install_cmd_user_quiet(fmt, shell_escaped(path@)),
{
    let q = shell_quote(path);
    install_cmd_user_quiet_quoted(fmt, q.as_str())
}

/// The removal command for a package whose name is already quoted.
pub fn uninstall_cmd_quoted(fam: Family, quoted: &str) -> (r: String)
    ensures
        r@ == uninstall_cmd(fam, quoted@),
{
    let mut s: String;
    match fam {
        Family::Debian => {
            s = String::from_str("set -e; if command -v apt-get >/dev/null; then apt-get -y remove ");
            s.append(quoted);
            s.append("; else dpkg -r ");
            s.append(quoted);
            s.append("; fi");
        },
        Family::Fedora => {
            s = String::from_str("set -e; if command -v dnf >/dev/null; then dnf -y remove ");
            s.append(quoted);
            s.append("; else rpm -e ");
            s.append(quoted);
            s.append("; fi");
        },
        Family::OpenSuse => {
            s = String::from_str(
                "set -e; if command -v zypper >/dev/null; then zypper --non-interactive rm ",
            );
            s.append(quoted);
            s.append("; else rpm -e ");
            s.append(quoted);
            s.append("; fi");
        },
        Family::Arch => {
            s = String::from_str(
                "set -e; if command -v pacman >/dev/null; then pacman -R --noconfirm ",
            );
            s.append(quoted);
            s.append("; else echo 'pacman not found' >&2; exit 1; fi");
        },
    }
    elevate(s.as_str())
}

/// The command that removes the package `pkg` inside a container of family
/// `fam`.
pub fn build_uninstall_cmd(fam: Family, pkg: &str) -> (r: String)
    ensures
        r@ == uninstall_cmd(fam, shell_escaped(pkg@)),
{
    let q = shell_quote(pkg);
    uninstall_cmd_quoted(fam, q.as_str())
}

/// The listing command for a package file whose path is already quoted.
pub fn listing_cmd_quoted(fmt: PackageFormat, quoted: &str) -> (r: String)
    ensures
        r@ == listing_cmd(fmt, quoted@),
{
    let mut s = match fmt {
        PackageFormat::Deb => String::from_str("dpkg -c "),
        PackageFormat::Rpm => String::from_str("rpm -qlp "),
    };
    s.append(quoted);
    s.append(" || true");
    s
}

/// The command that lists the files of the package file at `path`.
pub fn build_listing_cmd(fmt: PackageFormat, path: &str) -> (r: String)
    ensures
        r@ == listing_cmd(fmt, shell_escaped(path@)),
{
    let q = shell_quote(path);
    listing_cmd_quoted(fmt, q.as_str())
}

/// The listing command for an installed package whose name is already
/// quoted.
pub fn installed_listing_cmd_quoted(fam: Family, quoted: &str) -> (r: String)
    ensures
        r@ == installed_listing_cmd(fam, quoted@),
{
    let mut s = match fam {
        Family::Debian => String::from_str("dpkg -L "),
        _ => String::from_str("rpm -ql "),
    };
    s.append(quoted);
    s
}

/// The command that lists the files of the installed package `pkg`.
pub fn build_installed_listing_cmd(fam: Family, pkg: &str) -> (r: String)
    ensures
        r@ == installed_listing_cmd(fam, shell_escaped(pkg@)),
{
    let q = shell_quote(pkg);
    installed_listing_cmd_quoted(fam, q.as_str())
}

/// The command that prints the inventory of a container of family `fam`.
pub fn build_inventory_cmd(fam: Family) -> (r: String)
    ensures
        r@ == inventory_cmd(fam),
{
    match fam {
        Family::Debian => String::from_str("dpkg-query -W -f='${Package}\t${Version}\n'"),
        _ => String::from_str("rpm -qa --qf '%{NAME}\t%{VERSION}-%{RELEASE}\n'"),
    }
}

/// The size command for a file whose path is already quoted.
pub fn size_cmd_quoted(quoted: &str) -> (r: String)
    ensures
        r@ == size_cmd(quoted@),
{
    let mut s = String::from_str("stat -c %s ");
    s.append(quoted);
    s.append(" 2>/dev/null || wc -c < ");
    s.append(quoted);
    s.append(" 2>/dev/null");
    s
}

/// The command that prints the size of the file at `path`.
pub fn build_size_cmd(path: &str) -> (r: String)
    ensures
        r@ == size_cmd(shell_escaped(path@)),
{
    let q = shell_quote(path);
    size_cmd_quoted(q.as_str())
}

/// `cmd` in the form that is run to collect what it prints when it fails.
pub fn build_diagnostic_cmd(cmd: &str) -> (r: String)
    ensures
        r@ == diagnostic_cmd(cmd@),
{
    let mut s = String::from_str(cmd);
    s.append(" 2>&1 || true");
    s
}

/// The password command for a password that is already quoted.
pub fn preseed_cmd_quoted(quoted: &str) -> (r: String)
    ensures
        r@ == preseed_cmd(quoted@),
{
    let mut s = String::from_str(
        "u=$(awk -F: '$3>=1000 && $1!=\"nobody\" {print $1; exit}' /etc/passwd); \\\n         if [ -z \"$u\" ]; then u=$(getent passwd 1000 | cut -d: -f1 || true); fi; \\\n         if [ -z \"$u\" ]; then u=$(getent passwd 1001 | cut -d: -f1 || true); fi; \\\n         if [ -z \"$u\" ]; then echo 'no non-root user found' >&2; exit 1; fi; \\\n         printf '%s:%s\\n' \"$u\" ",
    );
    s.append(quoted);
    s.append(" | chpasswd");
    s
}

/// The command that sets `password` for the first ordinary user of a
/// container.
pub fn build_preseed_cmd(password: &str) -> (r: String)
    ensures
        r@ == preseed_cmd(shell_escaped(password@)),
{
    let q = shell_quote(password);
    preseed_cmd_quoted(q.as_str())
}

} // verus!
