use pkgbridge::commands::{
    build_diagnostic_cmd, build_install_cmd_root, build_install_cmd_user,
    build_install_cmd_user_noninteractive, build_installed_listing_cmd, build_inventory_cmd,
    build_listing_cmd, build_preseed_cmd, build_size_cmd, build_uninstall_cmd, elevate,
    elevate_quietly, install_cmd_root_quoted, install_cmd_user_quoted,
    install_cmd_user_quiet_quoted, listing_cmd_quoted, size_cmd_quoted, uninstall_cmd_quoted,
};
use pkgbridge::distro::Family;
use pkgbridge::pkgdetect::PackageFormat;

#[test]
fn root_install_commands() {
    assert_eq!(build_install_cmd_root(PackageFormat::Deb, "/tmp/pkgbridge/foo_1.0.deb"), "set -e; if command -v apt-get >/dev/null; then apt-get -y update; elif command -v apt >/dev/null; then apt -y update; fi; dpkg -i /tmp/pkgbridge/foo_1.0.deb || { if command -v apt-get >/dev/null; then apt-get -y -f install; elif command -v apt >/dev/null; then apt -y -f install; else printf %s\\n apt-not-found >&2; exit 1; fi; }");
    assert_eq!(build_install_cmd_root(PackageFormat::Rpm, "/tmp/pkgbridge/foo_1.0.deb"), "set -e; if command -v dnf >/dev/null; then dnf -y install /tmp/pkgbridge/foo_1.0.deb; elif command -v zypper >/dev/null; then zypper --non-interactive install /tmp/pkgbridge/foo_1.0.deb; else rpm -i /tmp/pkgbridge/foo_1.0.deb; fi");
    assert_eq!(build_install_cmd_root(PackageFormat::Deb, "/tmp/pkgbridge/my pkg.rpm"), "set -e; if command -v apt-get >/dev/null; then apt-get -y update; elif command -v apt >/dev/null; then apt -y update; fi; dpkg -i '/tmp/pkgbridge/my pkg.rpm' || { if command -v apt-get >/dev/null; then apt-get -y -f install; elif command -v apt >/dev/null; then apt -y -f install; else printf %s\\n apt-not-found >&2; exit 1; fi; }");
    assert_eq!(build_install_cmd_root(PackageFormat::Rpm, "/tmp/pkgbridge/my pkg.rpm"), "set -e; if command -v dnf >/dev/null; then dnf -y install '/tmp/pkgbridge/my pkg.rpm'; elif command -v zypper >/dev/null; then zypper --non-interactive install '/tmp/pkgbridge/my pkg.rpm'; else rpm -i '/tmp/pkgbridge/my pkg.rpm'; fi");
    assert_eq!(build_install_cmd_root(PackageFormat::Deb, "/tmp/it's!.deb"), "set -e; if command -v apt-get >/dev/null; then apt-get -y update; elif command -v apt >/dev/null; then apt -y update; fi; dpkg -i '/tmp/it'\\''s'\\!'.deb' || { if command -v apt-get >/dev/null; then apt-get -y -f install; elif command -v apt >/dev/null; then apt -y -f install; else printf %s\\n apt-not-found >&2; exit 1; fi; }");
    assert_eq!(build_install_cmd_root(PackageFormat::Rpm, "/tmp/it's!.deb"), "set -e; if command -v dnf >/dev/null; then dnf -y install '/tmp/it'\\''s'\\!'.deb'; elif command -v zypper >/dev/null; then zypper --non-interactive install '/tmp/it'\\''s'\\!'.deb'; else rpm -i '/tmp/it'\\''s'\\!'.deb'; fi");
}

#[test]
fn user_install_commands() {
    assert_eq!(build_install_cmd_user(PackageFormat::Deb, "/tmp/pkgbridge/foo_1.0.deb"), "set -e; if command -v sudo >/dev/null; then if sudo -n true >/dev/null 2>&1; then sudo sh -lc 'set -e; if command -v apt-get >/dev/null; then apt-get -y update; elif command -v apt >/dev/null; then apt -y update; fi; dpkg -i /tmp/pkgbridge/foo_1.0.deb || { if command -v apt-get >/dev/null; then apt-get -y -f install; elif command -v apt >/dev/null; then apt -y -f install; else true; fi; }' ; else sudo sh -lc 'set -e; if command -v apt-get >/dev/null; then apt-get -y update; elif command -v apt >/dev/null; then apt -y update; fi; dpkg -i /tmp/pkgbridge/foo_1.0.deb || { if command -v apt-get >/dev/null; then apt-get -y -f install; elif command -v apt >/dev/null; then apt -y -f install; else true; fi; }' ; fi; elif command -v doas >/dev/null; then doas sh -lc 'set -e; if command -v apt-get >/dev/null; then apt-get -y update; elif command -v apt >/dev/null; then apt -y update; fi; dpkg -i /tmp/pkgbridge/foo_1.0.deb || { if command -v apt-get >/dev/null; then apt-get -y -f install; elif command -v apt >/dev/null; then apt -y -f install; else true; fi; }' ; else sh -lc 'set -e; if command -v apt-get >/dev/null; then apt-get -y update; elif command -v apt >/dev/null; then apt -y update; fi; dpkg -i /tmp/pkgbridge/foo_1.0.deb || { if command -v apt-get >/dev/null; then apt-get -y -f install; elif command -v apt >/dev/null; then apt -y -f install; else true; fi; }' ; fi");
    assert_eq!(build_install_cmd_user(PackageFormat::Rpm, "/tmp/pkgbridge/foo_1.0.deb"), "set -e; if command -v sudo >/dev/null; then if sudo -n true >/dev/null 2>&1; then sudo sh -lc 'set -e; if command -v dnf >/dev/null; then dnf -y install /tmp/pkgbridge/foo_1.0.deb; elif command -v zypper >/dev/null; then zypper --non-interactive install /tmp/pkgbridge/foo_1.0.deb; else rpm -i /tmp/pkgbridge/foo_1.0.deb; fi' ; else sudo sh -lc 'set -e; if command -v dnf >/dev/null; then dnf -y install /tmp/pkgbridge/foo_1.0.deb; elif command -v zypper >/dev/null; then zypper --non-interactive install /tmp/pkgbridge/foo_1.0.deb; else rpm -i /tmp/pkgbridge/foo_1.0.deb; fi' ; fi; elif command -v doas >/dev/null; then doas sh -lc 'set -e; if command -v dnf >/dev/null; then dnf -y install /tmp/pkgbridge/foo_1.0.deb; elif command -v zypper >/dev/null; then zypper --non-interactive install /tmp/pkgbridge/foo_1.0.deb; else rpm -i /tmp/pkgbridge/foo_1.0.deb; fi' ; else sh -lc 'set -e; if command -v dnf >/dev/null; then dnf -y install /tmp/pkgbridge/foo_1.0.deb; elif command -v zypper >/dev/null; then zypper --non-interactive install /tmp/pkgbridge/foo_1.0.deb; else rpm -i /tmp/pkgbridge/foo_1.0.deb; fi' ; fi");
    assert_eq!(build_install_cmd_user(PackageFormat::Deb, "/tmp/pkgbridge/my pkg.rpm"), "set -e; if command -v sudo >/dev/null; then if sudo -n true >/dev/null 2>&1; then sudo sh -lc 'set -e; if command -v apt-get >/dev/null; then apt-get -y update; elif command -v apt >/dev/null; then apt -y update; fi; dpkg -i '/tmp/pkgbridge/my pkg.rpm' || { if command -v apt-get >/dev/null; then apt-get -y -f install; elif command -v apt >/dev/null; then apt -y -f install; else true; fi; }' ; else sudo sh -lc 'set -e; if command -v apt-get >/dev/null; then apt-get -y update; elif command -v apt >/dev/null; then apt -y update; fi; dpkg -i '/tmp/pkgbridge/my pkg.rpm' || { if command -v apt-get >/dev/null; then apt-get -y -f install; elif command -v apt >/dev/null; then apt -y -f install; else true; fi; }' ; fi; elif command -v doas >/dev/null; then doas sh -lc 'set -e; if command -v apt-get >/dev/null; then apt-get -y update; elif command -v apt >/dev/null; then apt -y update; fi; dpkg -i '/tmp/pkgbridge/my pkg.rpm' || { if command -v apt-get >/dev/null; then apt-get -y -f install; elif command -v apt >/dev/null; then apt -y -f install; else true; fi; }' ; else sh -lc 'set -e; if command -v apt-get >/dev/null; then apt-get -y update; elif command -v apt >/dev/null; then apt -y update; fi; dpkg -i '/tmp/pkgbridge/my pkg.rpm' || { if command -v apt-get >/dev/null; then apt-get -y -f install; elif command -v apt >/dev/null; then apt -y -f install; else true; fi; }' ; fi");
    assert_eq!(build_install_cmd_user(PackageFormat::Rpm, "/tmp/pkgbridge/my pkg.rpm"), "set -e; if command -v sudo >/dev/null; then if sudo -n true >/dev/null 2>&1; then sudo sh -lc 'set -e; if command -v dnf >/dev/null; then dnf -y install '/tmp/pkgbridge/my pkg.rpm'; elif command -v zypper >/dev/null; then zypper --non-interactive install '/tmp/pkgbridge/my pkg.rpm'; else rpm -i '/tmp/pkgbridge/my pkg.rpm'; fi' ; else sudo sh -lc 'set -e; if command -v dnf >/dev/null; then dnf -y install '/tmp/pkgbridge/my pkg.rpm'; elif command -v zypper >/dev/null; then zypper --non-interactive install '/tmp/pkgbridge/my pkg.rpm'; else rpm -i '/tmp/pkgbridge/my pkg.rpm'; fi' ; fi; elif command -v doas >/dev/null; then doas sh -lc 'set -e; if command -v dnf >/dev/null; then dnf -y install '/tmp/pkgbridge/my pkg.rpm'; elif command -v zypper >/dev/null; then zypper --non-interactive install '/tmp/pkgbridge/my pkg.rpm'; else rpm -i '/tmp/pkgbridge/my pkg.rpm'; fi' ; else sh -lc 'set -e; if command -v dnf >/dev/null; then dnf -y install '/tmp/pkgbridge/my pkg.rpm'; elif command -v zypper >/dev/null; then zypper --non-interactive install '/tmp/pkgbridge/my pkg.rpm'; else rpm -i '/tmp/pkgbridge/my pkg.rpm'; fi' ; fi");
    assert_eq!(build_install_cmd_user(PackageFormat::Deb, "/tmp/it's!.deb"), "set -e; if command -v sudo >/dev/null; then if sudo -n true >/dev/null 2>&1; then sudo sh -lc 'set -e; if command -v apt-get >/dev/null; then apt-get -y update; elif command -v apt >/dev/null; then apt -y update; fi; dpkg -i '/tmp/it'\\''s'\\!'.deb' || { if command -v apt-get >/dev/null; then apt-get -y -f install; elif command -v apt >/dev/null; then apt -y -f install; else true; fi; }' ; else sudo sh -lc 'set -e; if command -v apt-get >/dev/null; then apt-get -y update; elif command -v apt >/dev/null; then apt -y update; fi; dpkg -i '/tmp/it'\\''s'\\!'.deb' || { if command -v apt-get >/dev/null; then apt-get -y -f install; elif command -v apt >/dev/null; then apt -y -f install; else true; fi; }' ; fi; elif command -v doas >/dev/null; then doas sh -lc 'set -e; if command -v apt-get >/dev/null; then apt-get -y update; elif command -v apt >/dev/null; then apt -y update; fi; dpkg -i '/tmp/it'\\''s'\\!'.deb' || { if command -v apt-get >/dev/null; then apt-get -y -f install; elif command -v apt >/dev/null; then apt -y -f install; else true; fi; }' ; else sh -lc 'set -e; if command -v apt-get >/dev/null; then apt-get -y update; elif command -v apt >/dev/null; then apt -y update; fi; dpkg -i '/tmp/it'\\''s'\\!'.deb' || { if command -v apt-get >/dev/null; then apt-get -y -f install; elif command -v apt >/dev/null; then apt -y -f install; else true; fi; }' ; fi");
    assert_eq!(build_install_cmd_user(PackageFormat::Rpm, "/tmp/it's!.deb"), "set -e; if command -v sudo >/dev/null; then if sudo -n true >/dev/null 2>&1; then sudo sh -lc 'set -e; if command -v dnf >/dev/null; then dnf -y install '/tmp/it'\\''s'\\!'.deb'; elif command -v zypper >/dev/null; then zypper --non-interactive install '/tmp/it'\\''s'\\!'.deb'; else rpm -i '/tmp/it'\\''s'\\!'.deb'; fi' ; else sudo sh -lc 'set -e; if command -v dnf >/dev/null; then dnf -y install '/tmp/it'\\''s'\\!'.deb'; elif command -v zypper >/dev/null; then zypper --non-interactive install '/tmp/it'\\''s'\\!'.deb'; else rpm -i '/tmp/it'\\''s'\\!'.deb'; fi' ; fi; elif command -v doas >/dev/null; then doas sh -lc 'set -e; if command -v dnf >/dev/null; then dnf -y install '/tmp/it'\\''s'\\!'.deb'; elif command -v zypper >/dev/null; then zypper --non-interactive install '/tmp/it'\\''s'\\!'.deb'; else rpm -i '/tmp/it'\\''s'\\!'.deb'; fi' ; else sh -lc 'set -e; if command -v dnf >/dev/null; then dnf -y install '/tmp/it'\\''s'\\!'.deb'; elif command -v zypper >/dev/null; then zypper --non-interactive install '/tmp/it'\\''s'\\!'.deb'; else rpm -i '/tmp/it'\\''s'\\!'.deb'; fi' ; fi");
}

#[test]
fn quiet_user_install_commands() {
    assert_eq!(build_install_cmd_user_noninteractive(PackageFormat::Deb, "/tmp/pkgbridge/foo_1.0.deb"), "set -e; if command -v sudo >/dev/null; then sudo -n sh -lc 'set -e; if command -v apt-get >/dev/null; then apt-get -y update; elif command -v apt >/dev/null; then apt -y update; fi; dpkg -i /tmp/pkgbridge/foo_1.0.deb || { if command -v apt-get >/dev/null; then apt-get -y -f install; elif command -v apt >/dev/null; then apt -y -f install; else true; fi; }' ; elif command -v doas >/dev/null; then doas sh -lc 'set -e; if command -v apt-get >/dev/null; then apt-get -y update; elif command -v apt >/dev/null; then apt -y update; fi; dpkg -i /tmp/pkgbridge/foo_1.0.deb || { if command -v apt-get >/dev/null; then apt-get -y -f install; elif command -v apt >/dev/null; then apt -y -f install; else true; fi; }' ; else sh -lc 'set -e; if command -v apt-get >/dev/null; then apt-get -y update; elif command -v apt >/dev/null; then apt -y update; fi; dpkg -i /tmp/pkgbridge/foo_1.0.deb || { if command -v apt-get >/dev/null; then apt-get -y -f install; elif command -v apt >/dev/null; then apt -y -f install; else true; fi; }' ; fi");
    assert_eq!(build_install_cmd_user_noninteractive(PackageFormat::Rpm, "/tmp/pkgbridge/foo_1.0.deb"), "set -e; if command -v sudo >/dev/null; then sudo -n sh -lc 'set -e; if command -v dnf >/dev/null; then dnf -y install /tmp/pkgbridge/foo_1.0.deb; elif command -v zypper >/dev/null; then zypper --non-interactive install /tmp/pkgbridge/foo_1.0.deb; else rpm -i /tmp/pkgbridge/foo_1.0.deb; fi' ; elif command -v doas >/dev/null; then doas sh -lc 'set -e; if command -v dnf >/dev/null; then dnf -y install /tmp/pkgbridge/foo_1.0.deb; elif command -v zypper >/dev/null; then zypper --non-interactive install /tmp/pkgbridge/foo_1.0.deb; else rpm -i /tmp/pkgbridge/foo_1.0.deb; fi' ; else sh -lc 'set -e; if command -v dnf >/dev/null; then dnf -y install /tmp/pkgbridge/foo_1.0.deb; elif command -v zypper >/dev/null; then zypper --non-interactive install /tmp/pkgbridge/foo_1.0.deb; else rpm -i /tmp/pkgbridge/foo_1.0.deb; fi' ; fi");
    assert_eq!(build_install_cmd_user_noninteractive(PackageFormat::Deb, "/tmp/pkgbridge/my pkg.rpm"), "set -e; if command -v sudo >/dev/null; then sudo -n sh -lc 'set -e; if command -v apt-get >/dev/null; then apt-get -y update; elif command -v apt >/dev/null; then apt -y update; fi; dpkg -i '/tmp/pkgbridge/my pkg.rpm' || { if command -v apt-get >/dev/null; then apt-get -y -f install; elif command -v apt >/dev/null; then apt -y -f install; else true; fi; }' ; elif command -v doas >/dev/null; then doas sh -lc 'set -e; if command -v apt-get >/dev/null; then apt-get -y update; elif command -v apt >/dev/null; then apt -y update; fi; dpkg -i '/tmp/pkgbridge/my pkg.rpm' || { if command -v apt-get >/dev/null; then apt-get -y -f install; elif command -v apt >/dev/null; then apt -y -f install; else true; fi; }' ; else sh -lc 'set -e; if command -v apt-get >/dev/null; then apt-get -y update; elif command -v apt >/dev/null; then apt -y update; fi; dpkg -i '/tmp/pkgbridge/my pkg.rpm' || { if command -v apt-get >/dev/null; then apt-get -y -f install; elif command -v apt >/dev/null; then apt -y -f install; else true; fi; }' ; fi");
    assert_eq!(build_install_cmd_user_noninteractive(PackageFormat::Rpm, "/tmp/pkgbridge/my pkg.rpm"), "set -e; if command -v sudo >/dev/null; then sudo -n sh -lc 'set -e; if command -v dnf >/dev/null; then dnf -y install '/tmp/pkgbridge/my pkg.rpm'; elif command -v zypper >/dev/null; then zypper --non-interactive install '/tmp/pkgbridge/my pkg.rpm'; else rpm -i '/tmp/pkgbridge/my pkg.rpm'; fi' ; elif command -v doas >/dev/null; then doas sh -lc 'set -e; if command -v dnf >/dev/null; then dnf -y install '/tmp/pkgbridge/my pkg.rpm'; elif command -v zypper >/dev/null; then zypper --non-interactive install '/tmp/pkgbridge/my pkg.rpm'; else rpm -i '/tmp/pkgbridge/my pkg.rpm'; fi' ; else sh -lc 'set -e; if command -v dnf >/dev/null; then dnf -y install '/tmp/pkgbridge/my pkg.rpm'; elif command -v zypper >/dev/null; then zypper --non-interactive install '/tmp/pkgbridge/my pkg.rpm'; else rpm -i '/tmp/pkgbridge/my pkg.rpm'; fi' ; fi");
}

#[test]
fn commands_from_quoted_paths() {
    assert_eq!(install_cmd_root_quoted(PackageFormat::Deb, "Q"), "set -e; if command -v apt-get >/dev/null; then apt-get -y update; elif command -v apt >/dev/null; then apt -y update; fi; dpkg -i Q || { if command -v apt-get >/dev/null; then apt-get -y -f install; elif command -v apt >/dev/null; then apt -y -f install; else printf %s\\n apt-not-found >&2; exit 1; fi; }");
    assert_eq!(install_cmd_root_quoted(PackageFormat::Rpm, "Q"), "set -e; if command -v dnf >/dev/null; then dnf -y install Q; elif command -v zypper >/dev/null; then zypper --non-interactive install Q; else rpm -i Q; fi");
    assert_eq!(install_cmd_user_quoted(PackageFormat::Deb, "Q"), "set -e; if command -v sudo >/dev/null; then if sudo -n true >/dev/null 2>&1; then sudo sh -lc 'set -e; if command -v apt-get >/dev/null; then apt-get -y update; elif command -v apt >/dev/null; then apt -y update; fi; dpkg -i Q || { if command -v apt-get >/dev/null; then apt-get -y -f install; elif command -v apt >/dev/null; then apt -y -f install; else true; fi; }' ; else sudo sh -lc 'set -e; if command -v apt-get >/dev/null; then apt-get -y update; elif command -v apt >/dev/null; then apt -y update; fi; dpkg -i Q || { if command -v apt-get >/dev/null; then apt-get -y -f install; elif command -v apt >/dev/null; then apt -y -f install; else true; fi; }' ; fi; elif command -v doas >/dev/null; then doas sh -lc 'set -e; if command -v apt-get >/dev/null; then apt-get -y update; elif command -v apt >/dev/null; then apt -y update; fi; dpkg -i Q || { if command -v apt-get >/dev/null; then apt-get -y -f install; elif command -v apt >/dev/null; then apt -y -f install; else true; fi; }' ; else sh -lc 'set -e; if command -v apt-get >/dev/null; then apt-get -y update; elif command -v apt >/dev/null; then apt -y update; fi; dpkg -i Q || { if command -v apt-get >/dev/null; then apt-get -y -f install; elif command -v apt >/dev/null; then apt -y -f install; else true; fi; }' ; fi");
    assert_eq!(install_cmd_user_quiet_quoted(PackageFormat::Rpm, "Q"), "set -e; if command -v sudo >/dev/null; then sudo -n sh -lc 'set -e; if command -v dnf >/dev/null; then dnf -y install Q; elif command -v zypper >/dev/null; then zypper --non-interactive install Q; else rpm -i Q; fi' ; elif command -v doas >/dev/null; then doas sh -lc 'set -e; if command -v dnf >/dev/null; then dnf -y install Q; elif command -v zypper >/dev/null; then zypper --non-interactive install Q; else rpm -i Q; fi' ; else sh -lc 'set -e; if command -v dnf >/dev/null; then dnf -y install Q; elif command -v zypper >/dev/null; then zypper --non-interactive install Q; else rpm -i Q; fi' ; fi");
    assert_eq!(elevate("true"), "set -e; if command -v sudo >/dev/null; then if sudo -n true >/dev/null 2>&1; then sudo sh -lc 'true' ; else sudo sh -lc 'true' ; fi; elif command -v doas >/dev/null; then doas sh -lc 'true' ; else sh -lc 'true' ; fi");
    assert_eq!(elevate_quietly("true"), "set -e; if command -v sudo >/dev/null; then sudo -n sh -lc 'true' ; elif command -v doas >/dev/null; then doas sh -lc 'true' ; else sh -lc 'true' ; fi");
}

#[test]
fn uninstall_commands() {
    assert_eq!(build_uninstall_cmd(Family::Debian, "htop"), "set -e; if command -v sudo >/dev/null; then if sudo -n true >/dev/null 2>&1; then sudo sh -lc 'set -e; if command -v apt-get >/dev/null; then apt-get -y remove htop; else dpkg -r htop; fi' ; else sudo sh -lc 'set -e; if command -v apt-get >/dev/null; then apt-get -y remove htop; else dpkg -r htop; fi' ; fi; elif command -v doas >/dev/null; then doas sh -lc 'set -e; if command -v apt-get >/dev/null; then apt-get -y remove htop; else dpkg -r htop; fi' ; else sh -lc 'set -e; if command -v apt-get >/dev/null; then apt-get -y remove htop; else dpkg -r htop; fi' ; fi");
    assert_eq!(build_uninstall_cmd(Family::Debian, "libfoo bar"), "set -e; if command -v sudo >/dev/null; then if sudo -n true >/dev/null 2>&1; then sudo sh -lc 'set -e; if command -v apt-get >/dev/null; then apt-get -y remove 'libfoo bar'; else dpkg -r 'libfoo bar'; fi' ; else sudo sh -lc 'set -e; if command -v apt-get >/dev/null; then apt-get -y remove 'libfoo bar'; else dpkg -r 'libfoo bar'; fi' ; fi; elif command -v doas >/dev/null; then doas sh -lc 'set -e; if command -v apt-get >/dev/null; then apt-get -y remove 'libfoo bar'; else dpkg -r 'libfoo bar'; fi' ; else sh -lc 'set -e; if command -v apt-get >/dev/null; then apt-get -y remove 'libfoo bar'; else dpkg -r 'libfoo bar'; fi' ; fi");
    assert_eq!(build_uninstall_cmd(Family::Fedora, "htop"), "set -e; if command -v sudo >/dev/null; then if sudo -n true >/dev/null 2>&1; then sudo sh -lc 'set -e; if command -v dnf >/dev/null; then dnf -y remove htop; else rpm -e htop; fi' ; else sudo sh -lc 'set -e; if command -v dnf >/dev/null; then dnf -y remove htop; else rpm -e htop; fi' ; fi; elif command -v doas >/dev/null; then doas sh -lc 'set -e; if command -v dnf >/dev/null; then dnf -y remove htop; else rpm -e htop; fi' ; else sh -lc 'set -e; if command -v dnf >/dev/null; then dnf -y remove htop; else rpm -e htop; fi' ; fi");
    assert_eq!(build_uninstall_cmd(Family::Fedora, "libfoo bar"), "set -e; if command -v sudo >/dev/null; then if sudo -n true >/dev/null 2>&1; then sudo sh -lc 'set -e; if command -v dnf >/dev/null; then dnf -y remove 'libfoo bar'; else rpm -e 'libfoo bar'; fi' ; else sudo sh -lc 'set -e; if command -v dnf >/dev/null; then dnf -y remove 'libfoo bar'; else rpm -e 'libfoo bar'; fi' ; fi; elif command -v doas >/dev/null; then doas sh -lc 'set -e; if command -v dnf >/dev/null; then dnf -y remove 'libfoo bar'; else rpm -e 'libfoo bar'; fi' ; else sh -lc 'set -e; if command -v dnf >/dev/null; then dnf -y remove 'libfoo bar'; else rpm -e 'libfoo bar'; fi' ; fi");
    assert_eq!(build_uninstall_cmd(Family::OpenSuse, "htop"), "set -e; if command -v sudo >/dev/null; then if sudo -n true >/dev/null 2>&1; then sudo sh -lc 'set -e; if command -v zypper >/dev/null; then zypper --non-interactive rm htop; else rpm -e htop; fi' ; else sudo sh -lc 'set -e; if command -v zypper >/dev/null; then zypper --non-interactive rm htop; else rpm -e htop; fi' ; fi; elif command -v doas >/dev/null; then doas sh -lc 'set -e; if command -v zypper >/dev/null; then zypper --non-interactive rm htop; else rpm -e htop; fi' ; else sh -lc 'set -e; if command -v zypper >/dev/null; then zypper --non-interactive rm htop; else rpm -e htop; fi' ; fi");
    assert_eq!(build_uninstall_cmd(Family::OpenSuse, "libfoo bar"), "set -e; if command -v sudo >/dev/null; then if sudo -n true >/dev/null 2>&1; then sudo sh -lc 'set -e; if command -v zypper >/dev/null; then zypper --non-interactive rm 'libfoo bar'; else rpm -e 'libfoo bar'; fi' ; else sudo sh -lc 'set -e; if command -v zypper >/dev/null; then zypper --non-interactive rm 'libfoo bar'; else rpm -e 'libfoo bar'; fi' ; fi; elif command -v doas >/dev/null; then doas sh -lc 'set -e; if command -v zypper >/dev/null; then zypper --non-interactive rm 'libfoo bar'; else rpm -e 'libfoo bar'; fi' ; else sh -lc 'set -e; if command -v zypper >/dev/null; then zypper --non-interactive rm 'libfoo bar'; else rpm -e 'libfoo bar'; fi' ; fi");
    assert_eq!(build_uninstall_cmd(Family::Arch, "htop"), "set -e; if command -v sudo >/dev/null; then if sudo -n true >/dev/null 2>&1; then sudo sh -lc 'set -e; if command -v pacman >/dev/null; then pacman -R --noconfirm htop; else echo 'pacman not found' >&2; exit 1; fi' ; else sudo sh -lc 'set -e; if command -v pacman >/dev/null; then pacman -R --noconfirm htop; else echo 'pacman not found' >&2; exit 1; fi' ; fi; elif command -v doas >/dev/null; then doas sh -lc 'set -e; if command -v pacman >/dev/null; then pacman -R --noconfirm htop; else echo 'pacman not found' >&2; exit 1; fi' ; else sh -lc 'set -e; if command -v pacman >/dev/null; then pacman -R --noconfirm htop; else echo 'pacman not found' >&2; exit 1; fi' ; fi");
    assert_eq!(build_uninstall_cmd(Family::Arch, "libfoo bar"), "set -e; if command -v sudo >/dev/null; then if sudo -n true >/dev/null 2>&1; then sudo sh -lc 'set -e; if command -v pacman >/dev/null; then pacman -R --noconfirm 'libfoo bar'; else echo 'pacman not found' >&2; exit 1; fi' ; else sudo sh -lc 'set -e; if command -v pacman >/dev/null; then pacman -R --noconfirm 'libfoo bar'; else echo 'pacman not found' >&2; exit 1; fi' ; fi; elif command -v doas >/dev/null; then doas sh -lc 'set -e; if command -v pacman >/dev/null; then pacman -R --noconfirm 'libfoo bar'; else echo 'pacman not found' >&2; exit 1; fi' ; else sh -lc 'set -e; if command -v pacman >/dev/null; then pacman -R --noconfirm 'libfoo bar'; else echo 'pacman not found' >&2; exit 1; fi' ; fi");
    assert_eq!(uninstall_cmd_quoted(Family::Arch, "X"), "set -e; if command -v sudo >/dev/null; then if sudo -n true >/dev/null 2>&1; then sudo sh -lc 'set -e; if command -v pacman >/dev/null; then pacman -R --noconfirm X; else echo 'pacman not found' >&2; exit 1; fi' ; else sudo sh -lc 'set -e; if command -v pacman >/dev/null; then pacman -R --noconfirm X; else echo 'pacman not found' >&2; exit 1; fi' ; fi; elif command -v doas >/dev/null; then doas sh -lc 'set -e; if command -v pacman >/dev/null; then pacman -R --noconfirm X; else echo 'pacman not found' >&2; exit 1; fi' ; else sh -lc 'set -e; if command -v pacman >/dev/null; then pacman -R --noconfirm X; else echo 'pacman not found' >&2; exit 1; fi' ; fi");
}

#[test]
fn listing_commands() {
    assert_eq!(build_listing_cmd(PackageFormat::Deb, "/tmp/pkgbridge/foo_1.0.deb"), "dpkg -c /tmp/pkgbridge/foo_1.0.deb || true");
    assert_eq!(build_listing_cmd(PackageFormat::Rpm, "/tmp/pkgbridge/foo_1.0.deb"), "rpm -qlp /tmp/pkgbridge/foo_1.0.deb || true");
    assert_eq!(build_listing_cmd(PackageFormat::Deb, "/tmp/pkgbridge/my pkg.rpm"), "dpkg -c '/tmp/pkgbridge/my pkg.rpm' || true");
    assert_eq!(build_listing_cmd(PackageFormat::Rpm, "/tmp/pkgbridge/my pkg.rpm"), "rpm -qlp '/tmp/pkgbridge/my pkg.rpm' || true");
    assert_eq!(build_listing_cmd(PackageFormat::Deb, "/tmp/it's!.deb"), "dpkg -c '/tmp/it'\\''s'\\!'.deb' || true");
    assert_eq!(build_listing_cmd(PackageFormat::Rpm, "/tmp/it's!.deb"), "rpm -qlp '/tmp/it'\\''s'\\!'.deb' || true");
    assert_eq!(listing_cmd_quoted(PackageFormat::Deb, "Q"), "dpkg -c Q || true");
    assert_eq!(build_installed_listing_cmd(Family::Debian, "my pkg"), "dpkg -L 'my pkg'");
    assert_eq!(build_installed_listing_cmd(Family::Fedora, "my pkg"), "rpm -ql 'my pkg'");
    assert_eq!(build_installed_listing_cmd(Family::OpenSuse, "my pkg"), "rpm -ql 'my pkg'");
    assert_eq!(build_installed_listing_cmd(Family::Arch, "my pkg"), "rpm -ql 'my pkg'");
}

#[test]
fn inventory_commands() {
    assert_eq!(build_inventory_cmd(Family::Debian), "dpkg-query -W -f='${Package}\t${Version}\n'");
    assert_eq!(build_inventory_cmd(Family::Fedora), "rpm -qa --qf '%{NAME}\t%{VERSION}-%{RELEASE}\n'");
    assert_eq!(build_inventory_cmd(Family::OpenSuse), "rpm -qa --qf '%{NAME}\t%{VERSION}-%{RELEASE}\n'");
    assert_eq!(build_inventory_cmd(Family::Arch), "rpm -qa --qf '%{NAME}\t%{VERSION}-%{RELEASE}\n'");
}

#[test]
fn size_commands() {
    assert_eq!(build_size_cmd("/tmp/pkgbridge/foo_1.0.deb"), "stat -c %s /tmp/pkgbridge/foo_1.0.deb 2>/dev/null || wc -c < /tmp/pkgbridge/foo_1.0.deb 2>/dev/null");
    assert_eq!(build_size_cmd("/tmp/pkgbridge/my pkg.rpm"), "stat -c %s '/tmp/pkgbridge/my pkg.rpm' 2>/dev/null || wc -c < '/tmp/pkgbridge/my pkg.rpm' 2>/dev/null");
    assert_eq!(build_size_cmd("/tmp/it's!.deb"), "stat -c %s '/tmp/it'\\''s'\\!'.deb' 2>/dev/null || wc -c < '/tmp/it'\\''s'\\!'.deb' 2>/dev/null");
    assert_eq!(size_cmd_quoted("Q"), "stat -c %s Q 2>/dev/null || wc -c < Q 2>/dev/null");
}

#[test]
fn diagnostic_and_password_commands() {
    assert_eq!(build_diagnostic_cmd("dnf -y install x"), "dnf -y install x 2>&1 || true");
    assert_eq!(build_preseed_cmd("secret"), "u=$(awk -F: '$3>=1000 && $1!=\"nobody\" {print $1; exit}' /etc/passwd); \\\n         if [ -z \"$u\" ]; then u=$(getent passwd 1000 | cut -d: -f1 || true); fi; \\\n         if [ -z \"$u\" ]; then u=$(getent passwd 1001 | cut -d: -f1 || true); fi; \\\n         if [ -z \"$u\" ]; then echo 'no non-root user found' >&2; exit 1; fi; \\\n         printf '%s:%s\\n' \"$u\" secret | chpasswd");
    assert_eq!(build_preseed_cmd("pa ss!"), "u=$(awk -F: '$3>=1000 && $1!=\"nobody\" {print $1; exit}' /etc/passwd); \\\n         if [ -z \"$u\" ]; then u=$(getent passwd 1000 | cut -d: -f1 || true); fi; \\\n         if [ -z \"$u\" ]; then u=$(getent passwd 1001 | cut -d: -f1 || true); fi; \\\n         if [ -z \"$u\" ]; then echo 'no non-root user found' >&2; exit 1; fi; \\\n         printf '%s:%s\\n' \"$u\" 'pa ss'\\!'' | chpasswd");
}

#[test]
fn paths_are_quoted_for_the_shell() {
    // the quoting is the crate's: a plain word is left alone, anything else is wrapped
    assert!(build_listing_cmd(PackageFormat::Deb, "/tmp/a.deb").contains(" /tmp/a.deb "));
    assert!(build_listing_cmd(PackageFormat::Deb, "/tmp/a b.deb").contains(" '/tmp/a b.deb' "));
    assert!(build_listing_cmd(PackageFormat::Deb, "").contains(" '' "));
}
