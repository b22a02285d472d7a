//! The desktop entry through which package files are opened with this
//! program, and where it and its icon lie.

use vstd::prelude::*;
use vstd::string::StringExecFns;
use crate::paths::{base_dir, join_path, joined_path, opt_str, resolve_base_dir};
use crate::text::str_views;

verus! {

/// The user's data directory.
pub open spec fn data_home(named: Option<Seq<char>>, home: Option<Seq<char>>) -> Seq<char> {
    base_dir(named, home, "/.local/share"@)
}

/// The user's configuration directory.
pub open spec fn config_home(named: Option<Seq<char>>, home: Option<Seq<char>>) -> Seq<char> {
    base_dir(named, home, "/.config"@)
}

/// The user's directory of desktop entries.
pub open spec fn desktop_directory(named: Option<Seq<char>>, home: Option<Seq<char>>) -> Seq<char> {
    joined_path(data_home(named, home), "applications"@)
}

/// Where this program's desktop entry lies.
pub open spec fn desktop_file(named: Option<Seq<char>>, home: Option<Seq<char>>) -> Seq<char> {
    joined_path(desktop_directory(named, home), "pkgbridge.desktop"@)
}

/// The directory of this program's icon.
pub open spec fn icon_directory(named: Option<Seq<char>>, home: Option<Seq<char>>) -> Seq<char> {
    joined_path(
        joined_path(
            joined_path(joined_path(data_home(named, home), "icons"@), "hicolor"@),
            "256x256"@,
        ),
        "apps"@,
    )
}

/// Where this program's icon lies.
pub open spec fn icon_file(named: Option<Seq<char>>, home: Option<Seq<char>>) -> Seq<char> {
    joined_path(icon_directory(named, home), "pkgbridge.png"@)
}

/// This program's desktop entry: it opens package files of both formats in
/// a terminal.
pub open spec fn desktop_entry() -> Seq<char> {
    "[Desktop Entry]\n"@ + "Type=Application\n"@ + "Name=Pkgbridge Package Installer\n"@
        + "Comment=Install native packages into Distrobox containers\n"@ + "TryExec=pkgbridge\n"@
        + "Icon=pkgbridge\n"@ + "Exec=pkgbridge open %f\n"@ + "Terminal=true\n"@
        + "Categories=System;Utility;\n"@
        + "MimeType=application/vnd.debian.binary-package;application/x-deb;application/x-rpm;application/x-redhat-package-manager;\n"@
        + "NoDisplay=false\n"@ + "X-Pkgbridge=true\n"@
}

/// The types of file that this program opens.
pub open spec fn package_mime_types() -> Seq<Seq<char>> {
    seq![
        "application/vnd.debian.binary-package"@,
        "application/x-deb"@,
        "application/x-rpm"@,
        "application/x-redhat-package-manager"@,
    ]
}

/// The description of the package file types for the user's database of
/// file types.
pub open spec fn mime_description() -> Seq<char> {
    "<?xml version=\"1.0\" encoding=\"UTF-8\"?>\n<mime-info xmlns=\"http://www.freedesktop.org/standards/shared-mime-info\">\n  <mime-type type=\"application/x-deb\">\n    <glob pattern=\"*.deb\"/>\n  </mime-type>\n  <mime-type type=\"application/vnd.debian.binary-package\">\n    <glob pattern=\"*.deb\"/>\n  </mime-type>\n  <mime-type type=\"application/x-rpm\">\n    <glob pattern=\"*.rpm\"/>\n  </mime-type>\n</mime-info>\n"@
}

/// The user's data directory, given what the environment names for it and
/// as the home directory.
pub fn xdg_data_home(named: Option<&str>, home: Option<&str>) -> (r: String)
    ensures
        r@ == data_home(opt_str(named), opt_str(home)),
{
    resolve_base_dir(named, home, "/.local/share")
}

/// The user's configuration directory.
pub fn xdg_config_home(named: Option<&str>, home: Option<&str>) -> (r: String)
    ensures
        r@ == config_home(opt_str(named), opt_str(home)),
{
    resolve_base_dir(named, home, "/.config")
}

/// The user's directory of desktop entries.
pub fn desktop_dir(xdg_data: Option<&str>, home: Option<&str>) -> (r: String)
    ensures
        r@ == desktop_directory(opt_str(xdg_data), opt_str(home)),
{
    let base = xdg_data_home(xdg_data, home);
    join_path(base.as_str(), "applications")
}

/// Where this program's desktop entry lies.
pub fn desktop_file_path(xdg_data: Option<&str>, home: Option<&str>) -> (r: String)
    ensures
        r@ == desktop_file(opt_str(xdg_data), opt_str(home)),
{
    let dir = desktop_dir(xdg_data, home);
    join_path(dir.as_str(), "pkgbridge.desktop")
}

/// The directory of this program's icon.
pub fn icon_target_dir(xdg_data: Option<&str>, home: Option<&str>) -> (r: String)
    ensures
        r@ == icon_directory(opt_str(xdg_data), opt_str(home)),
{
    let base = xdg_data_home(xdg_data, home);
    let a = join_path(base.as_str(), "icons");
    let b = join_path(a.as_str(), "hicolor");
    let c = join_path(b.as_str(), "256x256");
    join_path(c.as_str(), "apps")
}

/// Where this program's icon lies.
pub fn icon_target_path(xdg_data: Option<&str>, home: Option<&str>) -> (r: String)
    ensures
        r@ == icon_file(opt_str(xdg_data), opt_str(home)),
{
    let dir = icon_target_dir(xdg_data, home);
    join_path(dir.as_str(), "pkgbridge.png")
}

/// The text of this program's desktop entry.
pub fn desktop_file_content() -> (r: String)
    ensures
        r@ == desktop_entry(),
{
    let mut s = String::new();
    s.append("[Desktop Entry]\n");
    assert(s@ =~= "[Desktop Entry]\n"@);
    s.append("Type=Application\n");
    s.append("Name=Pkgbridge Package Installer\n");
    s.append("Comment=Install native packages into Distrobox containers\n");
    s.append("TryExec=pkgbridge\n");
    s.append("Icon=pkgbridge\n");
    s.append("Exec=pkgbridge open %f\n");
    s.append("Terminal=true\n");
    s.append("Categories=System;Utility;\n");
    s.append(
        "MimeType=application/vnd.debian.binary-package;application/x-deb;application/x-rpm;application/x-redhat-package-manager;\n",
    );
    s.append("NoDisplay=false\n");
    s.append("X-Pkgbridge=true\n");
    s
}

/// The types of file that this program opens.
pub fn mime_types() -> (r: Vec<String>)
    ensures
        str_views(r@) == package_mime_types(),
{
    let mut r: Vec<String> = Vec::new();
    r.push(String::from_str("application/vnd.debian.binary-package"));
    r.push(String::from_str("application/x-deb"));
    r.push(String::from_str("application/x-rpm"));
    r.push(String::from_str("application/x-redhat-package-manager"));
    assert(str_views(r@) =~= package_mime_types());
    r
}

/// The description of the package file types.
pub fn mime_xml_content() -> (r: String)
    ensures
        r@ == mime_description(),
{
    String::from_str(
        "<?xml version=\"1.0\" encoding=\"UTF-8\"?>\n<mime-info xmlns=\"http://www.freedesktop.org/standards/shared-mime-info\">\n  <mime-type type=\"application/x-deb\">\n    <glob pattern=\"*.deb\"/>\n  </mime-type>\n  <mime-type type=\"application/vnd.debian.binary-package\">\n    <glob pattern=\"*.deb\"/>\n  </mime-type>\n  <mime-type type=\"application/x-rpm\">\n    <glob pattern=\"*.rpm\"/>\n  </mime-type>\n</mime-info>\n",
    )
}

} // verus!
