use pkgbridge::pkgdetect::PackageFormat;
use pkgbridge::scan::{
    clone_strings, nothing_to_export, prescan_package, resolve_export_lists, scan_installed_pkg,
    scan_listing, ListingKind, PackageManifest,
};

fn strings(v: &[&str]) -> Vec<String> {
    v.iter().map(|s| s.to_string()).collect()
}

fn manifest(bins: &[&str], apps: &[&str]) -> PackageManifest {
    PackageManifest { binaries: strings(bins), desktop_entries: strings(apps) }
}

#[test]
fn archive_listing() {
    let text = "drwxr-xr-x root/root         0 2024-01-01 00:00 ./\n\
drwxr-xr-x root/root         0 2024-01-01 00:00 ./usr/bin/\n\
-rwxr-xr-x root/root     12345 2024-01-01 00:00 ./usr/bin/zeta\n\
-rwxr-xr-x root/root     12345 2024-01-01 00:00 ./usr/bin/alpha\n\
-rwxr-xr-x root/root     12345 2024-01-01 00:00 ./usr/bin/zeta\n\
-rwxr-xr-x root/root     12345 2024-01-01 00:00 usr/bin/plain\n\
-rwxr-xr-x root/root     12345 2024-01-01 00:00 /usr/bin/rooted\n\
-rwxr-xr-x root/root     12345 2024-01-01 00:00 ./usr/bin/sub/tool\n\
-rwxr-xr-x root/root     12345 2024-01-01 00:00 ./usr/sbin/daemon\n\
-rw-r--r-- root/root       100 2024-01-01 00:00 ./usr/share/applications/b.desktop\n\
-rw-r--r-- root/root       100 2024-01-01 00:00 ./usr/share/applications/a.desktop\n\
-rw-r--r-- root/root       100 2024-01-01 00:00 ./usr/share/applications/kde/c.desktop\n\
-rw-r--r-- root/root       100 2024-01-01 00:00 ./usr/share/applications/mimeinfo.cache\n\
lrwxrwxrwx root/root         0 2024-01-01 00:00 ./usr/bin/link -> target\n\
./usr/bin/nospace\n";
    assert_eq!(
        scan_listing(ListingKind::Archive, text),
        manifest(&["alpha", "plain", "rooted", "zeta"], &["a.desktop", "b.desktop", "kde/c.desktop"])
    );
    assert_eq!(prescan_package(PackageFormat::Deb, text), scan_listing(ListingKind::Archive, text));
}

#[test]
fn path_listing() {
    let text = "/usr/bin/zsh\n  /usr/bin/awk  \n/usr/bin/\n/usr/bin\nusr/bin/rel\n//usr/bin/twice\n/usr/share/applications/x.desktop\n/usr/share/applications/x.desktop\n/usr/share/applications/y.txt\n/usr/bin/zsh\n/usr/bin/dir/\n";
    let want = manifest(&["awk", "rel", "zsh"], &["x.desktop"]);
    assert_eq!(scan_listing(ListingKind::Paths, text), want);
    assert_eq!(prescan_package(PackageFormat::Rpm, text), want);
    assert_eq!(scan_installed_pkg(text), want);
}

#[test]
fn empty_listing() {
    assert_eq!(scan_listing(ListingKind::Paths, ""), manifest(&[], &[]));
    assert_eq!(scan_listing(ListingKind::Archive, "\n\n"), manifest(&[], &[]));
    assert!(nothing_to_export(&vec![], &vec![]));
    assert!(!nothing_to_export(&strings(&["a"]), &vec![]));
    assert!(!nothing_to_export(&vec![], &strings(&["a"])));
}

#[test]
fn lists_come_out_as_std_sorts_them() {
    let names = ["b", "B", "a-z", "a_z", "a", "ab", "é", "Z", "10", "9", "a.b"];
    let text: String = names.iter().map(|n| format!("/usr/bin/{}\n", n)).collect();
    let mut want: Vec<String> = names.iter().map(|s| s.to_string()).collect();
    want.sort();
    want.dedup();
    assert_eq!(scan_listing(ListingKind::Paths, &text).binaries, want);
}

#[test]
fn given_lists_replace_found_ones_whole() {
    let found = manifest(&["a", "b"], &["x.desktop"]);
    assert_eq!(resolve_export_lists(found.clone(), &vec![], &vec![]), found);
    assert_eq!(resolve_export_lists(found.clone(), &strings(&["z"]), &vec![]), manifest(&["z"], &["x.desktop"]));
    assert_eq!(resolve_export_lists(found.clone(), &vec![], &strings(&["q", "p"])), manifest(&["a", "b"], &["q", "p"]));
    assert_eq!(resolve_export_lists(found, &strings(&["z"]), &strings(&["q"])), manifest(&["z"], &["q"]));
    assert_eq!(clone_strings(&strings(&["a", "b"])), strings(&["a", "b"]));
}

#[test]
fn only_files_directly_under_the_directory_are_binaries() {
    let text = "/usr/bin/top\n/usr/bin/sub/tool\n/usr/bin/a/b/c\n/usr/bin/sub/\n/usr/bin//x\n";
    assert_eq!(scan_listing(ListingKind::Paths, text), manifest(&["top"], &[]));
    let text = "-rwxr-xr-x root/root 1 2024-01-01 00:00 ./usr/bin/sub/tool\n-rwxr-xr-x root/root 1 2024-01-01 00:00 ./usr/bin/top\n";
    assert_eq!(scan_listing(ListingKind::Archive, text), manifest(&["top"], &[]));
}
