use pkgbridge::distro::{Capture, Family};
use pkgbridge::error::ErrorKind;
use pkgbridge::release::{
    classify_box_family, classify_ids, classify_release, parse_os_release, read_release, unquote,
    Release,
};

fn out(stdout: &str, success: bool) -> Capture {
    Capture { success, stdout: stdout.to_string(), stderr: String::new() }
}

#[test]
fn quotes_are_stripped() {
    assert_eq!(unquote("\"ubuntu\""), "ubuntu");
    assert_eq!(unquote("'debian'"), "debian");
    assert_eq!(unquote("  fedora  "), "fedora");
    assert_eq!(unquote(" \"a b\" "), "a b");
    assert_eq!(unquote("\"mixed'"), "\"mixed'");
    assert_eq!(unquote("\"\""), "");
    assert_eq!(unquote("\""), "\"");
    assert_eq!(unquote(""), "");
}

#[test]
fn release_file_is_read() {
    let text = "# comment\nNAME=\"Ubuntu\"\nID=ubuntu\nID_LIKE=debian\nVERSION_ID=\"22.04\"\n";
    assert_eq!(parse_os_release(text), (Some("ubuntu".to_string()), vec!["debian".to_string()]));
    let text = "  ID=\"Rocky\"  \nID_LIKE=\"RHEL centos  fedora\"\n";
    assert_eq!(
        parse_os_release(text),
        (Some("rocky".to_string()), vec!["rhel".to_string(), "centos".to_string(), "fedora".to_string()])
    );
    assert_eq!(parse_os_release(""), (None, vec![]));
    assert_eq!(parse_os_release("ID=a\nID=b\n"), (Some("b".to_string()), vec![]));
    assert_eq!(
        parse_os_release("ID_LIKE=a\nID_LIKE='b c'\n"),
        (None, vec!["a".to_string(), "b".to_string(), "c".to_string()])
    );
    assert_eq!(parse_os_release("#ID=debian\nXID=debian\n"), (None, vec![]));
}

#[test]
fn ubuntu_is_debian() {
    assert_eq!(classify_release("ID=ubuntu\n"), Some(Family::Debian));
    assert_eq!(classify_release("NAME=x\nID=ubuntu\nID_LIKE=\"fedora\"\n"), Some(Family::Debian));
}

#[test]
fn debian_like_is_debian() {
    assert_eq!(classify_release("ID=linuxmint\nID_LIKE=\"debian\"\n"), Some(Family::Debian));
    assert_eq!(classify_release("ID=fedora\nID_LIKE=\"debian\"\n"), Some(Family::Debian));
    assert_eq!(classify_release("ID_LIKE=\"ubuntu debian\"\n"), Some(Family::Debian));
}

#[test]
fn each_family_by_its_identifiers() {
    let none: Option<String> = None;
    for (id, fam) in [
        ("debian", Family::Debian),
        ("ubuntu", Family::Debian),
        ("fedora", Family::Fedora),
        ("rhel", Family::Fedora),
        ("centos", Family::Fedora),
        ("opensuse", Family::OpenSuse),
        ("sles", Family::OpenSuse),
        ("suse", Family::OpenSuse),
        ("arch", Family::Arch),
        ("manjaro", Family::Arch),
        ("endeavouros", Family::Arch),
    ] {
        assert_eq!(classify_ids(&Some(id.to_string()), &vec![]), Some(fam), "{}", id);
        assert_eq!(classify_ids(&none, &vec!["x".to_string(), id.to_string()]), Some(fam), "{}", id);
    }
    assert_eq!(classify_ids(&none, &vec![]), None);
    assert_eq!(classify_ids(&Some("alpine".to_string()), &vec!["musl".to_string()]), None);
    assert_eq!(classify_ids(&Some("opensuse-tumbleweed".to_string()), &vec![]), None);
    assert_eq!(
        classify_ids(&Some("opensuse-tumbleweed".to_string()), &vec!["opensuse".to_string(), "suse".to_string()]),
        Some(Family::OpenSuse)
    );
}

#[test]
fn first_family_wins() {
    assert_eq!(
        classify_ids(&Some("arch".to_string()), &vec!["suse".to_string(), "rhel".to_string()]),
        Some(Family::Fedora)
    );
    assert_eq!(
        classify_ids(&Some("arch".to_string()), &vec!["suse".to_string()]),
        Some(Family::OpenSuse)
    );
}

#[test]
fn classification_of_a_container() {
    assert_eq!(classify_box_family("b", Some(&out("ID=fedora\n", true))).unwrap(), Family::Fedora);
    let e = classify_box_family("b", Some(&out("ID=fedora\n", false))).unwrap_err();
    assert_eq!(e.kind, ErrorKind::ClassificationFailure);
    assert_eq!(e.message, "failed to enter box b to read /etc/os-release");
    let e = classify_box_family("b", None).unwrap_err();
    assert_eq!(e.kind, ErrorKind::ClassificationFailure);
    assert_eq!(e.message, "running 'distrobox enter' for b");
    let e = classify_box_family("my box", Some(&out("ID=alpine\n", true))).unwrap_err();
    assert_eq!(e.kind, ErrorKind::ClassificationFailure);
    assert_eq!(e.message, "could not classify family for box my box");
    let e = classify_box_family("b", Some(&out("", true))).unwrap_err();
    assert_eq!(e.message, "could not classify family for box b");
}

#[test]
fn every_identifier_counts() {
    assert_eq!(classify_release("ID=ubuntu\nID=fedora\n"), Some(Family::Debian));
    assert_eq!(classify_release("ID=fedora\nID=ubuntu\n"), Some(Family::Debian));
    assert_eq!(classify_release("ID=arch\nID=fedora\n"), Some(Family::Fedora));
    assert_eq!(classify_release("ID=fedora\nID=arch\nID_LIKE=suse\n"), Some(Family::Fedora));
    assert_eq!(classify_release("ID=alpine\nID=arch\n"), Some(Family::Arch));
    assert_eq!(classify_release("ID=alpine\nID=void\n"), None);
    assert_eq!(
        classify_box_family("b", Some(&out("NAME=x\nID=ubuntu\nVERSION=1\nID=\"fedora\"\n", true))).unwrap(),
        Family::Debian
    );
}

#[test]
fn release_file_with_all_its_identifiers() {
    assert_eq!(
        read_release("ID=Ubuntu\n# ID=x\nID_LIKE=\"debian  other\"\nID='fedora'\nID_LIKE=rhel\n"),
        Release {
            ids: vec!["ubuntu".to_string(), "fedora".to_string()],
            id_like: vec!["debian".to_string(), "other".to_string(), "rhel".to_string()],
        }
    );
    assert_eq!(read_release(""), Release::default());
    // the single identifier is the one given last
    assert_eq!(parse_os_release("ID=ubuntu\nID=fedora\n").0, Some("fedora".to_string()));
}
