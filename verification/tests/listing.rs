use pkgbridge::distro::{
    classify_command, create_command, enter_command, enter_status, list_command, Capture,
    Command, DistroBox,
};
use pkgbridge::error::ErrorKind;
use pkgbridge::listing::{box_from_json, discover_boxes, json_is_array, json_usable, parse_boxes_plain};

fn bx(name: &str, image: Option<&str>) -> DistroBox {
    DistroBox { name: name.to_string(), image: image.map(|s| s.to_string()), runtime: "unknown".to_string() }
}

fn out(stdout: &str, success: bool) -> Capture {
    Capture { success, stdout: stdout.to_string(), stderr: String::new() }
}

fn cmd(program: &str, args: &[&str]) -> Command {
    Command { program: program.to_string(), args: args.iter().map(|s| s.to_string()).collect() }
}

#[test]
fn table_with_bars() {
    let text = "ID           | NAME                 | STATUS             | IMAGE\n\
                2d5f6a7b8c9d | debian-stable        | Up 2 hours         | docker.io/library/debian:stable\n\
                aabbccddeeff | fedora-latest        | Exited (0) 3d ago  | registry.fedoraproject.org/fedora:latest\n";
    assert_eq!(
        parse_boxes_plain(text),
        vec![
            bx("debian-stable", Some("docker.io/library/debian:stable")),
            bx("fedora-latest", Some("registry.fedoraproject.org/fedora:latest")),
        ]
    );
}

#[test]
fn table_with_rules_and_short_rows() {
    let text = "+----+------+\n| id | name | status | image |\n----|----\n x | one \n y | | z | img\n | two | up\n\n";
    assert_eq!(parse_boxes_plain(text), vec![bx("one", None), bx("two", None)]);
    assert_eq!(parse_boxes_plain("a | NAME | b | c\n"), vec![]);
    assert_eq!(parse_boxes_plain("a | b | c | d | e\n"), vec![bx("b", Some("d"))]);
}

#[test]
fn rows_of_words() {
    let text = "NAME IMAGE\nmybox docker.io/library/debian:stable\nother\nCreated 2 days\n";
    assert_eq!(
        parse_boxes_plain(text),
        vec![bx("mybox", Some("docker.io/library/debian:stable")), bx("other", None)]
    );
    assert_eq!(parse_boxes_plain("CONTAINER ID  NAME\n+---+\nid\nID\n"), vec![]);
    assert_eq!(parse_boxes_plain("name x\nx y z\n"), vec![bx("x", Some("y"))]);
}

#[test]
fn rows_of_words_after_a_heading_with_bars() {
    let text = "ID | NAME | STATUS | IMAGE\n2d5f6a7b8c9d mybox Up img:1\nshort next Up img:2\n123456 named\n1234567\n";
    assert_eq!(
        parse_boxes_plain(text),
        vec![
            bx("mybox", Some("img:1")),
            bx("short", Some("next")),
            bx("named", None),
            bx("1234567", None),
        ]
    );
    // without the heading the first word is the name
    assert_eq!(parse_boxes_plain("2d5f6a7b8c9d mybox Up img:1\n"), vec![bx("2d5f6a7b8c9d", Some("mybox"))]);
}

#[test]
fn nothing_listed() {
    assert_eq!(parse_boxes_plain(""), vec![]);
    assert_eq!(parse_boxes_plain("\n  \n\t\n"), vec![]);
}

#[test]
fn structured_listing_helpers() {
    assert!(json_is_array("  \n[ {\"name\": \"a\"} ]"));
    assert!(json_is_array("[]"));
    assert!(!json_is_array("{\"containers\": []}"));
    assert!(!json_is_array(""));
    assert!(!json_is_array("   "));
    assert_eq!(
        box_from_json("a".to_string(), Some("img".to_string()), None),
        DistroBox { name: "a".to_string(), image: Some("img".to_string()), runtime: "unknown".to_string() }
    );
    assert_eq!(
        box_from_json("a".to_string(), None, Some("podman".to_string())),
        DistroBox { name: "a".to_string(), image: None, runtime: "podman".to_string() }
    );
    assert!(json_usable(Some(&out("[]", true))));
    assert!(!json_usable(Some(&out("[]", false))));
    assert!(!json_usable(Some(&out(" \n", true))));
    assert!(!json_usable(None));
}

#[test]
fn discovery_prefers_the_structured_listing() {
    let parsed = vec![box_from_json("j".to_string(), None, Some("podman".to_string()))];
    let plain = out("p img\n", true);
    assert_eq!(discover_boxes(Some(&out("[..]", true)), Some(parsed.clone()), Some(&plain)), parsed);
    assert_eq!(discover_boxes(Some(&out("[..]", true)), Some(parsed.clone()), None), parsed);
    // structured listing failed, was empty, or could not be read
    assert_eq!(discover_boxes(Some(&out("[..]", false)), Some(parsed.clone()), Some(&plain)), vec![bx("p", Some("img"))]);
    assert_eq!(discover_boxes(Some(&out("", true)), Some(parsed.clone()), Some(&plain)), vec![bx("p", Some("img"))]);
    assert_eq!(discover_boxes(Some(&out("{", true)), None, Some(&plain)), vec![bx("p", Some("img"))]);
    assert_eq!(discover_boxes(None, None, Some(&plain)), vec![bx("p", Some("img"))]);
}

#[test]
fn discovery_never_fails() {
    assert_eq!(discover_boxes(None, None, None), vec![]);
    assert_eq!(discover_boxes(None, None, Some(&out("p img\n", false))), vec![]);
    assert_eq!(discover_boxes(Some(&out("x", false)), None, None), vec![]);
    assert_eq!(discover_boxes(None, None, Some(&out("", true))), vec![]);
}

#[test]
fn commands_of_the_container_tool() {
    assert_eq!(
        enter_command("b", "echo hi", false),
        cmd("distrobox", &["enter", "-n", "b", "--", "sh", "-lc", "echo hi"])
    );
    assert_eq!(
        enter_command("b", "true", true),
        cmd("distrobox", &["enter", "--root", "-n", "b", "--", "sh", "-lc", "true"])
    );
    assert_eq!(
        create_command("debian-stable", "docker.io/library/debian:stable"),
        cmd("distrobox", &["create", "--name", "debian-stable", "--image", "docker.io/library/debian:stable", "-Y", "--yes"])
    );
    assert_eq!(list_command(true), cmd("distrobox", &["list", "--json"]));
    assert_eq!(list_command(false), cmd("distrobox", &["list"]));
    assert_eq!(
        classify_command("b"),
        cmd("distrobox", &["enter", "-n", "b", "--", "sh", "-lc", "cat /etc/os-release 2>/dev/null || true"])
    );
}

#[test]
fn status_of_a_command_inside() {
    assert_eq!(enter_status("b", "true", Some(&out("", true))).unwrap(), true);
    assert_eq!(enter_status("b", "false", Some(&out("", false))).unwrap(), false);
    let e = enter_status("b", "ls -l", None).unwrap_err();
    assert_eq!(e.kind, ErrorKind::NotFound);
    assert_eq!(e.message, "entering box b to run: ls -l");
}
