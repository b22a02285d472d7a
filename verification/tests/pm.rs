use pkgbridge::config::Config;
use pkgbridge::distro::Family;
use pkgbridge::export::Shim;
use pkgbridge::pm::{
    alternative_name, build_bootstrap_script, build_shim_script, default_box_for_family_key,
    ensure_bindir_on_path, family_key, generate_bootstrap_shims_into, generate_shim_with_policy,
    host_bin_dir, managers_for_family_key, profile_needs_write, sanitize, set_default,
    show_defaults, snippet_needs_write, HostManagers, PathSetup, ShimChoice,
};

#[test]
fn shim_scripts() {
    assert_eq!(build_shim_script("apt", "debian-stable", "debian"), "#!/usr/bin/env sh\nset -e\nbox=\"debian-stable\"\nfam=\"debian\"\n# Fast-path readonly queries without sudo to avoid prompts\ncase \"$1\" in\n  --version|-v|--help|-h)\n    exec distrobox enter -n \"$box\" -- apt \"$@\";;\n  *) ;;\nesac\n# Pre-transaction snapshot\npkgbridge pm snapshot --family \"$fam\" --container \"$box\" >/dev/null 2>&1 || true\nstatus=0\n# Run inside container as user; prefer sudo, then doas, else non-root (may fail)\nif distrobox enter -n \"$box\" -- sh -lc 'command -v sudo >/dev/null' >/dev/null 2>&1; then\n  # If passwordless sudo works, great; otherwise allow interactive prompt\n  if distrobox enter -n \"$box\" -- sudo -n true >/dev/null 2>&1; then\n    distrobox enter -n \"$box\" -- sudo apt \"$@\" || status=$?\n  else\n    distrobox enter -n \"$box\" -- sudo apt \"$@\" || status=$?\n  fi\nelif distrobox enter -n \"$box\" -- sh -lc 'command -v doas >/dev/null' >/dev/null 2>&1; then\n  distrobox enter -n \"$box\" -- doas apt \"$@\" || status=$?\nelse\n  distrobox enter -n \"$box\" -- apt \"$@\" || status=$?\nfi\n# Post-transaction export\npkgbridge pm post-transaction --family \"$fam\" --container \"$box\" >/dev/null 2>&1 || true\nexit $status\n");
    assert_eq!(build_shim_script("dnf", "my box", "fedora"), "#!/usr/bin/env sh\nset -e\nbox=\"my box\"\nfam=\"fedora\"\n# Fast-path readonly queries without sudo to avoid prompts\ncase \"$1\" in\n  --version|-v|--help|-h)\n    exec distrobox enter -n \"$box\" -- dnf \"$@\";;\n  *) ;;\nesac\n# Pre-transaction snapshot\npkgbridge pm snapshot --family \"$fam\" --container \"$box\" >/dev/null 2>&1 || true\nstatus=0\n# Run inside container as user; prefer sudo, then doas, else non-root (may fail)\nif distrobox enter -n \"$box\" -- sh -lc 'command -v sudo >/dev/null' >/dev/null 2>&1; then\n  # If passwordless sudo works, great; otherwise allow interactive prompt\n  if distrobox enter -n \"$box\" -- sudo -n true >/dev/null 2>&1; then\n    distrobox enter -n \"$box\" -- sudo dnf \"$@\" || status=$?\n  else\n    distrobox enter -n \"$box\" -- sudo dnf \"$@\" || status=$?\n  fi\nelif distrobox enter -n \"$box\" -- sh -lc 'command -v doas >/dev/null' >/dev/null 2>&1; then\n  distrobox enter -n \"$box\" -- doas dnf \"$@\" || status=$?\nelse\n  distrobox enter -n \"$box\" -- dnf \"$@\" || status=$?\nfi\n# Post-transaction export\npkgbridge pm post-transaction --family \"$fam\" --container \"$box\" >/dev/null 2>&1 || true\nexit $status\n");
}

#[test]
fn bootstrap_scripts() {
    assert_eq!(build_bootstrap_script("debian", "apt"), "#!/usr/bin/env sh\nset -e\nfam=\"debian\"\nmgr=\"apt\"\ndef_name=\"debian-stable\"\ndef_img=\"docker.io/library/debian:stable\"\n# If a default exists, use it; else offer to create one\nbox=$(pkgbridge pm show-defaults 2>/dev/null | awk -v f=\"$fam\" '$1==f && $2==\"=>\" {print $3; exit}')\nif [ -z \"$box\" ]; then\n  if [ -t 0 ]; then\n    echo \"pkgbridge: '$mgr' not found on host.\"\n    printf \"Create a %s box '%s' from '%s' and run '%s' from it? [Y/n] \" \"$fam\" \"$def_name\" \"$def_img\" \"$mgr\"\n    read ans || true\n    case \"$ans\" in \n      ''|y|Y|yes|YES)\n        distrobox create --name \"$def_name\" --image \"$def_img\" -Y --yes\n        pkgbridge pm set-default \"$fam\" \"$def_name\"\n        box=\"$def_name\"\n        ;;\n      *) echo \"Aborting.\"; exit 1;;\n    esac\n  else\n    echo \"pkgbridge: no default $fam container; run: pkgbridge pm set-default $fam $def_name; then pkgbridge pm generate-shims\"\n    exit 1\n  fi\nfi\n# Hand off to proper shim behavior (snapshot + sudo inside box)\npkgbridge pm snapshot --family \"$fam\" --container \"$box\" >/dev/null 2>&1 || true\nstatus=0\nif distrobox enter -n \"$box\" -- sh -lc 'command -v sudo >/dev/null' >/dev/null 2>&1; then\n  if distrobox enter -n \"$box\" -- sudo -n true >/dev/null 2>&1; then\n    distrobox enter -n \"$box\" -- sudo apt \"$@\" || status=$?\n  else\n    distrobox enter -n \"$box\" -- sudo apt \"$@\" || status=$?\n  fi\nelif distrobox enter -n \"$box\" -- sh -lc 'command -v doas >/dev/null' >/dev/null 2>&1; then\n  distrobox enter -n \"$box\" -- doas apt \"$@\" || status=$?\nelse\n  distrobox enter -n \"$box\" -- apt \"$@\" || status=$?\nfi\npkgbridge pm post-transaction --family \"$fam\" --container \"$box\" >/dev/null 2>&1 || true\nexit $status\n");
    assert_eq!(build_bootstrap_script("debian", "apt-get"), "#!/usr/bin/env sh\nset -e\nfam=\"debian\"\nmgr=\"apt-get\"\ndef_name=\"debian-stable\"\ndef_img=\"docker.io/library/debian:stable\"\n# If a default exists, use it; else offer to create one\nbox=$(pkgbridge pm show-defaults 2>/dev/null | awk -v f=\"$fam\" '$1==f && $2==\"=>\" {print $3; exit}')\nif [ -z \"$box\" ]; then\n  if [ -t 0 ]; then\n    echo \"pkgbridge: '$mgr' not found on host.\"\n    printf \"Create a %s box '%s' from '%s' and run '%s' from it? [Y/n] \" \"$fam\" \"$def_name\" \"$def_img\" \"$mgr\"\n    read ans || true\n    case \"$ans\" in \n      ''|y|Y|yes|YES)\n        distrobox create --name \"$def_name\" --image \"$def_img\" -Y --yes\n        pkgbridge pm set-default \"$fam\" \"$def_name\"\n        box=\"$def_name\"\n        ;;\n      *) echo \"Aborting.\"; exit 1;;\n    esac\n  else\n    echo \"pkgbridge: no default $fam container; run: pkgbridge pm set-default $fam $def_name; then pkgbridge pm generate-shims\"\n    exit 1\n  fi\nfi\n# Hand off to proper shim behavior (snapshot + sudo inside box)\npkgbridge pm snapshot --family \"$fam\" --container \"$box\" >/dev/null 2>&1 || true\nstatus=0\nif distrobox enter -n \"$box\" -- sh -lc 'command -v sudo >/dev/null' >/dev/null 2>&1; then\n  if distrobox enter -n \"$box\" -- sudo -n true >/dev/null 2>&1; then\n    distrobox enter -n \"$box\" -- sudo apt-get \"$@\" || status=$?\n  else\n    distrobox enter -n \"$box\" -- sudo apt-get \"$@\" || status=$?\n  fi\nelif distrobox enter -n \"$box\" -- sh -lc 'command -v doas >/dev/null' >/dev/null 2>&1; then\n  distrobox enter -n \"$box\" -- doas apt-get \"$@\" || status=$?\nelse\n  distrobox enter -n \"$box\" -- apt-get \"$@\" || status=$?\nfi\npkgbridge pm post-transaction --family \"$fam\" --container \"$box\" >/dev/null 2>&1 || true\nexit $status\n");
    assert_eq!(build_bootstrap_script("fedora", "dnf"), "#!/usr/bin/env sh\nset -e\nfam=\"fedora\"\nmgr=\"dnf\"\ndef_name=\"fedora-latest\"\ndef_img=\"registry.fedoraproject.org/fedora:latest\"\n# If a default exists, use it; else offer to create one\nbox=$(pkgbridge pm show-defaults 2>/dev/null | awk -v f=\"$fam\" '$1==f && $2==\"=>\" {print $3; exit}')\nif [ -z \"$box\" ]; then\n  if [ -t 0 ]; then\n    echo \"pkgbridge: '$mgr' not found on host.\"\n    printf \"Create a %s box '%s' from '%s' and run '%s' from it? [Y/n] \" \"$fam\" \"$def_name\" \"$def_img\" \"$mgr\"\n    read ans || true\n    case \"$ans\" in \n      ''|y|Y|yes|YES)\n        distrobox create --name \"$def_name\" --image \"$def_img\" -Y --yes\n        pkgbridge pm set-default \"$fam\" \"$def_name\"\n        box=\"$def_name\"\n        ;;\n      *) echo \"Aborting.\"; exit 1;;\n    esac\n  else\n    echo \"pkgbridge: no default $fam container; run: pkgbridge pm set-default $fam $def_name; then pkgbridge pm generate-shims\"\n    exit 1\n  fi\nfi\n# Hand off to proper shim behavior (snapshot + sudo inside box)\npkgbridge pm snapshot --family \"$fam\" --container \"$box\" >/dev/null 2>&1 || true\nstatus=0\nif distrobox enter -n \"$box\" -- sh -lc 'command -v sudo >/dev/null' >/dev/null 2>&1; then\n  if distrobox enter -n \"$box\" -- sudo -n true >/dev/null 2>&1; then\n    distrobox enter -n \"$box\" -- sudo dnf \"$@\" || status=$?\n  else\n    distrobox enter -n \"$box\" -- sudo dnf \"$@\" || status=$?\n  fi\nelif distrobox enter -n \"$box\" -- sh -lc 'command -v doas >/dev/null' >/dev/null 2>&1; then\n  distrobox enter -n \"$box\" -- doas dnf \"$@\" || status=$?\nelse\n  distrobox enter -n \"$box\" -- dnf \"$@\" || status=$?\nfi\npkgbridge pm post-transaction --family \"$fam\" --container \"$box\" >/dev/null 2>&1 || true\nexit $status\n");
    assert_eq!(build_bootstrap_script("opensuse", "zypper"), "#!/usr/bin/env sh\nset -e\nfam=\"opensuse\"\nmgr=\"zypper\"\ndef_name=\"opensuse-tumbleweed\"\ndef_img=\"registry.opensuse.org/opensuse/tumbleweed:latest\"\n# If a default exists, use it; else offer to create one\nbox=$(pkgbridge pm show-defaults 2>/dev/null | awk -v f=\"$fam\" '$1==f && $2==\"=>\" {print $3; exit}')\nif [ -z \"$box\" ]; then\n  if [ -t 0 ]; then\n    echo \"pkgbridge: '$mgr' not found on host.\"\n    printf \"Create a %s box '%s' from '%s' and run '%s' from it? [Y/n] \" \"$fam\" \"$def_name\" \"$def_img\" \"$mgr\"\n    read ans || true\n    case \"$ans\" in \n      ''|y|Y|yes|YES)\n        distrobox create --name \"$def_name\" --image \"$def_img\" -Y --yes\n        pkgbridge pm set-default \"$fam\" \"$def_name\"\n        box=\"$def_name\"\n        ;;\n      *) echo \"Aborting.\"; exit 1;;\n    esac\n  else\n    echo \"pkgbridge: no default $fam container; run: pkgbridge pm set-default $fam $def_name; then pkgbridge pm generate-shims\"\n    exit 1\n  fi\nfi\n# Hand off to proper shim behavior (snapshot + sudo inside box)\npkgbridge pm snapshot --family \"$fam\" --container \"$box\" >/dev/null 2>&1 || true\nstatus=0\nif distrobox enter -n \"$box\" -- sh -lc 'command -v sudo >/dev/null' >/dev/null 2>&1; then\n  if distrobox enter -n \"$box\" -- sudo -n true >/dev/null 2>&1; then\n    distrobox enter -n \"$box\" -- sudo zypper \"$@\" || status=$?\n  else\n    distrobox enter -n \"$box\" -- sudo zypper \"$@\" || status=$?\n  fi\nelif distrobox enter -n \"$box\" -- sh -lc 'command -v doas >/dev/null' >/dev/null 2>&1; then\n  distrobox enter -n \"$box\" -- doas zypper \"$@\" || status=$?\nelse\n  distrobox enter -n \"$box\" -- zypper \"$@\" || status=$?\nfi\npkgbridge pm post-transaction --family \"$fam\" --container \"$box\" >/dev/null 2>&1 || true\nexit $status\n");
    assert_eq!(build_bootstrap_script("arch", "pacman"), "#!/usr/bin/env sh\nset -e\nfam=\"arch\"\nmgr=\"pacman\"\ndef_name=\"arch\"\ndef_img=\"docker.io/library/archlinux:latest\"\n# If a default exists, use it; else offer to create one\nbox=$(pkgbridge pm show-defaults 2>/dev/null | awk -v f=\"$fam\" '$1==f && $2==\"=>\" {print $3; exit}')\nif [ -z \"$box\" ]; then\n  if [ -t 0 ]; then\n    echo \"pkgbridge: '$mgr' not found on host.\"\n    printf \"Create a %s box '%s' from '%s' and run '%s' from it? [Y/n] \" \"$fam\" \"$def_name\" \"$def_img\" \"$mgr\"\n    read ans || true\n    case \"$ans\" in \n      ''|y|Y|yes|YES)\n        distrobox create --name \"$def_name\" --image \"$def_img\" -Y --yes\n        pkgbridge pm set-default \"$fam\" \"$def_name\"\n        box=\"$def_name\"\n        ;;\n      *) echo \"Aborting.\"; exit 1;;\n    esac\n  else\n    echo \"pkgbridge: no default $fam container; run: pkgbridge pm set-default $fam $def_name; then pkgbridge pm generate-shims\"\n    exit 1\n  fi\nfi\n# Hand off to proper shim behavior (snapshot + sudo inside box)\npkgbridge pm snapshot --family \"$fam\" --container \"$box\" >/dev/null 2>&1 || true\nstatus=0\nif distrobox enter -n \"$box\" -- sh -lc 'command -v sudo >/dev/null' >/dev/null 2>&1; then\n  if distrobox enter -n \"$box\" -- sudo -n true >/dev/null 2>&1; then\n    distrobox enter -n \"$box\" -- sudo pacman \"$@\" || status=$?\n  else\n    distrobox enter -n \"$box\" -- sudo pacman \"$@\" || status=$?\n  fi\nelif distrobox enter -n \"$box\" -- sh -lc 'command -v doas >/dev/null' >/dev/null 2>&1; then\n  distrobox enter -n \"$box\" -- doas pacman \"$@\" || status=$?\nelse\n  distrobox enter -n \"$box\" -- pacman \"$@\" || status=$?\nfi\npkgbridge pm post-transaction --family \"$fam\" --container \"$box\" >/dev/null 2>&1 || true\nexit $status\n");
    assert_eq!(build_bootstrap_script("other", "xyz"), "#!/usr/bin/env sh\nset -e\nfam=\"other\"\nmgr=\"xyz\"\ndef_name=\"distro\"\ndef_img=\"\"\n# If a default exists, use it; else offer to create one\nbox=$(pkgbridge pm show-defaults 2>/dev/null | awk -v f=\"$fam\" '$1==f && $2==\"=>\" {print $3; exit}')\nif [ -z \"$box\" ]; then\n  if [ -t 0 ]; then\n    echo \"pkgbridge: '$mgr' not found on host.\"\n    printf \"Create a %s box '%s' from '%s' and run '%s' from it? [Y/n] \" \"$fam\" \"$def_name\" \"$def_img\" \"$mgr\"\n    read ans || true\n    case \"$ans\" in \n      ''|y|Y|yes|YES)\n        distrobox create --name \"$def_name\" --image \"$def_img\" -Y --yes\n        pkgbridge pm set-default \"$fam\" \"$def_name\"\n        box=\"$def_name\"\n        ;;\n      *) echo \"Aborting.\"; exit 1;;\n    esac\n  else\n    echo \"pkgbridge: no default $fam container; run: pkgbridge pm set-default $fam $def_name; then pkgbridge pm generate-shims\"\n    exit 1\n  fi\nfi\n# Hand off to proper shim behavior (snapshot + sudo inside box)\npkgbridge pm snapshot --family \"$fam\" --container \"$box\" >/dev/null 2>&1 || true\nstatus=0\nif distrobox enter -n \"$box\" -- sh -lc 'command -v sudo >/dev/null' >/dev/null 2>&1; then\n  if distrobox enter -n \"$box\" -- sudo -n true >/dev/null 2>&1; then\n    distrobox enter -n \"$box\" -- sudo xyz \"$@\" || status=$?\n  else\n    distrobox enter -n \"$box\" -- sudo xyz \"$@\" || status=$?\n  fi\nelif distrobox enter -n \"$box\" -- sh -lc 'command -v doas >/dev/null' >/dev/null 2>&1; then\n  distrobox enter -n \"$box\" -- doas xyz \"$@\" || status=$?\nelse\n  distrobox enter -n \"$box\" -- xyz \"$@\" || status=$?\nfi\npkgbridge pm post-transaction --family \"$fam\" --container \"$box\" >/dev/null 2>&1 || true\nexit $status\n");
}

#[test]
fn bootstrap_shims_for_missing_managers() {
    let all = generate_bootstrap_shims_into(HostManagers::default());
    assert_eq!(all, vec![
        Shim { name: "apt".to_string(), content: build_bootstrap_script("debian", "apt") },
        Shim { name: "apt-get".to_string(), content: build_bootstrap_script("debian", "apt-get") },
        Shim { name: "dnf".to_string(), content: build_bootstrap_script("fedora", "dnf") },
        Shim { name: "zypper".to_string(), content: build_bootstrap_script("opensuse", "zypper") },
        Shim { name: "pacman".to_string(), content: build_bootstrap_script("arch", "pacman") },
    ]);
    let some = generate_bootstrap_shims_into(HostManagers { apt: true, apt_get: true, dnf: false, zypper: true, pacman: false });
    let names: Vec<&str> = some.iter().map(|s| s.name.as_str()).collect();
    assert_eq!(names, vec!["dnf", "pacman"]);
    let none = generate_bootstrap_shims_into(HostManagers { apt: true, apt_get: true, dnf: true, zypper: true, pacman: true });
    assert!(none.is_empty());
}

#[test]
fn family_keys_and_their_managers() {
    assert_eq!(family_key(Family::Debian), "debian");
    assert_eq!(family_key(Family::Fedora), "fedora");
    assert_eq!(family_key(Family::OpenSuse), "opensuse");
    assert_eq!(family_key(Family::Arch), "arch");
    assert_eq!(default_box_for_family_key("debian"), ("debian-stable", "docker.io/library/debian:stable"));
    assert_eq!(default_box_for_family_key("ubuntu"), ("debian-stable", "docker.io/library/debian:stable"));
    assert_eq!(default_box_for_family_key("fedora"), ("fedora-latest", "registry.fedoraproject.org/fedora:latest"));
    assert_eq!(default_box_for_family_key("opensuse"), ("opensuse-tumbleweed", "registry.opensuse.org/opensuse/tumbleweed:latest"));
    assert_eq!(default_box_for_family_key("arch"), ("arch", "docker.io/library/archlinux:latest"));
    assert_eq!(default_box_for_family_key("Debian"), ("distro", ""));
    assert_eq!(default_box_for_family_key(""), ("distro", ""));
    assert_eq!(managers_for_family_key("debian"), vec!["apt", "apt-get"]);
    assert_eq!(managers_for_family_key("ubuntu"), vec!["apt", "apt-get"]);
    assert_eq!(managers_for_family_key("fedora"), vec!["dnf"]);
    assert_eq!(managers_for_family_key("opensuse"), vec!["zypper"]);
    assert_eq!(managers_for_family_key("arch"), vec!["pacman"]);
    assert_eq!(managers_for_family_key("gentoo"), Vec::<String>::new());
}

#[test]
fn defaults_are_set_and_shown() {
    let mut cfg = Config::new();
    assert!(cfg.is_empty());
    assert_eq!(show_defaults(&cfg), vec![]);
    set_default(&mut cfg, Family::Debian, "deb1");
    set_default(&mut cfg, Family::Arch, "arch1");
    assert!(!cfg.is_empty());
    assert_eq!(cfg.get("debian"), Some(&"deb1".to_string()));
    assert_eq!(cfg.get("arch"), Some(&"arch1".to_string()));
    assert_eq!(cfg.get("fedora"), None);
    set_default(&mut cfg, Family::Debian, "deb2");
    assert_eq!(cfg.get("debian"), Some(&"deb2".to_string()));
    let mut shown = show_defaults(&cfg);
    shown.sort();
    assert_eq!(shown, vec![("arch".to_string(), "arch1".to_string()), ("debian".to_string(), "deb2".to_string())]);
    cfg.insert("ubuntu", "u");
    cfg.insert("ubuntu", "v");
    assert_eq!(cfg.entries().len(), 3);
    assert_eq!(cfg.get("ubuntu"), Some(&"v".to_string()));
}

#[test]
fn names_are_sanitized() {
    assert_eq!(sanitize("my box.1_ok-2"), "my-box-1_ok-2");
    assert_eq!(sanitize(""), "");
    assert_eq!(sanitize("é/"), "--");
    assert_eq!(alternative_name("apt", "my box"), "apt-my-box");
}

#[test]
fn shim_policy() {
    // the host has the manager: never shadow it
    assert_eq!(
        generate_shim_with_policy("apt", "my box", true, false, false),
        ShimChoice::Write { wrapper: "apt-my-box".to_string(), notice: Some("Host has 'apt'; created 'apt-my-box' instead".to_string()) }
    );
    assert_eq!(generate_shim_with_policy("apt", "b", true, true, false),
        ShimChoice::Write { wrapper: "apt-b".to_string(), notice: Some("Host has 'apt'; created 'apt-b' instead".to_string()) });
    assert_eq!(generate_shim_with_policy("apt", "b", true, false, true), ShimChoice::Nothing);
    assert_eq!(generate_shim_with_policy("apt", "b", true, true, true), ShimChoice::Nothing);
    // a file of that name exists: never write over it
    assert_eq!(
        generate_shim_with_policy("dnf", "b", false, true, false),
        ShimChoice::Write { wrapper: "dnf-b".to_string(), notice: Some("'dnf' exists; created 'dnf-b' as well".to_string()) }
    );
    assert_eq!(generate_shim_with_policy("dnf", "b", false, true, true), ShimChoice::Nothing);
    // the name is free
    assert_eq!(generate_shim_with_policy("dnf", "b", false, false, false), ShimChoice::Write { wrapper: "dnf".to_string(), notice: None });
    assert_eq!(generate_shim_with_policy("dnf", "b", false, false, true), ShimChoice::Write { wrapper: "dnf".to_string(), notice: None });
}

#[test]
fn search_path_setup() {
    assert_eq!(ensure_bindir_on_path(Some("/usr/bin:/home/me/.local/bin:/bin"), "/home/me/.local/bin", Some("/home/me"), Some("/bin/bash"), false), PathSetup::Nothing);
    assert_eq!(
        ensure_bindir_on_path(Some("/usr/bin:/bin"), "/home/me/.local/bin", Some("/home/me"), Some("/usr/bin/fish"), false),
        PathSetup::FishSnippet {
            dir: "/home/me/.config/fish/conf.d".to_string(),
            file: "/home/me/.config/fish/conf.d/pkgbridge.fish".to_string(),
            content: "# Added by pkgbridge: ensure user bin dir on PATH\nfish_add_path -g /home/me/.local/bin\n".to_string(),
        }
    );
    assert_eq!(
        ensure_bindir_on_path(None, "/home/me/.local/bin", None, None, true),
        PathSetup::FishSnippet {
            dir: "./.config/fish/conf.d".to_string(),
            file: "./.config/fish/conf.d/pkgbridge.fish".to_string(),
            content: "# Added by pkgbridge: ensure user bin dir on PATH\nfish_add_path -g /home/me/.local/bin\n".to_string(),
        }
    );
    assert_eq!(
        ensure_bindir_on_path(Some("/usr/bin:/home/me/.local/bin/x"), "/home/me/.local/bin", Some("/home/me"), Some("/bin/zsh"), false),
        PathSetup::Profile { file: "/home/me/.profile".to_string(), block: "# pkgbridge: add user bin to PATH\nif [ -d \"/home/me/.local/bin\" ] && ! printf %s \"\n:$PATH:\n\" | grep -q \"\n:/home/me/.local/bin:\n\"; then\n  export PATH=\"/home/me/.local/bin:$PATH\"\nfi\n".to_string() }
    );
    assert_eq!(
        ensure_bindir_on_path(Some(""), "/home/me/.local/bin", None, None, false),
        PathSetup::Profile { file: "./.profile".to_string(), block: "# pkgbridge: add user bin to PATH\nif [ -d \"/home/me/.local/bin\" ] && ! printf %s \"\n:$PATH:\n\" | grep -q \"\n:/home/me/.local/bin:\n\"; then\n  export PATH=\"/home/me/.local/bin:$PATH\"\nfi\n".to_string() }
    );
}

#[test]
fn what_needs_writing() {
    assert!(snippet_needs_write(None, "x\n"));
    assert!(!snippet_needs_write(Some("  x \n\n"), "x\n"));
    assert!(snippet_needs_write(Some("y"), "x\n"));
    assert!(profile_needs_write(None, "/d"));
    assert!(profile_needs_write(Some("export A=1\n"), "/d"));
    assert!(!profile_needs_write(Some("PATH=/d:$PATH\n"), "/d"));
    assert!(!profile_needs_write(Some("x\n# pkgbridge: add user bin to PATH\n"), "/other"));
    assert_eq!(host_bin_dir(Some("/xdg/bin"), Some("/home/me")), "/xdg/bin");
    assert_eq!(host_bin_dir(None, Some("/home/me")), "/home/me/.local/bin");
    assert_eq!(host_bin_dir(None, None), "./.local/bin");
    assert_eq!(host_bin_dir(None, Some("")), "/.local/bin");
}
