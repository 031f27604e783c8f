use orbiter::config::{
    OSSpecificCommand, ShellSpecificCommand, ShellSpecificEvaluatable, ShellSpecificSourceTarget,
    SourceTarget, SupportedOSSpecificCommand, SupportedShellSpecificCommand,
};
use orbiter::hooks::{
    combine_output, extract, extract_asset, init, install, load, run_os_specific_shell_cmd,
    run_shell_specific_cmd, source_directive, src, ShellInvocation,
};
use orbiter::paths::{
    get_bin_dir_path, get_bin_file_path, get_dir, get_payload_config_dir_path,
    get_payload_current_install_dir_path, get_payload_dir_path, load_completion, update_path,
};
use orbiter::shells::SupportedShell;
use orbiter::shim::{get_basic_shim, get_func_name, get_shim_content, get_shim_path, symlink_directive};

fn inv(program: &str, flag: &str, command: &str) -> ShellInvocation {
    ShellInvocation { program: program.to_string(), flag: flag.to_string(), command: command.to_string() }
}

#[test]
fn hooks_run_in_the_current_shell() {
    let c = ShellSpecificCommand::Generic("echo 1.2.3".to_string());
    assert_eq!(init(SupportedShell::Zsh, "linux", &c), Some(inv("zsh", "-c", "echo 1.2.3")));
    assert_eq!(install(SupportedShell::PowerShell, "windows", &c), Some(inv("powershell", "-command", "echo 1.2.3")));
    assert_eq!(extract(SupportedShell::WinCmd, "tar xf a.tar"), inv("cmd.exe", "/C", "tar xf a.tar"));
    let sc = SupportedShellSpecificCommand {
        sh: None,
        zsh: None,
        bash: Some(OSSpecificCommand::OSSpecific(SupportedOSSpecificCommand {
            linux: Some("make".to_string()),
            macos: None,
            windows: None,
        })),
        fish: None,
        powershell: None,
        wincmd: None,
    };
    assert_eq!(run_shell_specific_cmd(SupportedShell::Bash, "linux", &sc), Some(inv("bash", "-c", "make")));
    assert_eq!(run_shell_specific_cmd(SupportedShell::Bash, "macos", &sc), None);
    assert_eq!(run_shell_specific_cmd(SupportedShell::Sh, "linux", &sc), None);
    assert_eq!(init(SupportedShell::Zsh, "linux", &ShellSpecificCommand::ShellSpecific(sc)), None);
    assert_eq!(run_os_specific_shell_cmd(SupportedShell::Sh, "linux", &None), None);
}

#[test]
fn assets_unpack_by_kind() {
    let sh = SupportedShell::Sh;
    assert_eq!(extract_asset(sh, "/c/a.zip", Some("zip")).unwrap().command, "unzip /c/a.zip");
    assert_eq!(extract_asset(sh, "/c/a.tgz", Some("gz")).unwrap().command, "tar xvf /c/a.tgz");
    assert_eq!(
        extract_asset(sh, "/c/a.deb", Some("deb")).unwrap().command,
        "ar xv /c/a.deb; ls *.tar.* | xargs -n 1 tar xvf"
    );
    assert_eq!(extract_asset(sh, "/c/a.exe", Some("exe")), None);
    let dmg = extract_asset(sh, "/c/Firefox.dmg", None).unwrap().command;
    assert!(dmg.contains("local dmg_name=\"/c/Firefox.dmg\""));
    assert!(dmg.contains("hdiutil detach"));
    assert_eq!(extract_asset(sh, "/c/.dmg", None), None);
    assert_eq!(extract_asset(sh, "/c/notes.txt", None), None);
}

#[test]
fn src_and_load_emit_directives() {
    let t = ShellSpecificSourceTarget::Generic(SourceTarget::Multiple(vec!["a.sh".to_string(), "*.zsh".to_string()]));
    assert_eq!(src(SupportedShell::Zsh, &t), vec!["a.sh".to_string(), "*.zsh".to_string()]);
    assert_eq!(source_directive("/h/p/a.sh"), ". /h/p/a.sh");
    let e = ShellSpecificEvaluatable::Generic("export X=1".to_string());
    assert_eq!(load(SupportedShell::Sh, &e), Some("export X=1".to_string()));
    assert_eq!(combine_output(b"out\n", b"err\n"), "out\nerr\n");
    assert_eq!(combine_output(&[0xff, 0xfe], b"err"), "err");
}

#[test]
fn layout_below_home() {
    let p = orbiter::config::Payload {
        id: "ff-dev".to_string(),
        init: None,
        resource: orbiter::config::AdaptiveResource::Standard(orbiter::config::Resource::Location("u".to_string())),
        extract: None,
        install: None,
        update: None,
        src: None,
        load: None,
        executable: None,
        menu: None,
    };
    assert_eq!(get_payload_dir_path("/h/.orbiter", &p), "/h/.orbiter/payloads/ff-dev");
    assert_eq!(get_payload_current_install_dir_path("/h/.orbiter", &p), "/h/.orbiter/payloads/ff-dev/current");
    assert_eq!(get_payload_config_dir_path("/h/.orbiter", &p), "/h/.orbiter/payloads/ff-dev/.__orbiter__");
    assert_eq!(get_bin_dir_path("/h/.orbiter"), "/h/.orbiter/dashboard/bin");
    assert_eq!(get_bin_file_path("/h/.orbiter", "nvim"), "/h/.orbiter/dashboard/bin/nvim");
    assert_eq!(get_dir("/a/b/nvim"), "/a/b");
    assert_eq!(update_path(SupportedShell::Zsh, "/b"), "export PATH=\"/b:$PATH\"");
    assert_eq!(update_path(SupportedShell::Fish, "/b"), "set -x PATH \"/b\" $PATH");
    assert_eq!(update_path(SupportedShell::PowerShell, "/b"), "$env:PATH = \"/b;$env:PATH\"");
    assert_eq!(update_path(SupportedShell::WinCmd, "/b"), "setx PATH \"/b;%PATH%\"");
    assert_eq!(load_completion(SupportedShell::Zsh), "autoload -Uz compinit; compinit");
    assert_eq!(load_completion(SupportedShell::Bash), "");
}

#[test]
fn shim_wraps_the_resolved_binary() {
    let expected = "#!/bin/sh\n\nff_dev() {\n    local bindir=\"/p/current/firefox\"\n    local PATH=\"$bindir\":\"$PATH\"\n    \"$bindir\"/\"firefox\" \"$@\"\n}\n\nff_dev \"$@\"\n";
    assert_eq!(get_basic_shim("ff-dev", "/p/current/firefox/firefox"), expected);
    assert_eq!(get_shim_content("ff-dev", "/p/current/firefox/firefox", Some("base")), expected);
    assert!(get_basic_shim("**/python3.11", "/x/python3.11").starts_with("#!/bin/sh\n\npython3_11() {"));
    assert_eq!(get_func_name("**/firefox"), "firefox");
    assert_eq!(get_func_name("gitahead"), "gitahead");
    assert_eq!(get_shim_path("/h", "**/bin/nvim"), "/h/dashboard/bin/nvim");
    assert_eq!(symlink_directive("/opt/x", "/h/dashboard/bin/x"), "ln -sf /opt/x /h/dashboard/bin/x");
}
