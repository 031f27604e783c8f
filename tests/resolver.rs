use orbiter::config::{
    AdaptiveResource, OSSpecificCommand, OSSpecificResource, Repo, Resource,
    ShellSpecificCommand, ShellSpecificEvaluatable, ShellSpecificSourceTarget, SourceTarget,
    SupportedArchSpecificResource, SupportedOSSpecificCommand, SupportedOSSpecificResource,
    SupportedShellSpecificCommand, SupportedShellSpecificEvaluatable,
    SupportedShellSpecificSourceTarget,
};
use orbiter::resolver::{resolve_command, resolve_evaluatable, resolve_resource, resolve_source};
use orbiter::shells::{Arch, Os, SupportedShell};

const SHELLS: [SupportedShell; 6] = [
    SupportedShell::Sh,
    SupportedShell::Zsh,
    SupportedShell::Bash,
    SupportedShell::Fish,
    SupportedShell::PowerShell,
    SupportedShell::WinCmd,
];
const OSES: [&str; 4] = ["linux", "macos", "windows", "freebsd"];
const ARCHES: [&str; 5] = ["x86_64", "amd64", "aarch64", "arm64", "riscv64"];

fn zsh_macos_only(text: &str) -> ShellSpecificCommand {
    ShellSpecificCommand::ShellSpecific(SupportedShellSpecificCommand {
        sh: None,
        zsh: Some(OSSpecificCommand::OSSpecific(SupportedOSSpecificCommand {
            linux: None,
            macos: Some(text.to_string()),
            windows: None,
        })),
        bash: None,
        fish: None,
        powershell: None,
        wincmd: None,
    })
}

fn macos_aarch64_only(url: &str) -> AdaptiveResource {
    AdaptiveResource::OSSpecific(SupportedOSSpecificResource {
        linux: None,
        macos: Some(OSSpecificResource::ArchSpecific(SupportedArchSpecificResource {
            x86_64: None,
            aarch64: Some(Resource::Location(url.to_string())),
        })),
        windows: None,
    })
}

#[test]
fn command_resolves_by_shell_then_os() {
    let cmd = zsh_macos_only("brew --prefix");
    for shell in SHELLS {
        for os in OSES {
            let got = resolve_command(&cmd, shell, os);
            if shell == SupportedShell::Zsh && os == "macos" {
                assert_eq!(got, Some("brew --prefix".to_string()));
            } else {
                assert_eq!(got, None);
            }
        }
    }
}

#[test]
fn resource_resolves_by_os_then_arch() {
    let url = "https://storage.googleapis.com/minikube/releases/latest/minikube-darwin-arm64";
    let res = macos_aarch64_only(url);
    for os in OSES {
        for arch in ARCHES {
            let got = resolve_resource(&res, os, arch);
            if os == "macos" && (arch == "aarch64" || arch == "arm64") {
                assert_eq!(got, Some(Resource::Location(url.to_string())));
            } else {
                assert_eq!(got, None);
            }
        }
    }
}

#[test]
fn standard_resource_is_selected_everywhere() {
    let repo = Resource::Repo(Repo {
        repo: "neovim/neovim".to_string(),
        provider: None,
        from_release: Some(true),
        ver: None,
        binary_pattern: Some("*.tar.gz".to_string()),
    });
    let res = AdaptiveResource::Standard(repo.clone());
    assert_eq!(resolve_resource(&res, "linux", "x86_64"), Some(repo.clone()));
    assert_eq!(resolve_resource(&res, "plan9", "mips"), Some(repo));
}

#[test]
fn os_standard_branch_ignores_arch() {
    let res = AdaptiveResource::OSSpecific(SupportedOSSpecificResource {
        linux: Some(OSSpecificResource::Standard(Resource::Location("L".to_string()))),
        macos: None,
        windows: None,
    });
    assert_eq!(resolve_resource(&res, "linux", "riscv64"), Some(Resource::Location("L".to_string())));
    assert_eq!(resolve_resource(&res, "macos", "x86_64"), None);
    assert_eq!(resolve_resource(&res, "Linux", "x86_64"), None);
}

#[test]
fn generic_command_is_returned_as_is() {
    let cmd = ShellSpecificCommand::Generic("make install".to_string());
    assert_eq!(resolve_command(&cmd, SupportedShell::Fish, "windows"), Some("make install".to_string()));
    let cmd = ShellSpecificCommand::ShellSpecific(SupportedShellSpecificCommand {
        sh: Some(OSSpecificCommand::Generic("./GitAhead*.sh --include-subdir".to_string())),
        zsh: None,
        bash: None,
        fish: None,
        powershell: None,
        wincmd: None,
    });
    assert_eq!(
        resolve_command(&cmd, SupportedShell::Sh, "plan9"),
        Some("./GitAhead*.sh --include-subdir".to_string())
    );
    assert_eq!(resolve_command(&cmd, SupportedShell::Bash, "linux"), None);
}

#[test]
fn source_targets_resolve_by_shell() {
    let t = ShellSpecificSourceTarget::Generic(SourceTarget::Single("zsh_completion.zsh".to_string()));
    assert_eq!(resolve_source(&t, SupportedShell::Zsh), Some(vec!["zsh_completion.zsh".to_string()]));
    let t = ShellSpecificSourceTarget::ShellSpecific(SupportedShellSpecificSourceTarget {
        sh: None,
        zsh: Some(SourceTarget::Multiple(vec!["a.zsh".to_string(), "b/*.zsh".to_string()])),
        bash: None,
        fish: None,
        powershell: None,
        wincmd: None,
    });
    assert_eq!(
        resolve_source(&t, SupportedShell::Zsh),
        Some(vec!["a.zsh".to_string(), "b/*.zsh".to_string()])
    );
    assert_eq!(resolve_source(&t, SupportedShell::Bash), None);
}

#[test]
fn evaluatables_resolve_by_shell() {
    let e = ShellSpecificEvaluatable::ShellSpecific(SupportedShellSpecificEvaluatable {
        sh: None,
        zsh: None,
        bash: None,
        fish: Some("set -x FOO 1".to_string()),
        powershell: None,
        wincmd: None,
    });
    assert_eq!(resolve_evaluatable(&e, SupportedShell::Fish), Some("set -x FOO 1".to_string()));
    assert_eq!(resolve_evaluatable(&e, SupportedShell::Zsh), None);
}

#[test]
fn names_select_shells_oses_and_arches() {
    assert_eq!(SupportedShell::from_str("zsh"), SupportedShell::Zsh);
    assert_eq!(SupportedShell::from_str("cmd"), SupportedShell::WinCmd);
    assert_eq!(SupportedShell::from_str("tcsh"), SupportedShell::Sh);
    assert_eq!(SupportedShell::WinCmd.as_program_str(), "cmd.exe");
    assert_eq!(SupportedShell::PowerShell.as_dflt_arg_str(), "-command");
    assert_eq!(SupportedShell::WinCmd.as_dflt_arg_str(), "/C");
    assert_eq!(SupportedShell::Bash.as_dflt_arg_str(), "-c");
    assert_eq!(Os::from_name("macos"), Some(Os::MacOs));
    assert_eq!(Os::from_name("darwin"), None);
    assert_eq!(Arch::from_name("amd64"), Some(Arch::X86_64));
    assert_eq!(Arch::from_name("arm64"), Some(Arch::Aarch64));
    assert_eq!(Arch::from_name("i686"), None);
}
