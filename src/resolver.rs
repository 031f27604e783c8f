//! Collapses configuration variants to the one value for the running
//! environment. Resources are selected by OS, then by architecture; commands
//! by shell, then by OS.
use vstd::prelude::*;
use crate::config::{
    copy_opt_string, AdaptiveResource, OSSpecificCommand, OSSpecificResource, Resource,
    ShellSpecificCommand, ShellSpecificEvaluatable, ShellSpecificSourceTarget, SourceTarget,
    SupportedArchSpecificResource, SupportedOSSpecificCommand, SupportedOSSpecificResource,
    SupportedShellSpecificCommand, SupportedShellSpecificSourceTarget,
};
use crate::shells::{arch_of, os_of, Arch, Os, SupportedShell};

verus! {

/// The architecture branch that `arch` selects.
pub open spec fn arch_branch(r: SupportedArchSpecificResource, arch: Seq<char>) -> Option<Resource> {
    match arch_of(arch) {
        Some(Arch::X86_64) => r.x86_64,
        Some(Arch::Aarch64) => r.aarch64,
        None => None,
    }
}

/// The OS branch of a resource that `os` selects.
pub open spec fn os_resource_branch(r: SupportedOSSpecificResource, os: Seq<char>) -> Option<
    OSSpecificResource,
> {
    match os_of(os) {
        Some(Os::Linux) => r.linux,
        Some(Os::MacOs) => r.macos,
        Some(Os::Windows) => r.windows,
        None => None,
    }
}

/// The resource of one OS for architecture `arch`.
pub open spec fn resolve_os_resource_spec(r: OSSpecificResource, arch: Seq<char>) -> Option<Resource> {
    match r {
        OSSpecificResource::Standard(x) => Some(x),
        OSSpecificResource::ArchSpecific(a) => arch_branch(a, arch),
    }
}

/// The resource selected for `os` and `arch`.
pub open spec fn resolve_resource_spec(a: AdaptiveResource, os: Seq<char>, arch: Seq<char>) -> Option<
    Resource,
> {
    match a {
        AdaptiveResource::Standard(r) => Some(r),
        AdaptiveResource::OSSpecific(o) => match os_resource_branch(o, os) {
            Some(x) => resolve_os_resource_spec(x, arch),
            None => None,
        },
    }
}

/// The OS branch of a command that `os` selects.
pub open spec fn os_command_branch(c: SupportedOSSpecificCommand, os: Seq<char>) -> Option<String> {
    match os_of(os) {
        Some(Os::Linux) => c.linux,
        Some(Os::MacOs) => c.macos,
        Some(Os::Windows) => c.windows,
        None => None,
    }
}

/// The command text of an OS-varying command for `os`.
pub open spec fn resolve_os_command_spec(c: OSSpecificCommand, os: Seq<char>) -> Option<String> {
    match c {
        OSSpecificCommand::Generic(s) => Some(s),
        OSSpecificCommand::OSSpecific(o) => os_command_branch(o, os),
    }
}

/// The shell branch of a command.
pub open spec fn shell_command_branch(c: SupportedShellSpecificCommand, shell: SupportedShell) -> Option<
    OSSpecificCommand,
> {
    match shell {
        SupportedShell::Sh => c.sh,
        SupportedShell::Zsh => c.zsh,
        SupportedShell::Bash => c.bash,
        SupportedShell::Fish => c.fish,
        SupportedShell::PowerShell => c.powershell,
        SupportedShell::WinCmd => c.wincmd,
    }
}

/// The command text selected for `shell`, then `os`.
pub open spec fn resolve_command_spec(c: ShellSpecificCommand, shell: SupportedShell, os: Seq<char>) -> Option<
    String,
> {
    match c {
        ShellSpecificCommand::Generic(s) => Some(s),
        ShellSpecificCommand::ShellSpecific(sc) => match shell_command_branch(sc, shell) {
            Some(oc) => resolve_os_command_spec(oc, os),
            None => None,
        },
    }
}

/// The patterns of a source target.
pub open spec fn source_patterns(t: SourceTarget) -> Seq<String> {
    match t {
        SourceTarget::Single(s) => seq![s],
        SourceTarget::Multiple(v) => v@,
    }
}

/// The shell branch of a source target.
pub open spec fn shell_source_branch(t: SupportedShellSpecificSourceTarget, shell: SupportedShell) -> Option<
    SourceTarget,
> {
    match shell {
        SupportedShell::Sh => t.sh,
        SupportedShell::Zsh => t.zsh,
        SupportedShell::Bash => t.bash,
        SupportedShell::Fish => t.fish,
        SupportedShell::PowerShell => t.powershell,
        SupportedShell::WinCmd => t.wincmd,
    }
}

/// The patterns to source in `shell`.
pub open spec fn resolve_source_spec(t: ShellSpecificSourceTarget, shell: SupportedShell) -> Option<
    Seq<String>,
> {
    match t {
        ShellSpecificSourceTarget::Generic(g) => Some(source_patterns(g)),
        ShellSpecificSourceTarget::ShellSpecific(s) => match shell_source_branch(s, shell) {
            Some(g) => Some(source_patterns(g)),
            None => None,
        },
    }
}

/// The snippet to evaluate in `shell`.
pub open spec fn resolve_evaluatable_spec(e: ShellSpecificEvaluatable, shell: SupportedShell) -> Option<
    String,
> {
    match e {
        ShellSpecificEvaluatable::Generic(s) => Some(s),
        ShellSpecificEvaluatable::ShellSpecific(s) => match shell {
            SupportedShell::Sh => s.sh,
            SupportedShell::Zsh => s.zsh,
            SupportedShell::Bash => s.bash,
            SupportedShell::Fish => s.fish,
            SupportedShell::PowerShell => s.powershell,
            SupportedShell::WinCmd => s.wincmd,
        },
    }
}

/// The resource of one architecture; `None` for an unknown architecture or
/// an absent branch.
pub fn resolve_arch_resource(r: &SupportedArchSpecificResource, arch: &str) -> (res: Option<
    Resource,
>)
    ensures
        res == arch_branch(*r, arch@),
{
    let branch = match Arch::from_name(arch) {
        Some(Arch::X86_64) => &r.x86_64,
        Some(Arch::Aarch64) => &r.aarch64,
        None => {
            return None;
        },
    };
    match branch {
        Some(x) => Some(x.copy()),
        None => None,
    }
}

/// The resource of one operating system for `arch`.
pub fn resolve_os_resource(r: &OSSpecificResource, arch: &str) -> (res: Option<Resource>)
    ensures
        res == resolve_os_resource_spec(*r, arch@),
{
    match r {
        OSSpecificResource::Standard(x) => Some(x.copy()),
        OSSpecificResource::ArchSpecific(a) => resolve_arch_resource(a, arch),
    }
}

/// The one resource for `os` and `arch`, or `None` where the selected branch
/// is absent or the OS or architecture is unknown.
pub fn resolve_resource(adaptive: &AdaptiveResource, os: &str, arch: &str) -> (res: Option<
    Resource,
>)
    ensures
        res == resolve_resource_spec(*adaptive, os@, arch@),
{
    match adaptive {
        AdaptiveResource::Standard(r) => Some(r.copy()),
        AdaptiveResource::OSSpecific(o) => {
            let branch = match Os::from_name(os) {
                Some(Os::Linux) => &o.linux,
                Some(Os::MacOs) => &o.macos,
                Some(Os::Windows) => &o.windows,
                None => {
                    return None;
                },
            };
            match branch {
                Some(x) => resolve_os_resource(x, arch),
                None => None,
            }
        },
    }
}

/// The command text of an OS-varying command for `os`.
pub fn resolve_os_command(c: &OSSpecificCommand, os: &str) -> (res: Option<String>)
    ensures
        res == resolve_os_command_spec(*c, os@),
{
    match c {
        OSSpecificCommand::Generic(s) => Some(s.clone()),
        OSSpecificCommand::OSSpecific(o) => {
            let branch = match Os::from_name(os) {
                Some(Os::Linux) => &o.linux,
                Some(Os::MacOs) => &o.macos,
                Some(Os::Windows) => &o.windows,
                None => {
                    return None;
                },
            };
            copy_opt_string(branch)
        },
    }
}

/// The branch of a shell-varying command for `shell`.
pub fn shell_branch(c: &SupportedShellSpecificCommand, shell: SupportedShell) -> (res: &Option<
    OSSpecificCommand,
>)
    ensures
        *res == shell_command_branch(*c, shell),
{
    match shell {
        SupportedShell::Sh => &c.sh,
        SupportedShell::Zsh => &c.zsh,
        SupportedShell::Bash => &c.bash,
        SupportedShell::Fish => &c.fish,
        SupportedShell::PowerShell => &c.powershell,
        SupportedShell::WinCmd => &c.wincmd,
    }
}

/// The command text for `shell`, then `os`; `None` where a selected branch is
/// absent.
pub fn resolve_command(cmd: &ShellSpecificCommand, shell: SupportedShell, os: &str) -> (res: Option<
    String,
>)
    ensures
        res == resolve_command_spec(*cmd, shell, os@),
{
    match cmd {
        ShellSpecificCommand::Generic(s) => Some(s.clone()),
        ShellSpecificCommand::ShellSpecific(sc) => match shell_branch(sc, shell) {
            Some(oc) => resolve_os_command(oc, os),
            None => None,
        },
    }
}

/// A copy of a list of strings.
pub fn copy_strings(v: &Vec<String>) -> (r: Vec<String>)
    ensures
        r@ == v@,
{
    let mut out: Vec<String> = Vec::new();
    let mut i: usize = 0;
    while i < v.len()
        invariant
            i <= v@.len(),
            out@ == v@.subrange(0, i as int),
        decreases v@.len() - i,
    {
        out.push(v[i].clone());
        assert(out@ =~= v@.subrange(0, i + 1));
        i += 1;
    }
    assert(v@.subrange(0, v@.len() as int) =~= v@);
    out
}

/// The patterns of a source target.
pub fn process_src_target(t: &SourceTarget) -> (r: Vec<String>)
    ensures
        r@ == source_patterns(*t),
{
    match t {
        SourceTarget::Single(s) => {
            let mut v: Vec<String> = Vec::new();
            v.push(s.clone());
            assert(v@ =~= seq![*s]);
            v
        },
        SourceTarget::Multiple(v) => copy_strings(v),
    }
}

/// The patterns to source in `shell`; `None` where its branch is absent.
pub fn resolve_source(t: &ShellSpecificSourceTarget, shell: SupportedShell) -> (r: Option<
    Vec<String>,
>)
    ensures
        r.is_some() == resolve_source_spec(*t, shell).is_some(),
        r.is_some() ==> r.unwrap()@ == resolve_source_spec(*t, shell).unwrap(),
{
    match t {
        ShellSpecificSourceTarget::Generic(g) => Some(process_src_target(g)),
        ShellSpecificSourceTarget::ShellSpecific(s) => {
            let branch = match shell {
                SupportedShell::Sh => &s.sh,
                SupportedShell::Zsh => &s.zsh,
                SupportedShell::Bash => &s.bash,
                SupportedShell::Fish => &s.fish,
                SupportedShell::PowerShell => &s.powershell,
                SupportedShell::WinCmd => &s.wincmd,
            };
            match branch {
                Some(g) => Some(process_src_target(g)),
                None => None,
            }
        },
    }
}

/// The snippet to evaluate in `shell`; `None` where its branch is absent.
pub fn resolve_evaluatable(e: &ShellSpecificEvaluatable, shell: SupportedShell) -> (r: Option<
    String,
>)
    ensures
        r == resolve_evaluatable_spec(*e, shell),
{
    match e {
        ShellSpecificEvaluatable::Generic(s) => Some(s.clone()),
        ShellSpecificEvaluatable::ShellSpecific(s) => {
            let branch = match shell {
                SupportedShell::Sh => &s.sh,
                SupportedShell::Zsh => &s.zsh,
                SupportedShell::Bash => &s.bash,
                SupportedShell::Fish => &s.fish,
                SupportedShell::PowerShell => &s.powershell,
                SupportedShell::WinCmd => &s.wincmd,
            };
            copy_opt_string(branch)
        },
    }
}

proof fn lemma_names_distinct()
    ensures
        "linux"@ != "macos"@,
        "linux"@ != "windows"@,
        "macos"@ != "windows"@,
        "x86_64"@ != "aarch64"@,
        "x86_64"@ != "arm64"@,
        "amd64"@ != "aarch64"@,
        "amd64"@ != "arm64"@,
{
    reveal_strlit("linux");
    reveal_strlit("macos");
    reveal_strlit("windows");
    reveal_strlit("x86_64");
    reveal_strlit("amd64");
    reveal_strlit("aarch64");
    reveal_strlit("arm64");
    assert("linux"@[0] != "macos"@[0]);
    assert("linux"@.len() != "windows"@.len());
    assert("macos"@.len() != "windows"@.len());
    assert("x86_64"@.len() != "aarch64"@.len());
    assert("x86_64"@.len() != "arm64"@.len());
    assert("amd64"@.len() != "aarch64"@.len());
    assert("amd64"@[1] != "arm64"@[1]);
}

/// The architecture-varying resource `x` holds an entry for `arch`.
pub open spec fn arch_entry_present(x: SupportedArchSpecificResource, arch: Seq<char>) -> bool {
    ((arch == "x86_64"@ || arch == "amd64"@) && x.x86_64 is Some) || ((arch == "aarch64"@ || arch
        == "arm64"@) && x.aarch64 is Some)
}

/// The OS entry `e` leads to a resource for `arch`.
pub open spec fn os_entry_populated(e: Option<OSSpecificResource>, arch: Seq<char>) -> bool {
    match e {
        Some(OSSpecificResource::Standard(_)) => true,
        Some(OSSpecificResource::ArchSpecific(x)) => arch_entry_present(x, arch),
        None => false,
    }
}

/// Resolution yields a resource exactly when every branch on the path that
/// `os` and `arch` select is present; an absent branch, or an OS or
/// architecture without a branch, yields no resource.
pub proof fn lemma_resolution_some_iff_path_populated(
    a: AdaptiveResource,
    os: Seq<char>,
    arch: Seq<char>,
)
    ensures
        resolve_resource_spec(a, os, arch) is Some <==> match a {
            AdaptiveResource::Standard(_) => true,
            AdaptiveResource::OSSpecific(o) => (os == "linux"@ && os_entry_populated(o.linux, arch))
                || (os == "macos"@ && os_entry_populated(o.macos, arch)) || (os == "windows"@
                && os_entry_populated(o.windows, arch)),
        },
{
    lemma_names_distinct();
}

/// Commands are selected by shell first and OS second: a command present only
/// under `zsh` and then `macos` resolves to its text for exactly that pair.
pub proof fn lemma_command_shell_then_os(text: String, shell: SupportedShell, os: Seq<char>)
    ensures
        resolve_command_spec(
            ShellSpecificCommand::ShellSpecific(
                SupportedShellSpecificCommand {
                    sh: None,
                    zsh: Some(
                        OSSpecificCommand::OSSpecific(
                            SupportedOSSpecificCommand {
                                linux: None,
                                macos: Some(text),
                                windows: None,
                            },
                        ),
                    ),
                    bash: None,
                    fish: None,
                    powershell: None,
                    wincmd: None,
                },
            ),
            shell,
            os,
        ) == (if shell == SupportedShell::Zsh && os == "macos"@ {
            Some(text)
        } else {
            None
        }),
{
    lemma_names_distinct();
}

/// Resources are selected by OS first and architecture second: a resource
/// present only under `macos` and then `aarch64` is selected for exactly that
/// OS and the two spellings of that architecture.
pub proof fn lemma_resource_os_then_arch(r: Resource, os: Seq<char>, arch: Seq<char>)
    ensures
        resolve_resource_spec(
            AdaptiveResource::OSSpecific(
                SupportedOSSpecificResource {
                    linux: None,
                    macos: Some(
                        OSSpecificResource::ArchSpecific(
                            SupportedArchSpecificResource { x86_64: None, aarch64: Some(r) },
                        ),
                    ),
                    windows: None,
                },
            ),
            os,
            arch,
        ) == (if os == "macos"@ && (arch == "aarch64"@ || arch == "arm64"@) {
            Some(r)
        } else {
            None
        }),
{
    lemma_names_distinct();
}

} // verus!
