//! The shells, operating systems and architectures the installer knows.
use vstd::prelude::*;
use crate::text::str_eq;

verus! {

/// A shell that invokes the installer and runs its commands.
#[derive(Debug, PartialEq, Eq, Structural, Clone, Copy)]
pub enum SupportedShell {
    Sh,
    Zsh,
    Bash,
    Fish,
    PowerShell,
    WinCmd,
}

/// Program name of each shell.
pub open spec fn program_of(s: SupportedShell) -> Seq<char> {
    match s {
        SupportedShell::Sh => "sh"@,
        SupportedShell::Zsh => "zsh"@,
        SupportedShell::Bash => "bash"@,
        SupportedShell::Fish => "fish"@,
        SupportedShell::PowerShell => "powershell"@,
        SupportedShell::WinCmd => "cmd.exe"@,
    }
}

/// The flag after which each shell takes a command text.
pub open spec fn command_flag_of(s: SupportedShell) -> Seq<char> {
    match s {
        SupportedShell::PowerShell => "-command"@,
        SupportedShell::WinCmd => "/C"@,
        _ => "-c"@,
    }
}

/// The shell a name selects; an unknown name selects `sh`.
pub open spec fn shell_of_name(name: Seq<char>) -> SupportedShell {
    if name == "sh"@ {
        SupportedShell::Sh
    } else if name == "zsh"@ {
        SupportedShell::Zsh
    } else if name == "bash"@ {
        SupportedShell::Bash
    } else if name == "fish"@ {
        SupportedShell::Fish
    } else if name == "powershell"@ {
        SupportedShell::PowerShell
    } else if name == "cmd"@ {
        SupportedShell::WinCmd
    } else {
        SupportedShell::Sh
    }
}

impl SupportedShell {
    pub fn as_program_str(&self) -> (r: &'static str)
        ensures
            r@ == program_of(*self),
    {
        match self {
            SupportedShell::Sh => "sh",
            SupportedShell::Zsh => "zsh",
            SupportedShell::Bash => "bash",
            SupportedShell::Fish => "fish",
            SupportedShell::PowerShell => "powershell",
            SupportedShell::WinCmd => "cmd.exe",
        }
    }

    pub fn as_dflt_arg_str(&self) -> (r: &'static str)
        ensures
            r@ == command_flag_of(*self),
    {
        match self {
            SupportedShell::Sh => "-c",
            SupportedShell::Zsh => "-c",
            SupportedShell::Bash => "-c",
            SupportedShell::Fish => "-c",
            SupportedShell::PowerShell => "-command",
            SupportedShell::WinCmd => "/C",
        }
    }

    pub fn from_str(shell: &str) -> (r: SupportedShell)
        ensures
            r == shell_of_name(shell@),
    {
        if str_eq(shell, "sh") {
            SupportedShell::Sh
        } else if str_eq(shell, "zsh") {
            SupportedShell::Zsh
        } else if str_eq(shell, "bash") {
            SupportedShell::Bash
        } else if str_eq(shell, "fish") {
            SupportedShell::Fish
        } else if str_eq(shell, "powershell") {
            SupportedShell::PowerShell
        } else if str_eq(shell, "cmd") {
            SupportedShell::WinCmd
        } else {
            SupportedShell::Sh
        }
    }
}

/// An operating system with its own configuration branch.
#[derive(Debug, PartialEq, Eq, Structural, Clone, Copy)]
pub enum Os {
    Linux,
    MacOs,
    Windows,
}

/// An architecture with its own configuration branch.
#[derive(Debug, PartialEq, Eq, Structural, Clone, Copy)]
pub enum Arch {
    X86_64,
    Aarch64,
}

/// The branch an OS name selects (`std::env::consts::OS` spelling).
pub open spec fn os_of(name: Seq<char>) -> Option<Os> {
    if name == "linux"@ {
        Some(Os::Linux)
    } else if name == "macos"@ {
        Some(Os::MacOs)
    } else if name == "windows"@ {
        Some(Os::Windows)
    } else {
        None
    }
}

/// The branch an architecture name selects; `amd64` and `arm64` are aliases.
pub open spec fn arch_of(name: Seq<char>) -> Option<Arch> {
    if name == "x86_64"@ || name == "amd64"@ {
        Some(Arch::X86_64)
    } else if name == "aarch64"@ || name == "arm64"@ {
        Some(Arch::Aarch64)
    } else {
        None
    }
}

impl Os {
    pub fn from_name(name: &str) -> (r: Option<Os>)
        ensures
            r == os_of(name@),
    {
        if str_eq(name, "linux") {
            Some(Os::Linux)
        } else if str_eq(name, "macos") {
            Some(Os::MacOs)
        } else if str_eq(name, "windows") {
            Some(Os::Windows)
        } else {
            None
        }
    }
}

impl Arch {
    pub fn from_name(name: &str) -> (r: Option<Arch>)
        ensures
            r == arch_of(name@),
    {
        if str_eq(name, "x86_64") || str_eq(name, "amd64") {
            Some(Arch::X86_64)
        } else if str_eq(name, "aarch64") || str_eq(name, "arm64") {
            Some(Arch::Aarch64)
        } else {
            None
        }
    }
}

} // verus!
