//! The payload data model: what the configuration file describes.
use vstd::prelude::*;

verus! {

/// A host of repositories and releases.
#[derive(Debug, PartialEq, Eq, Structural, Clone, Copy)]
pub enum Providers {
    GitHub,
    GitLab,
    Gitee,
}

/// A repository, cloned or read for a release asset.
#[derive(Debug, PartialEq, Clone)]
pub struct Repo {
    pub repo: String,
    pub provider: Option<Providers>,
    pub from_release: Option<bool>,
    pub ver: Option<String>,
    pub binary_pattern: Option<String>,
}

/// Where a payload's content comes from.
#[derive(Debug, PartialEq, Clone)]
pub enum Resource {
    Location(String),
    Repo(Repo),
}

/// A resource that may vary by operating system.
#[derive(Debug, PartialEq, Clone)]
pub enum AdaptiveResource {
    Standard(Resource),
    OSSpecific(SupportedOSSpecificResource),
}

/// One optional resource per operating system.
#[derive(Debug, PartialEq, Clone)]
pub struct SupportedOSSpecificResource {
    pub linux: Option<OSSpecificResource>,
    pub macos: Option<OSSpecificResource>,
    pub windows: Option<OSSpecificResource>,
}

/// The resource of one operating system, which may vary by architecture.
#[derive(Debug, PartialEq, Clone)]
pub enum OSSpecificResource {
    Standard(Resource),
    ArchSpecific(SupportedArchSpecificResource),
}

/// One optional resource per architecture.
#[derive(Debug, PartialEq, Clone)]
pub struct SupportedArchSpecificResource {
    pub x86_64: Option<Resource>,
    pub aarch64: Option<Resource>,
}

/// One optional command text per operating system.
#[derive(Debug, PartialEq, Clone)]
pub struct SupportedOSSpecificCommand {
    pub linux: Option<String>,
    pub macos: Option<String>,
    pub windows: Option<String>,
}

/// A command that may vary by operating system.
#[derive(Debug, PartialEq, Clone)]
pub enum OSSpecificCommand {
    Generic(String),
    OSSpecific(SupportedOSSpecificCommand),
}

/// One optional OS-varying command per shell.
#[derive(Debug, PartialEq, Clone)]
pub struct SupportedShellSpecificCommand {
    pub sh: Option<OSSpecificCommand>,
    pub zsh: Option<OSSpecificCommand>,
    pub bash: Option<OSSpecificCommand>,
    pub fish: Option<OSSpecificCommand>,
    pub powershell: Option<OSSpecificCommand>,
    pub wincmd: Option<OSSpecificCommand>,
}

/// A command that may vary by shell, then by operating system.
#[derive(Debug, PartialEq, Clone)]
pub enum ShellSpecificCommand {
    Generic(String),
    ShellSpecific(SupportedShellSpecificCommand),
}

/// The runnable entry point of a payload.
#[derive(Debug, PartialEq, Clone)]
pub enum Executable {
    Run(String),
    Command { run: String, alias: Option<String>, use_symlink: Option<bool> },
}

/// Display metadata; the pipeline does not read it.
#[derive(Debug, PartialEq, Clone)]
pub struct Menu {
    pub menu_name: String,
    pub name: Option<String>,
    pub run: Option<String>,
    pub icon: Option<String>,
}

/// One file pattern, or several, to be sourced.
#[derive(Debug, PartialEq, Clone)]
pub enum SourceTarget {
    Single(String),
    Multiple(Vec<String>),
}

/// One optional source target per shell.
#[derive(Debug, PartialEq, Clone)]
pub struct SupportedShellSpecificSourceTarget {
    pub sh: Option<SourceTarget>,
    pub zsh: Option<SourceTarget>,
    pub bash: Option<SourceTarget>,
    pub fish: Option<SourceTarget>,
    pub powershell: Option<SourceTarget>,
    pub wincmd: Option<SourceTarget>,
}

/// Files to source, which may vary by shell.
#[derive(Debug, PartialEq, Clone)]
pub enum ShellSpecificSourceTarget {
    Generic(SourceTarget),
    ShellSpecific(SupportedShellSpecificSourceTarget),
}

/// One optional snippet per shell.
#[derive(Debug, PartialEq, Clone)]
pub struct SupportedShellSpecificEvaluatable {
    pub sh: Option<String>,
    pub zsh: Option<String>,
    pub bash: Option<String>,
    pub fish: Option<String>,
    pub powershell: Option<String>,
    pub wincmd: Option<String>,
}

/// A snippet for the invoking shell to evaluate, which may vary by shell.
#[derive(Debug, PartialEq, Clone)]
pub enum ShellSpecificEvaluatable {
    Generic(String),
    ShellSpecific(SupportedShellSpecificEvaluatable),
}

/// One managed tool.
#[derive(Debug, PartialEq, Clone)]
pub struct Payload {
    pub id: String,
    pub init: Option<ShellSpecificCommand>,
    pub resource: AdaptiveResource,
    pub extract: Option<String>,
    pub install: Option<ShellSpecificCommand>,
    pub update: Option<ShellSpecificCommand>,
    pub src: Option<ShellSpecificSourceTarget>,
    pub load: Option<ShellSpecificEvaluatable>,
    pub executable: Option<Executable>,
    pub menu: Option<Menu>,
}

/// The provider a repository names, GitHub when it names none.
pub open spec fn provider_or_default(p: Option<Providers>) -> Providers {
    match p {
        Some(q) => q,
        None => Providers::GitHub,
    }
}

/// The provider a configuration name selects; an unknown name selects GitHub.
pub open spec fn provider_of_name(name: Seq<char>) -> Providers {
    if name == "gitlab"@ {
        Providers::GitLab
    } else if name == "gitee"@ {
        Providers::Gitee
    } else {
        Providers::GitHub
    }
}

impl Providers {
    pub fn from_option(p: &Option<Providers>) -> (r: Providers)
        ensures
            r == provider_or_default(*p),
    {
        match p {
            Some(q) => *q,
            None => Providers::GitHub,
        }
    }

    pub fn from_name(name: &str) -> (r: Providers)
        ensures
            r == provider_of_name(name@),
    {
        if crate::text::str_eq(name, "gitlab") {
            Providers::GitLab
        } else if crate::text::str_eq(name, "gitee") {
            Providers::Gitee
        } else {
            Providers::GitHub
        }
    }
}

/// A copy of an optional string.
pub fn copy_opt_string(s: &Option<String>) -> (r: Option<String>)
    ensures
        r == *s,
{
    match s {
        Some(x) => Some(x.clone()),
        None => None,
    }
}

impl Repo {
    /// A field-for-field copy.
    pub fn copy(&self) -> (r: Repo)
        ensures
            r == *self,
    {
        Repo {
            repo: self.repo.clone(),
            provider: self.provider,
            from_release: self.from_release,
            ver: copy_opt_string(&self.ver),
            binary_pattern: copy_opt_string(&self.binary_pattern),
        }
    }
}

impl Resource {
    /// A field-for-field copy.
    pub fn copy(&self) -> (r: Resource)
        ensures
            r == *self,
    {
        match self {
            Resource::Location(url) => Resource::Location(url.clone()),
            Resource::Repo(repo) => Resource::Repo(repo.copy()),
        }
    }
}

} // verus!
