//! Entry points on the shared bin directory: wrapper scripts and symlinks.
use vstd::prelude::*;
use crate::config::{copy_opt_string, Executable};
use crate::paths::{bin_file_spec, get_bin_file_path};
use crate::text::{
    after_last_slash, before_last_slash, concat3, file_name, normalize_name, normalized_name,
    parent_dir,
};

verus! {

/// How a payload's executable is exposed.
#[derive(Debug, PartialEq, Clone)]
pub struct EntryPoint {
    /// Path or glob of the executable, below the install directory.
    pub run_target: String,
    /// Name under which it is exposed.
    pub display_name: String,
    /// A symlink rather than a wrapper script.
    pub use_symlink: bool,
}

/// The run target of an executable.
pub open spec fn run_target_of(e: Executable) -> String {
    match e {
        Executable::Run(cmd) => cmd,
        Executable::Command { run, .. } => run,
    }
}

/// The exposed name: the command itself, or the alias where one is given.
pub open spec fn display_name_of(e: Executable) -> String {
    match e {
        Executable::Run(cmd) => cmd,
        Executable::Command { run, alias, .. } => match alias {
            Some(a) => a,
            None => run,
        },
    }
}

/// Whether a symlink is asked for; a wrapper script otherwise.
pub open spec fn use_symlink_of(e: Executable) -> bool {
    match e {
        Executable::Run(_) => false,
        Executable::Command { use_symlink, .. } => use_symlink == Some(true),
    }
}

/// Run target, display name and exposure kind of an executable.
pub fn entry_point(exec: &Executable) -> (r: EntryPoint)
    ensures
        r.run_target == run_target_of(*exec),
        r.display_name == display_name_of(*exec),
        r.use_symlink == use_symlink_of(*exec),
{
    match exec {
        Executable::Run(cmd) => EntryPoint {
            run_target: cmd.clone(),
            display_name: cmd.clone(),
            use_symlink: false,
        },
        Executable::Command { run, alias, use_symlink } => {
            let display_name = match copy_opt_string(alias) {
                Some(a) => a,
                None => run.clone(),
            };
            EntryPoint {
                run_target: run.clone(),
                display_name,
                use_symlink: match use_symlink {
                    Some(b) => *b,
                    None => false,
                },
            }
        },
    }
}

/// The name of the entry file: the last segment of the display name.
pub fn get_func_name(func: &str) -> (r: String)
    ensures
        r@ == after_last_slash(func@),
{
    file_name(func)
}

/// `<home>/dashboard/bin/<last segment of display name>`
pub open spec fn shim_path_spec(home: Seq<char>, display_name: Seq<char>) -> Seq<char> {
    bin_file_spec(home, after_last_slash(display_name))
}

/// Where the entry point named `display_name` lives.
pub fn get_shim_path(home: &str, display_name: &str) -> (r: String)
    ensures
        r@ == shim_path_spec(home@, display_name@),
{
    let name = get_func_name(display_name);
    get_bin_file_path(home, name.as_str())
}

/// A POSIX-shell script defining function `func` that runs `bin` from `dir`
/// with `dir` first on `PATH`, then calls that function with the script's
/// own arguments, so it works sourced or executed.
pub open spec fn shim_text(func: Seq<char>, dir: Seq<char>, bin: Seq<char>) -> Seq<char> {
    "#!/bin/sh\n\n"@ + func + "() {\n    local bindir=\""@ + dir
        + "\"\n    local PATH=\"$bindir\":\"$PATH\"\n    \"$bindir\"/\""@ + bin
        + "\" \"$@\"\n}\n\n"@ + func + " \"$@\"\n"@
}

/// The wrapper script for the executable at `resolved_bin_path`, exposed as
/// `display_name`.
pub fn get_basic_shim(display_name: &str, resolved_bin_path: &str) -> (r: String)
    ensures
        r@ == shim_text(
            normalized_name(after_last_slash(display_name@)),
            before_last_slash(resolved_bin_path@),
            after_last_slash(resolved_bin_path@),
        ),
{
    let name = file_name(display_name);
    let func = normalize_name(name.as_str());
    let dir = parent_dir(resolved_bin_path);
    let bin = file_name(resolved_bin_path);
    let mut s = concat3("#!/bin/sh\n\n", func.as_str(), "() {\n    local bindir=\"");
    s.append(dir.as_str());
    s.append("\"\n    local PATH=\"$bindir\":\"$PATH\"\n    \"$bindir\"/\"");
    s.append(bin.as_str());
    s.append("\" \"$@\"\n}\n\n");
    s.append(func.as_str());
    s.append(" \"$@\"\n");
    s
}

/// The wrapper script for an environment; every environment has the basic one.
pub fn get_shim_content(display_name: &str, resolved_bin_path: &str, env: Option<&str>) -> (r:
    String)
    ensures
        r@ == shim_text(
            normalized_name(after_last_slash(display_name@)),
            before_last_slash(resolved_bin_path@),
            after_last_slash(resolved_bin_path@),
        ),
{
    get_basic_shim(display_name, resolved_bin_path)
}

/// The command that links `link_path` to `resolved_bin_path`.
pub fn symlink_directive(resolved_bin_path: &str, link_path: &str) -> (r: String)
    ensures
        r@ == "ln -sf "@ + resolved_bin_path@ + " "@ + link_path@,
{
    let mut s = concat3("ln -sf ", resolved_bin_path, " ");
    s.append(link_path);
    s
}

} // verus!
