//! The commands of a payload's hooks, resolved to concrete shell invocations
//! and directives for the invoking shell.
use vstd::prelude::*;
use crate::config::{OSSpecificCommand, ShellSpecificCommand, ShellSpecificEvaluatable, ShellSpecificSourceTarget, SupportedShellSpecificCommand};
use crate::resolver::{
    resolve_command, resolve_command_spec, resolve_evaluatable, resolve_evaluatable_spec,
    resolve_os_command, resolve_os_command_spec, resolve_source, resolve_source_spec,
    shell_branch, shell_command_branch,
};
use crate::shells::{command_flag_of, program_of, SupportedShell};
use crate::text::{after_last_slash, concat, concat3, file_name, str_eq};
use vstd::utf8::{decode_utf8, valid_utf8};

verus! {

/// A command text run by a shell: `<program> <flag> <command>`.
#[derive(Debug, PartialEq, Clone)]
pub struct ShellInvocation {
    pub program: String,
    pub flag: String,
    pub command: String,
}

/// `r` runs `command` in `shell`.
pub open spec fn runs_in(r: ShellInvocation, shell: SupportedShell, command: Seq<char>) -> bool {
    r.program@ == program_of(shell) && r.flag@ == command_flag_of(shell) && r.command@ == command
}

/// `r` runs the optional command text `c`, if any, in `shell`.
pub open spec fn runs_opt(r: Option<ShellInvocation>, shell: SupportedShell, c: Option<String>) -> bool {
    match c {
        Some(t) => r is Some && runs_in(r->0, shell, t@),
        None => r is None,
    }
}

/// The invocation that runs `command` in `shell`.
pub fn run_cmd_in_shell(current_shell: SupportedShell, command: &str) -> (r: ShellInvocation)
    ensures
        runs_in(r, current_shell, command@),
{
    ShellInvocation {
        program: current_shell.as_program_str().to_owned(),
        flag: current_shell.as_dflt_arg_str().to_owned(),
        command: command.to_owned(),
    }
}

fn run_opt(current_shell: SupportedShell, c: Option<String>) -> (r: Option<ShellInvocation>)
    ensures
        runs_opt(r, current_shell, c),
{
    match c {
        Some(t) => Some(run_cmd_in_shell(current_shell, t.as_str())),
        None => None,
    }
}

/// The OS branch of a command for `os`, as an invocation in the current shell.
pub fn run_os_specific_shell_cmd(
    current_shell: SupportedShell,
    os: &str,
    op_os_specific_cmd: &Option<OSSpecificCommand>,
) -> (r: Option<ShellInvocation>)
    ensures
        runs_opt(
            r,
            current_shell,
            match *op_os_specific_cmd {
                Some(c) => resolve_os_command_spec(c, os@),
                None => None,
            },
        ),
{
    match op_os_specific_cmd {
        Some(c) => run_opt(current_shell, resolve_os_command(c, os)),
        None => None,
    }
}

/// The shell branch, then the OS branch, of a command, as an invocation.
pub fn run_shell_specific_cmd(
    current_shell: SupportedShell,
    os: &str,
    shell_specific_cmd: &SupportedShellSpecificCommand,
) -> (r: Option<ShellInvocation>)
    ensures
        runs_opt(
            r,
            current_shell,
            match shell_command_branch(*shell_specific_cmd, current_shell) {
                Some(c) => resolve_os_command_spec(c, os@),
                None => None,
            },
        ),
{
    run_os_specific_shell_cmd(current_shell, os, shell_branch(shell_specific_cmd, current_shell))
}

/// The init hook for this shell and OS; its captured output is the init
/// output, empty where no branch applies.
pub fn init(current_shell: SupportedShell, os: &str, init_cmd: &ShellSpecificCommand) -> (r: Option<
    ShellInvocation,
>)
    ensures
        runs_opt(r, current_shell, resolve_command_spec(*init_cmd, current_shell, os@)),
{
    run_opt(current_shell, resolve_command(init_cmd, current_shell, os))
}

/// The install hook for this shell and OS.
pub fn install(current_shell: SupportedShell, os: &str, install_cmd: &ShellSpecificCommand) -> (r:
    Option<ShellInvocation>)
    ensures
        runs_opt(r, current_shell, resolve_command_spec(*install_cmd, current_shell, os@)),
{
    run_opt(current_shell, resolve_command(install_cmd, current_shell, os))
}

/// An explicit extraction command, run verbatim.
pub fn extract(current_shell: SupportedShell, cmd: &str) -> (r: ShellInvocation)
    ensures
        runs_in(r, current_shell, cmd@),
{
    run_cmd_in_shell(current_shell, cmd)
}

/// The file name of `path` ends in `.dmg` after at least one other character.
pub open spec fn is_disk_image(path: Seq<char>) -> bool {
    let n = after_last_slash(path);
    n.len() > 4 && n.subrange(n.len() - 4, n.len() as int) == ".dmg"@
}

/// Mounts a disk image, copies its contents into the working directory and
/// unmounts it.
pub open spec fn dmg_script(path: Seq<char>) -> Seq<char> {
    "_extract_dmg() {\n  local dmg_name=\""@ + path + "\"\n  local attached_vol_info=$(eval \"hdiutil attach $(realpath -m $dmg_name)\" | tail -n1)\n  local attached_vol=$(echo $attached_vol_info | awk -F \" \" '{print $1}')\n  local attached_vol_mnt_pt=$(echo $attached_vol_info | awk -F \" \" '{print $3}')\n  cp -R $(realpath -m $attached_vol_mnt_pt)/ .\n  eval \"hdiutil detach \\\"$attached_vol\\\"\"\n}\n\n_extract_dmg\n"@
}

/// The extraction command for an asset by its sniffed kind (the extension
/// the content suggests), or by its file extension where sniffing found
/// nothing; `None` for a kind with no extraction.
pub open spec fn extraction_command(path: Seq<char>, sniffed: Option<Seq<char>>) -> Option<Seq<char>> {
    match sniffed {
        Some(k) => if k == "zip"@ {
            Some("unzip "@ + path)
        } else if k == "gz"@ {
            Some("tar xvf "@ + path)
        } else if k == "deb"@ {
            Some("ar xv "@ + path + "; ls *.tar.* | xargs -n 1 tar xvf"@)
        } else {
            None
        },
        None => if is_disk_image(path) {
            Some(dmg_script(path))
        } else {
            None
        },
    }
}

fn has_dmg_extension(path: &str) -> (r: bool)
    ensures
        r == is_disk_image(path@),
{
    let name = file_name(path);
    let n = name.as_str().unicode_len();
    if n <= 4 {
        return false;
    }
    let tail = name.as_str().substring_char(n - 4, n);
    str_eq(tail, ".dmg")
}

/// The invocation that unpacks an acquired asset.
pub fn extract_asset(current_shell: SupportedShell, asset_path: &str, sniffed: Option<&str>) -> (r:
    Option<ShellInvocation>)
    ensures
        match extraction_command(
            asset_path@,
            match sniffed {
                Some(k) => Some(k@),
                None => None,
            },
        ) {
            Some(c) => r is Some && runs_in(r->0, current_shell, c),
            None => r is None,
        },
{
    let command = match sniffed {
        Some(kind) => if str_eq(kind, "zip") {
            concat("unzip ", asset_path)
        } else if str_eq(kind, "gz") {
            concat("tar xvf ", asset_path)
        } else if str_eq(kind, "deb") {
            concat3("ar xv ", asset_path, "; ls *.tar.* | xargs -n 1 tar xvf")
        } else {
            return None;
        },
        None => if has_dmg_extension(asset_path) {
            concat3(
                "_extract_dmg() {\n  local dmg_name=\"",
                asset_path,
                "\"\n  local attached_vol_info=$(eval \"hdiutil attach $(realpath -m $dmg_name)\" | tail -n1)\n  local attached_vol=$(echo $attached_vol_info | awk -F \" \" '{print $1}')\n  local attached_vol_mnt_pt=$(echo $attached_vol_info | awk -F \" \" '{print $3}')\n  cp -R $(realpath -m $attached_vol_mnt_pt)/ .\n  eval \"hdiutil detach \\\"$attached_vol\\\"\"\n}\n\n_extract_dmg\n",
            )
        } else {
            return None;
        },
    };
    Some(run_cmd_in_shell(current_shell, command.as_str()))
}

/// The snippet the invoking shell evaluates on every run.
pub fn load(current_shell: SupportedShell, load_evaluatable: &ShellSpecificEvaluatable) -> (r:
    Option<String>)
    ensures
        r == resolve_evaluatable_spec(*load_evaluatable, current_shell),
{
    resolve_evaluatable(load_evaluatable, current_shell)
}

/// The file patterns to source in this shell on every run; none where its
/// branch is absent.
pub fn src(current_shell: SupportedShell, specified_src_target: &ShellSpecificSourceTarget) -> (r:
    Vec<String>)
    ensures
        match resolve_source_spec(*specified_src_target, current_shell) {
            Some(p) => r@ == p,
            None => r@.len() == 0,
        },
{
    match resolve_source(specified_src_target, current_shell) {
        Some(v) => v,
        None => Vec::new(),
    }
}

/// The directive that sources one canonical path.
pub fn source_directive(canonical_path: &str) -> (r: String)
    ensures
        r@ == ". "@ + canonical_path@,
{
    concat(". ", canonical_path)
}

/// Relies on `std::str::from_utf8`, which succeeds exactly on valid UTF-8
/// and then decodes it.
#[verifier::external_body]
fn utf8_text(bytes: &[u8]) -> (r: Option<&str>)
    ensures
        r is Some <==> valid_utf8(bytes@),
        r is Some ==> r->0@ == decode_utf8(bytes@),
{
    std::str::from_utf8(bytes).ok()
}

/// The text of a captured stream, empty where it is not valid UTF-8.
pub open spec fn text_or_empty(bytes: Seq<u8>) -> Seq<char> {
    if valid_utf8(bytes) {
        decode_utf8(bytes)
    } else {
        Seq::empty()
    }
}

/// The combined output of a command: its standard output, then its standard
/// error.
pub fn combine_output(stdout: &[u8], stderr: &[u8]) -> (r: String)
    ensures
        r@ == text_or_empty(stdout@) + text_or_empty(stderr@),
{
    let out = match utf8_text(stdout) {
        Some(t) => t,
        None => "",
    };
    let err = match utf8_text(stderr) {
        Some(t) => t,
        None => "",
    };
    proof {
        reveal_strlit("");
    }
    concat(out, err)
}

} // verus!
