//! Where payloads, their markers and the shared bin directory live, below
//! the installer's home directory.
use vstd::prelude::*;
use crate::config::Payload;
use crate::shells::SupportedShell;
use crate::text::{before_last_slash, concat, concat3, parent_dir};

verus! {

/// `<home>/payloads/<id>`
pub open spec fn payload_dir_spec(home: Seq<char>, id: Seq<char>) -> Seq<char> {
    home + "/payloads/"@ + id
}

/// `<home>/payloads/<id>/current`, the live installed tree.
pub open spec fn current_dir_spec(home: Seq<char>, id: Seq<char>) -> Seq<char> {
    payload_dir_spec(home, id) + "/current"@
}

/// `<home>/payloads/<id>/.__orbiter__`, the staging area and marker.
pub open spec fn config_dir_spec(home: Seq<char>, id: Seq<char>) -> Seq<char> {
    payload_dir_spec(home, id) + "/.__orbiter__"@
}

/// `<home>/dashboard/bin`, shared by all payloads.
pub open spec fn bin_dir_spec(home: Seq<char>) -> Seq<char> {
    home + "/dashboard/bin"@
}

/// `<home>/dashboard/bin/<name>`
pub open spec fn bin_file_spec(home: Seq<char>, name: Seq<char>) -> Seq<char> {
    bin_dir_spec(home) + "/"@ + name
}

/// `<home>/payloads/<id>/archive_<stamp>`
pub open spec fn archive_dir_spec(home: Seq<char>, id: Seq<char>, stamp: Seq<char>) -> Seq<char> {
    payload_dir_spec(home, id) + "/archive_"@ + stamp
}

pub fn get_payload_dir_path(home: &str, payload: &Payload) -> (r: String)
    ensures
        r@ == payload_dir_spec(home@, payload.id@),
{
    concat3(home, "/payloads/", payload.id.as_str())
}

pub fn get_payload_current_install_dir_path(home: &str, payload: &Payload) -> (r: String)
    ensures
        r@ == current_dir_spec(home@, payload.id@),
{
    let dir = get_payload_dir_path(home, payload);
    concat(dir.as_str(), "/current")
}

pub fn get_payload_config_dir_path(home: &str, payload: &Payload) -> (r: String)
    ensures
        r@ == config_dir_spec(home@, payload.id@),
{
    let dir = get_payload_dir_path(home, payload);
    concat(dir.as_str(), "/.__orbiter__")
}

pub fn get_payload_archive_dir_path(home: &str, payload: &Payload, stamp: &str) -> (r: String)
    ensures
        r@ == archive_dir_spec(home@, payload.id@, stamp@),
{
    let dir = get_payload_dir_path(home, payload);
    concat3(dir.as_str(), "/archive_", stamp)
}

pub fn get_bin_dir_path(home: &str) -> (r: String)
    ensures
        r@ == bin_dir_spec(home@),
{
    concat(home, "/dashboard/bin")
}

pub fn get_bin_file_path(home: &str, bin_fname: &str) -> (r: String)
    ensures
        r@ == bin_file_spec(home@, bin_fname@),
{
    let dir = get_bin_dir_path(home);
    concat3(dir.as_str(), "/", bin_fname)
}

/// The directory that holds `bin_path`.
pub fn get_dir(bin_path: &str) -> (r: String)
    ensures
        r@ == before_last_slash(bin_path@),
{
    parent_dir(bin_path)
}

/// The directive that puts the bin directory first on each shell's `PATH`.
pub open spec fn path_directive(shell: SupportedShell, bin_dir: Seq<char>) -> Seq<char> {
    match shell {
        SupportedShell::Fish => "set -x PATH \""@ + bin_dir + "\" $PATH"@,
        SupportedShell::PowerShell => "$env:PATH = \""@ + bin_dir + ";$env:PATH\""@,
        SupportedShell::WinCmd => "setx PATH \""@ + bin_dir + ";%PATH%\""@,
        _ => "export PATH=\""@ + bin_dir + ":$PATH\""@,
    }
}

/// The `PATH` update for the invoking shell to evaluate.
pub fn update_path(current_shell: SupportedShell, bin_dir: &str) -> (r: String)
    ensures
        r@ == path_directive(current_shell, bin_dir@),
{
    match current_shell {
        SupportedShell::Fish => concat3("set -x PATH \"", bin_dir, "\" $PATH"),
        SupportedShell::PowerShell => concat3("$env:PATH = \"", bin_dir, ";$env:PATH\""),
        SupportedShell::WinCmd => concat3("setx PATH \"", bin_dir, ";%PATH%\""),
        _ => concat3("export PATH=\"", bin_dir, ":$PATH\""),
    }
}

/// The completion set-up each shell needs, empty where it needs none.
pub fn load_completion(current_shell: SupportedShell) -> (r: &'static str)
    ensures
        current_shell == SupportedShell::Zsh ==> r@ == "autoload -Uz compinit; compinit"@,
        current_shell != SupportedShell::Zsh ==> r@ == ""@,
{
    match current_shell {
        SupportedShell::Zsh => "autoload -Uz compinit; compinit",
        _ => "",
    }
}

} // verus!
