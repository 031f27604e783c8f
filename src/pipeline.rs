//! The per-payload install pipeline: which stages run, how they change the
//! payload's directories, and what an update does.
use vstd::prelude::*;
use crate::config::Payload;
use crate::hooks::{extract, extract_asset, extraction_command, runs_in, ShellInvocation};
use crate::paths::{
    archive_dir_spec, current_dir_spec, get_payload_archive_dir_path,
    get_payload_current_install_dir_path,
};
use crate::shells::SupportedShell;
use crate::shim::{
    display_name_of, entry_point, get_shim_content, get_shim_path, shim_path_spec, shim_text,
    EntryPoint,
};
use crate::text::{after_last_slash, before_last_slash, normalized_name};

verus! {

/// One stage of processing a payload.
#[derive(Debug, PartialEq, Eq, Structural, Clone, Copy)]
pub enum Stage {
    /// Create the staging directory, which also marks the payload as seen.
    CreateConfigDir,
    /// Run the init hook and keep its output.
    Init,
    /// Fetch the resource into the install directory.
    Acquire,
    /// Unpack the acquired asset, or run the explicit extraction command.
    Extract,
    /// Run the install hook.
    Install,
    /// Expose the executable on the bin directory.
    Expose,
    /// Emit source directives for the invoking shell.
    Source,
    /// Emit the load snippet for the invoking shell.
    Load,
}

/// Which of a payload's two directories exist.
#[derive(Debug, PartialEq, Eq, Structural, Clone, Copy)]
pub struct DirState {
    pub config_exists: bool,
    pub current_exists: bool,
}

/// Both directories exist: the install stages are skipped. A payload whose
/// install failed after acquisition looks the same.
pub open spec fn is_processed(s: DirState) -> bool {
    s.config_exists && s.current_exists
}

pub open spec fn opt_stage(present: bool, st: Stage) -> Seq<Stage> {
    if present {
        seq![st]
    } else {
        Seq::empty()
    }
}

/// The stages that install a payload, in order.
pub open spec fn install_stages(p: Payload) -> Seq<Stage> {
    seq![Stage::CreateConfigDir] + opt_stage(p.init is Some, Stage::Init) + seq![
        Stage::Acquire,
        Stage::Extract,
    ] + opt_stage(p.install is Some, Stage::Install) + opt_stage(
        p.executable is Some,
        Stage::Expose,
    )
}

/// The stages that run on every invocation.
pub open spec fn always_stages(p: Payload) -> Seq<Stage> {
    opt_stage(p.src is Some, Stage::Source) + opt_stage(p.load is Some, Stage::Load)
}

/// The stages of one run over a payload whose directories are in state `s`.
pub open spec fn stages_spec(p: Payload, s: DirState) -> Seq<Stage> {
    if is_processed(s) {
        always_stages(p)
    } else {
        install_stages(p) + always_stages(p)
    }
}

/// How a stage changes the directories; `acquired` says whether acquisition
/// selected a resource and so created the install directory.
pub open spec fn after_stage(s: DirState, st: Stage, acquired: bool) -> DirState {
    match st {
        Stage::CreateConfigDir => DirState { config_exists: true, ..s },
        Stage::Acquire => if acquired {
            DirState { current_exists: true, ..s }
        } else {
            s
        },
        _ => s,
    }
}

/// The directories after a sequence of stages.
pub open spec fn after_stages(s: DirState, stages: Seq<Stage>, acquired: bool) -> DirState
    decreases stages.len(),
{
    if stages.len() == 0 {
        s
    } else {
        after_stages(after_stage(s, stages[0], acquired), stages.drop_first(), acquired)
    }
}

/// The directories after an update: the install directory is archived.
pub open spec fn after_update(s: DirState) -> DirState {
    DirState { current_exists: false, ..s }
}

fn push_if(v: &mut Vec<Stage>, present: bool, st: Stage)
    ensures
        final(v)@ == old(v)@ + opt_stage(present, st),
{
    if present {
        v.push(st);
    } else {
        assert(old(v)@ + opt_stage(present, st) =~= old(v)@);
    }
}

/// The stages to run for a payload whose directories are in state `state`:
/// the install stages only when the payload is not yet processed, then the
/// stages that always run.
pub fn process_payload(payload: &Payload, state: DirState) -> (r: Vec<Stage>)
    ensures
        r@ == stages_spec(*payload, state),
{
    let mut v: Vec<Stage> = Vec::new();
    if !(state.config_exists && state.current_exists) {
        v.push(Stage::CreateConfigDir);
        push_if(&mut v, payload.init.is_some(), Stage::Init);
        v.push(Stage::Acquire);
        v.push(Stage::Extract);
        push_if(&mut v, payload.install.is_some(), Stage::Install);
        push_if(&mut v, payload.executable.is_some(), Stage::Expose);
        assert(v@ =~= install_stages(*payload));
    }
    let ghost installed = v@;
    push_if(&mut v, payload.src.is_some(), Stage::Source);
    push_if(&mut v, payload.load.is_some(), Stage::Load);
    assert(v@ =~= installed + always_stages(*payload));
    if state.config_exists && state.current_exists {
        assert(v@ =~= always_stages(*payload));
    }
    v
}

/// The extraction of the extract stage: the payload's own command where it
/// has one, else the unpacking of the acquired asset by its sniffed kind.
pub fn extraction(
    current_shell: SupportedShell,
    payload: &Payload,
    asset_path: Option<&str>,
    sniffed: Option<&str>,
) -> (r: Option<ShellInvocation>)
    ensures
        match payload.extract {
            Some(cmd) => r is Some && runs_in(r->0, current_shell, cmd@),
            None => match asset_path {
                Some(a) => match extraction_command(
                    a@,
                    match sniffed {
                        Some(k) => Some(k@),
                        None => None,
                    },
                ) {
                    Some(c) => r is Some && runs_in(r->0, current_shell, c),
                    None => r is None,
                },
                None => r is None,
            },
        },
{
    match &payload.extract {
        Some(cmd) => Some(extract(current_shell, cmd.as_str())),
        None => match asset_path {
            Some(a) => extract_asset(current_shell, a, sniffed),
            None => None,
        },
    }
}

/// An entry point to write on the bin directory.
#[derive(Debug, PartialEq, Clone)]
pub enum Exposure {
    /// A wrapper script at `path`.
    Shim { path: String, content: String },
    /// A symbolic link at `link_path` to `target`.
    Symlink { link_path: String, target: String },
}

/// The entry point for `entry`, whose run target resolved to the absolute
/// path `resolved_bin_path`: a symlink where asked for, else a wrapper script,
/// either one named after the display name.
pub fn make_entry_point(home: &str, entry: &EntryPoint, resolved_bin_path: &str) -> (r: Exposure)
    ensures
        match r {
            Exposure::Shim { path, content } => !entry.use_symlink && path@ == shim_path_spec(
                home@,
                entry.display_name@,
            ) && content@ == shim_text(
                normalized_name(after_last_slash(entry.display_name@)),
                before_last_slash(resolved_bin_path@),
                after_last_slash(resolved_bin_path@),
            ),
            Exposure::Symlink { link_path, target } => entry.use_symlink && link_path@
                == shim_path_spec(home@, entry.display_name@) && target@ == resolved_bin_path@,
        },
{
    let path = get_shim_path(home, entry.display_name.as_str());
    if entry.use_symlink {
        Exposure::Symlink { link_path: path, target: resolved_bin_path.to_owned() }
    } else {
        Exposure::Shim {
            path,
            content: get_shim_content(entry.display_name.as_str(), resolved_bin_path, None),
        }
    }
}

/// Where the payload's entry point lives, if it has one.
pub open spec fn entry_path_spec(home: Seq<char>, p: Payload) -> Option<Seq<char>> {
    match p.executable {
        Some(e) => Some(shim_path_spec(home, display_name_of(e)@)),
        None => None,
    }
}

/// What an update does on disk.
#[derive(Debug, PartialEq, Clone)]
pub struct UpdatePlan {
    /// The entry point to delete, if the payload has one.
    pub remove_entry: Option<String>,
    /// The install directory, renamed away...
    pub archive_from: String,
    /// ...to its archive directory.
    pub archive_to: String,
}

/// The update of a payload at local time `stamp` (`YYYY-MM-DD_HH:MM:SS`):
/// remove its entry point and rename its install directory to
/// `archive_<stamp>`.
pub fn update_payload(home: &str, payload: &Payload, stamp: &str) -> (r: UpdatePlan)
    ensures
        match entry_path_spec(home@, *payload) {
            Some(p) => r.remove_entry is Some && r.remove_entry->0@ == p,
            None => r.remove_entry is None,
        },
        r.archive_from@ == current_dir_spec(home@, payload.id@),
        r.archive_to@ == archive_dir_spec(home@, payload.id@, stamp@),
{
    let remove_entry = match &payload.executable {
        Some(e) => {
            let entry = entry_point(e);
            Some(get_shim_path(home, entry.display_name.as_str()))
        },
        None => None,
    };
    UpdatePlan {
        remove_entry,
        archive_from: get_payload_current_install_dir_path(home, payload),
        archive_to: get_payload_archive_dir_path(home, payload, stamp),
    }
}

proof fn lemma_after_stages_flags(s: DirState, stages: Seq<Stage>, acquired: bool)
    ensures
        after_stages(s, stages, acquired).config_exists == (s.config_exists || stages.contains(
            Stage::CreateConfigDir,
        )),
        after_stages(s, stages, acquired).current_exists == (s.current_exists || (acquired
            && stages.contains(Stage::Acquire))),
    decreases stages.len(),
{
    if stages.len() > 0 {
        let rest = stages.drop_first();
        lemma_after_stages_flags(after_stage(s, stages[0], acquired), rest, acquired);
        assert forall|x: Stage| stages.contains(x) <==> (stages[0] == x || rest.contains(x)) by {
            if stages.contains(x) && stages[0] != x {
                let i = choose|i: int| 0 <= i < stages.len() && stages[i] == x;
                assert(rest[i - 1] == x);
            }
            if rest.contains(x) {
                let i = choose|i: int| 0 <= i < rest.len() && rest[i] == x;
                assert(stages[i + 1] == x);
            }
            if stages[0] == x {
                assert(stages[0] == x);
            }
        }
    }
}

/// A run that completes, or that stops at any point after acquiring a
/// resource, leaves the payload processed.
pub proof fn lemma_run_past_acquisition_marks_processed(p: Payload, s: DirState, n: int)
    requires
        !is_processed(s),
        (if p.init is Some { 3int } else { 2int }) <= n <= install_stages(p).len(),
    ensures
        is_processed(after_stages(s, install_stages(p).take(n), true)),
        is_processed(after_stages(s, stages_spec(p, s), true)),
{
    let done = install_stages(p).take(n);
    let k: int = if p.init is Some { 2 } else { 1 };
    assert(install_stages(p)[0] == Stage::CreateConfigDir);
    assert(install_stages(p)[k] == Stage::Acquire);
    assert(done[0] == Stage::CreateConfigDir);
    assert(done[k] == Stage::Acquire);
    lemma_after_stages_flags(s, done, true);
    let all = stages_spec(p, s);
    assert(all[0] == Stage::CreateConfigDir);
    assert(all[k] == Stage::Acquire);
    lemma_after_stages_flags(s, all, true);
}

/// A second run over a payload whose directories both exist after the first
/// run performs no acquisition, extraction, install or exposure: it only
/// re-emits the source and load directives the payload has.
pub proof fn lemma_second_run_only_reemits(p: Payload, s: DirState, acquired: bool)
    requires
        is_processed(after_stages(s, stages_spec(p, s), acquired)),
    ensures
        ({
            let again = stages_spec(p, after_stages(s, stages_spec(p, s), acquired));
            &&& again == always_stages(p)
            &&& forall|i: int| 0 <= i < again.len() ==> (again[i] == Stage::Source || again[i]
                == Stage::Load)
            &&& again.contains(Stage::Source) == p.src is Some
            &&& again.contains(Stage::Load) == p.load is Some
        }),
{
    let again = always_stages(p);
    if p.src is Some {
        assert(again[0] == Stage::Source);
    }
    if p.load is Some {
        assert(again[again.len() - 1] == Stage::Load);
    }
}

/// After an update the payload is no longer processed: the next run installs
/// it in full, acquisition included, and the update removed the entry point at
/// the very path that exposure writes.
pub proof fn lemma_update_forces_full_reinstall(p: Payload, s: DirState, home: Seq<char>)
    ensures
        !is_processed(after_update(s)),
        stages_spec(p, after_update(s)) == install_stages(p) + always_stages(p),
        stages_spec(p, after_update(s)).contains(Stage::Acquire),
        p.executable matches Some(e) ==> entry_path_spec(home, p) == Some(
            shim_path_spec(home, display_name_of(e)@),
        ),
{
    let k: int = if p.init is Some { 2 } else { 1 };
    assert(stages_spec(p, after_update(s))[k] == Stage::Acquire);
}

} // verus!
