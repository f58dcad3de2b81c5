//! The command line and the order of the debloat steps.
use vstd::prelude::*;
use crate::text::{join_path, join_path_exec};

verus! {

/// What the command line asks for.
#[derive(Debug)]
pub struct Cli {
    /// Path to the source Windows ISO
    pub iso: String,
    /// Windows edition to process, e.g. "Windows 11 Pro"
    pub edition: String,
    /// Output ISO path (e.g. win11-debloat.iso)
    pub output: String,
    /// Remove bloatware AppX packages
    pub appx: bool,
    /// Remove unnecessary Windows Capabilities & Packages
    pub capabilities: bool,
    /// Remove OneDrive
    pub onedrive: bool,
    /// Remove Microsoft Edge
    pub edge: bool,
    /// Remove AI components (Copilot, Recall, etc.)
    pub ai: bool,
    /// Bypass TPM/SecureBoot checks
    pub tpm_bypass: bool,
    /// Language to install
    pub language: String,
    /// Keep staging directory after completion (useful for debugging)
    pub keep_staging: bool,
    /// Directory for staging files (default: OS temp dir)
    pub staging_dir: Option<String>,
    /// Test dependencies for the program
    pub test: bool,
}

/// One debloat step.
#[derive(Clone, Copy, Debug, PartialEq, Eq, Structural)]
pub enum Step {
    /// `appx::remove_appx`
    Appx,
    /// `apps::remove_capabilities`
    Capabilities,
    /// `cap::remove_capabilities`
    CapabilityPackages,
    /// `apps::remove_onedrive`
    OneDrive,
    /// `apps::remove_edge`
    Edge,
    /// `ai::remove_ai`
    Ai,
    /// `registry::apply_tpm_bypass_tweaks`
    TpmBypass,
    /// `registry::apply_privacy_tweaks`
    Privacy,
    /// `registry::enable_user_folders`
    UserFolders,
    /// `registry::apply_gamebar_tweaks`
    Gamebar,
    /// `registry::apply_task_tweaks`
    Tasks,
}

/// `s` when `b` holds, nothing otherwise.
pub open spec fn only_if(b: bool, s: Seq<Step>) -> Seq<Step> {
    if b {
        s
    } else {
        Seq::empty()
    }
}

/// The steps run for a command line, in order: the optional removals as
/// selected, then the tweaks that are always applied.
pub open spec fn steps_for(cli: Cli) -> Seq<Step> {
    only_if(cli.appx, seq![Step::Appx]) + only_if(
        cli.capabilities,
        seq![Step::Capabilities, Step::CapabilityPackages],
    ) + only_if(cli.onedrive, seq![Step::OneDrive]) + only_if(cli.edge, seq![Step::Edge]) + only_if(
        cli.ai,
        seq![Step::Ai],
    ) + only_if(cli.tpm_bypass, seq![Step::TpmBypass]) + seq![
        Step::Privacy,
        Step::UserFolders,
        Step::Gamebar,
        Step::Tasks,
    ]
}

fn push_only_if(v: &mut Vec<Step>, b: bool, s: Step)
    ensures
        final(v)@ == old(v)@ + only_if(b, seq![s]),
{
    if b {
        v.push(s);
    }
    assert(final(v)@ =~= old(v)@ + only_if(b, seq![s]));
}

/// The debloat steps to run, in order; a failing step is reported and the
/// next one runs.
pub fn debloat_steps(cli: &Cli) -> (r: Vec<Step>)
    ensures
        r@ == steps_for(*cli),
{
    let mut v: Vec<Step> = Vec::new();
    push_only_if(&mut v, cli.appx, Step::Appx);
    let ghost v0 = v@;
    if cli.capabilities {
        v.push(Step::Capabilities);
        v.push(Step::CapabilityPackages);
    }
    assert(v@ =~= v0 + only_if(cli.capabilities, seq![Step::Capabilities, Step::CapabilityPackages]));
    push_only_if(&mut v, cli.onedrive, Step::OneDrive);
    push_only_if(&mut v, cli.edge, Step::Edge);
    push_only_if(&mut v, cli.ai, Step::Ai);
    push_only_if(&mut v, cli.tpm_bypass, Step::TpmBypass);
    let ghost v1 = v@;
    v.push(Step::Privacy);
    v.push(Step::UserFolders);
    v.push(Step::Gamebar);
    v.push(Step::Tasks);
    assert(v@ =~= v1 + seq![Step::Privacy, Step::UserFolders, Step::Gamebar, Step::Tasks]);
    assert(v@ =~= steps_for(*cli));
    v
}

/// The name under which a failing step is reported.
pub open spec fn label(step: Step) -> Seq<char> {
    match step {
        Step::Appx => "AppX removal"@,
        Step::Capabilities => "Capabilities removal"@,
        Step::CapabilityPackages => "Capabilities removal"@,
        Step::OneDrive => "OneDrive removal"@,
        Step::Edge => "Edge removal"@,
        Step::Ai => "AI removal"@,
        Step::TpmBypass => "TPM bypass"@,
        Step::Privacy => "Privacy tweaks"@,
        Step::UserFolders => "User folders"@,
        Step::Gamebar => "Gamebar tweaks"@,
        Step::Tasks => "Task tweaks"@,
    }
}

/// The name under which a failing step is reported.
pub fn step_label(step: Step) -> (r: &'static str)
    ensures
        r@ == label(step),
{
    match step {
        Step::Appx => "AppX removal",
        Step::Capabilities => "Capabilities removal",
        Step::CapabilityPackages => "Capabilities removal",
        Step::OneDrive => "OneDrive removal",
        Step::Edge => "Edge removal",
        Step::Ai => "AI removal",
        Step::TpmBypass => "TPM bypass",
        Step::Privacy => "Privacy tweaks",
        Step::UserFolders => "User folders",
        Step::Gamebar => "Gamebar tweaks",
        Step::Tasks => "Task tweaks",
    }
}

/// The working paths under the staging root.
#[derive(Debug)]
pub struct StagingLayout {
    /// Where the ISO is extracted.
    pub staging: String,
    /// Where the install image is mounted.
    pub mount_dir: String,
    /// A scratch copy of the install image.
    pub work_wim: String,
    /// The install image inside the extracted ISO.
    pub install_wim: String,
}

/// The working paths under `root`.
pub fn staging_layout(root: &str) -> (r: StagingLayout)
    ensures
        r.staging@ == join_path(root@, "iso_staging"@),
        r.mount_dir@ == join_path(root@, "wim_mount"@),
        r.work_wim@ == join_path(root@, "install_work.wim"@),
        r.install_wim@ == join_path(join_path(join_path(root@, "iso_staging"@), "sources"@), "install.wim"@),
{
    let staging = join_path_exec(root, "iso_staging");
    let sources = join_path_exec(staging.as_str(), "sources");
    let install_wim = join_path_exec(sources.as_str(), "install.wim");
    StagingLayout {
        staging,
        mount_dir: join_path_exec(root, "wim_mount"),
        work_wim: join_path_exec(root, "install_work.wim"),
        install_wim,
    }
}

proof fn lemma_concat_contains(a: Seq<Step>, b: Seq<Step>, x: Step)
    ensures
        (a + b).contains(x) <==> a.contains(x) || b.contains(x),
{
    if a.contains(x) {
        let j = choose|j: int| 0 <= j < a.len() && a[j] == x;
        assert((a + b)[j] == x);
    }
    if b.contains(x) {
        let j = choose|j: int| 0 <= j < b.len() && b[j] == x;
        assert((a + b)[a.len() + j] == x);
    }
    if (a + b).contains(x) {
        let j = choose|j: int| 0 <= j < (a + b).len() && (a + b)[j] == x;
        if j < a.len() {
            assert(a[j] == x);
        } else {
            assert(b[j - a.len()] == x);
        }
    }
}

proof fn lemma_only_if_contains(b: bool, s: Seq<Step>, x: Step)
    ensures
        only_if(b, s).contains(x) <==> b && s.contains(x),
{
}

proof fn lemma_two_contains(p: Step, q: Step, x: Step)
    ensures
        seq![p, q].contains(x) <==> x == p || x == q,
{
    if x == p {
        assert(seq![p, q][0] == x);
    }
    if x == q {
        assert(seq![p, q][1] == x);
    }
}

proof fn lemma_one_contains(p: Step, x: Step)
    ensures
        seq![p].contains(x) <==> x == p,
{
    if x == p {
        assert(seq![p][0] == x);
    }
}

proof fn lemma_steps_contain(cli: Cli, x: Step)
    ensures
        steps_for(cli).contains(x) <==> (cli.appx && x == Step::Appx) || (cli.capabilities && (x
            == Step::Capabilities || x == Step::CapabilityPackages)) || (cli.onedrive && x
            == Step::OneDrive) || (cli.edge && x == Step::Edge) || (cli.ai && x == Step::Ai) || (
        cli.tpm_bypass && x == Step::TpmBypass) || x == Step::Privacy || x == Step::UserFolders
            || x == Step::Gamebar || x == Step::Tasks,
{
    let w1 = only_if(cli.appx, seq![Step::Appx]);
    let w2 = only_if(cli.capabilities, seq![Step::Capabilities, Step::CapabilityPackages]);
    let w3 = only_if(cli.onedrive, seq![Step::OneDrive]);
    let w4 = only_if(cli.edge, seq![Step::Edge]);
    let w5 = only_if(cli.ai, seq![Step::Ai]);
    let w6 = only_if(cli.tpm_bypass, seq![Step::TpmBypass]);
    let tail = seq![Step::Privacy, Step::UserFolders, Step::Gamebar, Step::Tasks];
    lemma_concat_contains(w1, w2, x);
    lemma_concat_contains(w1 + w2, w3, x);
    lemma_concat_contains(w1 + w2 + w3, w4, x);
    lemma_concat_contains(w1 + w2 + w3 + w4, w5, x);
    lemma_concat_contains(w1 + w2 + w3 + w4 + w5, w6, x);
    lemma_concat_contains(w1 + w2 + w3 + w4 + w5 + w6, tail, x);
    lemma_only_if_contains(cli.appx, seq![Step::Appx], x);
    lemma_only_if_contains(cli.capabilities, seq![Step::Capabilities, Step::CapabilityPackages], x);
    lemma_only_if_contains(cli.onedrive, seq![Step::OneDrive], x);
    lemma_only_if_contains(cli.edge, seq![Step::Edge], x);
    lemma_only_if_contains(cli.ai, seq![Step::Ai], x);
    lemma_only_if_contains(cli.tpm_bypass, seq![Step::TpmBypass], x);
    lemma_one_contains(Step::Appx, x);
    lemma_two_contains(Step::Capabilities, Step::CapabilityPackages, x);
    lemma_one_contains(Step::OneDrive, x);
    lemma_one_contains(Step::Edge, x);
    lemma_one_contains(Step::Ai, x);
    lemma_one_contains(Step::TpmBypass, x);
    lemma_two_contains(Step::Privacy, Step::UserFolders, x);
    lemma_two_contains(Step::Gamebar, Step::Tasks, x);
    lemma_concat_contains(seq![Step::Privacy, Step::UserFolders], seq![Step::Gamebar, Step::Tasks], x);
    assert(tail =~= seq![Step::Privacy, Step::UserFolders] + seq![Step::Gamebar, Step::Tasks]);
}

/// The privacy tweaks, user folders, Game Bar and task tweaks always run,
/// last and in that order, whatever the command line says; each optional
/// removal runs exactly when its option is on.
pub proof fn law_steps_follow_options(cli: Cli)
    ensures
        steps_for(cli).len() >= 4,
        steps_for(cli).subrange(steps_for(cli).len() - 4, steps_for(cli).len() as int) == seq![
            Step::Privacy,
            Step::UserFolders,
            Step::Gamebar,
            Step::Tasks,
        ],
        steps_for(cli).contains(Step::Appx) <==> cli.appx,
        steps_for(cli).contains(Step::Capabilities) <==> cli.capabilities,
        steps_for(cli).contains(Step::CapabilityPackages) <==> cli.capabilities,
        steps_for(cli).contains(Step::OneDrive) <==> cli.onedrive,
        steps_for(cli).contains(Step::Edge) <==> cli.edge,
        steps_for(cli).contains(Step::Ai) <==> cli.ai,
        steps_for(cli).contains(Step::TpmBypass) <==> cli.tpm_bypass,
{
    let s = steps_for(cli);
    let tail = seq![Step::Privacy, Step::UserFolders, Step::Gamebar, Step::Tasks];
    assert(s.subrange(s.len() - 4, s.len() as int) =~= tail);
    lemma_steps_contain(cli, Step::Appx);
    lemma_steps_contain(cli, Step::Capabilities);
    lemma_steps_contain(cli, Step::CapabilityPackages);
    lemma_steps_contain(cli, Step::OneDrive);
    lemma_steps_contain(cli, Step::Edge);
    lemma_steps_contain(cli, Step::Ai);
    lemma_steps_contain(cli, Step::TpmBypass);
}

} // verus!
