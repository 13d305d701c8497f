//! The stage plan of one build: every stage in its fixed order, each with
//! the actions it performs, all resolved before anything runs.
use vstd::prelude::*;
use vstd::string::*;
use crate::profile::Profile;
use crate::resolver::{
    base_image, spec_base_image, resolve, script_command, spec_resolve, spec_script_command, CommandKind, CommandSpec,
    CommandView, Unsupported, Workspace,
};
use crate::scripts::{order_scripts, script_order};
use crate::text::{join_path, spec_join_path, views};

verus! {

/// The stages of a build, in the order in which they run.
#[derive(PartialEq, Eq, Structural, Clone, Copy, Debug)]
pub enum Stage {
    EnvironmentSetup,
    BaseInstall,
    PackageInstall,
    PackageRemoval,
    OverlayCopy,
    ScriptExecution,
    SystemConfiguration,
    ImageAssembly,
}

/// One thing a stage asks its executor to do.
pub enum Action {
    /// Make sure the base image is present in the build environment.
    PullImage { image: String },
    /// Invoke the build environment.
    Run(CommandSpec),
    /// Copy the tree at `source` onto `dest`, keeping relative paths.
    CopyOverlay { source: String, dest: String },
    /// Move the assembled image to its durable location.
    MoveArtifact { from: String, to: String },
}

/// A stage and its actions, in order. A stage whose precondition does not
/// hold has no actions.
pub struct StagePlan {
    pub stage: Stage,
    pub actions: Vec<Action>,
}

pub enum ActionView {
    PullImage { image: Seq<char> },
    Run(CommandView),
    CopyOverlay { source: Seq<char>, dest: Seq<char> },
    MoveArtifact { from: Seq<char>, to: Seq<char> },
}

pub struct StagePlanView {
    pub stage: Stage,
    pub actions: Seq<ActionView>,
}

impl View for Action {
    type V = ActionView;

    open spec fn view(&self) -> ActionView {
        match self {
            Action::PullImage { image } => ActionView::PullImage { image: image@ },
            Action::Run(c) => ActionView::Run(c@),
            Action::CopyOverlay { source, dest } => ActionView::CopyOverlay { source: source@, dest: dest@ },
            Action::MoveArtifact { from, to } => ActionView::MoveArtifact { from: from@, to: to@ },
        }
    }
}

impl View for StagePlan {
    type V = StagePlanView;

    open spec fn view(&self) -> StagePlanView {
        StagePlanView { stage: self.stage, actions: self.actions@.map_values(|a: Action| a@) }
    }
}

pub open spec fn plan_view(plan: Seq<StagePlan>) -> Seq<StagePlanView> {
    plan.map_values(|s: StagePlan| s@)
}

/// The fixed stage order.
pub open spec fn stage_order() -> Seq<Stage> {
    seq![
        Stage::EnvironmentSetup,
        Stage::BaseInstall,
        Stage::PackageInstall,
        Stage::PackageRemoval,
        Stage::OverlayCopy,
        Stage::ScriptExecution,
        Stage::SystemConfiguration,
        Stage::ImageAssembly,
    ]
}

/// The durable path of the finished image: `<build_dir>/<name>-<version>.iso`.
pub open spec fn spec_artifact_path(p: Profile, ws: Workspace) -> Seq<char> {
    spec_join_path(ws.build_dir@, p.distro_name@ + "-"@ + p.version@ + ".iso"@)
}

pub open spec fn resolved(kind: CommandKind, p: Profile, ws: Workspace) -> ActionView {
    match spec_resolve(kind, p, ws) {
        Ok(c) => ActionView::Run(c),
        Err(_) => ActionView::Run(arbitrary()),
    }
}

/// Runs of the package manager: none when there is nothing to do.
pub open spec fn package_actions(kind: CommandKind, p: Profile, ws: Workspace, list: Seq<String>) -> Seq<ActionView> {
    if list.len() == 0 {
        Seq::empty()
    } else {
        seq![resolved(kind, p, ws)]
    }
}

pub open spec fn script_actions(p: Profile, ws: Workspace, order: Seq<Seq<char>>) -> Seq<ActionView> {
    order.map_values(|name: Seq<char>| ActionView::Run(spec_script_command(p, ws, name)))
}

/// The whole plan of a build. Every command runs in the base image of the
/// profile, so it is pulled once, as the first action: a failed pull fails
/// the environment setup stage. `scripts` are the entry names found in the
/// scripts directory (none when it is missing); `files_present` says
/// whether the overlay directory exists. Attribute combinations without a
/// command are refused here, before any stage runs: missing firmware
/// first, then the init system, then the bootloader.
pub open spec fn spec_plan(p: Profile, ws: Workspace, scripts: Seq<Seq<char>>, files_present: bool) -> Result<Seq<StagePlanView>, Unsupported> {
    if !p.uefi_support && !p.bios_support {
        Err(Unsupported::NoFirmware)
    } else if spec_resolve(CommandKind::InitEnable, p, ws) is Err {
        Err(spec_resolve(CommandKind::InitEnable, p, ws)->Err_0)
    } else if spec_resolve(CommandKind::BootloaderInstall, p, ws) is Err {
        Err(spec_resolve(CommandKind::BootloaderInstall, p, ws)->Err_0)
    } else {
        Ok(seq![
            StagePlanView {
                stage: Stage::EnvironmentSetup,
                actions: seq![
                    ActionView::PullImage { image: spec_base_image(p.base) },
                    resolved(CommandKind::Toolchain, p, ws),
                ],
            },
            StagePlanView { stage: Stage::BaseInstall, actions: seq![resolved(CommandKind::BaseInstall, p, ws)] },
            StagePlanView {
                stage: Stage::PackageInstall,
                actions: package_actions(CommandKind::PackageInstall, p, ws, p.packages@),
            },
            StagePlanView {
                stage: Stage::PackageRemoval,
                actions: package_actions(CommandKind::PackageRemoval, p, ws, p.packages_to_remove@),
            },
            StagePlanView {
                stage: Stage::OverlayCopy,
                actions: if files_present {
                    seq![ActionView::CopyOverlay { source: ws.files_dir@, dest: ws.spec_rootfs() }]
                } else {
                    Seq::empty()
                },
            },
            StagePlanView { stage: Stage::ScriptExecution, actions: script_actions(p, ws, script_order(scripts)) },
            StagePlanView {
                stage: Stage::SystemConfiguration,
                actions: seq![
                    resolved(CommandKind::InitEnable, p, ws),
                    resolved(CommandKind::BootloaderInstall, p, ws),
                ],
            },
            StagePlanView {
                stage: Stage::ImageAssembly,
                actions: seq![
                    resolved(CommandKind::ImageAssembly, p, ws),
                    ActionView::MoveArtifact { from: ws.spec_staged_image(), to: spec_artifact_path(p, ws) },
                ],
            },
        ])
    }
}

/// The durable path of the finished image.
pub fn artifact_path(p: &Profile, ws: &Workspace) -> (r: String)
    ensures
        r@ == spec_artifact_path(*p, *ws),
{
    let name = p.distro_name.clone().concat("-").concat(p.version.as_str()).concat(".iso");
    join_path(ws.build_dir.as_str(), name.as_str())
}

fn run_action(kind: CommandKind, p: &Profile, ws: &Workspace) -> (r: Result<Action, Unsupported>)
    ensures
        match r {
            Ok(a) => spec_resolve(kind, *p, *ws) is Ok && a@ == resolved(kind, *p, *ws),
            Err(e) => spec_resolve(kind, *p, *ws) == Err::<CommandView, Unsupported>(e),
        },
{
    match resolve(kind, p, ws) {
        Ok(c) => Ok(Action::Run(c)),
        Err(e) => Err(e),
    }
}

fn single(stage: Stage, a: Action) -> (r: StagePlan)
    ensures
        r@ == (StagePlanView { stage, actions: seq![a@] }),
{
    let mut actions: Vec<Action> = Vec::new();
    actions.push(a);
    let r = StagePlan { stage, actions };
    assert(r@.actions =~= seq![a@]);
    r
}

fn package_stage(stage: Stage, kind: CommandKind, p: &Profile, ws: &Workspace, list: &Vec<String>) -> (r: StagePlan)
    requires
        spec_resolve(kind, *p, *ws) is Ok,
    ensures
        r@ == (StagePlanView { stage, actions: package_actions(kind, *p, *ws, list@) }),
{
    let mut actions: Vec<Action> = Vec::new();
    if list.len() > 0 {
        match resolve(kind, p, ws) {
            Ok(c) => actions.push(Action::Run(c)),
            Err(_) => {},
        }
    }
    let r = StagePlan { stage, actions };
    assert(r@.actions =~= package_actions(kind, *p, *ws, list@));
    r
}

fn script_stage(p: &Profile, ws: &Workspace, scripts: &Vec<String>) -> (r: StagePlan)
    ensures
        r@ == (StagePlanView { stage: Stage::ScriptExecution, actions: script_actions(*p, *ws, script_order(views(scripts@))) }),
{
    let order = order_scripts(scripts);
    let mut actions: Vec<Action> = Vec::new();
    let n = order.len();
    let mut i: usize = 0;
    while i < n
        invariant
            n == order@.len(),
            i <= n,
            actions@.len() == i,
            actions@.map_values(|a: Action| a@) =~= script_actions(*p, *ws, views(order@.subrange(0, i as int))),
        decreases n - i,
    {
        let ghost before = actions@.map_values(|a: Action| a@);
        let c = script_command(p, ws, &order[i]);
        actions.push(Action::Run(c));
        proof {
            let now = actions@.map_values(|a: Action| a@);
            let want = script_actions(*p, *ws, views(order@.subrange(0, i + 1)));
            assert(want.len() == i + 1);
            assert forall|k: int| 0 <= k < now.len() implies now[k] == want[k] by {
                if k < i {
                    assert(now[k] == before[k]);
                    assert(views(order@.subrange(0, i + 1))[k] == views(order@.subrange(0, i as int))[k]);
                } else {
                    assert(views(order@.subrange(0, i + 1))[k] == order@[i as int]@);
                }
            }
        }
        i = i + 1;
    }
    assert(order@.subrange(0, n as int) =~= order@);
    StagePlan { stage: Stage::ScriptExecution, actions }
}

/// Resolves every stage of a build into its actions, in stage order, or
/// refuses the profile before anything runs.
pub fn build_plan(p: &Profile, ws: &Workspace, scripts: &Vec<String>, files_present: bool) -> (r: Result<Vec<StagePlan>, Unsupported>)
    ensures
        match r {
            Ok(plan) => spec_plan(*p, *ws, views(scripts@), files_present) == Ok::<Seq<StagePlanView>, Unsupported>(plan_view(plan@)),
            Err(e) => spec_plan(*p, *ws, views(scripts@), files_present) == Err::<Seq<StagePlanView>, Unsupported>(e),
        },
{
    if !p.uefi_support && !p.bios_support {
        return Err(Unsupported::NoFirmware);
    }
    let init = match run_action(CommandKind::InitEnable, p, ws) {
        Ok(a) => a,
        Err(e) => return Err(e),
    };
    let boot = match run_action(CommandKind::BootloaderInstall, p, ws) {
        Ok(a) => a,
        Err(e) => return Err(e),
    };
    let toolchain = match run_action(CommandKind::Toolchain, p, ws) {
        Ok(a) => a,
        Err(e) => return Err(e),
    };
    let base = match run_action(CommandKind::BaseInstall, p, ws) {
        Ok(a) => a,
        Err(e) => return Err(e),
    };
    let assemble = match run_action(CommandKind::ImageAssembly, p, ws) {
        Ok(a) => a,
        Err(e) => return Err(e),
    };
    let mut plan: Vec<StagePlan> = Vec::new();
    let mut setup: Vec<Action> = Vec::new();
    setup.push(Action::PullImage { image: base_image(p.base) });
    setup.push(toolchain);
    let environment = StagePlan { stage: Stage::EnvironmentSetup, actions: setup };
    assert(environment@.actions =~= seq![
        ActionView::PullImage { image: spec_base_image(p.base) },
        resolved(CommandKind::Toolchain, *p, *ws),
    ]);
    plan.push(environment);
    plan.push(single(Stage::BaseInstall, base));
    plan.push(package_stage(Stage::PackageInstall, CommandKind::PackageInstall, p, ws, &p.packages));
    plan.push(package_stage(Stage::PackageRemoval, CommandKind::PackageRemoval, p, ws, &p.packages_to_remove));
    let mut copy: Vec<Action> = Vec::new();
    if files_present {
        copy.push(Action::CopyOverlay { source: ws.files_dir.clone(), dest: ws.rootfs() });
    }
    let overlay = StagePlan { stage: Stage::OverlayCopy, actions: copy };
    assert(overlay@.actions =~= (if files_present {
        seq![ActionView::CopyOverlay { source: ws.files_dir@, dest: ws.spec_rootfs() }]
    } else {
        Seq::<ActionView>::empty()
    }));
    plan.push(overlay);
    plan.push(script_stage(p, ws, scripts));
    let mut config: Vec<Action> = Vec::new();
    config.push(init);
    config.push(boot);
    let configure = StagePlan { stage: Stage::SystemConfiguration, actions: config };
    assert(configure@.actions =~= seq![
        resolved(CommandKind::InitEnable, *p, *ws),
        resolved(CommandKind::BootloaderInstall, *p, *ws),
    ]);
    plan.push(configure);
    let mut finish: Vec<Action> = Vec::new();
    finish.push(assemble);
    finish.push(Action::MoveArtifact { from: ws.staged_image(), to: artifact_path(p, ws) });
    let image = StagePlan { stage: Stage::ImageAssembly, actions: finish };
    assert(image@.actions =~= seq![
        resolved(CommandKind::ImageAssembly, *p, *ws),
        ActionView::MoveArtifact { from: ws.spec_staged_image(), to: spec_artifact_path(*p, *ws) },
    ]);
    plan.push(image);
    assert(plan_view(plan@) =~= spec_plan(*p, *ws, views(scripts@), files_present)->Ok_0);
    Ok(plan)
}

} // verus!
