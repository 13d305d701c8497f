//! Properties that hold of the library as a whole, stated over the spec
//! functions that the executable functions' contracts use.
use vstd::prelude::*;
use crate::pipeline::{script_actions, spec_plan, ActionView, StagePlanView};
use crate::profile::{validation_error, InitSystem, Profile, ProfileInput};
use crate::resolver::{spec_base_image, spec_resolve, spec_script_command, CommandKind, Unsupported, Workspace};
use crate::runner::{
    enter_from, first_busy, flatten, rest_actions, spec_entered, spec_next, spec_record, spec_run,
    spec_start, stages_of, success_trace, successes, view_wf, OutcomeView, RunnerView, StatusView,
};
use crate::scripts::{lemma_sort, lex_le, lex_lt, script_names, script_order, sorted, spec_is_script};

verus! {

broadcast use vstd::seq_lib::group_to_multiset_ensures;

/// The resolver is total: every kind of command resolves, for every
/// profile, either to a non-empty command line or to an explicit refusal,
/// and a refusal comes exactly for an init system without a command or a
/// profile without firmware.
pub proof fn resolver_totality(kind: CommandKind, p: Profile, ws: Workspace)
    ensures
        spec_resolve(kind, p, ws) is Ok ==> spec_resolve(kind, p, ws)->Ok_0.command.len() > 0,
        spec_resolve(kind, p, ws) is Err <==> {
            ||| kind == CommandKind::InitEnable && p.init_system == InitSystem::Openrc
            ||| kind == CommandKind::BootloaderInstall && !p.uefi_support && !p.bios_support
        },
{
}

proof fn lemma_script_names_count(names: Seq<Seq<char>>, x: Seq<char>)
    ensures
        script_names(names).to_multiset().count(x) == if spec_is_script(x) {
            names.to_multiset().count(x)
        } else {
            0
        },
    decreases names.len(),
{
    if names.len() > 0 {
        lemma_script_names_count(names.drop_last(), x);
        assert(names =~= names.drop_last().push(names.last()));
    }
}

/// Scripts run in strict lexicographic order of their names: for any set
/// of entries in the scripts directory, the script stage runs each script
/// among them exactly once, and each strictly before every script whose
/// name comes later.
pub proof fn scripts_run_in_lexicographic_order(p: Profile, ws: Workspace, names: Seq<Seq<char>>, files_present: bool)
    requires
        names.no_duplicates(),
        spec_plan(p, ws, names, files_present) is Ok,
    ensures
        spec_plan(p, ws, names, files_present)->Ok_0[5].actions == script_actions(p, ws, script_order(names)),
        script_actions(p, ws, script_order(names)).len() == script_order(names).len(),
        forall|k: int| 0 <= k < script_order(names).len() ==> #[trigger] script_actions(p, ws, script_order(names))[k]
            == ActionView::Run(spec_script_command(p, ws, script_order(names)[k])),
        forall|i: int, j: int| 0 <= i < j < script_order(names).len()
            ==> lex_lt(#[trigger] script_order(names)[i], #[trigger] script_order(names)[j]),
        forall|x: Seq<char>| #[trigger] script_order(names).contains(x) <==> (names.contains(x) && spec_is_script(x)),
{
    let order = script_order(names);
    let sn = script_names(names);
    lemma_sort(sn);
    names.lemma_multiset_has_no_duplicates();
    assert forall|x: Seq<char>| order.to_multiset().contains(x) implies order.to_multiset().count(x) == 1 by {
        lemma_script_names_count(names, x);
    }
    order.lemma_multiset_has_no_duplicates_conv();
    assert forall|x: Seq<char>| #[trigger] order.contains(x) <==> (names.contains(x) && spec_is_script(x)) by {
        lemma_script_names_count(names, x);
        assert(order.contains(x) <==> order.to_multiset().count(x) > 0);
        assert(names.contains(x) <==> names.to_multiset().count(x) > 0);
        assert(order.to_multiset().count(x) == sn.to_multiset().count(x));
    }
    assert forall|i: int, j: int| 0 <= i < j < order.len() implies lex_lt(#[trigger] order[i], #[trigger] order[j]) by {
        assert(lex_le(order[i], order[j]));
    }
}

/// Stages without work are no-ops, never errors: no packages means no
/// package-manager run, nothing to remove means no removal run, a missing
/// overlay or scripts directory means nothing is copied or run, and whether
/// the plan is refused does not depend on those directories.
pub proof fn empty_stages_are_no_ops(p: Profile, ws: Workspace, names: Seq<Seq<char>>, files_present: bool)
    ensures
        (spec_plan(p, ws, names, files_present) is Ok) == (spec_plan(p, ws, Seq::empty(), false) is Ok),
        spec_plan(p, ws, names, files_present) is Ok ==> ({
            let plan = spec_plan(p, ws, names, files_present)->Ok_0;
            &&& plan.len() == 8
            &&& (plan[2].actions.len() == 0 <==> p.packages@.len() == 0)
            &&& (plan[3].actions.len() == 0 <==> p.packages_to_remove@.len() == 0)
            &&& (plan[4].actions.len() == 0 <==> !files_present)
            &&& (names.len() == 0 ==> plan[5].actions.len() == 0)
        }),
{
    lemma_sort(script_names(names));
}

/// Fail-fast: once the action of stage `k` fails, the run stays failed at
/// stage `k` whatever is reported afterwards, hands out no further action,
/// never completes (so the image is never moved to its durable path), and
/// has entered no stage after `k`.
pub proof fn fail_fast(r: RunnerView, exit_code: Option<i32>, detail: Seq<char>, later: Seq<OutcomeView>)
    requires
        view_wf(r),
        r.status is Running,
    ensures
        ({
            let f = spec_record(r, OutcomeView::Failed { exit_code, detail });
            let end = spec_run(f, later);
            &&& end == f
            &&& end.status == StatusView::Failed { stage: r.plan[r.stage].stage, exit_code, detail }
            &&& spec_next(end) is None
            &&& spec_entered(end) == stages_of(r.plan).subrange(0, r.stage + 1)
        }),
    decreases later.len(),
{
    let f = spec_record(r, OutcomeView::Failed { exit_code, detail });
    lemma_finished_run_stays(f, later);
}

proof fn lemma_finished_run_stays(f: RunnerView, later: Seq<OutcomeView>)
    requires
        !(f.status is Running),
    ensures
        spec_run(f, later) == f,
    decreases later.len(),
{
    if later.len() > 0 {
        lemma_finished_run_stays(spec_record(f, later[0]), later.drop_first());
    }
}

/// A profile that selects neither UEFI nor BIOS never reaches the build
/// environment: validation rejects it, and so does planning.
pub proof fn firmware_required(i: ProfileInput, p: Profile, ws: Workspace, names: Seq<Seq<char>>, files_present: bool)
    ensures
        !i.uefi_support && !i.bios_support ==> validation_error(i) is Some,
        !p.uefi_support && !p.bios_support ==> spec_plan(p, ws, names, files_present) == Err::<Seq<StagePlanView>, Unsupported>(Unsupported::NoFirmware),
{
}

/// Whether the working tree exists after a cleanup that removed `removed`.
pub open spec fn exists_after_cleanup(root_exists: bool, removed: Option<Seq<char>>) -> bool {
    root_exists && removed is None
}

/// Cleanup is idempotent: after one cleanup the working tree is gone, and a
/// second cleanup right after it has nothing to remove and succeeds.
pub proof fn cleanup_idempotent(ws: Workspace, root_exists: bool)
    ensures
        ({
            let after_first = exists_after_cleanup(root_exists, ws.spec_cleanup(root_exists));
            &&& !after_first
            &&& ws.spec_cleanup(after_first) is None
            &&& !exists_after_cleanup(after_first, ws.spec_cleanup(after_first))
        }),
{
}

proof fn lemma_enter_rest(plan: Seq<StagePlanView>, s: int)
    requires
        0 <= s <= plan.len(),
    ensures
        rest_actions(enter_from(plan, s)) == flatten(plan.subrange(s, plan.len() as int)),
        view_wf(enter_from(plan, s)),
        !(enter_from(plan, s).status is Failed),
    decreases plan.len() - s,
{
    let tail = plan.subrange(s, plan.len() as int);
    if s == plan.len() {
        assert(tail.len() == 0);
    } else if plan[s].actions.len() > 0 {
        assert(tail[0] == plan[s]);
        assert(tail.drop_first() =~= plan.subrange(s + 1, plan.len() as int));
        assert(plan[s].actions.subrange(0, plan[s].actions.len() as int) =~= plan[s].actions);
    } else {
        lemma_enter_rest(plan, s + 1);
        assert(tail[0] == plan[s]);
        assert(tail.drop_first() =~= plan.subrange(s + 1, plan.len() as int));
        assert(plan[s].actions + flatten(tail.drop_first()) =~= flatten(tail.drop_first()));
    }
}

proof fn lemma_success_step(r: RunnerView)
    requires
        view_wf(r),
        r.status is Running,
    ensures
        rest_actions(r).len() > 0,
        spec_next(r) == Some(rest_actions(r)[0]),
        rest_actions(spec_record(r, OutcomeView::Success)) == rest_actions(r).drop_first(),
        view_wf(spec_record(r, OutcomeView::Success)),
        !(spec_record(r, OutcomeView::Success).status is Failed),
        spec_record(r, OutcomeView::Success).plan == r.plan,
{
    let acts = r.plan[r.stage].actions;
    let f = flatten(r.plan.subrange(r.stage + 1, r.plan.len() as int));
    assert(rest_actions(r)[0] == acts[r.action]);
    if r.action + 1 < acts.len() {
        assert(acts.subrange(r.action + 1, acts.len() as int) + f =~= (acts.subrange(r.action, acts.len() as int) + f).drop_first());
    } else {
        lemma_enter_rest(r.plan, r.stage + 1);
        assert(f =~= (acts.subrange(r.action, acts.len() as int) + f).drop_first());
    }
}

proof fn lemma_success_run(r: RunnerView)
    requires
        view_wf(r),
        !(r.status is Failed),
    ensures
        success_trace(r, rest_actions(r).len()) == rest_actions(r),
        spec_run(r, successes(rest_actions(r).len())).status is Completed,
        spec_run(r, successes(rest_actions(r).len())).plan == r.plan,
    decreases rest_actions(r).len(),
{
    let n = rest_actions(r).len();
    if r.status is Running {
        lemma_success_step(r);
        let r2 = spec_record(r, OutcomeView::Success);
        lemma_success_run(r2);
        assert(successes(n).drop_first() =~= successes((n - 1) as nat));
        assert(seq![rest_actions(r)[0]] + rest_actions(r).drop_first() =~= rest_actions(r));
    } else {
        assert(successes(0) =~= Seq::<OutcomeView>::empty());
    }
}

/// Stages run strictly in sequence: when every action succeeds, a run of a
/// plan hands out each action of the plan exactly once, stage after stage
/// and in order within each stage, then completes having entered every
/// stage of the plan in order.
pub proof fn successful_run_follows_plan(plan: Seq<StagePlanView>)
    ensures
        success_trace(spec_start(plan), flatten(plan).len()) == flatten(plan),
        spec_run(spec_start(plan), successes(flatten(plan).len())).status is Completed,
        spec_entered(spec_run(spec_start(plan), successes(flatten(plan).len()))) == stages_of(plan),
{
    lemma_enter_rest(plan, 0);
    assert(plan.subrange(0, plan.len() as int) =~= plan);
    lemma_success_run(spec_start(plan));
}

/// The base image is pulled before anything runs in it: the first action
/// of a plan pulls the profile's base image, and every command of the plan
/// runs in that image.
pub proof fn pull_precedes_every_run(p: Profile, ws: Workspace, names: Seq<Seq<char>>, files_present: bool)
    requires
        spec_plan(p, ws, names, files_present) is Ok,
    ensures
        ({
            let plan = spec_plan(p, ws, names, files_present)->Ok_0;
            &&& plan[0].actions[0] == ActionView::PullImage { image: spec_base_image(p.base) }
            &&& forall|k: int, j: int| 0 <= k < plan.len() && 0 <= j < plan[k].actions.len()
                && (#[trigger] plan[k].actions[j]) is Run
                ==> plan[k].actions[j]->Run_0.image == spec_base_image(p.base)
        }),
{
    let plan = spec_plan(p, ws, names, files_present)->Ok_0;
    assert forall|k: int, j: int| 0 <= k < plan.len() && 0 <= j < plan[k].actions.len()
        && (#[trigger] plan[k].actions[j]) is Run
        implies plan[k].actions[j]->Run_0.image == spec_base_image(p.base) by {
        if k == 5 {
            let order = script_order(names);
            assert(plan[k].actions[j] == ActionView::Run(spec_script_command(p, ws, order[j])));
        }
    }
}

} // verus!
