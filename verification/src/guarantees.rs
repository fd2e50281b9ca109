//! What a plan guarantees: where its steps stand, what it writes, what is
//! taken back when a step fails, and what a run leaves in the registry.

use crate::config::ConfigView;
use crate::host::{HostActionView, Outcome};
use crate::layout::{app_file_path_of, image_path_of, instance_key_of, vm_key_of};
use crate::pipeline::{
    action_for, directive_of, finished, initial_state, last_undo_below, last_undo_below_is,
    next_state, unwind_order, Directive, Phase, ProvisionError, RunState,
};
use crate::plan::{
    epilogue_len, epilogue_of, placement_of, plan_of, prologue_len, prologue_of,
    register_action_of, tap_delete_action_of, unmount_action_of, Stage, StepView,
};
use crate::registry::{
    key_bytes, store_after, store_after_guarded_insert, Store, StoreRequestView,
};
use vstd::prelude::*;

verus! {

/// Index of the step that registers the instance.
pub open spec fn register_index() -> int {
    0
}

/// Index of the step that copies the base image.
pub open spec fn image_index() -> int {
    2
}

/// Index of the step that mounts the image.
pub open spec fn mount_index() -> int {
    4
}

/// Index of the step that creates the tap device, in a plan with `files`
/// files.
pub open spec fn tap_index(files: int) -> int {
    prologue_len() + files + 4
}

/// Where each step of a plan stands: the six steps up to the mount, one step
/// for each file, the eight steps from the boot script to the hypervisor.
pub proof fn plan_layout(cfg: ConfigView, bundle: Seq<(Seq<char>, Seq<u8>)>, record: Seq<u8>)
    ensures
        plan_of(cfg, bundle, record).len() == prologue_len() + bundle.len() + epilogue_len(),
        forall|i: int|
            0 <= i < prologue_len() ==> #[trigger] plan_of(cfg, bundle, record)[i] == prologue_of(
                cfg.id,
                record,
            )[i],
        forall|i: int|
            0 <= i < bundle.len() ==> #[trigger] plan_of(cfg, bundle, record)[prologue_len() + i]
                == placement_of(cfg.id, bundle[i]),
        forall|i: int|
            0 <= i < epilogue_len() ==> #[trigger] plan_of(cfg, bundle, record)[prologue_len()
                + bundle.len() + i] == epilogue_of(cfg)[i],
{
}

/// A plan stores exactly one record in the registry: its first step, which
/// stores the given record under the instance's key and only if the instance
/// is not marked as provisioned. No step going forward deletes a key.
pub proof fn plan_persists_one_record(
    cfg: ConfigView,
    bundle: Seq<(Seq<char>, Seq<u8>)>,
    record: Seq<u8>,
)
    ensures
        plan_of(cfg, bundle, record)[register_index()].action == register_action_of(
            cfg.id,
            record,
        ),
        forall|j: int|
            0 <= j < plan_of(cfg, bundle, record).len() ==> ((#[trigger] plan_of(
                cfg,
                bundle,
                record,
            )[j]).action is Register <==> j == register_index()),
        forall|j: int|
            0 <= j < plan_of(cfg, bundle, record).len() ==> !((#[trigger] plan_of(
                cfg,
                bundle,
                record,
            )[j]).action is Unregister),
{
    let plan = plan_of(cfg, bundle, record);
    assert forall|j: int| 0 <= j < plan.len() implies ((#[trigger] plan[j]).action is Register
        <==> j == 0) && !(plan[j].action is Unregister) by {
        plan_step_kinds(cfg, bundle, record, j);
    }
}

/// Every step of a plan is one of the prologue, a placement or one of the
/// epilogue.
proof fn plan_step_kinds(
    cfg: ConfigView,
    bundle: Seq<(Seq<char>, Seq<u8>)>,
    record: Seq<u8>,
    j: int,
)
    requires
        0 <= j < plan_of(cfg, bundle, record).len(),
    ensures
        ({
            let plan = plan_of(cfg, bundle, record);
            let n = bundle.len() as int;
            &&& j < 6 ==> plan[j] == prologue_of(cfg.id, record)[j]
            &&& 6 <= j < 6 + n ==> plan[j] == placement_of(cfg.id, bundle[j - 6])
            &&& 6 + n <= j ==> plan[j] == epilogue_of(cfg)[j - 6 - n]
            &&& plan.len() == 14 + n
        }),
{
}

/// Every file of the bundle is written, byte for byte, to its relative path
/// under the application directory, in the bundle's order, and the plan
/// writes no other file content.
pub proof fn plan_places_the_bundle(
    cfg: ConfigView,
    bundle: Seq<(Seq<char>, Seq<u8>)>,
    record: Seq<u8>,
)
    ensures
        forall|i: int|
            0 <= i < bundle.len() ==> (#[trigger] plan_of(cfg, bundle, record)[prologue_len()
                + i]).action == (HostActionView::WriteFile {
                path: app_file_path_of(cfg.id, bundle[i].0),
                content: bundle[i].1,
            }),
        forall|j: int|
            0 <= j < plan_of(cfg, bundle, record).len() && (#[trigger] plan_of(
                cfg,
                bundle,
                record,
            )[j]).action is WriteFile ==> prologue_len() <= j < prologue_len() + bundle.len(),
{
    let plan = plan_of(cfg, bundle, record);
    assert forall|j: int| 0 <= j < plan.len() && (#[trigger] plan[j]).action is WriteFile implies 6
        <= j < 6 + bundle.len() by {
        plan_step_kinds(cfg, bundle, record, j);
    }
}

/// When the registry answers that the instance is already marked as
/// provisioned, the run ends at once with `AlreadyExists`: the host is asked
/// for nothing more, neither forward nor back.
pub proof fn marked_instance_is_rejected(
    cfg: ConfigView,
    bundle: Seq<(Seq<char>, Seq<u8>)>,
    record: Seq<u8>,
)
    ensures
        ({
            let plan = plan_of(cfg, bundle, record);
            let first = initial_state(plan);
            &&& directive_of(first) == (Directive::Perform { step: 0 })
            &&& next_state(plan, first, Outcome::AlreadyExists) == finished(
                Some(ProvisionError::AlreadyExists),
            )
            &&& directive_of(next_state(plan, first, Outcome::AlreadyExists))
                == Directive::Finished(Err(ProvisionError::AlreadyExists))
        }),
{
    plan_step_kinds(cfg, bundle, record, 0);
}

/// The steps that are taken back when step `k` of a plan fails, in order:
/// the tap device if it was created, the mount if the image was mounted, the
/// image if it was copied, the record if it was stored.
pub open spec fn plan_unwind_order(files: int, k: int) -> Seq<int> {
    if k <= register_index() {
        Seq::empty()
    } else if k <= image_index() {
        seq![register_index()]
    } else if k <= mount_index() {
        seq![image_index(), register_index()]
    } else if k <= tap_index(files) {
        seq![mount_index(), image_index(), register_index()]
    } else {
        seq![tap_index(files), mount_index(), image_index(), register_index()]
    }
}

/// In a plan, a failure at step `k` takes back `plan_unwind_order`, and the
/// undo actions are: delete the tap device, unmount, remove the instance's
/// image, delete the instance's record.
pub proof fn plan_rollback(
    cfg: ConfigView,
    bundle: Seq<(Seq<char>, Seq<u8>)>,
    record: Seq<u8>,
    k: int,
)
    requires
        0 <= k < plan_of(cfg, bundle, record).len(),
    ensures
        unwind_order(plan_of(cfg, bundle, record), k) == plan_unwind_order(bundle.len() as int, k),
        plan_of(cfg, bundle, record)[register_index()].undo == Some(
            HostActionView::Unregister { key: instance_key_of(cfg.id) },
        ),
        plan_of(cfg, bundle, record)[image_index()].undo == Some(
            HostActionView::RemoveFile { path: image_path_of(cfg.id) },
        ),
        plan_of(cfg, bundle, record)[mount_index()].undo == Some(unmount_action_of(cfg.id)),
        plan_of(cfg, bundle, record)[tap_index(bundle.len() as int)].undo == Some(
            tap_delete_action_of(cfg.id),
        ),
{
    let plan = plan_of(cfg, bundle, record);
    let n = bundle.len() as int;
    let t = tap_index(n);
    plan_step_kinds(cfg, bundle, record, 0);
    plan_step_kinds(cfg, bundle, record, 2);
    plan_step_kinds(cfg, bundle, record, 4);
    plan_step_kinds(cfg, bundle, record, t);
    assert forall|j: int| 0 <= j < plan.len() && j != 0 && j != 2 && j != 4 && j != t implies (
    #[trigger] plan[j]).undo is None by {
        plan_step_kinds(cfg, bundle, record, j);
    }
    last_undo_below_is(plan, 0, -1);
    assert(unwind_order(plan, 0) =~= Seq::<int>::empty());
    if k > 0 {
        let k1 = if k <= 2 {
            k
        } else {
            2
        };
        last_undo_below_is(plan, k1, 0);
        assert(unwind_order(plan, k1) =~= seq![0]);
    }
    if k > 2 {
        let k2 = if k <= 4 {
            k
        } else {
            4
        };
        last_undo_below_is(plan, k2, 2);
        assert(unwind_order(plan, k2) =~= seq![2, 0]);
    }
    if k > 4 {
        let k3 = if k <= t {
            k
        } else {
            t
        };
        last_undo_below_is(plan, k3, 4);
        assert(unwind_order(plan, k3) =~= seq![4, 2, 0]);
    }
    if k > t {
        last_undo_below_is(plan, k, t);
        assert(unwind_order(plan, k) =~= seq![t, 4, 2, 0]);
    }
}

/// When the mount fails after the record was stored and the image copied,
/// the host is asked to remove the instance's image, then to delete the
/// instance's record, and the run ends with the failure of the mount stage.
pub proof fn failed_mount_is_rolled_back(
    cfg: ConfigView,
    bundle: Seq<(Seq<char>, Seq<u8>)>,
    record: Seq<u8>,
    failing: Outcome,
    first: Outcome,
    second: Outcome,
)
    requires
        failing != Outcome::Done,
    ensures
        ({
            let plan = plan_of(cfg, bundle, record);
            let at_mount = RunState { phase: Phase::Forward, cursor: mount_index(), error: None };
            let s1 = next_state(plan, at_mount, failing);
            let s2 = next_state(plan, s1, first);
            let s3 = next_state(plan, s2, second);
            &&& action_for(plan, directive_of(s1)) == Some(
                HostActionView::RemoveFile { path: image_path_of(cfg.id) },
            )
            &&& action_for(plan, directive_of(s2)) == Some(
                HostActionView::Unregister { key: instance_key_of(cfg.id) },
            )
            &&& directive_of(s3) == Directive::Finished(
                Err(ProvisionError::Failed(Stage::Mount)),
            )
        }),
{
    let plan = plan_of(cfg, bundle, record);
    plan_step_kinds(cfg, bundle, record, 4);
    plan_rollback(cfg, bundle, record, 4);
    plan_rollback(cfg, bundle, record, 2);
    plan_rollback(cfg, bundle, record, 0);
    let o4 = unwind_order(plan, 4);
    let o2 = unwind_order(plan, 2);
    let o0 = unwind_order(plan, 0);
    assert(o4[0] == 2);
    assert(o2[0] == 0);
    assert(o0.len() == 0);
    assert(last_undo_below(plan, 4) == 2);
    assert(last_undo_below(plan, 2) == 0);
    assert(last_undo_below(plan, 0) == -1);
}

/// The store's content after the host has carried out `action`. Only the
/// two registry actions change it.
pub open spec fn registry_after(store: Store, action: HostActionView) -> Store {
    match action {
        HostActionView::Register { guard, key, value } => store_after_guarded_insert(
            store,
            key_bytes(guard),
            key_bytes(key),
            value,
        ),
        HostActionView::Unregister { key } => store_after(
            store,
            StoreRequestView::Clear { key: key_bytes(key) },
        ),
        _ => store,
    }
}

/// What a store that is reached answers to a `Register` action.
pub open spec fn register_answer(store: Store, guard: Seq<char>) -> Outcome {
    if store.dom().contains(key_bytes(guard)) {
        Outcome::AlreadyExists
    } else {
        Outcome::Done
    }
}

/// The store's content after the actions of the first `n` steps.
pub open spec fn registry_after_steps(store: Store, plan: Seq<StepView>, n: nat) -> Store
    decreases n,
{
    if n == 0 {
        store
    } else {
        registry_after(registry_after_steps(store, plan, (n - 1) as nat), plan[n - 1].action)
    }
}

/// For an instance that is not marked as provisioned, a run stores exactly
/// one record: from the first step on, and whatever further steps are
/// performed, the store holds what it held before and the given record under
/// the instance's key.
pub proof fn run_persists_one_record(
    cfg: ConfigView,
    bundle: Seq<(Seq<char>, Seq<u8>)>,
    record: Seq<u8>,
    store: Store,
    n: nat,
)
    requires
        !store.dom().contains(key_bytes(vm_key_of(cfg.id))),
        1 <= n <= plan_of(cfg, bundle, record).len(),
    ensures
        registry_after_steps(store, plan_of(cfg, bundle, record), 0) == store,
        registry_after_steps(store, plan_of(cfg, bundle, record), n) == store.insert(
            key_bytes(instance_key_of(cfg.id)),
            record,
        ),
        register_answer(store, vm_key_of(cfg.id)) == Outcome::Done,
    decreases n,
{
    let plan = plan_of(cfg, bundle, record);
    plan_persists_one_record(cfg, bundle, record);
    if n == 1 {
        assert(registry_after_steps(store, plan, 0) == store);
        assert(plan[0].action == register_action_of(cfg.id, record));
    } else {
        run_persists_one_record(cfg, bundle, record, store, (n - 1) as nat);
        let step = plan[n - 1];
        assert(!(step.action is Register));
        assert(!(step.action is Unregister));
    }
}

/// For an instance that is marked as provisioned, the first step changes
/// nothing in the store and is answered with `AlreadyExists`.
pub proof fn marked_instance_leaves_the_store(
    cfg: ConfigView,
    bundle: Seq<(Seq<char>, Seq<u8>)>,
    record: Seq<u8>,
    store: Store,
)
    requires
        store.dom().contains(key_bytes(vm_key_of(cfg.id))),
    ensures
        registry_after_steps(store, plan_of(cfg, bundle, record), 1) == store,
        register_answer(store, vm_key_of(cfg.id)) == Outcome::AlreadyExists,
{
    let plan = plan_of(cfg, bundle, record);
    plan_persists_one_record(cfg, bundle, record);
    assert(registry_after_steps(store, plan, 0) == store);
    assert(plan[0].action == register_action_of(cfg.id, record));
}

/// Taking the registration back deletes the instance's record: afterwards
/// the store holds nothing under the instance's key, and under every other
/// key what it held before the run.
pub proof fn rollback_deletes_the_record(
    cfg: ConfigView,
    bundle: Seq<(Seq<char>, Seq<u8>)>,
    record: Seq<u8>,
    store: Store,
)
    requires
        !store.dom().contains(key_bytes(vm_key_of(cfg.id))),
    ensures
        ({
            let plan = plan_of(cfg, bundle, record);
            let key = key_bytes(instance_key_of(cfg.id));
            let stored = registry_after_steps(store, plan, 1);
            let undone = registry_after(stored, plan[register_index()].undo->0);
            &&& plan[register_index()].undo is Some
            &&& !undone.dom().contains(key)
            &&& undone == store.remove(key)
        }),
{
    let plan = plan_of(cfg, bundle, record);
    let key = key_bytes(instance_key_of(cfg.id));
    run_persists_one_record(cfg, bundle, record, store, 1);
    plan_rollback(cfg, bundle, record, 0);
    assert(store.insert(key, record).remove(key) =~= store.remove(key));
}

} // verus!
