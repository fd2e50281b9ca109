//! The ordered plan that provisions one instance: every step with the action
//! that carries it out and the action that takes it back.

use crate::archive::bundle_view;
use crate::boot::{boot_config, boot_config_of, init_script, init_script_of};
use crate::config::{Config, ConfigView};
use crate::host::{optional_action_view, run_action, HostAction, HostActionView};
use crate::layout::{
    api_socket_path, api_socket_path_of, app_dir, app_dir_of, app_file_path, app_file_path_of,
    base_image_path, base_image_path_of, boot_config_path, boot_config_path_of, image_path,
    image_path_of, images_dir, images_dir_of, init_link_path, init_link_path_of,
    init_link_target_of, init_script_path, init_script_path_of, instance_key, instance_key_of,
    mount_dir, mount_dir_of, tap_name, tap_name_of, vm_key, vm_key_of,
    TAP_PREFIX_LEN,
};
use crate::text::push_text;
use vstd::prelude::*;

verus! {

/// The stages of provisioning, in the order in which they run.
#[derive(Clone, Copy, Debug, PartialEq, Eq, Structural)]
pub enum Stage {
    /// The idempotency check and the insert of the configuration record, in
    /// one registry transaction.
    RecordPersist,
    /// The copy of the base image to the instance's own image.
    RootImage,
    /// The loop mount of the instance's image.
    Mount,
    /// The files of the code bundle under the application directory.
    CodePlacement,
    /// The boot script and the link that makes it the guest's first process.
    BootScript,
    /// The hypervisor's configuration file.
    BootConfig,
    /// The tap device, created and brought up.
    NetworkAttach,
    /// The hypervisor, started and waited for.
    HypervisorLaunch,
}

/// One step of the plan.
#[derive(Clone, Debug, PartialEq, Eq)]
pub struct Step {
    /// The stage that the step belongs to.
    pub stage: Stage,
    /// What carries the step out.
    pub action: HostAction,
    /// What takes the step back, if anything has to be.
    pub undo: Option<HostAction>,
    /// Whether a failure of the action ends provisioning.
    pub required: bool,
}

/// A step as plain values.
pub struct StepView {
    pub stage: Stage,
    pub action: HostActionView,
    pub undo: Option<HostActionView>,
    pub required: bool,
}

impl View for Step {
    type V = StepView;

    open spec fn view(&self) -> StepView {
        StepView {
            stage: self.stage,
            action: self.action@,
            undo: optional_action_view(self.undo),
            required: self.required,
        }
    }
}

/// The views of a list of steps, in order.
pub open spec fn steps_view(steps: Seq<Step>) -> Seq<StepView> {
    Seq::new(steps.len(), |i: int| steps[i]@)
}

/// The views of a list of actions, in order.
pub open spec fn actions_view(actions: Seq<HostAction>) -> Seq<HostActionView> {
    Seq::new(actions.len(), |i: int| actions[i]@)
}

/// Stores the record under the instance's key unless the instance is marked
/// as provisioned.
pub open spec fn register_action_of(id: Seq<char>, record: Seq<u8>) -> HostActionView {
    HostActionView::Register { guard: vm_key_of(id), key: instance_key_of(id), value: record }
}

/// Loop-mounts the instance's image on its mount directory.
pub open spec fn mount_action_of(id: Seq<char>) -> HostActionView {
    HostActionView::Run {
        program: "mount"@,
        args: seq!["-o"@, "loop"@, image_path_of(id), mount_dir_of(id)],
    }
}

/// Unmounts the instance's mount directory.
pub open spec fn unmount_action_of(id: Seq<char>) -> HostActionView {
    HostActionView::Run { program: "umount"@, args: seq![mount_dir_of(id)] }
}

/// Creates the instance's tap device.
pub open spec fn tap_add_action_of(id: Seq<char>) -> HostActionView {
    HostActionView::Run {
        program: "ip"@,
        args: seq!["tuntap"@, "add"@, "mode"@, "tap"@, tap_name_of(id)],
    }
}

/// Deletes the instance's tap device.
pub open spec fn tap_delete_action_of(id: Seq<char>) -> HostActionView {
    HostActionView::Run {
        program: "ip"@,
        args: seq!["tuntap"@, "del"@, "mode"@, "tap"@, tap_name_of(id)],
    }
}

/// Brings the instance's tap device up.
pub open spec fn tap_up_action_of(id: Seq<char>) -> HostActionView {
    HostActionView::Run { program: "ip"@, args: seq!["link"@, "set"@, tap_name_of(id), "up"@] }
}

/// Starts the hypervisor on the instance's control socket and configuration.
pub open spec fn launch_action_of(id: Seq<char>) -> HostActionView {
    HostActionView::Run {
        program: "firecracker"@,
        args: seq![
            "--api-sock"@,
            api_socket_path_of(id),
            "--config-file"@,
            boot_config_path_of(id),
        ],
    }
}

/// Stops the hypervisor that serves the instance's control socket.
pub open spec fn stop_action_of(id: Seq<char>) -> HostActionView {
    HostActionView::Run { program: "pkill"@, args: seq!["-f"@, api_socket_path_of(id)] }
}

/// The steps before code placement: registration, root image, mount.
pub open spec fn prologue_of(id: Seq<char>, record: Seq<u8>) -> Seq<StepView> {
    seq![
        StepView {
            stage: Stage::RecordPersist,
            action: register_action_of(id, record),
            undo: Some(HostActionView::Unregister { key: instance_key_of(id) }),
            required: true,
        },
        StepView {
            stage: Stage::RootImage,
            action: HostActionView::CreateDir { path: images_dir_of() },
            undo: None,
            required: true,
        },
        StepView {
            stage: Stage::RootImage,
            action: HostActionView::CopyFile { from: base_image_path_of(), to: image_path_of(id) },
            undo: Some(HostActionView::RemoveFile { path: image_path_of(id) }),
            required: true,
        },
        StepView {
            stage: Stage::Mount,
            action: HostActionView::CreateDir { path: mount_dir_of(id) },
            undo: None,
            required: true,
        },
        StepView {
            stage: Stage::Mount,
            action: mount_action_of(id),
            undo: Some(unmount_action_of(id)),
            required: true,
        },
        StepView {
            stage: Stage::CodePlacement,
            action: HostActionView::CreateDir { path: app_dir_of(id) },
            undo: None,
            required: true,
        },
    ]
}

/// The step that places one file of the code bundle.
pub open spec fn placement_of(id: Seq<char>, file: (Seq<char>, Seq<u8>)) -> StepView {
    StepView {
        stage: Stage::CodePlacement,
        action: HostActionView::WriteFile { path: app_file_path_of(id, file.0), content: file.1 },
        undo: None,
        required: true,
    }
}

/// One placement step for each file of the bundle, in the bundle's order.
pub open spec fn placements_of(id: Seq<char>, bundle: Seq<(Seq<char>, Seq<u8>)>) -> Seq<
    StepView,
> {
    Seq::new(bundle.len(), |i: int| placement_of(id, bundle[i]))
}

/// The steps after code placement: boot script, boot configuration, network
/// device, hypervisor.
pub open spec fn epilogue_of(cfg: ConfigView) -> Seq<StepView> {
    seq![
        StepView {
            stage: Stage::BootScript,
            action: HostActionView::WriteText {
                path: init_script_path_of(cfg.id),
                text: init_script_of(cfg.build_commands, cfg.run_command),
            },
            undo: None,
            required: true,
        },
        StepView {
            stage: Stage::BootScript,
            action: HostActionView::MakeExecutable { path: init_script_path_of(cfg.id) },
            undo: None,
            required: true,
        },
        StepView {
            stage: Stage::BootScript,
            action: HostActionView::Link {
                target: init_link_target_of(),
                link: init_link_path_of(cfg.id),
            },
            undo: None,
            required: true,
        },
        StepView {
            stage: Stage::BootConfig,
            action: HostActionView::WriteText {
                path: boot_config_path_of(cfg.id),
                text: boot_config_of(cfg.id),
            },
            undo: None,
            required: true,
        },
        StepView {
            stage: Stage::NetworkAttach,
            action: tap_add_action_of(cfg.id),
            undo: Some(tap_delete_action_of(cfg.id)),
            required: false,
        },
        StepView {
            stage: Stage::NetworkAttach,
            action: tap_up_action_of(cfg.id),
            undo: None,
            required: true,
        },
        StepView {
            stage: Stage::HypervisorLaunch,
            action: HostActionView::RemoveFile { path: api_socket_path_of(cfg.id) },
            undo: None,
            required: false,
        },
        StepView {
            stage: Stage::HypervisorLaunch,
            action: launch_action_of(cfg.id),
            undo: None,
            required: true,
        },
    ]
}

/// Number of steps before the placement of the bundle's files.
pub open spec fn prologue_len() -> int {
    6
}

/// Number of steps after the placement of the bundle's files.
pub open spec fn epilogue_len() -> int {
    8
}

/// The whole plan for one instance.
pub open spec fn plan_of(
    cfg: ConfigView,
    bundle: Seq<(Seq<char>, Seq<u8>)>,
    record: Seq<u8>,
) -> Seq<StepView> {
    prologue_of(cfg.id, record) + placements_of(cfg.id, bundle) + epilogue_of(cfg)
}

pub fn mount_action(id: &str) -> (action: HostAction)
    ensures
        action@ == mount_action_of(id@),
{
    let mut args: Vec<String> = Vec::new();
    push_text(&mut args, "-o");
    push_text(&mut args, "loop");
    push_text(&mut args, image_path(id).as_str());
    push_text(&mut args, mount_dir(id).as_str());
    let action = run_action("mount", args);
    assert(action@->Run_args =~= mount_action_of(id@)->Run_args);
    action
}

pub fn unmount_action(id: &str) -> (action: HostAction)
    ensures
        action@ == unmount_action_of(id@),
{
    let mut args: Vec<String> = Vec::new();
    push_text(&mut args, mount_dir(id).as_str());
    let action = run_action("umount", args);
    assert(action@->Run_args =~= unmount_action_of(id@)->Run_args);
    action
}

pub fn tap_add_action(id: &str) -> (action: HostAction)
    requires
        id@.len() >= TAP_PREFIX_LEN,
    ensures
        action@ == tap_add_action_of(id@),
{
    let mut args: Vec<String> = Vec::new();
    push_text(&mut args, "tuntap");
    push_text(&mut args, "add");
    push_text(&mut args, "mode");
    push_text(&mut args, "tap");
    push_text(&mut args, tap_name(id).as_str());
    let action = run_action("ip", args);
    assert(action@->Run_args =~= tap_add_action_of(id@)->Run_args);
    action
}

pub fn tap_delete_action(id: &str) -> (action: HostAction)
    requires
        id@.len() >= TAP_PREFIX_LEN,
    ensures
        action@ == tap_delete_action_of(id@),
{
    let mut args: Vec<String> = Vec::new();
    push_text(&mut args, "tuntap");
    push_text(&mut args, "del");
    push_text(&mut args, "mode");
    push_text(&mut args, "tap");
    push_text(&mut args, tap_name(id).as_str());
    let action = run_action("ip", args);
    assert(action@->Run_args =~= tap_delete_action_of(id@)->Run_args);
    action
}

pub fn tap_up_action(id: &str) -> (action: HostAction)
    requires
        id@.len() >= TAP_PREFIX_LEN,
    ensures
        action@ == tap_up_action_of(id@),
{
    let mut args: Vec<String> = Vec::new();
    push_text(&mut args, "link");
    push_text(&mut args, "set");
    push_text(&mut args, tap_name(id).as_str());
    push_text(&mut args, "up");
    let action = run_action("ip", args);
    assert(action@->Run_args =~= tap_up_action_of(id@)->Run_args);
    action
}

pub fn launch_action(id: &str) -> (action: HostAction)
    ensures
        action@ == launch_action_of(id@),
{
    let mut args: Vec<String> = Vec::new();
    push_text(&mut args, "--api-sock");
    push_text(&mut args, api_socket_path(id).as_str());
    push_text(&mut args, "--config-file");
    push_text(&mut args, boot_config_path(id).as_str());
    let action = run_action("firecracker", args);
    assert(action@->Run_args =~= launch_action_of(id@)->Run_args);
    action
}

pub fn stop_action(id: &str) -> (action: HostAction)
    ensures
        action@ == stop_action_of(id@),
{
    let mut args: Vec<String> = Vec::new();
    push_text(&mut args, "-f");
    push_text(&mut args, api_socket_path(id).as_str());
    let action = run_action("pkill", args);
    assert(action@->Run_args =~= stop_action_of(id@)->Run_args);
    action
}

fn push_step(
    steps: &mut Vec<Step>,
    stage: Stage,
    action: HostAction,
    undo: Option<HostAction>,
    required: bool,
)
    ensures
        steps_view(final(steps)@) == steps_view(old(steps)@).push(
            StepView { stage, action: action@, undo: optional_action_view(undo), required },
        ),
{
    steps.push(Step { stage, action, undo, required });
}

fn push_prologue(steps: &mut Vec<Step>, id: &str, record: Vec<u8>)
    requires
        old(steps)@.len() == 0,
    ensures
        steps_view(final(steps)@) == prologue_of(id@, record@),
{
    push_step(
        steps,
        Stage::RecordPersist,
        HostAction::Register { guard: vm_key(id), key: instance_key(id), value: record },
        Some(HostAction::Unregister { key: instance_key(id) }),
        true,
    );
    push_step(steps, Stage::RootImage, HostAction::CreateDir { path: images_dir() }, None, true);
    push_step(
        steps,
        Stage::RootImage,
        HostAction::CopyFile { from: base_image_path(), to: image_path(id) },
        Some(HostAction::RemoveFile { path: image_path(id) }),
        true,
    );
    push_step(steps, Stage::Mount, HostAction::CreateDir { path: mount_dir(id) }, None, true);
    push_step(steps, Stage::Mount, mount_action(id), Some(unmount_action(id)), true);
    push_step(steps, Stage::CodePlacement, HostAction::CreateDir { path: app_dir(id) }, None, true);
}

fn push_epilogue(steps: &mut Vec<Step>, cfg: &Config)
    requires
        cfg.wf(),
    ensures
        steps_view(final(steps)@) == steps_view(old(steps)@) + epilogue_of(cfg@),
{
    let id = cfg.id.as_str();
    push_step(
        steps,
        Stage::BootScript,
        HostAction::WriteText { path: init_script_path(id), text: init_script(cfg) },
        None,
        true,
    );
    push_step(
        steps,
        Stage::BootScript,
        HostAction::MakeExecutable { path: init_script_path(id) },
        None,
        true,
    );
    push_step(
        steps,
        Stage::BootScript,
        HostAction::Link { target: String::from_str("init.sh"), link: init_link_path(id) },
        None,
        true,
    );
    push_step(
        steps,
        Stage::BootConfig,
        HostAction::WriteText { path: boot_config_path(id), text: boot_config(cfg) },
        None,
        true,
    );
    push_step(
        steps,
        Stage::NetworkAttach,
        tap_add_action(id),
        Some(tap_delete_action(id)),
        false,
    );
    push_step(steps, Stage::NetworkAttach, tap_up_action(id), None, true);
    push_step(
        steps,
        Stage::HypervisorLaunch,
        HostAction::RemoveFile { path: api_socket_path(id) },
        None,
        false,
    );
    push_step(steps, Stage::HypervisorLaunch, launch_action(id), None, true);
}

/// Builds the plan that provisions `cfg` with the files of `bundle`; `record`
/// is the configuration as it is stored in the registry.
pub fn build_plan(cfg: &Config, bundle: Vec<(String, Vec<u8>)>, record: Vec<u8>) -> (steps: Vec<
    Step,
>)
    requires
        cfg.wf(),
    ensures
        steps_view(steps@) == plan_of(cfg@, bundle_view(bundle@), record@),
{
    let id = cfg.id.as_str();
    let mut steps: Vec<Step> = Vec::new();
    push_prologue(&mut steps, id, record);
    let ghost files = bundle_view(bundle@);
    let ghost before = steps_view(steps@);
    for file in it: bundle.into_iter()
        invariant
            files == bundle_view(it.seq()),
            files.len() == it.seq().len(),
            before == prologue_of(cfg.id@, record@),
            id@ == cfg.id@,
            steps_view(steps@) == before + placements_of(cfg.id@, files.take(it.index() as int)),
    {
        let (path, content) = file;
        let target = app_file_path(id, path.as_str());
        push_step(
            &mut steps,
            Stage::CodePlacement,
            HostAction::WriteFile { path: target, content },
            None,
            true,
        );
    }
    push_epilogue(&mut steps, cfg);
    steps
}

} // verus!
