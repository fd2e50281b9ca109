use sparklane::boot::{boot_config, init_script};
use sparklane::config::Config;
use sparklane::host::{HostAction, Outcome};
use sparklane::pipeline::{spin, unspin, Directive, ProvisionError, Provisioning};
use sparklane::plan::{build_plan, Stage, Step};

const ID: &str = "123e4567-e89b-12d3-a456-426614174000";
const IMAGE: &str = "/mnt/vm-images/123e4567-e89b-12d3-a456-426614174000.img";
const MOUNT: &str = "/mnt/vm-usercode-123e4567-e89b-12d3-a456-426614174000";
const SOCKET: &str = "/tmp/firecracker-123e4567-e89b-12d3-a456-426614174000.sock";
const BOOT_CONFIG: &str = "/tmp/vm-123e4567-e89b-12d3-a456-426614174000.json";

fn config() -> Config {
    Config {
        id: ID.to_string(),
        sub: "quick-fox".to_string(),
        port: 8080,
        build_commands: vec!["echo hi".to_string()],
        run_command: "python app.py".to_string(),
    }
}

fn bundle() -> Vec<(String, Vec<u8>)> {
    vec![
        ("app.py".to_string(), b"print('hi')\n".to_vec()),
        ("lib/util.py".to_string(), vec![0, 159, 146, 150, 255]),
    ]
}

fn record() -> Vec<u8> {
    b"{\"id\":\"123e4567-e89b-12d3-a456-426614174000\"}".to_vec()
}

fn command(program: &str, args: &[&str]) -> HostAction {
    HostAction::Run {
        program: program.to_string(),
        args: args.iter().map(|a| a.to_string()).collect(),
    }
}

fn unregister(key: &str) -> HostAction {
    HostAction::Unregister { key: key.to_string() }
}

fn remove_file(path: &str) -> HostAction {
    HostAction::RemoveFile { path: path.to_string() }
}

/// Answers every directive with what `answer` says and returns the actions
/// that were asked for, with the end of the run.
fn drive(
    run: &mut Provisioning,
    answer: &dyn Fn(&Directive, &HostAction) -> Outcome,
) -> (Vec<(Directive, HostAction)>, Result<(), ProvisionError>) {
    let mut asked = Vec::new();
    let mut directive = run.current();
    for _ in 0..1000 {
        if let Directive::Finished(result) = directive {
            return (asked, result);
        }
        let action = run.action(directive).unwrap().clone();
        let outcome = answer(&directive, &action);
        asked.push((directive, action));
        directive = run.report(outcome);
    }
    panic!("the run did not finish");
}

fn step_of(action_matches: &dyn Fn(&HostAction) -> bool) -> usize {
    let steps = build_plan(&config(), bundle(), record());
    steps.iter().position(|s| action_matches(&s.action)).unwrap()
}

#[test]
fn the_plan_lists_every_step_in_order() {
    let cfg = config();
    let steps = build_plan(&cfg, bundle(), record());
    let step = |stage, action, undo, required| Step { stage, action, undo, required };
    let tap_add = command("ip", &["tuntap", "add", "mode", "tap", "tap123e4567"]);
    let tap_del = command("ip", &["tuntap", "del", "mode", "tap", "tap123e4567"]);
    let expected = vec![
        step(
            Stage::RecordPersist,
            HostAction::Register {
                guard: format!("vm:{ID}"),
                key: format!("instance:{ID}"),
                value: record(),
            },
            Some(unregister(&format!("instance:{ID}"))),
            true,
        ),
        step(
            Stage::RootImage,
            HostAction::CreateDir { path: "/mnt/vm-images".to_string() },
            None,
            true,
        ),
        step(
            Stage::RootImage,
            HostAction::CopyFile {
                from: "/mnt/sparklane/base.img".to_string(),
                to: IMAGE.to_string(),
            },
            Some(remove_file(IMAGE)),
            true,
        ),
        step(Stage::Mount, HostAction::CreateDir { path: MOUNT.to_string() }, None, true),
        step(
            Stage::Mount,
            command("mount", &["-o", "loop", IMAGE, MOUNT]),
            Some(command("umount", &[MOUNT])),
            true,
        ),
        step(
            Stage::CodePlacement,
            HostAction::CreateDir { path: format!("{MOUNT}/app") },
            None,
            true,
        ),
        step(
            Stage::CodePlacement,
            HostAction::WriteFile {
                path: format!("{MOUNT}/app/app.py"),
                content: b"print('hi')\n".to_vec(),
            },
            None,
            true,
        ),
        step(
            Stage::CodePlacement,
            HostAction::WriteFile {
                path: format!("{MOUNT}/app/lib/util.py"),
                content: vec![0, 159, 146, 150, 255],
            },
            None,
            true,
        ),
        step(
            Stage::BootScript,
            HostAction::WriteText {
                path: format!("{MOUNT}/app/../init.sh"),
                text: "#!/bin/bash\ncd /app\necho hi\npython app.py\npoweroff -f".to_string(),
            },
            None,
            true,
        ),
        step(
            Stage::BootScript,
            HostAction::MakeExecutable { path: format!("{MOUNT}/app/../init.sh") },
            None,
            true,
        ),
        step(
            Stage::BootScript,
            HostAction::Link { target: "init.sh".to_string(), link: format!("{MOUNT}/init") },
            None,
            true,
        ),
        step(
            Stage::BootConfig,
            HostAction::WriteText { path: BOOT_CONFIG.to_string(), text: boot_config(&cfg) },
            None,
            true,
        ),
        step(Stage::NetworkAttach, tap_add, Some(tap_del), false),
        step(
            Stage::NetworkAttach,
            command("ip", &["link", "set", "tap123e4567", "up"]),
            None,
            true,
        ),
        step(Stage::HypervisorLaunch, remove_file(SOCKET), None, false),
        step(
            Stage::HypervisorLaunch,
            command("firecracker", &["--api-sock", SOCKET, "--config-file", BOOT_CONFIG]),
            None,
            true,
        ),
    ];
    assert_eq!(steps, expected);
    assert_eq!(init_script(&cfg), "#!/bin/bash\ncd /app\necho hi\npython app.py\npoweroff -f");
}

#[test]
fn a_plan_without_files_has_fourteen_steps() {
    assert_eq!(build_plan(&config(), Vec::new(), record()).len(), 14);
    assert_eq!(build_plan(&config(), bundle(), record()).len(), 16);
}

#[test]
fn a_run_starts_at_the_registration() {
    let run = spin(&config(), bundle(), record());
    assert_eq!(run.current(), Directive::Perform { step: 0 });
    assert_eq!(run.steps().len(), 16);
    assert!(matches!(run.action(run.current()), Some(HostAction::Register { .. })));
}

#[test]
fn a_run_without_failures_performs_every_step_once() {
    let mut run = spin(&config(), bundle(), record());
    let (asked, result) = drive(&mut run, &|_, _| Outcome::Done);
    assert_eq!(result, Ok(()));
    let expected: Vec<(Directive, HostAction)> = build_plan(&config(), bundle(), record())
        .into_iter()
        .enumerate()
        .map(|(i, s)| (Directive::Perform { step: i }, s.action))
        .collect();
    assert_eq!(asked, expected);
}

#[test]
fn a_finished_run_stays_finished() {
    let mut run = spin(&config(), Vec::new(), record());
    let (_, result) = drive(&mut run, &|_, _| Outcome::Done);
    assert_eq!(result, Ok(()));
    assert_eq!(run.report(Outcome::Failed), Directive::Finished(Ok(())));
    assert_eq!(run.report(Outcome::AlreadyExists), Directive::Finished(Ok(())));
    assert_eq!(run.current(), Directive::Finished(Ok(())));
    assert_eq!(run.action(run.current()), None);
}

#[test]
fn every_file_of_the_bundle_is_written_byte_for_byte() {
    let mut run = spin(&config(), bundle(), record());
    let (asked, _) = drive(&mut run, &|_, _| Outcome::Done);
    let written: Vec<(String, Vec<u8>)> = asked
        .into_iter()
        .filter_map(|(_, action)| match action {
            HostAction::WriteFile { path, content } => Some((path, content)),
            _ => None,
        })
        .collect();
    let expected: Vec<(String, Vec<u8>)> = bundle()
        .into_iter()
        .map(|(path, content)| (format!("{MOUNT}/app/{path}"), content))
        .collect();
    assert_eq!(written, expected);
}

#[test]
fn an_instance_that_is_marked_is_rejected_without_side_effects() {
    let mut run = spin(&config(), bundle(), record());
    let (asked, result) = drive(&mut run, &|_, _| Outcome::AlreadyExists);
    assert_eq!(result, Err(ProvisionError::AlreadyExists));
    assert_eq!(asked.len(), 1);
    assert!(matches!(asked[0].1, HostAction::Register { .. }));
}

#[test]
fn a_second_provisioning_of_the_same_id_does_nothing_on_the_host() {
    let mut first = spin(&config(), bundle(), record());
    let (first_asked, first_result) = drive(&mut first, &|_, _| Outcome::Done);
    assert_eq!(first_result, Ok(()));
    let mut second = spin(&config(), bundle(), record());
    let (second_asked, second_result) = drive(&mut second, &|_, action| match action {
        HostAction::Register { .. } => Outcome::AlreadyExists,
        _ => Outcome::Done,
    });
    assert_eq!(second_result, Err(ProvisionError::AlreadyExists));
    let mounts = |asked: &Vec<(Directive, HostAction)>| {
        asked
            .iter()
            .filter(|(_, a)| matches!(a, HostAction::Run { program, .. } if program == "mount"))
            .count()
    };
    let taps = |asked: &Vec<(Directive, HostAction)>| {
        asked
            .iter()
            .filter(|(_, a)| {
                matches!(a, HostAction::Run { program, args } if program == "ip" && args[1] == "add")
            })
            .count()
    };
    assert_eq!(mounts(&first_asked) + mounts(&second_asked), 1);
    assert_eq!(taps(&first_asked) + taps(&second_asked), 1);
}

#[test]
fn a_failed_registration_is_a_registry_failure() {
    let mut run = spin(&config(), bundle(), record());
    let (asked, result) = drive(&mut run, &|_, _| Outcome::Failed);
    assert_eq!(result, Err(ProvisionError::Failed(Stage::RecordPersist)));
    assert_eq!(asked.len(), 1);
}

#[test]
fn a_failed_mount_removes_image_and_record() {
    let mount = step_of(&|a| matches!(a, HostAction::Run { program, .. } if program == "mount"));
    assert_eq!(mount, 4);
    let mut run = spin(&config(), bundle(), record());
    let (asked, result) = drive(&mut run, &|directive, _| match directive {
        Directive::Perform { step: 4 } => Outcome::Failed,
        _ => Outcome::Done,
    });
    assert_eq!(result, Err(ProvisionError::Failed(Stage::Mount)));
    let after: Vec<(Directive, HostAction)> = asked[5..].to_vec();
    assert_eq!(
        after,
        vec![
            (Directive::Revert { step: 2 }, remove_file(IMAGE)),
            (Directive::Revert { step: 0 }, unregister(&format!("instance:{ID}"))),
        ]
    );
    assert_eq!(asked.len(), 7);
}

#[test]
fn a_failed_image_copy_removes_the_record() {
    let mut run = spin(&config(), bundle(), record());
    let (asked, result) = drive(&mut run, &|directive, _| match directive {
        Directive::Perform { step: 2 } => Outcome::Failed,
        _ => Outcome::Done,
    });
    assert_eq!(result, Err(ProvisionError::Failed(Stage::RootImage)));
    assert_eq!(
        asked[3..].to_vec(),
        vec![(Directive::Revert { step: 0 }, unregister(&format!("instance:{ID}")))]
    );
}

#[test]
fn a_failed_write_unmounts_and_cleans_up() {
    let mut run = spin(&config(), bundle(), record());
    let (asked, result) = drive(&mut run, &|directive, _| match directive {
        Directive::Perform { step: 7 } => Outcome::Failed,
        _ => Outcome::Done,
    });
    assert_eq!(result, Err(ProvisionError::Failed(Stage::CodePlacement)));
    assert_eq!(
        asked[8..].to_vec(),
        vec![
            (Directive::Revert { step: 4 }, run_umount()),
            (Directive::Revert { step: 2 }, remove_file(IMAGE)),
            (Directive::Revert { step: 0 }, unregister(&format!("instance:{ID}"))),
        ]
    );
}

fn run_umount() -> HostAction {
    command("umount", &[MOUNT])
}

#[test]
fn a_failed_hypervisor_takes_everything_back_in_reverse() {
    let mut run = spin(&config(), bundle(), record());
    let (asked, result) = drive(&mut run, &|_, action| match action {
        HostAction::Run { program, .. } if program == "firecracker" => Outcome::Failed,
        _ => Outcome::Done,
    });
    assert_eq!(result, Err(ProvisionError::Failed(Stage::HypervisorLaunch)));
    assert_eq!(
        asked[16..].to_vec(),
        vec![
            (
                Directive::Revert { step: 12 },
                command("ip", &["tuntap", "del", "mode", "tap", "tap123e4567"])
            ),
            (Directive::Revert { step: 4 }, run_umount()),
            (Directive::Revert { step: 2 }, remove_file(IMAGE)),
            (Directive::Revert { step: 0 }, unregister(&format!("instance:{ID}"))),
        ]
    );
}

#[test]
fn rollback_goes_on_when_an_undo_fails() {
    let mut run = spin(&config(), bundle(), record());
    let (asked, result) = drive(&mut run, &|directive, _| match directive {
        Directive::Perform { step: 5 } => Outcome::Failed,
        Directive::Revert { .. } => Outcome::Failed,
        _ => Outcome::Done,
    });
    assert_eq!(result, Err(ProvisionError::Failed(Stage::CodePlacement)));
    let reverted: Vec<Directive> = asked[6..].iter().map(|(d, _)| *d).collect();
    assert_eq!(
        reverted,
        vec![
            Directive::Revert { step: 4 },
            Directive::Revert { step: 2 },
            Directive::Revert { step: 0 },
        ]
    );
}

#[test]
fn a_tap_device_that_exists_is_no_failure() {
    let mut run = spin(&config(), bundle(), record());
    let (asked, result) = drive(&mut run, &|_, action| match action {
        HostAction::Run { program, args } if program == "ip" && args[1] == "add" => {
            Outcome::Failed
        }
        _ => Outcome::Done,
    });
    assert_eq!(result, Ok(()));
    assert_eq!(asked.len(), 16);
}

#[test]
fn a_tap_device_that_does_not_come_up_is_a_failure() {
    let mut run = spin(&config(), bundle(), record());
    let (asked, result) = drive(&mut run, &|_, action| match action {
        HostAction::Run { program, args } if program == "ip" && args[0] == "link" => {
            Outcome::Failed
        }
        _ => Outcome::Done,
    });
    assert_eq!(result, Err(ProvisionError::Failed(Stage::NetworkAttach)));
    assert_eq!(asked[14].0, Directive::Revert { step: 12 });
}

#[test]
fn a_stale_socket_that_cannot_be_removed_is_no_failure() {
    let mut run = spin(&config(), bundle(), record());
    let (_, result) = drive(&mut run, &|_, action| match action {
        HostAction::RemoveFile { path } if path == SOCKET => Outcome::Failed,
        _ => Outcome::Done,
    });
    assert_eq!(result, Ok(()));
}

#[test]
fn an_empty_plan_is_finished_at_once() {
    let run = Provisioning::new(Vec::new());
    assert_eq!(run.current(), Directive::Finished(Ok(())));
}

#[test]
fn directives_outside_the_plan_ask_for_nothing() {
    let run = spin(&config(), Vec::new(), record());
    assert_eq!(run.action(Directive::Perform { step: 14 }), None);
    assert_eq!(run.action(Directive::Revert { step: 14 }), None);
    assert_eq!(run.action(Directive::Revert { step: 1 }), None);
    assert_eq!(run.action(Directive::Finished(Ok(()))), None);
    assert_eq!(
        run.action(Directive::Revert { step: 2 }),
        Some(&remove_file(IMAGE))
    );
}

#[test]
fn unspin_takes_the_instance_down_in_reverse_order() {
    assert_eq!(
        unspin(ID),
        vec![
            command("pkill", &["-f", SOCKET]),
            command("ip", &["tuntap", "del", "mode", "tap", "tap123e4567"]),
            command("umount", &[MOUNT]),
            remove_file(IMAGE),
            unregister(&format!("vm:{ID}")),
            unregister(&format!("instance:{ID}")),
        ]
    );
}

#[test]
fn a_plan_registers_once_and_deletes_nothing_going_forward() {
    let steps = build_plan(&config(), bundle(), record());
    let registers: Vec<usize> = steps
        .iter()
        .enumerate()
        .filter(|(_, s)| matches!(s.action, HostAction::Register { .. }))
        .map(|(i, _)| i)
        .collect();
    assert_eq!(registers, vec![0]);
    assert!(steps.iter().all(|s| !matches!(s.action, HostAction::Unregister { .. })));
    let undone: Vec<usize> = steps
        .iter()
        .enumerate()
        .filter(|(_, s)| s.undo.is_some())
        .map(|(i, _)| i)
        .collect();
    assert_eq!(undone, vec![0, 2, 4, 12]);
}
