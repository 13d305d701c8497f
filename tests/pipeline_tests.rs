use ulb::launch::{start, BuildError};
use ulb::pipeline::{artifact_path, build_plan, Action, Stage, StagePlan};
use ulb::profile::{Base, Bootloader, ImageFormat, InitSystem, Profile, ProfileInput, ValidationError};
use ulb::resolver::{resolve, runtime_args, script_command, CommandKind, Unsupported, Workspace};
use ulb::runner::{Failure, Outcome, RunStatus, Runner};

fn s(x: &str) -> String {
    x.to_string()
}

fn strings(xs: &[&str]) -> Vec<String> {
    xs.iter().map(|x| x.to_string()).collect()
}

fn workspace() -> Workspace {
    Workspace { root: s("/tmp/.ulb"), build_dir: s("build/iso"), files_dir: s("files"), scripts_dir: s("scripts") }
}

fn scenario_input() -> ProfileInput {
    ProfileInput {
        packages: strings(&["vim", "git"]),
        distro_name: s("MyDistro"),
        base: s("ubuntu"),
        version: s("1.0"),
        init_system: s("systemd"),
        packages_to_remove: vec![],
        bootloader: s("grub"),
        uefi_support: true,
        bios_support: true,
        format: s("iso"),
        atomic: false,
    }
}

fn profile(base: Base, atomic: bool, init: InitSystem, boot: Bootloader, uefi: bool, bios: bool) -> Profile {
    Profile {
        distro_name: s("D"),
        version: s("2"),
        base,
        atomic,
        init_system: init,
        bootloader: boot,
        uefi_support: uefi,
        bios_support: bios,
        packages: strings(&["vim"]),
        packages_to_remove: strings(&["nano"]),
        format: ImageFormat::Iso,
    }
}

fn run_count(stage: &StagePlan) -> usize {
    stage.actions.iter().filter(|a| matches!(a, Action::Run(_))).count()
}

fn command_of(a: &Action) -> Vec<String> {
    match a {
        Action::Run(c) => c.command.clone(),
        _ => panic!("not a run"),
    }
}

#[test]
fn end_to_end_scenario_with_stub_environment() {
    let p = Profile::validate(scenario_input()).ok().unwrap();
    let ws = workspace();
    let plan = build_plan(&p, &ws, &vec![], false).ok().unwrap();
    let mut runner = Runner::new(plan);
    let mut moved_to = None;
    let mut invocations = 0;
    let mut pulls = Vec::new();
    while let Some(a) = runner.next() {
        match a {
            Action::PullImage { image } => pulls.push(image.clone()),
            Action::Run(_) => invocations += 1,
            Action::MoveArtifact { to, .. } => moved_to = Some(to.clone()),
            Action::CopyOverlay { .. } => {}
        }
        runner.record(Outcome::Success);
    }
    assert!(matches!(runner.status(), RunStatus::Completed));
    assert_eq!(
        runner.entered().clone(),
        vec![
            Stage::EnvironmentSetup,
            Stage::BaseInstall,
            Stage::PackageInstall,
            Stage::PackageRemoval,
            Stage::OverlayCopy,
            Stage::ScriptExecution,
            Stage::SystemConfiguration,
            Stage::ImageAssembly,
        ]
    );
    assert_eq!(invocations, 6);
    assert_eq!(pulls, vec![s("ubuntu:latest")]);
    assert_eq!(moved_to, Some(s("build/iso/MyDistro-1.0.iso")));
    assert_eq!(artifact_path(&p, &ws), "build/iso/MyDistro-1.0.iso");
}

#[test]
fn scenario_package_commands() {
    let p = Profile::validate(scenario_input()).ok().unwrap();
    let plan = build_plan(&p, &workspace(), &vec![], true).ok().unwrap();
    assert_eq!(plan.len(), 8);
    assert_eq!(
        command_of(&plan[2].actions[0]),
        strings(&["chroot", "/rootfs", "bash", "-c", "apt install -y vim git"])
    );
    assert_eq!(plan[3].actions.len(), 0);
    assert!(matches!(&plan[4].actions[0], Action::CopyOverlay { source, dest } if source == "files" && dest == "/tmp/.ulb/rootfs"));
    assert_eq!(plan[5].actions.len(), 0);
}

#[test]
fn scripts_run_in_lexicographic_order() {
    let p = Profile::validate(scenario_input()).ok().unwrap();
    let ws = workspace();
    let entries = strings(&["10-a.sh", "notes.txt", "02-b.sh", ".sh", "z.sh"]);
    let plan = build_plan(&p, &ws, &entries, false).ok().unwrap();
    let stage = &plan[5];
    assert_eq!(stage.stage, Stage::ScriptExecution);
    let hosts: Vec<String> = stage
        .actions
        .iter()
        .map(|a| match a {
            Action::Run(c) => c.mounts[1].host.clone(),
            _ => panic!("not a run"),
        })
        .collect();
    assert_eq!(hosts, strings(&["scripts/02-b.sh", "scripts/10-a.sh", "scripts/z.sh"]));
    let c = script_command(&p, &ws, &s("02-b.sh"));
    assert!(c.mounts[1].read_only);
    assert!(!c.privileged);
    assert_eq!(c.command, strings(&["chroot", "/rootfs", "bash", "/script.sh"]));
}

#[test]
fn empty_lists_and_missing_directories_are_no_ops() {
    let mut input = scenario_input();
    input.packages = vec![];
    let p = Profile::validate(input).ok().unwrap();
    let plan = build_plan(&p, &workspace(), &vec![], false).ok().unwrap();
    assert_eq!(run_count(&plan[2]), 0);
    assert_eq!(run_count(&plan[3]), 0);
    assert_eq!(plan[4].actions.len(), 0);
    assert_eq!(plan[5].actions.len(), 0);
}

#[test]
fn failure_stops_the_run() {
    let p = Profile::validate(scenario_input()).ok().unwrap();
    let plan = build_plan(&p, &workspace(), &vec![], false).ok().unwrap();
    let mut runner = Runner::new(plan);
    assert!(matches!(runner.next(), Some(Action::PullImage { .. })));
    runner.record(Outcome::Success);
    runner.record(Outcome::Success);
    assert!(runner.next().is_some());
    runner.record(Outcome::Failed(Failure { exit_code: Some(2), detail: s("debootstrap failed") }));
    assert!(runner.next().is_none());
    runner.record(Outcome::Success);
    assert!(runner.next().is_none());
    match runner.status() {
        RunStatus::Failed { stage, failure } => {
            assert_eq!(*stage, Stage::BaseInstall);
            assert_eq!(failure.exit_code, Some(2));
            assert_eq!(failure.detail, "debootstrap failed");
        }
        _ => panic!("run did not fail"),
    }
    assert_eq!(runner.entered().clone(), vec![Stage::EnvironmentSetup, Stage::BaseInstall]);
}

#[test]
fn failure_in_last_stage_never_moves_image() {
    let p = Profile::validate(scenario_input()).ok().unwrap();
    let plan = build_plan(&p, &workspace(), &vec![], false).ok().unwrap();
    let mut runner = Runner::new(plan);
    let mut moves = 0;
    while let Some(a) = runner.next() {
        let assembling = matches!(a, Action::Run(c) if c.command[2].starts_with("mksquashfs"));
        if matches!(a, Action::MoveArtifact { .. }) {
            moves += 1;
        }
        if assembling {
            runner.record(Outcome::Failed(Failure { exit_code: Some(1), detail: s("") }));
        } else {
            runner.record(Outcome::Success);
        }
    }
    assert_eq!(moves, 0);
    assert!(matches!(runner.status(), RunStatus::Failed { stage: Stage::ImageAssembly, .. }));
}

#[test]
fn no_firmware_is_rejected() {
    let mut input = scenario_input();
    input.uefi_support = false;
    input.bios_support = false;
    assert_eq!(Profile::validate(input).err(), Some(ValidationError::NoFirmware));
    let p = profile(Base::Ubuntu, false, InitSystem::Openrc, Bootloader::Grub, false, false);
    assert_eq!(build_plan(&p, &workspace(), &vec![], true).err(), Some(Unsupported::NoFirmware));
}

#[test]
fn validation_errors() {
    let cases: Vec<(fn(&mut ProfileInput), ValidationError)> = vec![
        (|i| i.distro_name = s(""), ValidationError::EmptyDistroName),
        (|i| i.version = s(""), ValidationError::EmptyVersion),
        (|i| i.base = s("arch"), ValidationError::UnknownBase),
        (|i| i.init_system = s("runit"), ValidationError::UnknownInitSystem),
        (|i| i.bootloader = s("lilo"), ValidationError::UnknownBootloader),
        (|i| i.format = s("qcow2"), ValidationError::UnknownFormat),
        (|i| i.atomic = true, ValidationError::AtomicRequiresFedora),
    ];
    for (change, expected) in cases {
        let mut input = scenario_input();
        change(&mut input);
        assert_eq!(Profile::validate(input).err(), Some(expected));
    }
    let mut input = scenario_input();
    input.base = s("fedora");
    input.atomic = true;
    let p = Profile::validate(input).ok().unwrap();
    assert_eq!(p.base, Base::Fedora);
    assert!(p.atomic);
    assert_eq!(p.bootloader, Bootloader::Grub);
    assert_eq!(p.distro_name, "MyDistro");
}

#[test]
fn resolver_is_total_on_the_supported_surface() {
    let ws = workspace();
    let kinds = [
        CommandKind::Toolchain,
        CommandKind::BaseInstall,
        CommandKind::PackageInstall,
        CommandKind::PackageRemoval,
        CommandKind::InitEnable,
        CommandKind::BootloaderInstall,
        CommandKind::ImageAssembly,
    ];
    for base in [Base::Ubuntu, Base::Debian, Base::Fedora] {
        for atomic in [false, true] {
            if atomic && base != Base::Fedora {
                continue;
            }
            for init in [InitSystem::Systemd, InitSystem::Openrc] {
                for boot in [Bootloader::Grub, Bootloader::SystemdBoot] {
                    for (uefi, bios) in [(true, true), (true, false), (false, true), (false, false)] {
                        let p = profile(base, atomic, init, boot, uefi, bios);
                        for kind in kinds {
                            match resolve(kind, &p, &ws) {
                                Ok(c) => {
                                    assert!(!c.command.is_empty());
                                    assert!(c.command.iter().all(|a| !a.is_empty()));
                                }
                                Err(e) => match kind {
                                    CommandKind::InitEnable => assert_eq!(e, Unsupported::InitSystem),
                                    CommandKind::BootloaderInstall => {
                                        assert_eq!(e, Unsupported::NoFirmware);
                                        assert!(!uefi && !bios);
                                    }
                                    _ => panic!("unexpected refusal"),
                                },
                            }
                        }
                    }
                }
            }
        }
    }
}

#[test]
fn openrc_is_refused_before_anything_runs() {
    let p = profile(Base::Debian, false, InitSystem::Openrc, Bootloader::Grub, true, false);
    assert_eq!(build_plan(&p, &workspace(), &vec![], true).err(), Some(Unsupported::InitSystem));
}

#[test]
fn bootloader_follows_firmware() {
    let ws = workspace();
    let both = profile(Base::Ubuntu, false, InitSystem::Systemd, Bootloader::Grub, true, true);
    let c = resolve(CommandKind::BootloaderInstall, &both, &ws).ok().unwrap();
    assert_eq!(
        c.command[4],
        "grub-install --target=x86_64-efi --efi-directory=/boot/efi --bootloader-id=GRUB && grub-install --target=i386-pc"
    );
    assert!(c.privileged);
    let bios = profile(Base::Ubuntu, false, InitSystem::Systemd, Bootloader::Grub, false, true);
    let c = resolve(CommandKind::BootloaderInstall, &bios, &ws).ok().unwrap();
    assert_eq!(c.command[4], "grub-install --target=i386-pc");
    let sdboot = profile(Base::Ubuntu, false, InitSystem::Systemd, Bootloader::SystemdBoot, false, true);
    let c = resolve(CommandKind::BootloaderInstall, &sdboot, &ws).ok().unwrap();
    assert_eq!(c.command[4], "bootctl --path=/boot install");
    assert!(c.privileged);
    let sdboot = profile(Base::Ubuntu, false, InitSystem::Systemd, Bootloader::SystemdBoot, true, false);
    let c = resolve(CommandKind::BootloaderInstall, &sdboot, &ws).ok().unwrap();
    assert_eq!(c.command[4], "bootctl --path=/boot install");
}

#[test]
fn base_mapping() {
    let ws = workspace();
    let fedora = profile(Base::Fedora, false, InitSystem::Systemd, Bootloader::Grub, true, false);
    let c = resolve(CommandKind::PackageRemoval, &fedora, &ws).ok().unwrap();
    assert_eq!(c.image, "fedora:latest");
    assert_eq!(c.command[4], "dnf remove -y nano");
    let c = resolve(CommandKind::BaseInstall, &fedora, &ws).ok().unwrap();
    assert_eq!(c.command[2], "dnf install -y --installroot=/rootfs --releasever=latest @core");
    assert!(c.privileged);
    let atomic = profile(Base::Fedora, true, InitSystem::Systemd, Bootloader::Grub, true, false);
    let c = resolve(CommandKind::Toolchain, &atomic, &ws).ok().unwrap();
    assert_eq!(c.command, strings(&["bash", "-c", "dnf install -y ostree rpm-ostree xorriso mksquashfs"]));
    assert_eq!(c.mounts[0].host, "/tmp/.ulb/build-files");
    assert_eq!(c.mounts[0].container, "/build");
    assert!(!c.privileged);
    let c = resolve(CommandKind::BaseInstall, &atomic, &ws).ok().unwrap();
    assert_eq!(c.command[2], "rpm-ostree install --repo=/rootfs/ostree-repo base-packages");
    let debian = profile(Base::Debian, false, InitSystem::Systemd, Bootloader::Grub, true, false);
    let c = resolve(CommandKind::Toolchain, &debian, &ws).ok().unwrap();
    assert_eq!(c.image, "ubuntu:latest");
    assert_eq!(c.command[2], "apt update && apt install -y debootstrap live-build xorriso lorax mksquashfs");
    let c = resolve(CommandKind::BaseInstall, &debian, &ws).ok().unwrap();
    assert_eq!(c.command[2], "debootstrap --arch=amd64 stable /rootfs http://deb.debian.org/debian/");
    let c = resolve(CommandKind::InitEnable, &debian, &ws).ok().unwrap();
    assert_eq!(c.command[4], "systemctl enable systemd-sysv-install");
}

#[test]
fn image_assembly_targets_staging_path() {
    let ws = workspace();
    let p = profile(Base::Ubuntu, false, InitSystem::Systemd, Bootloader::Grub, true, false);
    let c = resolve(CommandKind::ImageAssembly, &p, &ws).ok().unwrap();
    assert!(c.privileged);
    assert_eq!(c.mounts[1].host, "/tmp/.ulb/output.iso");
    assert_eq!(c.mounts[1].container, "/output.iso");
    assert!(c.command[2].starts_with("mksquashfs /rootfs"));
    assert!(c.command[2].ends_with("-no-emul-boot -V 'D' /rootfs"));
    let a = profile(Base::Fedora, true, InitSystem::Systemd, Bootloader::Grub, true, false);
    let c = resolve(CommandKind::ImageAssembly, &a, &ws).ok().unwrap();
    assert!(c.command[2].starts_with("rpm-ostree compose tree"));
    assert!(c.command[2].contains("-o /output.iso -V 'D' -e /filesystem.squashfs"));
    assert_eq!(artifact_path(&a, &ws), "build/iso/D-2.iso");
}

#[test]
fn runtime_arguments() {
    let ws = workspace();
    let p = profile(Base::Ubuntu, false, InitSystem::Systemd, Bootloader::Grub, true, false);
    let c = script_command(&p, &ws, &s("a.sh"));
    assert_eq!(
        runtime_args(&c),
        strings(&[
            "run", "--rm", "-v", "/tmp/.ulb/rootfs:/rootfs:z", "-v", "scripts/a.sh:/script.sh:z,ro",
            "ubuntu:latest", "chroot", "/rootfs", "bash", "/script.sh",
        ])
    );
    let c = resolve(CommandKind::BaseInstall, &p, &ws).ok().unwrap();
    assert_eq!(&runtime_args(&c)[..5], &strings(&["run", "--rm", "--privileged", "-v", "/tmp/.ulb/rootfs:/rootfs:z"])[..]);
}

#[test]
fn cleanup_twice() {
    let ws = workspace();
    assert_eq!(ws.cleanup_target(true), Some(s("/tmp/.ulb")));
    assert_eq!(ws.cleanup_target(false), None);
}

#[test]
fn start_checks_before_any_stage() {
    let ws = workspace();
    let p = Profile::validate(scenario_input()).ok().unwrap();
    assert!(matches!(start(&p, &ws, &vec![], false, false), Err(BuildError::EnvironmentUnavailable)));
    let runner = start(&p, &ws, &vec![], false, true).ok().unwrap();
    assert!(matches!(runner.status(), RunStatus::Running));
    assert_eq!(runner.entered().clone(), vec![Stage::EnvironmentSetup]);
    let openrc = profile(Base::Ubuntu, false, InitSystem::Openrc, Bootloader::Grub, true, true);
    assert!(matches!(
        start(&openrc, &ws, &vec![], false, false),
        Err(BuildError::Unsupported(Unsupported::InitSystem))
    ));
    let none = profile(Base::Ubuntu, false, InitSystem::Systemd, Bootloader::Grub, false, false);
    assert!(matches!(start(&none, &ws, &vec![], false, true), Err(BuildError::Unsupported(Unsupported::NoFirmware))));
}

#[test]
fn failed_pull_fails_environment_setup() {
    let p = Profile::validate(scenario_input()).ok().unwrap();
    let plan = build_plan(&p, &workspace(), &vec![], false).ok().unwrap();
    let mut runner = Runner::new(plan);
    runner.record(Outcome::Failed(Failure { exit_code: Some(125), detail: s("pull failed") }));
    assert!(runner.next().is_none());
    assert!(matches!(runner.status(), RunStatus::Failed { stage: Stage::EnvironmentSetup, .. }));
    assert_eq!(runner.entered().clone(), vec![Stage::EnvironmentSetup]);
}
