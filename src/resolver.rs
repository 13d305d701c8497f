//! The support matrix: maps profile attributes and a kind of command to the
//! concrete build-environment invocation, or to an explicit refusal.
//!
//! Everything here is pure: nothing runs, nothing is read.
use vstd::prelude::*;
use vstd::string::*;
use crate::profile::{Base, Bootloader, InitSystem, Profile};
use crate::text::{join, join_path, lit, spec_join, spec_join_path, views};

verus! {

/// A host directory or file made visible inside the build environment.
pub struct Mount {
    pub host: String,
    pub container: String,
    pub read_only: bool,
}

/// One invocation of the build environment: the base image to run, the
/// mounts, the command line, and whether elevated device access is needed.
pub struct CommandSpec {
    pub image: String,
    pub mounts: Vec<Mount>,
    pub command: Vec<String>,
    pub privileged: bool,
}

pub struct MountView {
    pub host: Seq<char>,
    pub container: Seq<char>,
    pub read_only: bool,
}

pub struct CommandView {
    pub image: Seq<char>,
    pub mounts: Seq<MountView>,
    pub command: Seq<Seq<char>>,
    pub privileged: bool,
}

impl View for Mount {
    type V = MountView;

    open spec fn view(&self) -> MountView {
        MountView { host: self.host@, container: self.container@, read_only: self.read_only }
    }
}

impl View for CommandSpec {
    type V = CommandView;

    open spec fn view(&self) -> CommandView {
        CommandView {
            image: self.image@,
            mounts: self.mounts@.map_values(|m: Mount| m@),
            command: views(self.command@),
            privileged: self.privileged,
        }
    }
}

/// Where a pipeline run keeps its files. All paths are given by the caller.
pub struct Workspace {
    /// Ephemeral working tree: rootfs, scratch area and staged output.
    pub root: String,
    /// Durable output directory for finished images.
    pub build_dir: String,
    /// Overlay tree copied onto the rootfs.
    pub files_dir: String,
    /// Directory of provisioning scripts.
    pub scripts_dir: String,
}

impl Workspace {
    pub open spec fn spec_rootfs(&self) -> Seq<char> {
        spec_join_path(self.root@, "rootfs"@)
    }

    pub open spec fn spec_scratch(&self) -> Seq<char> {
        spec_join_path(self.root@, "build-files"@)
    }

    pub open spec fn spec_staged_image(&self) -> Seq<char> {
        spec_join_path(self.root@, "output.iso"@)
    }

    /// What the maintenance operation removes: the whole working tree when
    /// it exists, nothing when it does not.
    pub open spec fn spec_cleanup(&self, root_exists: bool) -> Option<Seq<char>> {
        if root_exists {
            Some(self.root@)
        } else {
            None
        }
    }

    /// The tree to remove for a cleanup, given whether the working tree
    /// exists now. A missing tree is no error: there is nothing to do.
    pub fn cleanup_target(&self, root_exists: bool) -> (r: Option<String>)
        ensures
            match r {
                Some(t) => self.spec_cleanup(root_exists) == Some(t@),
                None => self.spec_cleanup(root_exists) is None,
            },
    {
        if root_exists {
            Some(self.root.clone())
        } else {
            None
        }
    }

    /// The root filesystem being provisioned.
    pub fn rootfs(&self) -> (r: String)
        ensures
            r@ == self.spec_rootfs(),
    {
        join_path(self.root.as_str(), "rootfs")
    }

    /// Scratch area that receives the build toolchain.
    pub fn scratch(&self) -> (r: String)
        ensures
            r@ == self.spec_scratch(),
    {
        join_path(self.root.as_str(), "build-files")
    }

    /// Temporary location of the assembled image before it is moved.
    pub fn staged_image(&self) -> (r: String)
        ensures
            r@ == self.spec_staged_image(),
    {
        join_path(self.root.as_str(), "output.iso")
    }
}

/// The kinds of command that the resolver knows.
#[derive(PartialEq, Eq, Structural, Clone, Copy, Debug)]
pub enum CommandKind {
    Toolchain,
    BaseInstall,
    PackageInstall,
    PackageRemoval,
    InitEnable,
    BootloaderInstall,
    ImageAssembly,
}

/// A profile attribute combination that has no command.
#[derive(PartialEq, Eq, Structural, Clone, Copy, Debug)]
pub enum Unsupported {
    /// The init system has no enablement command yet.
    InitSystem,
    /// Neither firmware mode is selected.
    NoFirmware,
}

pub open spec fn spec_base_image(b: Base) -> Seq<char> {
    match b {
        Base::Fedora => "fedora:latest"@,
        _ => "ubuntu:latest"@,
    }
}

pub open spec fn spec_package_manager(b: Base) -> Seq<char> {
    match b {
        Base::Fedora => "dnf"@,
        _ => "apt"@,
    }
}

pub open spec fn spec_tools(atomic: bool) -> Seq<Seq<char>> {
    if atomic {
        seq!["ostree"@, "rpm-ostree"@, "xorriso"@, "mksquashfs"@]
    } else {
        seq!["debootstrap"@, "live-build"@, "xorriso"@, "lorax"@, "mksquashfs"@]
    }
}

pub open spec fn spec_toolchain_script(p: Profile) -> Seq<char> {
    match p.base {
        Base::Fedora => "dnf install -y "@ + spec_join(spec_tools(p.atomic), " "@),
        _ => "apt update && apt install -y "@ + spec_join(spec_tools(p.atomic), " "@),
    }
}

pub open spec fn spec_bootstrap_script(p: Profile) -> Seq<char> {
    match p.base {
        Base::Fedora => if p.atomic {
            "rpm-ostree install --repo=/rootfs/ostree-repo base-packages"@
        } else {
            "dnf install -y --installroot=/rootfs --releasever=latest @core"@
        },
        _ => "debootstrap --arch=amd64 stable /rootfs http://deb.debian.org/debian/"@,
    }
}

pub open spec fn spec_packages_script(p: Profile, verb: Seq<char>, pkgs: Seq<Seq<char>>) -> Seq<char> {
    spec_package_manager(p.base) + verb + spec_join(pkgs, " "@)
}

pub open spec fn spec_grub_uefi() -> Seq<char> {
    "grub-install --target=x86_64-efi --efi-directory=/boot/efi --bootloader-id=GRUB"@
}

pub open spec fn spec_grub_bios() -> Seq<char> {
    "grub-install --target=i386-pc"@
}

/// The bootloader installation line. grub is installed for each selected
/// firmware mode; systemd-boot is installed by `bootctl` whatever the mode.
pub open spec fn spec_bootloader_script(p: Profile) -> Result<Seq<char>, Unsupported> {
    if !p.uefi_support && !p.bios_support {
        Err(Unsupported::NoFirmware)
    } else {
        match p.bootloader {
            Bootloader::Grub => if p.uefi_support && p.bios_support {
                Ok(spec_grub_uefi() + " && "@ + spec_grub_bios())
            } else if p.uefi_support {
                Ok(spec_grub_uefi())
            } else {
                Ok(spec_grub_bios())
            },
            Bootloader::SystemdBoot => Ok("bootctl --path=/boot install"@),
        }
    }
}

/// The volume label option: the distribution name, quoted for the shell.
pub open spec fn spec_label(name: Seq<char>) -> Seq<char> {
    "-V '"@ + name + "'"@
}

pub open spec fn spec_assembly_script(p: Profile) -> Seq<char> {
    if p.atomic {
        "rpm-ostree compose tree --repo=/rootfs/ostree-repo /rootfs/tree.yaml && mksquashfs /rootfs /filesystem.squashfs -comp xz && xorriso -as mkisofs -o /output.iso "@
            + spec_label(p.distro_name@) + " -e /filesystem.squashfs -no-emul-boot /rootfs"@
    } else {
        "mksquashfs /rootfs /filesystem.squashfs -comp xz && xorriso -as mkisofs -o /output.iso -b isolinux/isolinux.bin -c isolinux/boot.cat -no-emul-boot -boot-load-size 4 -boot-info-table -eltorito-alt-boot -e boot/efi.img -no-emul-boot "@
            + spec_label(p.distro_name@) + " /rootfs"@
    }
}

pub open spec fn rootfs_mount(ws: Workspace) -> MountView {
    MountView { host: ws.spec_rootfs(), container: "/rootfs"@, read_only: false }
}

/// `bash -c <script>` run directly in the base image.
pub open spec fn shell(p: Profile, mounts: Seq<MountView>, script: Seq<char>, privileged: bool) -> CommandView {
    CommandView {
        image: spec_base_image(p.base),
        mounts,
        command: seq!["bash"@, "-c"@, script],
        privileged,
    }
}

/// `bash -c <script>` run inside a chroot of the rootfs.
pub open spec fn chroot_shell(p: Profile, ws: Workspace, script: Seq<char>, privileged: bool) -> CommandView {
    CommandView {
        image: spec_base_image(p.base),
        mounts: seq![rootfs_mount(ws)],
        command: seq!["chroot"@, "/rootfs"@, "bash"@, "-c"@, script],
        privileged,
    }
}

/// The support matrix: what `kind` resolves to for profile `p` in
/// workspace `ws`.
pub open spec fn spec_resolve(kind: CommandKind, p: Profile, ws: Workspace) -> Result<CommandView, Unsupported> {
    match kind {
        CommandKind::Toolchain => Ok(shell(
            p,
            seq![MountView { host: ws.spec_scratch(), container: "/build"@, read_only: false }],
            spec_toolchain_script(p),
            false,
        )),
        CommandKind::BaseInstall => Ok(shell(p, seq![rootfs_mount(ws)], spec_bootstrap_script(p), true)),
        CommandKind::PackageInstall => Ok(chroot_shell(
            p,
            ws,
            spec_packages_script(p, " install -y "@, views(p.packages@)),
            false,
        )),
        CommandKind::PackageRemoval => Ok(chroot_shell(
            p,
            ws,
            spec_packages_script(p, " remove -y "@, views(p.packages_to_remove@)),
            false,
        )),
        CommandKind::InitEnable => match p.init_system {
            InitSystem::Systemd => Ok(chroot_shell(p, ws, "systemctl enable systemd-sysv-install"@, false)),
            InitSystem::Openrc => Err(Unsupported::InitSystem),
        },
        CommandKind::BootloaderInstall => match spec_bootloader_script(p) {
            Ok(s) => Ok(chroot_shell(p, ws, s, true)),
            Err(e) => Err(e),
        },
        CommandKind::ImageAssembly => Ok(shell(
            p,
            seq![
                rootfs_mount(ws),
                MountView { host: ws.spec_staged_image(), container: "/output.iso"@, read_only: false },
            ],
            spec_assembly_script(p),
            true,
        )),
    }
}

/// The command that runs script `name` of the scripts directory inside a
/// chroot of the rootfs, with the script mounted read-only.
pub open spec fn spec_script_command(p: Profile, ws: Workspace, name: Seq<char>) -> CommandView {
    CommandView {
        image: spec_base_image(p.base),
        mounts: seq![
            rootfs_mount(ws),
            MountView { host: spec_join_path(ws.scripts_dir@, name), container: "/script.sh"@, read_only: true },
        ],
        command: seq!["chroot"@, "/rootfs"@, "bash"@, "/script.sh"@],
        privileged: false,
    }
}

/// The base container image for a distribution family.
pub fn base_image(b: Base) -> (r: String)
    ensures
        r@ == spec_base_image(b),
{
    match b {
        Base::Fedora => lit("fedora:latest"),
        _ => lit("ubuntu:latest"),
    }
}

/// The package manager of a distribution family.
pub fn package_manager(b: Base) -> (r: String)
    ensures
        r@ == spec_package_manager(b),
{
    match b {
        Base::Fedora => lit("dnf"),
        _ => lit("apt"),
    }
}

pub open spec fn view_result(r: Result<CommandSpec, Unsupported>) -> Result<CommandView, Unsupported> {
    match r {
        Ok(c) => Ok(c@),
        Err(e) => Err(e),
    }
}

fn mount(host: String, container: &str, read_only: bool) -> (r: Mount)
    ensures
        r@ == (MountView { host: host@, container: container@, read_only }),
{
    Mount { host, container: lit(container), read_only }
}

fn rootfs_mount_of(ws: &Workspace) -> (r: Mount)
    ensures
        r@ == rootfs_mount(*ws),
{
    mount(ws.rootfs(), "/rootfs", false)
}

fn shell_command(p: &Profile, mounts: Vec<Mount>, script: String, privileged: bool) -> (r: CommandSpec)
    ensures
        r@ == shell(*p, mounts@.map_values(|m: Mount| m@), script@, privileged),
{
    let mut command: Vec<String> = Vec::new();
    command.push(lit("bash"));
    command.push(lit("-c"));
    command.push(script);
    let r = CommandSpec { image: base_image(p.base), mounts, command, privileged };
    assert(r@.command =~= seq!["bash"@, "-c"@, script@]);
    r
}

fn chroot_command(p: &Profile, ws: &Workspace, script: String, privileged: bool) -> (r: CommandSpec)
    ensures
        r@ == chroot_shell(*p, *ws, script@, privileged),
{
    let mut mounts: Vec<Mount> = Vec::new();
    mounts.push(rootfs_mount_of(ws));
    let mut command: Vec<String> = Vec::new();
    command.push(lit("chroot"));
    command.push(lit("/rootfs"));
    command.push(lit("bash"));
    command.push(lit("-c"));
    command.push(script);
    let r = CommandSpec { image: base_image(p.base), mounts, command, privileged };
    assert(r@.mounts =~= seq![rootfs_mount(*ws)]);
    assert(r@.command =~= seq!["chroot"@, "/rootfs"@, "bash"@, "-c"@, script@]);
    r
}

fn tools(atomic: bool) -> (r: Vec<String>)
    ensures
        views(r@) == spec_tools(atomic),
{
    let mut r: Vec<String> = Vec::new();
    if atomic {
        r.push(lit("ostree"));
        r.push(lit("rpm-ostree"));
        r.push(lit("xorriso"));
        r.push(lit("mksquashfs"));
    } else {
        r.push(lit("debootstrap"));
        r.push(lit("live-build"));
        r.push(lit("xorriso"));
        r.push(lit("lorax"));
        r.push(lit("mksquashfs"));
    }
    assert(views(r@) =~= spec_tools(atomic));
    r
}

fn toolchain_script(p: &Profile) -> (r: String)
    ensures
        r@ == spec_toolchain_script(*p),
{
    let list = join(&tools(p.atomic), " ");
    match p.base {
        Base::Fedora => lit("dnf install -y ").concat(list.as_str()),
        _ => lit("apt update && apt install -y ").concat(list.as_str()),
    }
}

fn bootstrap_script(p: &Profile) -> (r: String)
    ensures
        r@ == spec_bootstrap_script(*p),
{
    match p.base {
        Base::Fedora => if p.atomic {
            lit("rpm-ostree install --repo=/rootfs/ostree-repo base-packages")
        } else {
            lit("dnf install -y --installroot=/rootfs --releasever=latest @core")
        },
        _ => lit("debootstrap --arch=amd64 stable /rootfs http://deb.debian.org/debian/"),
    }
}

fn packages_script(p: &Profile, verb: &str, pkgs: &Vec<String>) -> (r: String)
    ensures
        r@ == spec_packages_script(*p, verb@, views(pkgs@)),
{
    let list = join(pkgs, " ");
    package_manager(p.base).concat(verb).concat(list.as_str())
}

fn bootloader_script(p: &Profile) -> (r: Result<String, Unsupported>)
    ensures
        match r {
            Ok(s) => spec_bootloader_script(*p) == Ok::<Seq<char>, Unsupported>(s@),
            Err(e) => spec_bootloader_script(*p) == Err::<Seq<char>, Unsupported>(e),
        },
{
    if !p.uefi_support && !p.bios_support {
        return Err(Unsupported::NoFirmware);
    }
    match p.bootloader {
        Bootloader::Grub => {
            let efi = lit("grub-install --target=x86_64-efi --efi-directory=/boot/efi --bootloader-id=GRUB");
            let bios = lit("grub-install --target=i386-pc");
            if p.uefi_support && p.bios_support {
                Ok(efi.concat(" && ").concat(bios.as_str()))
            } else if p.uefi_support {
                Ok(efi)
            } else {
                Ok(bios)
            }
        },
        Bootloader::SystemdBoot => Ok(lit("bootctl --path=/boot install")),
    }
}

fn assembly_script(p: &Profile) -> (r: String)
    ensures
        r@ == spec_assembly_script(*p),
{
    let label = lit("-V '").concat(p.distro_name.as_str()).concat("'");
    if p.atomic {
        lit("rpm-ostree compose tree --repo=/rootfs/ostree-repo /rootfs/tree.yaml && mksquashfs /rootfs /filesystem.squashfs -comp xz && xorriso -as mkisofs -o /output.iso ")
            .concat(label.as_str()).concat(" -e /filesystem.squashfs -no-emul-boot /rootfs")
    } else {
        lit("mksquashfs /rootfs /filesystem.squashfs -comp xz && xorriso -as mkisofs -o /output.iso -b isolinux/isolinux.bin -c isolinux/boot.cat -no-emul-boot -boot-load-size 4 -boot-info-table -eltorito-alt-boot -e boot/efi.img -no-emul-boot ")
            .concat(label.as_str()).concat(" /rootfs")
    }
}

/// Resolves one kind of command for a profile, or says which attribute
/// combination has no command. Pure: nothing is run.
pub fn resolve(kind: CommandKind, p: &Profile, ws: &Workspace) -> (r: Result<CommandSpec, Unsupported>)
    ensures
        view_result(r) == spec_resolve(kind, *p, *ws),
{
    match kind {
        CommandKind::Toolchain => {
            let mut mounts: Vec<Mount> = Vec::new();
            mounts.push(mount(ws.scratch(), "/build", false));
            let c = shell_command(p, mounts, toolchain_script(p), false);
            assert(c@.mounts =~= seq![MountView { host: ws.spec_scratch(), container: "/build"@, read_only: false }]);
            Ok(c)
        },
        CommandKind::BaseInstall => {
            let mut mounts: Vec<Mount> = Vec::new();
            mounts.push(rootfs_mount_of(ws));
            let c = shell_command(p, mounts, bootstrap_script(p), true);
            assert(c@.mounts =~= seq![rootfs_mount(*ws)]);
            Ok(c)
        },
        CommandKind::PackageInstall => {
            Ok(chroot_command(p, ws, packages_script(p, " install -y ", &p.packages), false))
        },
        CommandKind::PackageRemoval => {
            Ok(chroot_command(p, ws, packages_script(p, " remove -y ", &p.packages_to_remove), false))
        },
        CommandKind::InitEnable => match p.init_system {
            InitSystem::Systemd => Ok(chroot_command(p, ws, lit("systemctl enable systemd-sysv-install"), false)),
            InitSystem::Openrc => Err(Unsupported::InitSystem),
        },
        CommandKind::BootloaderInstall => match bootloader_script(p) {
            Ok(s) => Ok(chroot_command(p, ws, s, true)),
            Err(e) => Err(e),
        },
        CommandKind::ImageAssembly => {
            let mut mounts: Vec<Mount> = Vec::new();
            mounts.push(rootfs_mount_of(ws));
            mounts.push(mount(ws.staged_image(), "/output.iso", false));
            let c = shell_command(p, mounts, assembly_script(p), true);
            assert(c@.mounts =~= seq![
                rootfs_mount(*ws),
                MountView { host: ws.spec_staged_image(), container: "/output.iso"@, read_only: false },
            ]);
            Ok(c)
        },
    }
}

/// The command that runs script `name` from the scripts directory.
pub fn script_command(p: &Profile, ws: &Workspace, name: &String) -> (r: CommandSpec)
    ensures
        r@ == spec_script_command(*p, *ws, name@),
{
    let mut mounts: Vec<Mount> = Vec::new();
    mounts.push(rootfs_mount_of(ws));
    mounts.push(mount(join_path(ws.scripts_dir.as_str(), name.as_str()), "/script.sh", true));
    let mut command: Vec<String> = Vec::new();
    command.push(lit("chroot"));
    command.push(lit("/rootfs"));
    command.push(lit("bash"));
    command.push(lit("/script.sh"));
    let r = CommandSpec { image: base_image(p.base), mounts, command, privileged: false };
    assert(r@.mounts =~= seq![
        rootfs_mount(*ws),
        MountView { host: spec_join_path(ws.scripts_dir@, name@), container: "/script.sh"@, read_only: true },
    ]);
    assert(r@.command =~= seq!["chroot"@, "/rootfs"@, "bash"@, "/script.sh"@]);
    r
}

/// The volume option of a mount: `host:container:z`, with `,ro` added for
/// a read-only mount.
pub open spec fn spec_volume(m: MountView) -> Seq<char> {
    m.host + ":"@ + m.container + if m.read_only {
        ":z,ro"@
    } else {
        ":z"@
    }
}

pub open spec fn mount_args(ms: Seq<MountView>) -> Seq<Seq<char>>
    decreases ms.len(),
{
    if ms.len() == 0 {
        Seq::empty()
    } else {
        mount_args(ms.drop_last()) + seq!["-v"@, spec_volume(ms.last())]
    }
}

/// The container runtime's command line for an invocation: a throw-away
/// container, elevated when asked, with each mount, the image, then the
/// command.
pub open spec fn spec_runtime_args(c: CommandView) -> Seq<Seq<char>> {
    seq!["run"@, "--rm"@] + (if c.privileged {
        seq!["--privileged"@]
    } else {
        Seq::empty()
    }) + mount_args(c.mounts) + seq![c.image] + c.command
}

/// The volume option of a mount.
pub fn volume(m: &Mount) -> (r: String)
    ensures
        r@ == spec_volume(m@),
{
    let r = m.host.clone().concat(":").concat(m.container.as_str());
    if m.read_only {
        r.concat(":z,ro")
    } else {
        r.concat(":z")
    }
}

/// The container runtime's arguments for an invocation.
pub fn runtime_args(c: &CommandSpec) -> (r: Vec<String>)
    ensures
        views(r@) == spec_runtime_args(c@),
{
    let mut r: Vec<String> = Vec::new();
    r.push(lit("run"));
    r.push(lit("--rm"));
    if c.privileged {
        r.push(lit("--privileged"));
    }
    let ghost head = views(r@);
    assert(head =~= seq!["run"@, "--rm"@] + (if c.privileged {
        seq!["--privileged"@]
    } else {
        Seq::<Seq<char>>::empty()
    }));
    let n = c.mounts.len();
    let mut i: usize = 0;
    assert(c@.mounts.subrange(0, 0) =~= Seq::<MountView>::empty());
    while i < n
        invariant
            n == c.mounts@.len(),
            i <= n,
            views(r@) =~= head + mount_args(c@.mounts.subrange(0, i as int)),
        decreases n - i,
    {
        let ghost before = views(r@);
        r.push(lit("-v"));
        let vol = volume(&c.mounts[i]);
        r.push(vol);
        proof {
            let sub = c@.mounts.subrange(0, i + 1);
            assert(sub.drop_last() =~= c@.mounts.subrange(0, i as int));
            assert(sub.last() == c.mounts@[i as int]@);
            assert(views(r@) =~= before + seq!["-v"@, vol@]);
            assert(mount_args(sub) == mount_args(c@.mounts.subrange(0, i as int)) + seq!["-v"@, vol@]);
            assert(views(r@) =~= head + mount_args(sub));
        }
        i = i + 1;
    }
    assert(c@.mounts.subrange(0, n as int) =~= c@.mounts);
    r.push(c.image.clone());
    let m = c.command.len();
    let ghost mid = views(r@);
    let mut k: usize = 0;
    while k < m
        invariant
            m == c.command@.len(),
            k <= m,
            views(r@) =~= mid + views(c.command@.subrange(0, k as int)),
        decreases m - k,
    {
        let ghost before = views(r@);
        r.push(c.command[k].clone());
        proof {
            assert(views(r@) =~= before.push(c.command@[k as int]@));
            assert(views(c.command@.subrange(0, k + 1)) =~= views(c.command@.subrange(0, k as int)).push(c.command@[k as int]@));
        }
        k = k + 1;
    }
    assert(c.command@.subrange(0, m as int) =~= c.command@);
    r
}

} // verus!
