//! The configuration and the phased build state machine.
//!
//! A build advances through `Phase0`, `Phase1` and `Phase2` in that
//! order. Each phase checks it was invoked from the exact predecessor
//! state and returns the ordered commands that perform its destructive
//! work; the caller executes them and, for the first phase, hands back
//! the device paths the loop attach returned.

use crate::command::cmd_views;
use crate::command::Cmd;
use crate::command::CmdView;
use crate::device::LoopDev;
use crate::errors::BuildError;
use crate::errors::ValidationFault;
use crate::layout::disk_size;
use crate::layout::root_sector_count;
use crate::layout::spec_disk_size;
use crate::layout::spec_root_sectors;
use crate::layout::valid_root_size;
use crate::state::ImageBuilderState;
use vstd::prelude::*;

verus! {

/// The supported target distributions.
#[derive(Debug, Clone, Copy, PartialEq, Eq)]
pub enum Distributions {
    Noble,
    Jammy,
}

impl Distributions {
    /// The name the distribution goes by in the bootstrap tooling.
    pub open spec fn spec_label(self) -> Seq<char> {
        match self {
            Distributions::Noble => "noble"@,
            Distributions::Jammy => "jammy"@,
        }
    }

    /// Returns the distribution's name as the bootstrap tooling
    /// expects it.
    pub fn label(&self) -> (name: String)
        ensures
            name@ == self.spec_label(),
    {
        match self {
            Distributions::Noble => "noble".to_owned(),
            Distributions::Jammy => "jammy".to_owned(),
        }
    }
}

/// Where the build happens: the working directory is the build's sole
/// mutable filesystem root and must not exist before the build starts.
#[derive(Debug, Clone)]
pub struct BuilderConfig {
    pub workdir: String,
}

/// What to build: the image's name (which becomes the backing file
/// name), the target distribution, and the desired root partition size
/// in bytes.
#[derive(Debug, Clone)]
pub struct ImageConfig {
    pub name: String,
    pub distro: Distributions,
    pub size_bytes: u64,
}

/// What goes into the image. Only the existence of the directories is
/// checked here; provisioning consumes the rest.
#[derive(Debug, Clone)]
pub struct ImageContent {
    pub base: String,
    pub apt_packages: Option<Vec<String>>,
    pub local_package_dir: Option<String>,
    pub local_packages: Option<Vec<String>>,
    pub scripts: Option<Vec<String>>,
}

/// A loaded build configuration, and the phase operations on it.
#[derive(Debug, Clone)]
pub struct ImageBuilder {
    pub config: BuilderConfig,
    pub image: ImageConfig,
    pub content: ImageContent,
}

/// Commands of the initial phase: create the working directory and
/// switch into it, so later relative paths resolve under it.
pub open spec fn spec_phase0_plan(workdir: Seq<char>) -> Seq<CmdView> {
    seq![
        CmdView::MakeDir { path: workdir, recursive: true },
        CmdView::ChangeDir { path: workdir },
    ]
}

/// Commands of the first phase up to the loop attach: allocate the
/// backing file, write the partition table, attach the file.
pub open spec fn spec_phase1_plan(image: Seq<char>, root_size: u64) -> Seq<CmdView> {
    seq![
        CmdView::Allocate { image, size_bytes: spec_disk_size(root_size) as u64 },
        CmdView::Partition { image, root_sectors: spec_root_sectors(root_size) as u64 },
        CmdView::Attach { image },
    ]
}

/// Commands that finish the first phase once a device is attached:
/// format the boot partition as FAT, then the root partition as ext4.
pub open spec fn spec_format_plan(device: Seq<char>) -> Seq<CmdView> {
    seq![
        CmdView::FormatBoot { device: device + "p1"@ },
        CmdView::FormatRoot { device: device + "p2"@ },
    ]
}

/// Commands of the second phase: re-anchor the working directory,
/// create and mount the root tree, create and mount `boot/efi`, then
/// bootstrap the base system.
pub open spec fn spec_phase2_plan(
    workdir: Seq<char>,
    device: Seq<char>,
    distro: Distributions,
) -> Seq<CmdView> {
    seq![
        CmdView::ChangeDir { path: workdir },
        CmdView::MakeDir { path: "chroot"@, recursive: false },
        CmdView::Mount { device: device + "p2"@, target: "chroot"@ },
        CmdView::MakeDir { path: "chroot/boot/efi"@, recursive: true },
        CmdView::Mount { device: device + "p1"@, target: "chroot/boot/efi"@ },
        CmdView::Bootstrap {
            distro: distro.spec_label(),
            mirror: "http:://archive.ubuntu.com/ubuntu"@,
        },
    ]
}

/// The external programs every build needs, in the order they are
/// probed.
pub open spec fn spec_required_tools() -> Seq<Seq<char>> {
    seq![
        "sfdisk"@,
        "debootstrap"@,
        "mount"@,
        "dd"@,
        "losetup"@,
        "mkfs.vfat"@,
        "mkfs.ext4"@,
        "chroot"@,
        "apt"@,
    ]
}

impl ImageBuilder {
    /// A configuration the planner's arithmetic is defined for: the
    /// root size admits the reserved sectors and the disk size fits in
    /// a byte count.
    pub open spec fn wf(self) -> bool {
        valid_root_size(self.image.size_bytes)
    }

    /// The first precondition a configuration fails, given what exists
    /// on the filesystem; `None` when it is valid.
    pub open spec fn spec_validation(
        self,
        workdir_exists: bool,
        base_exists: bool,
        local_package_dir_exists: bool,
    ) -> Option<ValidationFault> {
        if workdir_exists {
            Some(ValidationFault::WorkdirExists)
        } else if !base_exists {
            Some(ValidationFault::BaseContentMissing)
        } else if self.content.local_package_dir is Some && !local_package_dir_exists {
            Some(ValidationFault::LocalPackageDirMissing)
        } else {
            None
        }
    }

    /// Checks the configuration's preconditions against what the
    /// caller found on the filesystem: the working directory must not
    /// exist yet, the content base directory must exist, and a
    /// declared local package directory must exist. Runs before any
    /// command is issued. `local_package_dir_exists` is consulted only
    /// when a local package directory is declared.
    pub fn is_valid(
        &self,
        workdir_exists: bool,
        base_exists: bool,
        local_package_dir_exists: bool,
    ) -> (result: Result<(), BuildError>)
        ensures
            result is Ok <==> self.spec_validation(
                workdir_exists,
                base_exists,
                local_package_dir_exists,
            ) is None,
            result matches Err(e) ==> (e matches BuildError::ValidationError(fault)
                && self.spec_validation(workdir_exists, base_exists, local_package_dir_exists)
                == Some(fault)),
    {
        if workdir_exists {
            Err(BuildError::ValidationError(ValidationFault::WorkdirExists))
        } else if !base_exists {
            Err(BuildError::ValidationError(ValidationFault::BaseContentMissing))
        } else if self.content.local_package_dir.is_some() && !local_package_dir_exists {
            Err(BuildError::ValidationError(ValidationFault::LocalPackageDirMissing))
        } else {
            Ok(())
        }
    }

    /// Returns the fixed list of external programs a build requires,
    /// in the order they are probed.
    pub fn required_tools() -> (tools: Vec<String>)
        ensures
            tools@.map_values(|t: String| t@) =~= spec_required_tools(),
    {
        let mut tools: Vec<String> = Vec::new();
        tools.push("sfdisk".to_owned());
        tools.push("debootstrap".to_owned());
        tools.push("mount".to_owned());
        tools.push("dd".to_owned());
        tools.push("losetup".to_owned());
        tools.push("mkfs.vfat".to_owned());
        tools.push("mkfs.ext4".to_owned());
        tools.push("chroot".to_owned());
        tools.push("apt".to_owned());
        tools
    }

    /// Checks that every required tool resolved, given one flag per
    /// tool of `required_tools`, in the same order. Succeeds exactly
    /// when all resolved; otherwise names the first unresolved tool.
    pub fn check_required_tools(resolved: &Vec<bool>) -> (result: Result<(), BuildError>)
        requires
            resolved@.len() == spec_required_tools().len(),
        ensures
            result is Ok <==> (forall|i: int| 0 <= i < resolved@.len() ==> resolved@[i]),
            result matches Err(e) ==> (e matches BuildError::ToolMissingError { tool }
                && exists|i: int|
                    0 <= i < resolved@.len() && !resolved@[i] && tool@ == spec_required_tools()[i]
                        && (forall|j: int| 0 <= j < i ==> resolved@[j])),
    {
        let tools = Self::required_tools();
        let mut i: usize = 0;
        while i < resolved.len()
            invariant
                resolved@.len() == spec_required_tools().len(),
                tools@.map_values(|t: String| t@) =~= spec_required_tools(),
                i <= resolved@.len(),
                forall|j: int| 0 <= j < i ==> resolved@[j],
            decreases resolved@.len() - i,
        {
            if !resolved[i] {
                let tool = tools[i].clone();
                return Err(BuildError::ToolMissingError { tool });
            }
            i = i + 1;
        }
        Ok(())
    }

    /// Starts a fresh build: returns the `Phase0` state and the
    /// commands that create the working directory and switch into it.
    pub fn phase0(&self) -> (r: (ImageBuilderState, Vec<Cmd>))
        ensures
            r.0 is Phase0,
            cmd_views(r.1@) =~= spec_phase0_plan(self.config.workdir@),
    {
        let cmds: Vec<Cmd> = vec![
            Cmd::MakeDir { path: self.config.workdir.clone(), recursive: true },
            Cmd::ChangeDir { path: self.config.workdir.clone() },
        ];
        (ImageBuilderState::Phase0, cmds)
    }

    /// Advances from `Phase0`: returns the commands that allocate the
    /// backing file at the planned disk size, write the partition
    /// table with the planned root sector count, and attach the file
    /// as a loop device. Any other state is rejected with `StateError`
    /// and no command is issued. The attach command's device paths
    /// complete the phase through [`Self::phase1_attached`].
    pub fn phase1(&self, phase: ImageBuilderState) -> (result: Result<Vec<Cmd>, BuildError>)
        requires
            self.wf(),
        ensures
            phase is Phase0 ==> (result matches Ok(cmds) && cmd_views(cmds@)
                =~= spec_phase1_plan(self.image.name@, self.image.size_bytes)),
            !(phase is Phase0) ==> result matches Err(BuildError::StateError),
    {
        match phase {
            ImageBuilderState::Phase0 => {
                let size_bytes = disk_size(self.image.size_bytes);
                let root_sectors = root_sector_count(self.image.size_bytes);
                let cmds: Vec<Cmd> = vec![
                    Cmd::Allocate { image: self.image.name.clone(), size_bytes },
                    Cmd::Partition { image: self.image.name.clone(), root_sectors },
                    Cmd::Attach { image: self.image.name.clone() },
                ];
                Ok(cmds)
            },
            _ => Err(BuildError::StateError),
        }
    }

    /// Completes the first phase with the device paths the attach
    /// command returned. The first path is authoritative; further
    /// paths, if any, are ignored. An empty list is rejected with
    /// `LoopDeviceError` and no formatting is attempted. Otherwise
    /// returns `Phase1` holding the attached device, and the commands
    /// that format its boot partition as FAT and its root partition as
    /// ext4, in that order.
    pub fn phase1_attached(&self, devices: &Vec<String>) -> (result: Result<
        (ImageBuilderState, Vec<Cmd>),
        BuildError,
    >)
        ensures
            devices@.len() == 0 ==> result matches Err(BuildError::LoopDeviceError),
            devices@.len() > 0 ==> (result matches Ok(r) && r.0 matches ImageBuilderState::Phase1(
                dev,
            ) && dev@ == devices@[0]@ && cmd_views(r.1@) =~= spec_format_plan(devices@[0]@)),
    {
        if devices.len() == 0 {
            return Err(BuildError::LoopDeviceError);
        }
        let dev = LoopDev(devices[0].clone());
        let cmds: Vec<Cmd> = vec![
            Cmd::FormatBoot { device: dev.boot_partition() },
            Cmd::FormatRoot { device: dev.root_partition() },
        ];
        Ok((ImageBuilderState::Phase1(dev), cmds))
    }

    /// Advances from `Phase1`: returns `Phase2` with the same device,
    /// and the commands that re-anchor the working directory, create
    /// and mount the root tree onto `chroot`, create and mount
    /// `chroot/boot/efi`, and bootstrap the configured distribution
    /// against the package mirror. Any other state is rejected with
    /// `StateError` and no command is issued.
    pub fn phase2(&self, phase: ImageBuilderState) -> (result: Result<
        (ImageBuilderState, Vec<Cmd>),
        BuildError,
    >)
        ensures
            phase matches ImageBuilderState::Phase1(dev) ==> (result matches Ok(r)
                && r.0 matches ImageBuilderState::Phase2(dev2) && dev2@ == dev@ && cmd_views(r.1@)
                =~= spec_phase2_plan(self.config.workdir@, dev@, self.image.distro)),
            !(phase is Phase1) ==> result matches Err(BuildError::StateError),
    {
        match phase {
            ImageBuilderState::Phase1(dev) => {
                let cmds: Vec<Cmd> = vec![
                    Cmd::ChangeDir { path: self.config.workdir.clone() },
                    Cmd::MakeDir { path: "chroot".to_owned(), recursive: false },
                    Cmd::Mount { device: dev.root_partition(), target: "chroot".to_owned() },
                    Cmd::MakeDir { path: "chroot/boot/efi".to_owned(), recursive: true },
                    Cmd::Mount {
                        device: dev.boot_partition(),
                        target: "chroot/boot/efi".to_owned(),
                    },
                    Cmd::Bootstrap {
                        distro: self.image.distro.label(),
                        mirror: "http:://archive.ubuntu.com/ubuntu".to_owned(),
                    },
                ];
                Ok((ImageBuilderState::Phase2(dev), cmds))
            },
            _ => Err(BuildError::StateError),
        }
    }
}

/// Law: a complete run of the first phase issues, in order, allocate,
/// partition and attach against the configured image name with the
/// planner's computed sizes, then format-boot and format-root against
/// the attached device's two partitions.
pub proof fn lemma_phase1_command_order(image: Seq<char>, root_size: u64, device: Seq<char>)
    requires
        valid_root_size(root_size),
    ensures
        ({
            let full = spec_phase1_plan(image, root_size) + spec_format_plan(device);
            &&& full.len() == 5
            &&& full[0] == (CmdView::Allocate {
                image,
                size_bytes: spec_disk_size(root_size) as u64,
            })
            &&& full[1] == (CmdView::Partition {
                image,
                root_sectors: spec_root_sectors(root_size) as u64,
            })
            &&& full[2] == (CmdView::Attach { image })
            &&& full[3] == (CmdView::FormatBoot { device: device + "p1"@ })
            &&& full[4] == (CmdView::FormatRoot { device: device + "p2"@ })
        }),
{
}

} // verus!
