//! The commands a phase asks its caller to execute.
//!
//! The phases never run an external program themselves: they return an
//! ordered list of `Cmd` values, and the caller executes each in turn
//! against the host. This is the single seam through which every device
//! and filesystem mutation occurs, so a substitute executor can record
//! the commands instead of running them.

use vstd::prelude::*;

verus! {

/// One operation against the host, to be executed by the caller in the
/// order given.
#[derive(Debug, Clone, PartialEq)]
pub enum Cmd {
    /// Allocate a sparse backing file of `size_bytes` bytes named
    /// `image` (a seek past the end, not a full write).
    Allocate { image: String, size_bytes: u64 },
    /// Write a GPT partition table to the file `image`: one 512 MiB
    /// EFI System Partition starting at sector 2048, one Linux
    /// partition of `root_sectors` sectors filling the rest.
    Partition { image: String, root_sectors: u64 },
    /// Attach the file `image` as a loop device with partition
    /// scanning, returning the device path(s).
    Attach { image: String },
    /// Create a FAT filesystem on `device` (the boot/ESP partition).
    FormatBoot { device: String },
    /// Create an ext4 filesystem on `device` (the root partition).
    FormatRoot { device: String },
    /// Create the directory `path`, with parents when `recursive`.
    MakeDir { path: String, recursive: bool },
    /// Switch the process's current working directory to `path`.
    ChangeDir { path: String },
    /// Mount `device` onto the directory `target`.
    Mount { device: String, target: String },
    /// Bootstrap a minimal base system for the distribution named
    /// `distro` into the mounted tree, against the package mirror.
    Bootstrap { distro: String, mirror: String },
}

/// The mathematical model of a `Cmd`: the same shape over sequences of
/// characters, which the contracts and laws are stated over.
#[verifier::ext_equal]
pub enum CmdView {
    Allocate { image: Seq<char>, size_bytes: u64 },
    Partition { image: Seq<char>, root_sectors: u64 },
    Attach { image: Seq<char> },
    FormatBoot { device: Seq<char> },
    FormatRoot { device: Seq<char> },
    MakeDir { path: Seq<char>, recursive: bool },
    ChangeDir { path: Seq<char> },
    Mount { device: Seq<char>, target: Seq<char> },
    Bootstrap { distro: Seq<char>, mirror: Seq<char> },
}

impl View for Cmd {
    type V = CmdView;

    open spec fn view(&self) -> CmdView {
        match self {
            Cmd::Allocate { image, size_bytes } => CmdView::Allocate {
                image: image@,
                size_bytes: *size_bytes,
            },
            Cmd::Partition { image, root_sectors } => CmdView::Partition {
                image: image@,
                root_sectors: *root_sectors,
            },
            Cmd::Attach { image } => CmdView::Attach { image: image@ },
            Cmd::FormatBoot { device } => CmdView::FormatBoot { device: device@ },
            Cmd::FormatRoot { device } => CmdView::FormatRoot { device: device@ },
            Cmd::MakeDir { path, recursive } => CmdView::MakeDir {
                path: path@,
                recursive: *recursive,
            },
            Cmd::ChangeDir { path } => CmdView::ChangeDir { path: path@ },
            Cmd::Mount { device, target } => CmdView::Mount {
                device: device@,
                target: target@,
            },
            Cmd::Bootstrap { distro, mirror } => CmdView::Bootstrap {
                distro: distro@,
                mirror: mirror@,
            },
        }
    }
}

/// The models of a list of commands, in order.
pub open spec fn cmd_views(cmds: Seq<Cmd>) -> Seq<CmdView> {
    cmds.map_values(|c: Cmd| c@)
}

} // verus!
