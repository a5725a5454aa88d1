//! Builds the plan for a bootable Linux disk image from a declarative
//! configuration: validating preconditions, computing the GPT layout,
//! and driving the phased build state machine that orders the
//! destructive device and filesystem operations.
//!
//! The library itself runs no external program: each phase returns the
//! ordered commands to execute, and the caller feeds back what the
//! commands produced (such as the device paths a loop attach returned).

mod builder;
mod command;
mod device;
mod errors;
mod layout;
mod state;

pub use builder::lemma_phase1_command_order;
pub use builder::spec_format_plan;
pub use builder::spec_phase0_plan;
pub use builder::spec_phase1_plan;
pub use builder::spec_phase2_plan;
pub use builder::spec_required_tools;
pub use builder::BuilderConfig;
pub use builder::Distributions;
pub use builder::ImageBuilder;
pub use builder::ImageConfig;
pub use builder::ImageContent;
pub use command::cmd_views;
pub use command::Cmd;
pub use command::CmdView;
pub use device::LoopDev;
pub use errors::BuildError;
pub use errors::ValidationFault;
pub use layout::disk_size;
pub use layout::lemma_disk_layout;
pub use layout::root_sector_count;
pub use layout::spec_disk_size;
pub use layout::spec_root_sectors;
pub use layout::valid_root_size;
pub use layout::ESP_REGION_SECTORS;
pub use layout::ESP_SIZE_BYTES;
pub use layout::GPT_BACKUP_SECTORS;
pub use layout::SECTOR_SIZE_BYTES;
pub use state::ImageBuilderState;
