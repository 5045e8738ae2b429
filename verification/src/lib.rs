//! Typed command lines for BTRFS administration, and a verified parser for
//! the output of `btrfs subvolume show`.
//!
//! The library builds the exact argument vectors for subvolume
//! create/snapshot/delete/show, send/receive, mkfs, mount and umount, and
//! interprets what the external tools hand back: an exit status, and for
//! `subvolume show` a text block from which the generation number is read.
//! Running the processes is left to the caller.

mod command;
mod show;

pub use command::mkfs_command;
pub use command::mount_command;
pub use command::receive_command;
pub use command::send_command;
pub use command::subvolume_create_command;
pub use command::subvolume_delete_command;
pub use command::subvolume_show_command;
pub use command::subvolume_snapshot_command;
pub use command::umount_command;
pub use command::CommandLine;
pub use command::MountOptions;
pub use show::command_outcome;
pub use show::parse_generation;
pub use show::subvolume_show_from_output;
pub use show::BtrfsError;
pub use show::BtrfsSubvolumeShow;
