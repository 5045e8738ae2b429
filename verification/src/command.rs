use vstd::prelude::*;

verus! {

/// A process invocation: the program to run and its argument list, in order.
#[derive(Clone, Debug)]
pub struct CommandLine {
    pub program: String,
    pub args: Vec<String>,
}

/// Options for mounting a BTRFS filesystem.
#[derive(Clone, Debug)]
pub struct MountOptions {
    /// Path to block device holding the filesystem.
    pub block_device: String,
    /// Folder at which the filesystem should be mounted.
    pub mount_target: String,
}

/// Command line of `btrfs subvolume create <path>`: creates a new, empty
/// subvolume at `path`, assuming the parent directory lies on a BTRFS volume.
pub fn subvolume_create_command(path: &str) -> (c: CommandLine)
    ensures
        c.program@ == "btrfs"@,
        c.args@.len() == 3,
        c.args@[0]@ == "subvolume"@,
        c.args@[1]@ == "create"@,
        c.args@[2]@ == path@,
{
    let mut args: Vec<String> = Vec::new();
    args.push("subvolume".to_owned());
    args.push("create".to_owned());
    args.push(path.to_owned());
    CommandLine { program: "btrfs".to_owned(), args }
}

/// Command line of `btrfs subvolume snapshot [-r] <path> <snapshot>`: takes a
/// snapshot of the subvolume `path` at the new folder `snapshot`, read-only
/// when `readonly` is set.
pub fn subvolume_snapshot_command(path: &str, snapshot: &str, readonly: bool) -> (c: CommandLine)
    ensures
        c.program@ == "btrfs"@,
        c.args@[0]@ == "subvolume"@,
        c.args@[1]@ == "snapshot"@,
        readonly ==> {
            &&& c.args@.len() == 5
            &&& c.args@[2]@ == "-r"@
            &&& c.args@[3]@ == path@
            &&& c.args@[4]@ == snapshot@
        },
        !readonly ==> {
            &&& c.args@.len() == 4
            &&& c.args@[2]@ == path@
            &&& c.args@[3]@ == snapshot@
        },
{
    let mut args: Vec<String> = Vec::new();
    args.push("subvolume".to_owned());
    args.push("snapshot".to_owned());
    if readonly {
        args.push("-r".to_owned());
    }
    args.push(path.to_owned());
    args.push(snapshot.to_owned());
    CommandLine { program: "btrfs".to_owned(), args }
}

/// Command line of `btrfs subvolume delete <path>`.
pub fn subvolume_delete_command(path: &str) -> (c: CommandLine)
    ensures
        c.program@ == "btrfs"@,
        c.args@.len() == 3,
        c.args@[0]@ == "subvolume"@,
        c.args@[1]@ == "delete"@,
        c.args@[2]@ == path@,
{
    let mut args: Vec<String> = Vec::new();
    args.push("subvolume".to_owned());
    args.push("delete".to_owned());
    args.push(path.to_owned());
    CommandLine { program: "btrfs".to_owned(), args }
}

/// Command line of `btrfs subvolume show <path>`.
pub fn subvolume_show_command(path: &str) -> (c: CommandLine)
    ensures
        c.program@ == "btrfs"@,
        c.args@.len() == 3,
        c.args@[0]@ == "subvolume"@,
        c.args@[1]@ == "show"@,
        c.args@[2]@ == path@,
{
    let mut args: Vec<String> = Vec::new();
    args.push("subvolume".to_owned());
    args.push("show".to_owned());
    args.push(path.to_owned());
    CommandLine { program: "btrfs".to_owned(), args }
}

/// Command line of `btrfs send [-p <parent>] <path>`: serializes the
/// subvolume `path`, as a delta against `parent` when one is given.
pub fn send_command(path: &str, parent: Option<&str>) -> (c: CommandLine)
    ensures
        c.program@ == "btrfs"@,
        c.args@[0]@ == "send"@,
        match parent {
            Some(p) => {
                &&& c.args@.len() == 4
                &&& c.args@[1]@ == "-p"@
                &&& c.args@[2]@ == p@
                &&& c.args@[3]@ == path@
            },
            None => {
                &&& c.args@.len() == 2
                &&& c.args@[1]@ == path@
            },
        },
{
    let mut args: Vec<String> = Vec::new();
    args.push("send".to_owned());
    if let Some(p) = parent {
        args.push("-p".to_owned());
        args.push(p.to_owned());
    }
    args.push(path.to_owned());
    CommandLine { program: "btrfs".to_owned(), args }
}

/// Command line of `btrfs receive <path>`: reconstructs a serialized
/// subvolume under `path`.
pub fn receive_command(path: &str) -> (c: CommandLine)
    ensures
        c.program@ == "btrfs"@,
        c.args@.len() == 2,
        c.args@[0]@ == "receive"@,
        c.args@[1]@ == path@,
{
    let mut args: Vec<String> = Vec::new();
    args.push("receive".to_owned());
    args.push(path.to_owned());
    CommandLine { program: "btrfs".to_owned(), args }
}

/// Command line of `mkfs.btrfs <path>`: formats the block device at `path`,
/// overwriting it.
pub fn mkfs_command(path: &str) -> (c: CommandLine)
    ensures
        c.program@ == "mkfs.btrfs"@,
        c.args@.len() == 1,
        c.args@[0]@ == path@,
{
    let mut args: Vec<String> = Vec::new();
    args.push(path.to_owned());
    CommandLine { program: "mkfs.btrfs".to_owned(), args }
}

/// Command line of `umount <path>`.
pub fn umount_command(path: &str) -> (c: CommandLine)
    ensures
        c.program@ == "umount"@,
        c.args@.len() == 1,
        c.args@[0]@ == path@,
{
    let mut args: Vec<String> = Vec::new();
    args.push(path.to_owned());
    CommandLine { program: "umount".to_owned(), args }
}

/// Command line of `mount -t btrfs <block_device> <mount_target>`.
pub fn mount_command(options: &MountOptions) -> (c: CommandLine)
    ensures
        c.program@ == "mount"@,
        c.args@.len() == 4,
        c.args@[0]@ == "-t"@,
        c.args@[1]@ == "btrfs"@,
        c.args@[2]@ == options.block_device@,
        c.args@[3]@ == options.mount_target@,
{
    let mut args: Vec<String> = Vec::new();
    args.push("-t".to_owned());
    args.push("btrfs".to_owned());
    args.push(options.block_device.clone());
    args.push(options.mount_target.clone());
    CommandLine { program: "mount".to_owned(), args }
}

} // verus!
