//! The chroot preparer's decisions: the mount command lines for the root
//! device and the pseudo-filesystems, and which device holds `/boot`.

use vstd::prelude::*;
use crate::text::{capture_group_one, first_capture};

verus! {

/// Captures the device field of the fstab line that mounts `/boot`.
pub const BOOT_PATTERN: &'static str = "(?m)^(\\S+)\\s+/boot\\s";

/// Captures the identifier of a `UUID=` device reference.
pub const UUID_PATTERN: &'static str = "UUID=([a-fA-F0-9-=]+)";

/// Where device nodes are found by filesystem UUID.
pub const BY_UUID_DIR: &'static str = "/dev/disk/by-uuid/";

/// The views of a sequence of strings.
pub open spec fn views(v: Seq<String>) -> Seq<Seq<char>> {
    v.map_values(|s: String| s@)
}

/// The `/boot` device that an fstab text names: a `UUID=` reference becomes
/// its by-uuid node, anything else is taken as a device path; `None` when no
/// line mounts `/boot`.
pub open spec fn boot_device_spec(fstab: Seq<char>) -> Option<Seq<char>> {
    match first_capture(BOOT_PATTERN@, fstab) {
        Some(spec) => match first_capture(UUID_PATTERN@, spec) {
            Some(uuid) => Some(BY_UUID_DIR@ + uuid),
            None => Some(spec),
        },
        None => None,
    }
}

/// Finds the device to mount at `/boot` from the mounted root's fstab.
pub fn boot_device(fstab: &str) -> (r: Option<String>)
    ensures
        match r {
            Some(s) => boot_device_spec(fstab@) == Some(s@),
            None => boot_device_spec(fstab@) is None,
        },
{
    match capture_group_one(BOOT_PATTERN, fstab) {
        Some(spec) => match capture_group_one(UUID_PATTERN, spec.as_str()) {
            Some(uuid) => Some(String::from_str(BY_UUID_DIR).concat(uuid.as_str())),
            None => Some(spec),
        },
        None => None,
    }
}

/// The arguments of `mount` for the root device, with a `subvol=` option
/// when the root lives under a btrfs subvolume.
pub open spec fn root_mount_spec(dev: Seq<char>, mnt_dir: Seq<char>, subvol: Option<Seq<char>>) -> Seq<Seq<char>> {
    match subvol {
        Some(name) => seq![dev, mnt_dir, "-o"@, "subvol="@ + name],
        None => seq![dev, mnt_dir],
    }
}

/// Builds the arguments of `mount` for the root device.
pub fn root_mount_args(dev: &str, mnt_dir: &str, subvol: &Option<String>) -> (r: Vec<String>)
    ensures
        views(r@) == root_mount_spec(dev@, mnt_dir@, match subvol {
            Some(s) => Some(s@),
            None => None,
        }),
{
    let mut v: Vec<String> = Vec::new();
    v.push(String::from_str(dev));
    v.push(String::from_str(mnt_dir));
    match subvol {
        Some(name) => {
            v.push(String::from_str("-o"));
            v.push(String::from_str("subvol=").concat(name.as_str()));
            proof {
                assert(views(v@) =~= seq![dev@, mnt_dir@, "-o"@, "subvol="@ + name@]);
            }
        },
        None => {
            proof {
                assert(views(v@) =~= seq![dev@, mnt_dir@]);
            }
        },
    }
    v
}

/// The host pseudo-filesystems bound into the chroot, in mount order.
pub open spec fn bind_sources() -> Seq<Seq<char>> {
    seq!["/dev"@, "/proc"@, "/run"@, "/sys"@]
}

/// The `mount --bind` argument lists: each host path, bound onto the same
/// path under the mount directory, in the fixed order `/dev`, `/proc`,
/// `/run`, `/sys`.
pub fn bind_mount_args(mnt_dir: &str) -> (r: Vec<Vec<String>>)
    ensures
        r@.len() == 4,
        forall|i: int|
            0 <= i < 4 ==> views(#[trigger] r@[i]@) == seq![
                "--bind"@,
                bind_sources()[i],
                mnt_dir@ + bind_sources()[i],
            ],
{
    let sources: Vec<&str> = vec!["/dev", "/proc", "/run", "/sys"];
    proof {
        assert(sources@.map_values(|s: &str| s@) =~= bind_sources());
    }
    let mut out: Vec<Vec<String>> = Vec::new();
    let mut i: usize = 0;
    while i < sources.len()
        invariant
            i <= sources@.len(),
            sources@.len() == 4,
            sources@.map_values(|s: &str| s@) == bind_sources(),
            out@.len() == i,
            forall|k: int|
                0 <= k < i ==> views(#[trigger] out@[k]@) == seq![
                    "--bind"@,
                    bind_sources()[k],
                    mnt_dir@ + bind_sources()[k],
                ],
        decreases sources@.len() - i,
    {
        let src = sources[i];
        proof {
            assert(src@ == sources@.map_values(|s: &str| s@)[i as int]);
        }
        let mut args: Vec<String> = Vec::new();
        args.push(String::from_str("--bind"));
        args.push(String::from_str(src));
        args.push(String::from_str(mnt_dir).concat(src));
        proof {
            assert(views(args@) =~= seq!["--bind"@, src@, mnt_dir@ + src@]);
        }
        out.push(args);
        i = i + 1;
    }
    out
}

/// The arguments of `mount` for the boot device, onto `boot` under the
/// mount directory.
pub fn boot_mount_args(boot_dev: &str, mnt_dir: &str) -> (r: Vec<String>)
    ensures
        views(r@) == seq![boot_dev@, mnt_dir@ + "/boot"@],
{
    let mut v: Vec<String> = Vec::new();
    v.push(String::from_str(boot_dev));
    v.push(String::from_str(mnt_dir).concat("/boot"));
    proof {
        assert(views(v@) =~= seq![boot_dev@, mnt_dir@ + "/boot"@]);
    }
    v
}

} // verus!
