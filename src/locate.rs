//! The root locator's decisions: whether a probed device holds an installed
//! system (at its top or under a btrfs subvolume), which distribution it is,
//! and the roots that a probe pass yields.

use vstd::prelude::*;
use crate::catalog::{fstype_is, optional_equals, BlockDevice};
use crate::common::Distribution;
use crate::text::{capture_group_one, capture_view, first_capture};

verus! {

/// Captures the value of the `NAME=` field of an os-release file.
pub const DISTRO_NAME_PATTERN: &'static str = "(?m)^NAME=(.*)$";

/// A top-level directory of a probed filesystem, and whether it holds
/// `etc/fstab`.
#[derive(Debug)]
pub struct DirProbe {
    pub name: String,
    pub has_fstab: bool,
}

/// What a probe mount showed: whether `etc/fstab` sits at the top, and the
/// top-level directories in the order the filesystem listed them.
#[derive(Debug)]
pub struct DiskProbe {
    pub top_fstab: bool,
    pub dirs: Vec<DirProbe>,
}

/// An installed system found on a device.
#[derive(Debug)]
pub struct SystemData {
    pub subvol: Option<String>,
    pub hostname: String,
    pub distro: Distribution,
}

/// A probed device and the system found on it, if any.
#[derive(Debug)]
pub struct DiskData {
    pub system: Option<SystemData>,
    pub blk: BlockDevice,
}

/// A discovered root filesystem.
#[derive(Debug)]
pub struct RootData {
    pub main_dev: String,
    pub subvol: Option<String>,
    pub hostname: Option<String>,
    pub distro: Distribution,
}

/// Classification is exact: only the name `Fedora Linux` is Fedora.
pub open spec fn classify(name: Option<Seq<char>>) -> Distribution {
    match name {
        Some(n) => if n == "Fedora Linux"@ {
            Distribution::Fedora
        } else {
            Distribution::Unknown
        },
        None => Distribution::Unknown,
    }
}

/// The distribution that an os-release text names.
pub open spec fn distribution_spec(os_release: Seq<char>) -> Distribution {
    classify(first_capture(DISTRO_NAME_PATTERN@, os_release))
}

/// The name of the first directory that holds `etc/fstab`.
pub open spec fn first_with_fstab(dirs: Seq<DirProbe>) -> Option<String>
    decreases dirs.len(),
{
    if dirs.len() == 0 {
        None
    } else if dirs[0].has_fstab {
        Some(dirs[0].name)
    } else {
        first_with_fstab(dirs.drop_first())
    }
}

/// Where the root lives: `Some(None)` at the top of the filesystem,
/// `Some(Some(name))` under a btrfs subvolume, `None` when there is no root.
pub open spec fn root_location(fstype: Option<String>, probe: DiskProbe) -> Option<Option<String>> {
    if probe.top_fstab {
        Some(None)
    } else if fstype_is(fstype, "btrfs"@) {
        match first_with_fstab(probe.dirs@) {
            Some(name) => Some(Some(name)),
            None => None,
        }
    } else {
        None
    }
}

/// Whether `etc/fstab` showed up anywhere the probe looked.
pub open spec fn fstab_seen(probe: DiskProbe) -> bool {
    probe.top_fstab || exists|j: int| 0 <= j < probe.dirs@.len() && #[trigger] probe.dirs@[j].has_fstab
}

/// The root record of a device on which a system was found.
pub open spec fn root_of(d: DiskData) -> RootData {
    RootData {
        main_dev: d.blk.name,
        subvol: d.system.unwrap().subvol,
        hostname: Some(d.system.unwrap().hostname),
        distro: d.system.unwrap().distro,
    }
}

/// The roots of a probe pass: one per device with a system, in order.
pub open spec fn roots_spec(disks: Seq<DiskData>) -> Seq<RootData>
    decreases disks.len(),
{
    if disks.len() == 0 {
        Seq::empty()
    } else {
        let rest = roots_spec(disks.drop_first());
        if disks[0].system is Some {
            seq![root_of(disks[0])] + rest
        } else {
            rest
        }
    }
}

/// How many devices of a probe pass hold a system.
pub open spec fn systems_count(disks: Seq<DiskData>) -> nat
    decreases disks.len(),
{
    if disks.len() == 0 {
        0
    } else {
        (if disks[0].system is Some {
            1nat
        } else {
            0nat
        }) + systems_count(disks.drop_first())
    }
}

/// Classifies a captured distribution name.
pub fn distribution_from_name(name: Option<String>) -> (r: Distribution)
    ensures
        r == classify(capture_view(name)),
{
    match name {
        Some(n) => {
            let fedora = String::from_str("Fedora Linux");
            if n == fedora {
                Distribution::Fedora
            } else {
                Distribution::Unknown
            }
        },
        None => Distribution::Unknown,
    }
}

/// The distribution named by the `NAME=` field of an os-release text; an
/// unreadable file is passed as the empty text.
pub fn distribution_of(os_release: &str) -> (r: Distribution)
    ensures
        r == distribution_spec(os_release@),
{
    let name = capture_group_one(DISTRO_NAME_PATTERN, os_release);
    distribution_from_name(name)
}

fn first_dir_with_fstab(dirs: &Vec<DirProbe>) -> (r: Option<String>)
    ensures
        r == first_with_fstab(dirs@),
{
    let mut i: usize = 0;
    proof {
        assert(dirs@.subrange(0, dirs@.len() as int) =~= dirs@);
    }
    while i < dirs.len()
        invariant
            i <= dirs@.len(),
            first_with_fstab(dirs@.subrange(i as int, dirs@.len() as int)) == first_with_fstab(dirs@),
        decreases dirs@.len() - i,
    {
        proof {
            let s = dirs@.subrange(i as int, dirs@.len() as int);
            assert(s.drop_first() =~= dirs@.subrange(i + 1, dirs@.len() as int));
        }
        if dirs[i].has_fstab {
            return Some(dirs[i].name.clone());
        }
        i = i + 1;
    }
    None
}

/// Decides where the root of a probed device lives: at the top when
/// `etc/fstab` is there, else, on btrfs only, under the first listed
/// directory that holds one.
pub fn locate_root(fstype: &Option<String>, probe: &DiskProbe) -> (r: Option<Option<String>>)
    ensures
        r == root_location(*fstype, *probe),
        probe.top_fstab ==> r == Some(None::<String>),
        !fstab_seen(*probe) ==> r is None,
{
    proof {
        lemma_first_found(probe.dirs@);
    }
    if probe.top_fstab {
        Some(None)
    } else if optional_equals(fstype, "btrfs") {
        match first_dir_with_fstab(&probe.dirs) {
            Some(name) => Some(Some(name)),
            None => None,
        }
    } else {
        None
    }
}

proof fn lemma_first_found(dirs: Seq<DirProbe>)
    ensures
        first_with_fstab(dirs) is Some ==> exists|j: int| 0 <= j < dirs.len() && #[trigger] dirs[j].has_fstab,
    decreases dirs.len(),
{
    if dirs.len() > 0 && !dirs[0].has_fstab {
        lemma_first_found(dirs.drop_first());
        if first_with_fstab(dirs.drop_first()) is Some {
            let j = choose|j: int| 0 <= j < dirs.drop_first().len() && #[trigger] dirs.drop_first()[j].has_fstab;
            assert(dirs[j + 1].has_fstab);
        }
    }
}

/// The record of a found system: its subvolume, hostname, and the
/// distribution named by its os-release text.
pub fn examine_system(subvol: Option<String>, os_release: &str, hostname: String) -> (r: SystemData)
    ensures
        r.subvol == subvol,
        r.hostname == hostname,
        r.distro == distribution_spec(os_release@),
{
    SystemData { subvol, hostname, distro: distribution_of(os_release) }
}

/// The outcome of probing one device: the files of the system are read at
/// the place `locate_root` gave, and handed in here.
pub fn examine_disk(blk: BlockDevice, probe: &DiskProbe, os_release: &str, hostname: String) -> (r: DiskData)
    ensures
        r.blk == blk,
        root_location(blk.fstype, *probe) is None ==> r.system is None,
        !fstab_seen(*probe) ==> r.system is None,
        match root_location(blk.fstype, *probe) {
            Some(sub) => r.system is Some && r.system.unwrap().subvol == sub
                && r.system.unwrap().hostname == hostname
                && r.system.unwrap().distro == distribution_spec(os_release@),
            None => r.system is None,
        },
{
    let system = match locate_root(&blk.fstype, probe) {
        Some(sub) => Some(examine_system(sub, os_release, hostname)),
        None => None,
    };
    DiskData { system, blk }
}

/// The root record of a device on which a system was found.
pub fn transform_to_data(dsk: DiskData) -> (r: RootData)
    requires
        dsk.system is Some,
    ensures
        r == root_of(dsk),
{
    let DiskData { system, blk } = dsk;
    match system {
        Some(s) => RootData {
            main_dev: blk.name,
            subvol: s.subvol,
            hostname: Some(s.hostname),
            distro: s.distro,
        },
        None => RootData { main_dev: blk.name, subvol: None, hostname: None, distro: Distribution::Unknown },
    }
}

proof fn lemma_roots_split(disks: Seq<DiskData>, i: int)
    requires
        0 <= i < disks.len(),
    ensures
        roots_spec(disks.subrange(i, disks.len() as int)) == (if disks[i].system is Some {
            seq![root_of(disks[i])]
        } else {
            Seq::<RootData>::empty()
        }) + roots_spec(disks.subrange(i + 1, disks.len() as int)),
{
    let s = disks.subrange(i, disks.len() as int);
    assert(s.drop_first() =~= disks.subrange(i + 1, disks.len() as int));
    assert(s[0] == disks[i]);
    if disks[i].system is None {
        assert(Seq::<RootData>::empty() + roots_spec(s.drop_first()) =~= roots_spec(s.drop_first()));
    }
}

/// The roots of a probe pass: the devices without a system are left out and
/// the others become root records, in probe order.
pub fn roots_from_disks(disks: Vec<DiskData>) -> (r: Vec<RootData>)
    ensures
        r@ == roots_spec(disks@),
{
    let ghost all = disks@;
    let mut disks = disks;
    let mut out: Vec<RootData> = Vec::new();
    let ghost mut i: int = 0;
    while disks.len() > 0
        invariant
            0 <= i,
            i + disks@.len() == all.len(),
            disks@ == all.subrange(i, all.len() as int),
            out@ + roots_spec(disks@) == roots_spec(all),
        decreases disks@.len(),
    {
        proof {
            lemma_roots_split(all, i);
        }
        let d = disks.remove(0);
        proof {
            assert(disks@ =~= all.subrange(i + 1, all.len() as int));
        }
        if d.system.is_some() {
            let root = transform_to_data(d);
            out.push(root);
        }
        proof {
            assert(out@ + roots_spec(disks@) =~= roots_spec(all));
            i = i + 1;
        }
    }
    proof {
        assert(out@ =~= roots_spec(all));
    }
    out
}

/// A probe pass yields exactly one root per device that holds a system; so
/// where at most one device showed `etc/fstab`, at most one root comes out.
pub proof fn lemma_roots_count(disks: Seq<DiskData>)
    ensures
        roots_spec(disks).len() == systems_count(disks),
        systems_count(disks) <= 1 ==> roots_spec(disks).len() <= 1,
    decreases disks.len(),
{
    if disks.len() > 0 {
        lemma_roots_count(disks.drop_first());
    }
}

/// Where at most one probe of a pass saw `etc/fstab`, the pass yields at
/// most one root: a device whose probe saw none holds no system, as
/// `examine_disk` ensures.
pub proof fn lemma_one_fstab_at_most_one_root(probes: Seq<DiskProbe>, disks: Seq<DiskData>)
    requires
        probes.len() == disks.len(),
        forall|k: int| 0 <= k < disks.len() && !fstab_seen(#[trigger] probes[k]) ==> disks[k].system is None,
        forall|a: int, b: int|
            0 <= a < probes.len() && 0 <= b < probes.len() && fstab_seen(#[trigger] probes[a])
                && fstab_seen(#[trigger] probes[b]) ==> a == b,
    ensures
        roots_spec(disks).len() <= 1,
{
    lemma_roots_count(disks);
    lemma_count_bound(probes, disks);
}

proof fn lemma_count_bound(probes: Seq<DiskProbe>, disks: Seq<DiskData>)
    requires
        probes.len() == disks.len(),
        forall|k: int| 0 <= k < disks.len() && !fstab_seen(#[trigger] probes[k]) ==> disks[k].system is None,
        forall|a: int, b: int|
            0 <= a < probes.len() && 0 <= b < probes.len() && fstab_seen(#[trigger] probes[a])
                && fstab_seen(#[trigger] probes[b]) ==> a == b,
    ensures
        systems_count(disks) <= 1,
        (forall|k: int| 0 <= k < probes.len() ==> !fstab_seen(#[trigger] probes[k])) ==> systems_count(disks) == 0,
    decreases disks.len(),
{
    if disks.len() > 0 {
        let p2 = probes.drop_first();
        let d2 = disks.drop_first();
        assert forall|k: int| 0 <= k < d2.len() && !fstab_seen(#[trigger] p2[k]) implies d2[k].system is None by {
            assert(p2[k] == probes[k + 1]);
        }
        assert forall|a: int, b: int|
            0 <= a < p2.len() && 0 <= b < p2.len() && fstab_seen(#[trigger] p2[a])
                && fstab_seen(#[trigger] p2[b]) implies a == b by {
            assert(p2[a] == probes[a + 1] && p2[b] == probes[b + 1]);
        }
        lemma_count_bound(p2, d2);
        if fstab_seen(probes[0]) {
            assert forall|k: int| 0 <= k < p2.len() implies !fstab_seen(#[trigger] p2[k]) by {
                assert(p2[k] == probes[k + 1]);
                if fstab_seen(p2[k]) {
                    assert(fstab_seen(probes[0]) && fstab_seen(probes[k + 1]));
                }
            }
        } else {
            if forall|k: int| 0 <= k < probes.len() ==> !fstab_seen(#[trigger] probes[k]) {
                assert forall|k: int| 0 <= k < p2.len() implies !fstab_seen(#[trigger] p2[k]) by {
                    assert(p2[k] == probes[k + 1]);
                }
            }
        }
    }
}

/// The directory that holds the system: the mount point itself, or the
/// subvolume directory under it.
pub fn root_path(mnt_point: &str, subvol: &Option<String>) -> (r: String)
    ensures
        match subvol {
            Some(name) => r@ == mnt_point@ + "/"@ + name@,
            None => r@ == mnt_point@,
        },
{
    match subvol {
        Some(name) => String::from_str(mnt_point).concat("/").concat(name.as_str()),
        None => String::from_str(mnt_point),
    }
}

/// On btrfs, when the top holds no `etc/fstab` and the first directory that
/// holds one is `dirs[j]`, the root lives under the subvolume named after it.
pub proof fn lemma_subvolume_detected(fstype: Option<String>, probe: DiskProbe, j: int)
    requires
        fstype_is(fstype, "btrfs"@),
        !probe.top_fstab,
        0 <= j < probe.dirs@.len(),
        probe.dirs@[j].has_fstab,
        forall|k: int| 0 <= k < j ==> !(#[trigger] probe.dirs@[k]).has_fstab,
    ensures
        root_location(fstype, probe) == Some(Some(probe.dirs@[j].name)),
{
    lemma_first_at(probe.dirs@, j);
}

proof fn lemma_first_at(dirs: Seq<DirProbe>, j: int)
    requires
        0 <= j < dirs.len(),
        dirs[j].has_fstab,
        forall|k: int| 0 <= k < j ==> !(#[trigger] dirs[k]).has_fstab,
    ensures
        first_with_fstab(dirs) == Some(dirs[j].name),
    decreases j,
{
    if j > 0 {
        assert(!dirs[0].has_fstab);
        let rest = dirs.drop_first();
        assert forall|k: int| 0 <= k < j - 1 implies !(#[trigger] rest[k]).has_fstab by {
            assert(rest[k] == dirs[k + 1]);
        }
        lemma_first_at(rest, j - 1);
    }
}

/// Only the exact name `Fedora Linux` classifies as Fedora; any other name,
/// and no name at all, classifies as unknown.
pub proof fn lemma_classification_exact(name: Option<Seq<char>>)
    ensures
        classify(name) == Distribution::Fedora <==> name == Some("Fedora Linux"@),
        classify(name) == Distribution::Unknown <==> name != Some("Fedora Linux"@),
{
}

} // verus!
