//! The block-device catalog: the tree that the device listing describes, and
//! which of its nodes are worth probing for a root filesystem.

use vstd::prelude::*;

verus! {

/// One node of the device listing: a whole disk with its partitions as
/// children, or a device without any.
#[derive(Debug)]
pub struct BlockDevice {
    pub name: String,
    pub fstype: Option<String>,
    pub uuid: Option<String>,
    pub children: Option<Vec<BlockDevice>>,
}

/// Whether the optional filesystem type is exactly `t`.
pub open spec fn fstype_is(fstype: Option<String>, t: Seq<char>) -> bool {
    match fstype {
        Some(f) => f@ == t,
        None => false,
    }
}

/// A device is a real candidate unless it has neither a filesystem nor
/// children (memory devices such as zram) or it holds a `squashfs` live image.
pub open spec fn is_device_spec(d: BlockDevice) -> bool {
    !(d.fstype is None && d.children is None) && !fstype_is(d.fstype, "squashfs"@)
}

/// What a retained device puts up for probing: its children when it has
/// them, else itself.
pub open spec fn children_spec(d: BlockDevice) -> Seq<BlockDevice> {
    match d.children {
        Some(c) => c@,
        None => seq![d],
    }
}

/// The probe candidates of a listing, in listing order.
pub open spec fn candidates_spec(devs: Seq<BlockDevice>) -> Seq<BlockDevice>
    decreases devs.len(),
{
    if devs.len() == 0 {
        Seq::empty()
    } else {
        let rest = candidates_spec(devs.drop_first());
        if is_device_spec(devs[0]) {
            children_spec(devs[0]) + rest
        } else {
            rest
        }
    }
}

pub(crate) fn optional_equals(o: &Option<String>, t: &str) -> (r: bool)
    ensures
        r == fstype_is(*o, t@),
{
    match o {
        Some(f) => {
            let target = String::from_str(t);
            *f == target
        },
        None => false,
    }
}

/// Whether a listed device is a candidate at all.
pub fn is_device(blk: &BlockDevice) -> (r: bool)
    ensures
        r == is_device_spec(*blk),
        blk.fstype is None && blk.children is None ==> !r,
        fstype_is(blk.fstype, "squashfs"@) ==> !r,
{
    if blk.fstype.is_none() && blk.children.is_none() {
        false
    } else {
        !optional_equals(&blk.fstype, "squashfs")
    }
}

/// The devices that a retained device contributes for probing.
pub fn get_children(blk: BlockDevice) -> (r: Vec<BlockDevice>)
    ensures
        r@ == children_spec(blk),
{
    match blk.children {
        Some(children) => children,
        None => {
            let mut v: Vec<BlockDevice> = Vec::new();
            v.push(blk);
            proof {
                assert(v@ =~= seq![blk]);
            }
            v
        },
    }
}

proof fn lemma_candidates_split(devs: Seq<BlockDevice>, i: int)
    requires
        0 <= i < devs.len(),
    ensures
        candidates_spec(devs.subrange(i, devs.len() as int)) == (if is_device_spec(devs[i]) {
            children_spec(devs[i])
        } else {
            Seq::<BlockDevice>::empty()
        }) + candidates_spec(devs.subrange(i + 1, devs.len() as int)),
{
    let s = devs.subrange(i, devs.len() as int);
    assert(s.drop_first() =~= devs.subrange(i + 1, devs.len() as int));
    assert(s[0] == devs[i]);
    if !is_device_spec(devs[i]) {
        assert(Seq::<BlockDevice>::empty() + candidates_spec(s.drop_first()) =~= candidates_spec(
            s.drop_first(),
        ));
    }
}

/// The probe candidates of a listing: every retained device's children, or
/// the device itself when it has none, in listing order.
pub fn candidates(devs: Vec<BlockDevice>) -> (r: Vec<BlockDevice>)
    ensures
        r@ == candidates_spec(devs@),
{
    let ghost all = devs@;
    let mut devs = devs;
    let mut out: Vec<BlockDevice> = Vec::new();
    let ghost mut i: int = 0;
    while devs.len() > 0
        invariant
            0 <= i,
            i + devs@.len() == all.len(),
            devs@ == all.subrange(i as int, all.len() as int),
            out@ + candidates_spec(devs@) == candidates_spec(all),
        decreases devs@.len(),
    {
        proof {
            lemma_candidates_split(all, i);
        }
        let d = devs.remove(0);
        proof {
            assert(devs@ =~= all.subrange(i + 1, all.len() as int));
        }
        if is_device(&d) {
            let mut kids = get_children(d);
            out.append(&mut kids);
            proof {
                assert(out@ + candidates_spec(devs@) =~= candidates_spec(all));
            }
        } else {
            proof {
                assert(out@ + candidates_spec(devs@) =~= candidates_spec(all));
            }
        }
        proof {
            i = i + 1;
        }
    }
    proof {
        assert(devs@ =~= Seq::<BlockDevice>::empty());
        assert(out@ =~= candidates_spec(all));
    }
    out
}

/// The candidates of two listings one after the other are those of the
/// first followed by those of the second.
pub proof fn lemma_candidates_concat(a: Seq<BlockDevice>, b: Seq<BlockDevice>)
    ensures
        candidates_spec(a + b) == candidates_spec(a) + candidates_spec(b),
    decreases a.len(),
{
    if a.len() == 0 {
        assert(a + b =~= b);
        assert(Seq::<BlockDevice>::empty() + candidates_spec(b) =~= candidates_spec(b));
    } else {
        assert((a + b).drop_first() =~= a.drop_first() + b);
        assert((a + b)[0] == a[0]);
        lemma_candidates_concat(a.drop_first(), b);
        if is_device_spec(a[0]) {
            assert(children_spec(a[0]) + (candidates_spec(a.drop_first()) + candidates_spec(b))
                =~= (children_spec(a[0]) + candidates_spec(a.drop_first())) + candidates_spec(b));
        }
    }
}

/// A device without filesystem and children, or one holding `squashfs`,
/// contributes nothing: neither it nor any of its children is a candidate,
/// and the listing without it has exactly the same candidates.
pub proof fn lemma_excluded_device_contributes_nothing(devs: Seq<BlockDevice>, i: int)
    requires
        0 <= i < devs.len(),
        (devs[i].fstype is None && devs[i].children is None) || fstype_is(devs[i].fstype, "squashfs"@),
    ensures
        candidates_spec(devs) == candidates_spec(devs.remove(i)),
{
    let pre = devs.subrange(0, i);
    let post = devs.subrange(i + 1, devs.len() as int);
    assert(devs =~= pre + (seq![devs[i]] + post));
    assert(devs.remove(i) =~= pre + post);
    lemma_candidates_concat(pre, seq![devs[i]] + post);
    lemma_candidates_concat(pre, post);
    let one = seq![devs[i]];
    assert((one + post).drop_first() =~= post);
    assert((one + post)[0] == devs[i]);
}

} // verus!
