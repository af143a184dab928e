//! The UEFI entry manager's decisions: which partition is the EFI System
//! Partition, which loader image a distribution boots, whether firmware
//! already lists it, and the command line that adds an entry.

use vstd::prelude::*;
use crate::chroot::views;
use crate::common::{CallError, Distribution, ReinstallError};
use crate::text::{capture_group_one, chars_of, first_capture, occurs, occurs_in};

verus! {

/// Why a repair could not go on.
#[derive(Debug, Clone, Copy, PartialEq, Eq, Structural)]
pub enum Error {
    /// A command that the repair ran failed.
    CallError(CallError),
    /// No firmware loader is known for the installed distribution.
    UnsupportedDistribution,
    /// The partition listing shows no EFI System Partition.
    EfiPartitionNotFound,
    /// The reinstall child reported a failure.
    ReinstallFailed(ReinstallError),
    /// An event arrived that the repair was not waiting for.
    UnexpectedEvent,
}

impl From<CallError> for Error {
    fn from(err: CallError) -> (r: Error)
        ensures
            r == Error::CallError(err),
    {
        Error::CallError(err)
    }
}

impl vstd::std_specs::convert::FromSpecImpl<CallError> for Error {
    open spec fn obeys_from_spec() -> bool {
        true
    }

    open spec fn from_spec(err: CallError) -> Error {
        Error::CallError(err)
    }
}

/// Captures the device path of the partition listed with type `EFI System`.
pub const EFI_PATTERN: &'static str = "(?m)^([\\\\/a-z0-9]+)\\s+(?:[0-9]+)\\s+(?:[0-9]+)\\s+(?:[0-9]+)\\s+(?:[0-9.KMGT]+)\\s+EFI System";

/// The firmware-relative path of Fedora's shim loader.
pub const FEDORA_LOADER: &'static str = "/EFI/fedora/shim.efi";

/// Finds the EFI System Partition's device path in a partition listing.
pub fn esp_device(listing: &str) -> (r: Option<String>)
    ensures
        match r {
            Some(s) => first_capture(EFI_PATTERN@, listing@) == Some(s@),
            None => first_capture(EFI_PATTERN@, listing@) is None,
        },
{
    capture_group_one(EFI_PATTERN, listing)
}

/// The loader image that firmware should boot for a distribution.
pub fn uefi_load_path(distr: &Distribution) -> (r: Result<&'static str, Error>)
    ensures
        *distr == Distribution::Fedora ==> r is Ok && r.unwrap()@ == FEDORA_LOADER@,
        *distr == Distribution::Unknown ==> r == Err::<&'static str, Error>(Error::UnsupportedDistribution),
{
    match distr {
        Distribution::Fedora => Ok(FEDORA_LOADER),
        Distribution::Unknown => Err(Error::UnsupportedDistribution),
    }
}

/// ASCII upper case of one character; every other character is kept.
pub open spec fn upper_char(c: char) -> char {
    if 'a' <= c && c <= 'z' {
        ((c as u32 - 32) as u8) as char
    } else {
        c
    }
}

/// A loader path as firmware lists it: ASCII upper case, with backslash
/// separators turned into forward slashes.
pub open spec fn normalized(path: Seq<char>) -> Seq<char> {
    path.map_values(|c: char| if upper_char(c) == '\\' { '/' } else { upper_char(c) })
}

/// Whether a boot-entry listing already holds the loader path, both taken
/// in normalized form: firmware reports paths in any case and with
/// backslash separators.
pub open spec fn bootloader_listed(efi_path: Seq<char>, listing: Seq<char>) -> bool {
    occurs_in(normalized(efi_path), normalized(listing))
}

fn normalize_char(c: char) -> (r: char)
    ensures
        r == (if upper_char(c) == '\\' { '/' } else { upper_char(c) }),
{
    let u: char = if 'a' <= c && c <= 'z' {
        ((c as u32 - 32) as u8) as char
    } else {
        c
    };
    if u == '\\' {
        '/'
    } else {
        u
    }
}

/// Normalizes a loader path for comparison with a boot-entry listing.
pub fn normalize_loader_path(path: &str) -> (r: Vec<char>)
    ensures
        r@ == normalized(path@),
{
    let cs = chars_of(path);
    let mut out: Vec<char> = Vec::new();
    let mut i: usize = 0;
    while i < cs.len()
        invariant
            i <= cs@.len(),
            cs@ == path@,
            out@ == normalized(path@).subrange(0, i as int),
        decreases cs@.len() - i,
    {
        out.push(normalize_char(cs[i]));
        proof {
            assert(out@ =~= normalized(path@).subrange(0, i + 1));
        }
        i = i + 1;
    }
    proof {
        assert(out@ =~= normalized(path@));
    }
    out
}

/// Whether the boot-entry listing already holds the loader path, compared
/// after normalizing the case and separators of both.
pub fn check_bootloader_present(efi_path: &str, listing: &str) -> (r: bool)
    ensures
        r == bootloader_listed(efi_path@, listing@),
{
    let pat = normalize_loader_path(efi_path);
    let text = normalize_loader_path(listing);
    occurs(&pat, &text)
}

/// Loader paths that differ only in ASCII case or in the kind of separator
/// are found, or not found, in the same listings.
pub proof fn lemma_presence_ignores_case_and_separators(p1: Seq<char>, p2: Seq<char>, listing: Seq<char>)
    requires
        normalized(p1) == normalized(p2),
    ensures
        bootloader_listed(p1, listing) == bootloader_listed(p2, listing),
{
}

/// Listings whose entries differ only in ASCII case or in the kind of
/// separator hold, or do not hold, the same loader paths.
pub proof fn lemma_listing_ignores_case_and_separators(path: Seq<char>, l1: Seq<char>, l2: Seq<char>)
    requires
        normalized(l1) == normalized(l2),
    ensures
        bootloader_listed(path, l1) == bootloader_listed(path, l2),
{
}

/// Normalizing a text normalizes each of its parts.
pub proof fn lemma_normalized_concat(a: Seq<char>, b: Seq<char>)
    ensures
        normalized(a + b) == normalized(a) + normalized(b),
{
    assert(normalized(a + b) =~= normalized(a) + normalized(b));
}

/// A listing counts as holding the loader path whenever one of its entries
/// is the path up to ASCII case and separators; so `/EFI/fedora/shim.efi`
/// is found in a listing that shows `\EFI\FEDORA\SHIM.EFI`.
pub proof fn lemma_listed_entry_is_found(path: Seq<char>, before: Seq<char>, entry: Seq<char>, after: Seq<char>)
    requires
        normalized(entry) == normalized(path),
    ensures
        bootloader_listed(path, before + entry + after),
{
    lemma_normalized_concat(before, entry);
    lemma_normalized_concat(before + entry, after);
    let t = normalized(before + entry + after);
    let n = normalized(path).len();
    assert(t =~= normalized(before) + normalized(path) + normalized(after));
    assert(t.subrange(before.len() as int, before.len() + n as int) =~= normalized(path));
}

/// The disk part and the partition-number part of a device path: all but
/// the last character, and the last character.
pub open spec fn split_spec(dev: Seq<char>) -> (Seq<char>, Seq<char>) {
    (dev.subrange(0, dev.len() - 1), dev.subrange(dev.len() - 1, dev.len() as int))
}

/// Splits a partition's device path into disk and partition number; `None`
/// for the empty path.
pub fn split_device(dev: &str) -> (r: Option<(String, String)>)
    ensures
        dev@.len() == 0 <==> r is None,
        r is Some ==> r.unwrap().0@ == split_spec(dev@).0 && r.unwrap().1@ == split_spec(dev@).1,
{
    let n = dev.unicode_len();
    if n == 0 {
        return None;
    }
    let disk = dev.substring_char(0, n - 1);
    let part = dev.substring_char(n - 1, n);
    Some((String::from_str(disk), String::from_str(part)))
}

/// The `efibootmgr` arguments that create an entry for the loader `path`
/// on the partition `uefi_dev`, labelled `name`.
pub open spec fn entry_args_spec(name: Seq<char>, uefi_dev: Seq<char>, path: Seq<char>) -> Seq<Seq<char>> {
    seq![
        "efibootmgr"@, "-c"@, "-w"@, "-L"@, name, "-d"@, split_spec(uefi_dev).0, "-p"@,
        split_spec(uefi_dev).1, "-l"@, path,
    ]
}

/// Builds the `efibootmgr` arguments that add a boot entry; `None` for an
/// empty device path.
pub fn entry_creation_args(name: &str, uefi_dev: &str, path: &str) -> (r: Option<Vec<String>>)
    ensures
        uefi_dev@.len() == 0 <==> r is None,
        r is Some ==> views(r.unwrap()@) == entry_args_spec(name@, uefi_dev@, path@),
{
    match split_device(uefi_dev) {
        None => None,
        Some((disk, part)) => {
            let mut v: Vec<String> = Vec::new();
            v.push(String::from_str("efibootmgr"));
            v.push(String::from_str("-c"));
            v.push(String::from_str("-w"));
            v.push(String::from_str("-L"));
            v.push(String::from_str(name));
            v.push(String::from_str("-d"));
            v.push(disk);
            v.push(String::from_str("-p"));
            v.push(part);
            v.push(String::from_str("-l"));
            v.push(String::from_str(path));
            proof {
                assert(views(v@) =~= entry_args_spec(name@, uefi_dev@, path@));
            }
            Some(v)
        },
    }
}

} // verus!
