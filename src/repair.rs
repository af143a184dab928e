//! The repair run as a sequence of decisions: each step takes where the run
//! stands and what the last outside action gave back, and says what to do
//! next. The caller performs the actions (mounting, spawning programs) and
//! feeds their results back.

use vstd::prelude::*;
use crate::chroot::views;
use crate::common::{reinstall_args, CallError, Distribution, ReinstallError};
use crate::text::first_capture;
use crate::uefi::{
    bootloader_listed, check_bootloader_present, entry_args_spec, entry_creation_args,
    esp_device, uefi_load_path, Error, EFI_PATTERN, FEDORA_LOADER,
};

verus! {

/// Where a repair run stands.
#[derive(Debug)]
pub enum FixState {
    /// Nothing done yet.
    Start,
    /// Waiting for the chroot to be prepared.
    Preparing,
    /// Waiting for the partition listing.
    LocatingEsp { distro: Distribution },
    /// Waiting for the reinstall child.
    Reinstalling { distro: Distribution, esp: String },
    /// Waiting for the firmware boot-entry listing.
    CheckingEntries { distro: Distribution, esp: String },
    /// Waiting for the new boot entry to be created.
    AddingEntry,
    /// The run is over.
    Finished,
}

/// What the last outside action gave back.
#[derive(Debug)]
pub enum FixEvent {
    /// The run is asked to begin.
    Begin,
    /// The chroot preparation's outcome, with the distribution it declared.
    Prepared(Result<Distribution, Error>),
    /// The output of the partition listing.
    Partitions(Result<String, CallError>),
    /// The reinstall child's outcome.
    Reinstalled(Result<(), ReinstallError>),
    /// The output of the boot-entry listing.
    BootEntries(Result<String, CallError>),
    /// The outcome of creating the boot entry.
    EntryAdded(Result<(), CallError>),
}

/// What the caller is to do next.
#[derive(Debug)]
pub enum FixAction {
    /// Prepare the chroot at the mount directory.
    PrepareChroot,
    /// List the partitions, output in a fixed language.
    ListPartitions,
    /// Run the reinstall child with these arguments.
    RunReinstall(Vec<String>),
    /// List the firmware boot entries, output in a fixed language.
    ListBootEntries,
    /// Run the boot-entry manager with these arguments.
    CreateEntry(Vec<String>),
    /// Stop with this outcome.
    Done(Result<(), Error>),
}

/// The run stops with `e`.
pub open spec fn fails_with(r: (FixState, FixAction), e: Error) -> bool {
    r.0 is Finished && r.1 == FixAction::Done(Err(e))
}

/// One decision of a repair run. In order: prepare the chroot, find the EFI
/// System Partition, refuse a distribution without a loader path, run the
/// reinstall child, and add a boot entry only when firmware does not list
/// the loader yet. Any failure ends the run with its error.
pub fn fix_loader(state: FixState, event: FixEvent, mnt_dir: &str) -> (r: (FixState, FixAction))
    ensures
        match (state, event) {
            (FixState::Start, FixEvent::Begin) => r.0 is Preparing && r.1 is PrepareChroot,
            (FixState::Preparing, FixEvent::Prepared(Ok(d))) => r.0 == FixState::LocatingEsp {
                distro: d,
            } && r.1 is ListPartitions,
            (FixState::Preparing, FixEvent::Prepared(Err(e))) => fails_with(r, e),
            (FixState::LocatingEsp { distro }, FixEvent::Partitions(Ok(text))) => match first_capture(
                EFI_PATTERN@,
                text@,
            ) {
                None => fails_with(r, Error::EfiPartitionNotFound),
                Some(esp) => if distro == Distribution::Unknown {
                    fails_with(r, Error::UnsupportedDistribution)
                } else {
                    r.0 is Reinstalling && r.0->Reinstalling_distro == distro
                        && r.0->Reinstalling_esp@ == esp && r.1 is RunReinstall && views(
                        r.1->RunReinstall_0@,
                    ) == seq![mnt_dir@, distro.name_spec()]
                },
            },
            (FixState::LocatingEsp { .. }, FixEvent::Partitions(Err(e))) => fails_with(
                r,
                Error::CallError(e),
            ),
            (FixState::Reinstalling { distro, esp }, FixEvent::Reinstalled(Ok(()))) => r.0
                == FixState::CheckingEntries { distro, esp } && r.1 is ListBootEntries,
            (FixState::Reinstalling { .. }, FixEvent::Reinstalled(Err(e))) => fails_with(
                r,
                Error::ReinstallFailed(e),
            ),
            (FixState::CheckingEntries { distro, esp }, FixEvent::BootEntries(Ok(text))) => {
                if distro == Distribution::Unknown {
                    fails_with(r, Error::UnsupportedDistribution)
                } else if bootloader_listed(FEDORA_LOADER@, text@) {
                    r.0 is Finished && r.1 == FixAction::Done(Ok(()))
                } else if esp@.len() == 0 {
                    fails_with(r, Error::EfiPartitionNotFound)
                } else {
                    r.0 is AddingEntry && r.1 is CreateEntry && views(r.1->CreateEntry_0@)
                        == entry_args_spec("Fedora"@, esp@, FEDORA_LOADER@)
                }
            },
            (FixState::CheckingEntries { .. }, FixEvent::BootEntries(Err(e))) => fails_with(
                r,
                Error::CallError(e),
            ),
            (FixState::AddingEntry, FixEvent::EntryAdded(Ok(()))) => r.0 is Finished && r.1
                == FixAction::Done(Ok(())),
            (FixState::AddingEntry, FixEvent::EntryAdded(Err(e))) => fails_with(
                r,
                Error::CallError(e),
            ),
            _ => fails_with(r, Error::UnexpectedEvent),
        },
{
    match (state, event) {
        (FixState::Start, FixEvent::Begin) => (FixState::Preparing, FixAction::PrepareChroot),
        (FixState::Preparing, FixEvent::Prepared(Ok(d))) => (
            FixState::LocatingEsp { distro: d },
            FixAction::ListPartitions,
        ),
        (FixState::Preparing, FixEvent::Prepared(Err(e))) => (
            FixState::Finished,
            FixAction::Done(Err(e)),
        ),
        (FixState::LocatingEsp { distro }, FixEvent::Partitions(Ok(text))) => {
            match esp_device(text.as_str()) {
                None => (FixState::Finished, FixAction::Done(Err(Error::EfiPartitionNotFound))),
                Some(esp) => match uefi_load_path(&distro) {
                    Err(e) => (FixState::Finished, FixAction::Done(Err(e))),
                    Ok(_) => {
                        let args = reinstall_args(mnt_dir, &distro);
                        (FixState::Reinstalling { distro, esp }, FixAction::RunReinstall(args))
                    },
                },
            }
        },
        (FixState::LocatingEsp { .. }, FixEvent::Partitions(Err(e))) => (
            FixState::Finished,
            FixAction::Done(Err(Error::from(e))),
        ),
        (FixState::Reinstalling { distro, esp }, FixEvent::Reinstalled(Ok(()))) => (
            FixState::CheckingEntries { distro, esp },
            FixAction::ListBootEntries,
        ),
        (FixState::Reinstalling { .. }, FixEvent::Reinstalled(Err(e))) => (
            FixState::Finished,
            FixAction::Done(Err(Error::ReinstallFailed(e))),
        ),
        (FixState::CheckingEntries { distro, esp }, FixEvent::BootEntries(Ok(text))) => {
            match uefi_load_path(&distro) {
                Err(e) => (FixState::Finished, FixAction::Done(Err(e))),
                Ok(loader) => {
                    if check_bootloader_present(loader, text.as_str()) {
                        (FixState::Finished, FixAction::Done(Ok(())))
                    } else {
                        match entry_creation_args(distro.loader_name(), esp.as_str(), loader) {
                            None => (
                                FixState::Finished,
                                FixAction::Done(Err(Error::EfiPartitionNotFound)),
                            ),
                            Some(args) => (FixState::AddingEntry, FixAction::CreateEntry(args)),
                        }
                    }
                },
            }
        },
        (FixState::CheckingEntries { .. }, FixEvent::BootEntries(Err(e))) => (
            FixState::Finished,
            FixAction::Done(Err(Error::from(e))),
        ),
        (FixState::AddingEntry, FixEvent::EntryAdded(Ok(()))) => (
            FixState::Finished,
            FixAction::Done(Ok(())),
        ),
        (FixState::AddingEntry, FixEvent::EntryAdded(Err(e))) => (
            FixState::Finished,
            FixAction::Done(Err(Error::from(e))),
        ),
        _ => (FixState::Finished, FixAction::Done(Err(Error::UnexpectedEvent))),
    }
}

} // verus!
